//! Render-target bookkeeping.
//!
//! A render target is an off-screen, pixel-addressable texture that one
//! module's camera draws into and that the compositing pass later samples.
//! The store owns every target and hands out generational handles, so that a
//! handle to a freed target can never silently alias a later one: access
//! through such a handle fails with `StaleHandle`.

use vstd::prelude::*;
use crate::events::TargetError;

verus! {

/// The pixel layout of a render target's texture.
#[derive(Clone, Copy, PartialEq, Eq, Structural, Debug)]
pub enum PixelFormat {
    Bgra8UnormSrgb,
}

/// What a render target's texture may be used for. A target must be both a
/// render destination and a sampled texture to be composited.
#[derive(Clone, Copy, PartialEq, Eq, Structural, Debug)]
pub struct UsageFlags {
    pub texture_binding: bool,
    pub copy_dst: bool,
    pub render_attachment: bool,
}

/// An 8-bit RGBA color; the initial fill of a freshly created target.
#[derive(Clone, Copy, PartialEq, Eq, Structural, Debug)]
pub struct Color8 {
    pub r: u8,
    pub g: u8,
    pub b: u8,
    pub a: u8,
}

/// The attributes of one off-screen texture. Dimensions are whole pixels and
/// always positive; `fill` is the color the texture was initially cleared to.
#[derive(Clone, Copy, PartialEq, Eq, Structural, Debug)]
pub struct RenderTarget {
    pub width: u32,
    pub height: u32,
    pub format: PixelFormat,
    pub usage: UsageFlags,
    pub fill: Color8,
}

/// A generational index into the store. Only the store constructs handles; a
/// freed slot is reused only under a fresh generation, so old handles stay
/// stale forever.
#[derive(Clone, Copy, PartialEq, Eq, Structural, Debug)]
pub struct TargetHandle {
    index: usize,
    generation: u64,
}

struct TargetSlot {
    generation: u64,
    content: Option<RenderTarget>,
}

/// Owns every off-screen texture: creates, resizes, and frees them.
pub struct RenderTargetStore {
    slots: Vec<TargetSlot>,
}

impl RenderTargetStore {
    /// Does `h` refer to a target that is currently live in this store?
    pub closed spec fn valid(self, h: TargetHandle) -> bool {
        &&& h.index < self.slots.len()
        &&& self.slots[h.index as int].generation == h.generation
        &&& self.slots[h.index as int].content is Some
    }

    /// The attributes of the target `h` refers to (meaningful only when
    /// `valid(h)` holds).
    pub closed spec fn target(self, h: TargetHandle) -> RenderTarget {
        self.slots[h.index as int].content->Some_0
    }

    /// An empty store: no handle is valid.
    pub fn new() -> (r: RenderTargetStore)
        ensures
            forall|h: TargetHandle| !r.valid(h),
    {
        RenderTargetStore { slots: Vec::new() }
    }

    /// Allocates an off-screen surface of `width` by `height` pixels, usable
    /// as both a render destination and a sampled texture, initially cleared
    /// to `fill`. Every other handle keeps its meaning; the returned handle
    /// was stale before the call and is live after it.
    pub fn create(&mut self, width: u32, height: u32, format: PixelFormat, fill: Color8)
        -> (h: TargetHandle)
        requires
            width > 0,
            height > 0,
        ensures
            !old(self).valid(h),
            final(self).valid(h),
            final(self).target(h) == (RenderTarget {
                width,
                height,
                format,
                usage: UsageFlags { texture_binding: true, copy_dst: true, render_attachment: true },
                fill,
            }),
            forall|h2: TargetHandle| old(self).valid(h2)
                ==> final(self).valid(h2) && final(self).target(h2) == old(self).target(h2),
            forall|h2: TargetHandle| h2 != h && !old(self).valid(h2) ==> !final(self).valid(h2),
    {
        let fresh = RenderTarget {
            width,
            height,
            format,
            usage: UsageFlags { texture_binding: true, copy_dst: true, render_attachment: true },
            fill,
        };
        let mut i: usize = 0;
        while i < self.slots.len()
            invariant
                *self == *old(self),
                i <= self.slots.len(),
                fresh == (RenderTarget {
                    width,
                    height,
                    format,
                    usage: UsageFlags { texture_binding: true, copy_dst: true, render_attachment: true },
                    fill,
                }),
                forall|j: int| 0 <= j < i
                    ==> self.slots[j].content is Some || self.slots[j].generation == u64::MAX,
            decreases self.slots.len() - i,
        {
            if self.slots[i].content.is_none() && self.slots[i].generation < u64::MAX {
                let generation: u64 = self.slots[i].generation + 1;
                self.slots.set(i, TargetSlot { generation, content: Some(fresh) });
                return TargetHandle { index: i, generation };
            }
            i = i + 1;
        }
        let index: usize = self.slots.len();
        self.slots.push(TargetSlot { generation: 0, content: Some(fresh) });
        TargetHandle { index, generation: 0 }
    }

    /// Resizes the target behind `h` in place. Idempotent: when the requested
    /// dimensions equal the current ones the call is a no-op and no GPU
    /// reallocation happens — `Ok(true)` means the texture really was
    /// reallocated, `Ok(false)` that nothing was done. A stale handle fails
    /// with `StaleHandle` and changes nothing.
    pub fn resize(&mut self, h: TargetHandle, width: u32, height: u32)
        -> (r: Result<bool, TargetError>)
        requires
            width > 0,
            height > 0,
        ensures
            old(self).valid(h) && old(self).target(h).width == width
                && old(self).target(h).height == height
                ==> r == Ok::<bool, TargetError>(false) && *final(self) == *old(self),
            old(self).valid(h) && !(old(self).target(h).width == width
                && old(self).target(h).height == height) ==> {
                &&& r == Ok::<bool, TargetError>(true)
                &&& final(self).valid(h)
                &&& final(self).target(h) == (RenderTarget {
                    width,
                    height,
                    format: old(self).target(h).format,
                    usage: old(self).target(h).usage,
                    fill: old(self).target(h).fill,
                })
                &&& forall|h2: TargetHandle| final(self).valid(h2) == old(self).valid(h2)
                &&& forall|h2: TargetHandle| h2 != h && old(self).valid(h2)
                    ==> final(self).target(h2) == old(self).target(h2)
            },
            !old(self).valid(h)
                ==> r == Err::<bool, TargetError>(TargetError::StaleHandle)
                    && *final(self) == *old(self),
    {
        if h.index < self.slots.len() && self.slots[h.index].generation == h.generation {
            match self.slots[h.index].content {
                Some(current) => {
                    if current.width == width && current.height == height {
                        Ok(false)
                    } else {
                        let resized = RenderTarget {
                            width,
                            height,
                            format: current.format,
                            usage: current.usage,
                            fill: current.fill,
                        };
                        self.slots.set(
                            h.index,
                            TargetSlot { generation: h.generation, content: Some(resized) },
                        );
                        Ok(true)
                    }
                },
                None => Err(TargetError::StaleHandle),
            }
        } else {
            Err(TargetError::StaleHandle)
        }
    }

    /// Releases the target behind `h`. Afterwards `h` is stale; every other
    /// handle keeps its meaning. Freeing through a stale handle fails with
    /// `StaleHandle` and changes nothing.
    pub fn free(&mut self, h: TargetHandle) -> (r: Result<(), TargetError>)
        ensures
            old(self).valid(h) ==> {
                &&& r == Ok::<(), TargetError>(())
                &&& !final(self).valid(h)
                &&& forall|h2: TargetHandle| h2 != h
                    ==> final(self).valid(h2) == old(self).valid(h2)
                &&& forall|h2: TargetHandle| h2 != h && old(self).valid(h2)
                    ==> final(self).target(h2) == old(self).target(h2)
            },
            !old(self).valid(h)
                ==> r == Err::<(), TargetError>(TargetError::StaleHandle)
                    && *final(self) == *old(self),
    {
        if h.index < self.slots.len() && self.slots[h.index].generation == h.generation
            && self.slots[h.index].content.is_some() {
            self.slots.set(h.index, TargetSlot { generation: h.generation, content: None });
            Ok(())
        } else {
            Err(TargetError::StaleHandle)
        }
    }

    /// Reads the attributes of the target behind `h`; a stale handle fails
    /// with `StaleHandle`.
    pub fn get(&self, h: TargetHandle) -> (r: Result<RenderTarget, TargetError>)
        ensures
            self.valid(h) ==> r == Ok::<RenderTarget, TargetError>(self.target(h)),
            !self.valid(h) ==> r == Err::<RenderTarget, TargetError>(TargetError::StaleHandle),
    {
        if h.index < self.slots.len() && self.slots[h.index].generation == h.generation {
            match self.slots[h.index].content {
                Some(current) => Ok(current),
                None => Err(TargetError::StaleHandle),
            }
        } else {
            Err(TargetError::StaleHandle)
        }
    }
}

} // verus!
