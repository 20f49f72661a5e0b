//! Dynamic module compositor core.
//!
//! A *module* is an independently rendered mini-scene, drawn off-screen into
//! its own render target and composited as a draggable, resizable panel inside
//! one host window. This crate holds the verified core that coordinates that:
//! render-layer assignment, render-target bookkeeping, the event-driven spawn
//! protocol that fans out to registered content builders, and the
//! resize-synchronization loop between UI-driven panel geometry and the
//! backing textures.
//!
//! The crate does not touch the GPU or draw UI itself: the host application
//! owns the rasterizer and the immediate-mode UI, performs the actions this
//! core decides on, and feeds realized panel geometry back in each frame.

pub mod events;
pub mod layer;
pub mod target;
pub mod registry;
pub mod window;
pub mod spawn;
pub mod resize;
pub mod panel;
pub mod compositor;
