use module_compositor::compositor::Compositor;
use module_compositor::events::{ModuleClass, ResizeRequest, SpawnRequest, TargetError};
use module_compositor::panel::PanelFloor;
use module_compositor::resize::ResizeOutcome;
use module_compositor::spawn::SpawnConfig;
use module_compositor::target::{Color8, PixelFormat, RenderTargetStore};

fn test_config() -> SpawnConfig {
    SpawnConfig {
        default_width: 700,
        default_height: 512,
        format: PixelFormat::Bgra8UnormSrgb,
        fill: Color8 { r: 0, g: 0, b: 0, a: 255 },
    }
}

fn fresh_compositor() -> Compositor {
    Compositor::new(test_config(), PanelFloor { min_width: 20, min_height: 20 }, 255)
}

fn black() -> Color8 {
    Color8 { r: 0, g: 0, b: 0, a: 255 }
}

#[test]
fn created_target_has_requested_size_and_render_usage() {
    let mut store = RenderTargetStore::new();
    let h = store.create(700, 512, PixelFormat::Bgra8UnormSrgb, black());
    let t = store.get(h).unwrap();
    assert_eq!((t.width, t.height), (700, 512));
    assert!(t.usage.render_attachment);
    assert!(t.usage.texture_binding);
    assert!(t.usage.copy_dst);
    assert_eq!(t.fill, black());
}

#[test]
fn second_resize_with_identical_size_is_a_no_op() {
    let mut store = RenderTargetStore::new();
    let h = store.create(700, 512, PixelFormat::Bgra8UnormSrgb, black());
    // First call reallocates the texture...
    assert_eq!(store.resize(h, 800, 600), Ok(true));
    // ...the second call with the same dimensions observably does nothing.
    assert_eq!(store.resize(h, 800, 600), Ok(false));
    let t = store.get(h).unwrap();
    assert_eq!((t.width, t.height), (800, 600));
}

#[test]
fn resize_to_the_current_size_never_touches_the_gpu() {
    let mut store = RenderTargetStore::new();
    let h = store.create(700, 512, PixelFormat::Bgra8UnormSrgb, black());
    assert_eq!(store.resize(h, 700, 512), Ok(false));
}

#[test]
fn freed_handles_go_stale() {
    let mut store = RenderTargetStore::new();
    let h = store.create(64, 64, PixelFormat::Bgra8UnormSrgb, black());
    assert_eq!(store.free(h), Ok(()));
    assert_eq!(store.get(h), Err(TargetError::StaleHandle));
    assert_eq!(store.resize(h, 32, 32), Err(TargetError::StaleHandle));
    assert_eq!(store.free(h), Err(TargetError::StaleHandle));
}

#[test]
fn a_reused_slot_does_not_revive_old_handles() {
    let mut store = RenderTargetStore::new();
    let first = store.create(64, 64, PixelFormat::Bgra8UnormSrgb, black());
    assert_eq!(store.free(first), Ok(()));
    let second = store.create(128, 128, PixelFormat::Bgra8UnormSrgb, black());
    assert_eq!(store.get(first), Err(TargetError::StaleHandle));
    let t = store.get(second).unwrap();
    assert_eq!((t.width, t.height), (128, 128));
}

#[test]
fn resize_for_a_despawned_module_is_dropped_silently() {
    let mut c = fresh_compositor();
    let t = c.spawn(SpawnRequest { class: ModuleClass::Pong }).unwrap();
    let gone = c.despawn(t.module_id);
    assert!(gone.is_some());
    let outcome = c.apply_resize(ResizeRequest { module_id: t.module_id, width: 800, height: 600 });
    assert!(matches!(outcome, ResizeOutcome::Dropped));
    assert_eq!(c.module_count(), 0);
}

#[test]
fn resize_to_the_current_size_is_unchanged() {
    let mut c = fresh_compositor();
    let t = c.spawn(SpawnRequest { class: ModuleClass::Pong }).unwrap();
    let outcome = c.apply_resize(ResizeRequest { module_id: t.module_id, width: 700, height: 512 });
    assert!(matches!(outcome, ResizeOutcome::Unchanged));
    let w = c.window_at(0);
    assert_eq!((w.width, w.height), (700, 512));
}

#[test]
fn successful_resize_updates_size_and_notifies_every_dependent_once() {
    let mut c = fresh_compositor();
    let t = c.spawn(SpawnRequest { class: ModuleClass::Noise }).unwrap();
    assert!(c.attach_content(t.module_id, 10));
    assert!(c.attach_content(t.module_id, 11));
    let outcome = c.apply_resize(ResizeRequest { module_id: t.module_id, width: 800, height: 600 });
    match outcome {
        ResizeOutcome::Applied(notices) => {
            assert_eq!(notices.len(), 2);
            assert_eq!(notices[0].content_id, 10);
            assert_eq!(notices[1].content_id, 11);
            for n in &notices {
                assert_eq!(n.module_id, t.module_id);
                assert_eq!((n.width, n.height), (800, 600));
            }
        },
        _ => panic!("expected an applied resize"),
    }
    let w = c.window_at(0);
    assert_eq!((w.width, w.height), (800, 600));
}

#[test]
fn resize_of_one_module_leaves_the_others_alone() {
    let mut c = fresh_compositor();
    let a = c.spawn(SpawnRequest { class: ModuleClass::Pong }).unwrap();
    let b = c.spawn(SpawnRequest { class: ModuleClass::Noise }).unwrap();
    let outcome = c.apply_resize(ResizeRequest { module_id: a.module_id, width: 300, height: 200 });
    assert!(matches!(outcome, ResizeOutcome::Applied(_)));
    assert_eq!((c.window_at(0).width, c.window_at(0).height), (300, 200));
    assert_eq!((c.window_at(1).width, c.window_at(1).height), (700, 512));
    assert_eq!(c.window_at(1).id, b.module_id);
}
