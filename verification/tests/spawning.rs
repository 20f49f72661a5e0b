use module_compositor::compositor::Compositor;
use module_compositor::events::{ModuleClass, SpawnError, SpawnRequest, SpawnStatus};
use module_compositor::panel::PanelFloor;
use module_compositor::registry::{any_call_for_class, ModuleRegistry};
use module_compositor::spawn::{finish_spawn, SpawnConfig};
use module_compositor::target::{Color8, PixelFormat};

fn test_config() -> SpawnConfig {
    SpawnConfig {
        default_width: 700,
        default_height: 512,
        format: PixelFormat::Bgra8UnormSrgb,
        fill: Color8 { r: 0, g: 0, b: 0, a: 255 },
    }
}

fn test_floor() -> PanelFloor {
    PanelFloor { min_width: 20, min_height: 20 }
}

fn fresh_compositor() -> Compositor {
    Compositor::new(test_config(), test_floor(), 255)
}

#[test]
fn batch_of_spawns_yields_one_window_each_with_increasing_layers() {
    let mut c = fresh_compositor();
    let reqs = vec![
        SpawnRequest { class: ModuleClass::Pong },
        SpawnRequest { class: ModuleClass::Noise },
        SpawnRequest { class: ModuleClass::Pong },
    ];
    let tickets = c.spawn_batch(&reqs);
    assert_eq!(tickets.len(), 3);
    for t in &tickets {
        assert!(t.is_ok());
    }
    assert_eq!(c.module_count(), 3);
    let mut last_layer: u32 = 0;
    for i in 0..3 {
        let w = c.window_at(i);
        assert!(w.layer > 0);
        assert!(w.layer > last_layer);
        last_layer = w.layer;
    }
    assert_eq!(c.window_at(0).class, ModuleClass::Pong);
    assert_eq!(c.window_at(1).class, ModuleClass::Noise);
    assert_eq!(c.window_at(2).class, ModuleClass::Pong);
}

#[test]
fn spawned_window_carries_defaults_and_fresh_ids() {
    let mut c = fresh_compositor();
    let t = c.spawn(SpawnRequest { class: ModuleClass::Noise }).unwrap();
    assert_eq!(t.module_id, 1);
    assert_eq!(t.layer, 1);
    assert!(matches!(t.status, SpawnStatus::Dispatching));
    assert_eq!(c.module_count(), 1);
    let w = c.window_at(0);
    assert_eq!(w.id, 1);
    assert_eq!(w.class, ModuleClass::Noise);
    assert_eq!(w.layer, 1);
    assert_eq!((w.width, w.height), (700, 512));
    assert_eq!((w.pos_x, w.pos_y), (0, 0));
    assert!(w.dependents.is_empty());
}

#[test]
fn layers_are_never_reused_after_despawn() {
    let mut c = fresh_compositor();
    let pong = c.spawn(SpawnRequest { class: ModuleClass::Pong }).unwrap();
    let noise = c.spawn(SpawnRequest { class: ModuleClass::Noise }).unwrap();
    assert_eq!(pong.layer, 1);
    assert_eq!(noise.layer, 2);
    assert_eq!(c.module_count(), 2);

    let removed = c.despawn(pong.module_id);
    assert!(removed.is_some());
    assert_eq!(c.module_count(), 1);

    let third = c.spawn(SpawnRequest { class: ModuleClass::Pong }).unwrap();
    assert_eq!(third.layer, 3);
    assert_ne!(third.layer, 1);
}

#[test]
fn despawn_of_absent_module_changes_nothing() {
    let mut c = fresh_compositor();
    let t = c.spawn(SpawnRequest { class: ModuleClass::Pong }).unwrap();
    assert!(c.despawn(t.module_id + 42).is_none());
    assert_eq!(c.module_count(), 1);
}

#[test]
fn despawn_cascades_to_dependents() {
    let mut c = fresh_compositor();
    let t = c.spawn(SpawnRequest { class: ModuleClass::Noise }).unwrap();
    assert!(c.attach_content(t.module_id, 100));
    assert!(c.attach_content(t.module_id, 101));
    let deps = c.despawn(t.module_id).unwrap();
    assert_eq!(deps, vec![100, 101]);
    assert_eq!(c.module_count(), 0);
}

#[test]
fn layer_exhaustion_fails_the_spawn_and_leaves_no_partial_module() {
    let mut c = Compositor::new(test_config(), test_floor(), 1);
    let first = c.spawn(SpawnRequest { class: ModuleClass::Pong });
    assert!(first.is_ok());
    let second = c.spawn(SpawnRequest { class: ModuleClass::Noise });
    assert!(matches!(second, Err(SpawnError::LayersExhausted)));
    assert_eq!(c.module_count(), 1);
}

#[test]
fn dispatch_fans_out_in_registration_order() {
    let mut r = ModuleRegistry::new();
    r.register(ModuleClass::Noise, 1);
    r.register(ModuleClass::Pong, 2);
    r.register(ModuleClass::Noise, 3);
    let calls = r.dispatch(9, ModuleClass::Noise, 4);
    assert_eq!(calls.len(), 2);
    assert_eq!(calls[0].builder_id, 1);
    assert_eq!(calls[1].builder_id, 3);
    for call in &calls {
        assert_eq!(call.notification.module_id, 9);
        assert_eq!(call.notification.class, ModuleClass::Noise);
        assert_eq!(call.notification.layer, 4);
    }
    assert!(any_call_for_class(&calls, ModuleClass::Noise));
    assert!(!any_call_for_class(&calls, ModuleClass::Pong));
}

#[test]
fn both_builders_receive_the_same_notification_and_failure_is_isolated() {
    let mut c = fresh_compositor();
    c.register_builder(ModuleClass::Noise, 7);
    c.register_builder(ModuleClass::Noise, 8);
    let t = c.spawn(SpawnRequest { class: ModuleClass::Noise }).unwrap();
    assert_eq!(t.calls.len(), 2);
    assert_eq!(t.calls[0].notification, t.calls[1].notification);
    assert_eq!(t.calls[0].builder_id, 7);
    assert_eq!(t.calls[1].builder_id, 8);

    // The first builder fails; the second still ran, and the module still
    // reaches Ready, with the failure reported.
    let module_id = t.module_id;
    let report = finish_spawn(t, &vec![false, true]);
    assert_eq!(report.module_id, module_id);
    assert!(matches!(report.status, SpawnStatus::Ready));
    assert_eq!(report.failed, vec![7]);
    assert_eq!(c.module_count(), 1);
}

#[test]
fn all_builders_succeeding_reports_no_failures() {
    let mut c = fresh_compositor();
    c.register_builder(ModuleClass::Pong, 5);
    let t = c.spawn(SpawnRequest { class: ModuleClass::Pong }).unwrap();
    assert_eq!(t.calls.len(), 1);
    let report = finish_spawn(t, &vec![true]);
    assert!(matches!(report.status, SpawnStatus::Ready));
    assert!(report.failed.is_empty());
}

#[test]
fn a_class_with_no_builders_spawns_an_empty_module() {
    let mut c = fresh_compositor();
    let t = c.spawn(SpawnRequest { class: ModuleClass::Pong }).unwrap();
    assert!(t.calls.is_empty());
    let report = finish_spawn(t, &vec![]);
    assert!(matches!(report.status, SpawnStatus::Ready));
    assert!(report.failed.is_empty());
    assert_eq!(c.module_count(), 1);
}

#[test]
fn teardown_despawns_everything_but_reclaims_nothing() {
    let mut c = fresh_compositor();
    let a = c.spawn(SpawnRequest { class: ModuleClass::Pong }).unwrap();
    let b = c.spawn(SpawnRequest { class: ModuleClass::Noise }).unwrap();
    assert!(c.attach_content(a.module_id, 70));
    assert!(c.attach_content(b.module_id, 71));
    assert!(c.attach_content(b.module_id, 72));

    let freed = c.despawn_all();
    assert_eq!(freed, vec![70, 71, 72]);
    assert_eq!(c.module_count(), 0);

    // Counting continues where it stopped: the next module is the third.
    let third = c.spawn(SpawnRequest { class: ModuleClass::Pong }).unwrap();
    assert_eq!(third.layer, 3);
    assert_eq!(third.module_id, 3);
}

#[test]
fn attach_content_is_idempotent_per_object() {
    let mut c = fresh_compositor();
    let t = c.spawn(SpawnRequest { class: ModuleClass::Noise }).unwrap();
    assert!(c.attach_content(t.module_id, 50));
    assert!(!c.attach_content(t.module_id, 50));
    assert_eq!(c.window_at(0).dependents, vec![50]);
    assert!(!c.attach_content(t.module_id + 9, 51));
}
