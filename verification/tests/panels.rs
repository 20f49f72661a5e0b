use module_compositor::compositor::Compositor;
use module_compositor::events::{ModuleClass, ResizeRequest, SpawnRequest};
use module_compositor::panel::{panel_spec, PanelFloor, PanelRect};
use module_compositor::resize::ResizeOutcome;
use module_compositor::spawn::SpawnConfig;
use module_compositor::target::{Color8, PixelFormat};

fn test_config() -> SpawnConfig {
    SpawnConfig {
        default_width: 700,
        default_height: 512,
        format: PixelFormat::Bgra8UnormSrgb,
        fill: Color8 { r: 0, g: 0, b: 0, a: 255 },
    }
}

fn test_floor() -> PanelFloor {
    PanelFloor { min_width: 20, min_height: 20 }
}

fn fresh_compositor() -> Compositor {
    Compositor::new(test_config(), test_floor(), 255)
}

#[test]
fn a_drag_emits_exactly_one_request_and_a_quiet_frame_emits_none() {
    let mut c = fresh_compositor();
    let t = c.spawn(SpawnRequest { class: ModuleClass::Pong }).unwrap();

    // Frame 1: the user resized the panel from 700x512 to 800x600.
    let dragged = vec![PanelRect { center_x: 400, center_y: 300, width: 800, height: 600 }];
    c.run_panel_driver(&dragged, 1280, 720);
    let reqs = c.take_resizes();
    assert_eq!(
        reqs,
        vec![ResizeRequest { module_id: t.module_id, width: 800, height: 600 }],
    );
    for r in &reqs {
        let outcome = c.apply_resize(*r);
        assert!(matches!(outcome, ResizeOutcome::Applied(_)));
    }

    // Frame 2: no further drag; the panel still reads 800x600, which now
    // matches the module, so nothing is emitted.
    c.run_panel_driver(&dragged, 1280, 720);
    assert!(c.take_resizes().is_empty());
}

#[test]
fn an_unchanged_panel_emits_no_request() {
    let mut c = fresh_compositor();
    c.spawn(SpawnRequest { class: ModuleClass::Noise }).unwrap();
    let rects = vec![PanelRect { center_x: 10, center_y: 10, width: 700, height: 512 }];
    c.run_panel_driver(&rects, 1280, 720);
    assert!(c.take_resizes().is_empty());
}

#[test]
fn placement_follows_the_panel_center_every_frame() {
    let mut c = fresh_compositor();
    c.spawn(SpawnRequest { class: ModuleClass::Pong }).unwrap();

    // Screen center (400, 300) in a 1280x720 host window lands left of and
    // above the render-world origin: x = 400 - 640, y = 360 - 300.
    let rects = vec![PanelRect { center_x: 400, center_y: 300, width: 700, height: 512 }];
    c.run_panel_driver(&rects, 1280, 720);
    let w = c.window_at(0);
    assert_eq!((w.pos_x, w.pos_y), (-240, 60));

    // A panel dragged off the host window's bounds still places the module.
    let off = vec![PanelRect { center_x: -50, center_y: 900, width: 700, height: 512 }];
    c.run_panel_driver(&off, 1280, 720);
    let w = c.window_at(0);
    assert_eq!((w.pos_x, w.pos_y), (-690, -540));
}

#[test]
fn placement_updates_even_in_the_frame_that_emits_a_resize() {
    let mut c = fresh_compositor();
    c.spawn(SpawnRequest { class: ModuleClass::Pong }).unwrap();
    let rects = vec![PanelRect { center_x: 640, center_y: 360, width: 810, height: 610 }];
    c.run_panel_driver(&rects, 1280, 720);
    let w = c.window_at(0);
    assert_eq!((w.pos_x, w.pos_y), (0, 0));
    assert_eq!(c.take_resizes().len(), 1);
    // The size itself is only reconciled by the next frame's resize phase.
    assert_eq!((c.window_at(0).width, c.window_at(0).height), (700, 512));
}

#[test]
fn each_module_gets_at_most_one_request_per_frame() {
    let mut c = fresh_compositor();
    let a = c.spawn(SpawnRequest { class: ModuleClass::Pong }).unwrap();
    let b = c.spawn(SpawnRequest { class: ModuleClass::Noise }).unwrap();
    let rects = vec![
        PanelRect { center_x: 100, center_y: 100, width: 640, height: 480 },
        PanelRect { center_x: 500, center_y: 500, width: 700, height: 512 },
    ];
    c.run_panel_driver(&rects, 1280, 720);
    let reqs = c.take_resizes();
    assert_eq!(
        reqs,
        vec![ResizeRequest { module_id: a.module_id, width: 640, height: 480 }],
    );
    assert_ne!(a.module_id, b.module_id);
}

#[test]
fn a_frame_with_no_modules_does_nothing() {
    let mut c = fresh_compositor();
    let rects: Vec<PanelRect> = vec![];
    c.run_panel_driver(&rects, 1280, 720);
    assert!(c.take_resizes().is_empty());
    assert_eq!(c.module_count(), 0);
}

#[test]
fn panel_contract_mirrors_the_module_and_the_floor() {
    let mut c = fresh_compositor();
    c.spawn(SpawnRequest { class: ModuleClass::Noise }).unwrap();
    let contract = panel_spec(c.window_at(0), &test_floor());
    assert_eq!((contract.default_width, contract.default_height), (700, 512));
    assert_eq!((contract.min_width, contract.min_height), (20, 20));
    assert!(!contract.title_bar);
    assert!(contract.transparent_frame);
    assert!(!contract.constrain);
}
