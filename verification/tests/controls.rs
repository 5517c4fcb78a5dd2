use voxels::input::{Controls, Key, MovementKeys};
use voxels::surface::{SurfaceSize, INIT_HEIGHT, INIT_WIDTH};

#[test]
fn keys_start_released() {
    let k = MovementKeys::new();
    assert!(!(k.forward || k.backward || k.left || k.right || k.up || k.down || k.fast));
    assert_eq!(k.forward_axis(), 0);
    assert_eq!(k.speed_factor(), 1);
}

#[test]
fn each_binding_sets_its_own_key() {
    let bindings = [
        (Key::KeyW, MovementKeys { forward: true, ..MovementKeys::new() }),
        (Key::KeyA, MovementKeys { left: true, ..MovementKeys::new() }),
        (Key::KeyS, MovementKeys { backward: true, ..MovementKeys::new() }),
        (Key::KeyD, MovementKeys { right: true, ..MovementKeys::new() }),
        (Key::Space, MovementKeys { up: true, ..MovementKeys::new() }),
        (Key::ShiftLeft, MovementKeys { down: true, ..MovementKeys::new() }),
        (Key::ControlLeft, MovementKeys { fast: true, ..MovementKeys::new() }),
    ];
    for (key, expected) in bindings {
        let mut k = MovementKeys::new();
        k.process_keyboard(key, true);
        assert_eq!(k, expected);
        k.process_keyboard(key, false);
        assert_eq!(k, MovementKeys::new());
    }
}

#[test]
fn unbound_keys_change_nothing() {
    let mut k = MovementKeys::new();
    k.process_keyboard(Key::KeyW, true);
    let before = k;
    k.process_keyboard(Key::F3, true);
    k.process_keyboard(Key::Other, true);
    k.process_keyboard(Key::Other, false);
    assert_eq!(k, before);
}

#[test]
fn axes_and_speed() {
    let mut k = MovementKeys::new();
    k.process_keyboard(Key::KeyW, true);
    assert_eq!(k.forward_axis(), 1);
    k.process_keyboard(Key::KeyS, true);
    assert_eq!(k.forward_axis(), 0);
    k.process_keyboard(Key::KeyW, false);
    assert_eq!(k.forward_axis(), -1);
    k.process_keyboard(Key::KeyA, true);
    assert_eq!(k.right_axis(), -1);
    k.process_keyboard(Key::KeyD, true);
    assert_eq!(k.right_axis(), 0);
    k.process_keyboard(Key::KeyA, false);
    assert_eq!(k.right_axis(), 1);
    k.process_keyboard(Key::Space, true);
    assert_eq!(k.up_axis(), 1);
    k.process_keyboard(Key::ShiftLeft, true);
    assert_eq!(k.up_axis(), 0);
    k.process_keyboard(Key::Space, false);
    assert_eq!(k.up_axis(), -1);
    k.process_keyboard(Key::ControlLeft, true);
    assert_eq!(k.speed_factor(), 3);
}

#[test]
fn f3_press_toggles_grid_lines() {
    let mut c = Controls::new();
    assert!(!c.grid_lines);
    c.key_input(Key::F3, true);
    assert!(c.grid_lines);
    c.key_input(Key::F3, false);
    assert!(c.grid_lines);
    c.key_input(Key::F3, true);
    assert!(!c.grid_lines);
    assert_eq!(c.keys, MovementKeys::new());
}

#[test]
fn movement_keys_do_not_toggle_grid_lines() {
    let mut c = Controls::new();
    c.key_input(Key::KeyW, true);
    c.key_input(Key::Other, true);
    assert!(!c.grid_lines);
    assert!(c.keys.forward);
}

#[test]
fn surface_starts_at_initial_size() {
    let s = SurfaceSize::new();
    assert_eq!((s.width(), s.height()), (INIT_WIDTH, INIT_HEIGHT));
    assert_eq!((s.width(), s.height()), (800, 600));
}

#[test]
fn resize_takes_nonzero_sizes_only() {
    let mut s = SurfaceSize::new();
    assert!(s.resize(1024, 768));
    assert_eq!((s.width(), s.height()), (1024, 768));
    assert!(!s.resize(0, 500));
    assert!(!s.resize(500, 0));
    assert!(!s.resize(0, 0));
    assert_eq!((s.width(), s.height()), (1024, 768));
    assert!(s.resize(1, 1));
    assert_eq!((s.width(), s.height()), (1, 1));
}

#[test]
fn events_for_different_keys_commute() {
    let mut a = MovementKeys::new();
    a.process_keyboard(Key::KeyW, true);
    a.process_keyboard(Key::ControlLeft, true);
    let mut b = MovementKeys::new();
    b.process_keyboard(Key::ControlLeft, true);
    b.process_keyboard(Key::KeyW, true);
    assert_eq!(a, b);
}

#[test]
fn last_event_for_a_key_wins() {
    let mut k = MovementKeys::new();
    k.process_keyboard(Key::KeyD, true);
    k.process_keyboard(Key::KeyD, true);
    k.process_keyboard(Key::KeyD, false);
    assert!(!k.right);
    k.process_keyboard(Key::KeyD, false);
    k.process_keyboard(Key::KeyD, true);
    assert!(k.right);
}
