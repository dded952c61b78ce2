use button_controller::{ButtonController, ButtonId};

const KEY_A: ButtonId = ButtonId::Keyboard(0x61);
const KEY_B: ButtonId = ButtonId::Keyboard(0x62);
const MOUSE_LEFT: ButtonId = ButtonId::Mouse(1);

#[test]
fn concrete_press_update_release_scenario() {
    let mut t = ButtonController::new();
    t.register_press(&KEY_A);
    assert!(t.current_pressed(&KEY_A));
    assert!(!t.last_pressed(&KEY_A));
    t.update();
    assert!(t.last_pressed(&KEY_A));
    t.register_release(&KEY_A);
    assert!(t.pressed_state(&KEY_A, true, false));
    t.update();
    assert!(!t.last_pressed(&KEY_A));
}

#[test]
fn fresh_controller_reads_released() {
    let t = ButtonController::new();
    for b in [KEY_A, MOUSE_LEFT, ButtonId::Controller { id: 0, button: 3 }] {
        assert!(!t.current_pressed(&b));
        assert!(!t.last_pressed(&b));
        assert!(t.pressed_state(&b, false, false));
    }
}

#[test]
fn press_is_visible_before_update() {
    let mut t = ButtonController::new();
    t.register_press(&KEY_A);
    assert!(t.current_pressed(&KEY_A));
    assert!(!t.last_pressed(&KEY_A));
    assert!(t.pressed_state(&KEY_A, false, true));
}

#[test]
fn update_propagates_press() {
    let mut t = ButtonController::new();
    t.register_press(&KEY_A);
    t.update();
    assert!(t.last_pressed(&KEY_A));
    assert!(t.current_pressed(&KEY_A));
    assert!(t.pressed_state(&KEY_A, true, true));
}

#[test]
fn release_after_press_keeps_snapshot() {
    let mut t = ButtonController::new();
    t.register_press(&KEY_A);
    t.update();
    t.register_release(&KEY_A);
    assert!(!t.current_pressed(&KEY_A));
    assert!(t.last_pressed(&KEY_A));
}

#[test]
fn release_edge_detected() {
    let mut t = ButtonController::new();
    t.register_press(&KEY_A);
    t.update();
    t.register_release(&KEY_A);
    assert!(t.pressed_state(&KEY_A, true, false));
    assert!(!t.pressed_state(&KEY_A, false, true));
    assert!(!t.pressed_state(&KEY_A, true, true));
    assert!(!t.pressed_state(&KEY_A, false, false));
}

#[test]
fn second_update_changes_nothing() {
    let mut t = ButtonController::new();
    t.register_press(&KEY_A);
    t.register_release(&MOUSE_LEFT);
    t.update();
    let before = [
        t.current_pressed(&KEY_A),
        t.last_pressed(&KEY_A),
        t.current_pressed(&MOUSE_LEFT),
        t.last_pressed(&MOUSE_LEFT),
    ];
    t.update();
    let after = [
        t.current_pressed(&KEY_A),
        t.last_pressed(&KEY_A),
        t.current_pressed(&MOUSE_LEFT),
        t.last_pressed(&MOUSE_LEFT),
    ];
    assert_eq!(before, after);
    assert_eq!(after, [true, true, false, false]);
}

#[test]
fn other_buttons_are_independent() {
    let mut t = ButtonController::new();
    t.register_press(&KEY_B);
    t.update();
    t.register_press(&KEY_A);
    assert!(t.current_pressed(&KEY_B));
    assert!(t.last_pressed(&KEY_B));
    t.register_release(&KEY_A);
    assert!(t.current_pressed(&KEY_B));
    assert!(t.last_pressed(&KEY_B));
    assert!(!t.current_pressed(&MOUSE_LEFT));
}

#[test]
fn variants_with_equal_numbers_are_distinct() {
    let mut t = ButtonController::new();
    t.register_press(&ButtonId::Keyboard(1));
    assert!(t.current_pressed(&ButtonId::Keyboard(1)));
    assert!(!t.current_pressed(&ButtonId::Mouse(1)));
    assert!(!t.current_pressed(&ButtonId::Controller { id: 1, button: 0 }));
    assert!(!t.current_pressed(&ButtonId::Controller { id: 0, button: 1 }));
    assert!(!t.current_pressed(&ButtonId::Hat { id: 0, which: 0, state: 1 }));
    assert!(!t.current_pressed(&ButtonId::Hat { id: 0, which: 1, state: 0 }));
}

#[test]
fn hat_and_controller_fields_are_distinguished() {
    let mut t = ButtonController::new();
    let hat = ButtonId::Hat { id: u32::MAX, which: 255, state: 2 };
    let pad = ButtonId::Controller { id: u32::MAX, button: 255 };
    t.register_press(&hat);
    t.register_press(&pad);
    t.update();
    t.register_release(&pad);
    assert!(t.pressed_state(&hat, true, true));
    assert!(t.pressed_state(&pad, true, false));
    assert!(!t.current_pressed(&ButtonId::Hat { id: u32::MAX, which: 255, state: 3 }));
    assert!(!t.current_pressed(&ButtonId::Controller { id: u32::MAX - 1, button: 255 }));
}

#[test]
fn largest_key_code_is_tracked() {
    let mut t = ButtonController::new();
    let k = ButtonId::Keyboard(u32::MAX);
    t.register_press(&k);
    assert!(t.current_pressed(&k));
    assert!(!t.current_pressed(&ButtonId::Keyboard(u32::MAX - 1)));
}

#[test]
fn keys_differ_per_button() {
    assert_eq!(ButtonId::Keyboard(5).key(), 5u64 << 16);
    assert_eq!(ButtonId::Mouse(2).key(), (1u64 << 56) | (2 << 16));
    assert_eq!(
        ButtonId::Controller { id: 7, button: 3 }.key(),
        (2u64 << 56) | (7 << 16) | (3 << 8)
    );
    assert_eq!(
        ButtonId::Hat { id: 7, which: 1, state: 4 }.key(),
        (3u64 << 56) | (7 << 16) | (1 << 8) | 4
    );
    assert_ne!(ButtonId::Keyboard(1).key(), ButtonId::Mouse(1).key());
}

#[test]
fn repeated_press_is_idempotent() {
    let mut t = ButtonController::new();
    t.register_press(&KEY_A);
    t.register_press(&KEY_A);
    assert!(t.current_pressed(&KEY_A));
    t.register_release(&KEY_A);
    t.register_release(&KEY_A);
    assert!(!t.current_pressed(&KEY_A));
}

#[test]
fn update_without_notifications_is_noop() {
    let mut t = ButtonController::new();
    t.update();
    assert!(!t.current_pressed(&KEY_A));
    assert!(!t.last_pressed(&KEY_A));
}

#[test]
fn clone_is_independent() {
    let mut t = ButtonController::new();
    t.register_press(&KEY_A);
    let c = t.clone();
    t.register_release(&KEY_A);
    assert!(c.current_pressed(&KEY_A));
    assert!(!t.current_pressed(&KEY_A));
}
