use keym::input::{InputStep, InputSystem, KeyEvent};

fn ev(scancode: u16, extended: bool, key_up: bool) -> KeyEvent {
    KeyEvent { scancode, extended, key_up }
}

#[test]
fn press_a_emits_plain_scancode() {
    let input = InputSystem::new();
    assert_eq!(input.press_key("a"), Some(ev(0x1E, false, false)));
}

#[test]
fn press_up_emits_extended_scancode() {
    let input = InputSystem::new();
    assert_eq!(input.press_key("up"), Some(ev(0xC8, true, false)));
}

#[test]
fn release_is_the_matching_key_up() {
    let input = InputSystem::new();
    assert_eq!(input.release_key("a"), Some(ev(0x1E, false, true)));
    assert_eq!(input.release_key("up"), Some(ev(0xC8, true, true)));
    assert_eq!(input.send_key("enter", true), Some(ev(0x1C, false, true)));
}

#[test]
fn unmapped_key_sends_nothing() {
    let input = InputSystem::new();
    assert_eq!(input.press_key("nosuchkey"), None);
    assert_eq!(input.release_key("nosuchkey"), None);
    assert!(input.tap_key("nosuchkey", 30).is_empty());
}

#[test]
fn event_flags_combine_bits() {
    assert_eq!(ev(0x1E, false, false).flags(), 0x8);
    assert_eq!(ev(0xC8, true, false).flags(), 0x9);
    assert_eq!(ev(0x1E, false, true).flags(), 0xA);
    assert_eq!(ev(0xC8, true, true).flags(), 0xB);
}

#[test]
fn tap_holds_between_press_and_release() {
    let input = InputSystem::new();
    assert_eq!(
        input.tap_key("enter", 50),
        vec![
            InputStep::Send(ev(0x1C, false, false)),
            InputStep::Wait(50),
            InputStep::Send(ev(0x1C, false, true)),
        ]
    );
}

#[test]
fn tap_without_hold_has_no_wait() {
    let input = InputSystem::new();
    assert_eq!(
        input.tap_key("left", 0),
        vec![InputStep::Send(ev(0xCB, true, false)), InputStep::Send(ev(0xCB, true, true))]
    );
}
