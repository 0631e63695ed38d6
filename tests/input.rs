use fab_agon_emulator::input::{translate_event, HostEvent, HostKey, InputAction, UNMAPPED};

fn key(key: HostKey, modifier: bool, code: u16, is_down: bool) -> HostEvent {
    HostEvent::Key { key, modifier, code, is_down }
}

#[test]
fn shortcuts_are_intercepted() {
    assert_eq!(translate_event(key(HostKey::Fullscreen, true, 0x2b, true)), InputAction::ToggleFullscreen);
    assert_eq!(translate_event(key(HostKey::Quit, true, 0x15, true)), InputAction::Quit);
    assert_eq!(translate_event(key(HostKey::Fullscreen, true, 0x2b, false)), InputAction::Drop);
    assert_eq!(translate_event(key(HostKey::Quit, true, 0x15, false)), InputAction::Drop);
}

#[test]
fn shortcut_keys_without_modifier_are_forwarded() {
    assert_eq!(
        translate_event(key(HostKey::Fullscreen, false, 0x2b, true)),
        InputAction::SendKey { code: 0x2b, is_down: true }
    );
    assert_eq!(
        translate_event(key(HostKey::Quit, false, 0x15, false)),
        InputAction::SendKey { code: 0x15, is_down: false }
    );
}

#[test]
fn ordinary_keys_are_forwarded() {
    assert_eq!(
        translate_event(key(HostKey::Other, true, 0x1c, true)),
        InputAction::SendKey { code: 0x1c, is_down: true }
    );
    assert_eq!(
        translate_event(key(HostKey::Other, false, 0xe06b, false)),
        InputAction::SendKey { code: 0xe06b, is_down: false }
    );
}

#[test]
fn unmapped_keys_are_dropped() {
    assert_eq!(translate_event(key(HostKey::Other, false, UNMAPPED, true)), InputAction::Drop);
    assert_eq!(translate_event(key(HostKey::Other, true, UNMAPPED, false)), InputAction::Drop);
}

#[test]
fn close_quits_and_other_events_drop() {
    assert_eq!(translate_event(HostEvent::Close), InputAction::Quit);
    assert_eq!(translate_event(HostEvent::Other), InputAction::Drop);
}
