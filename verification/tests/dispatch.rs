use joyshop::configuration::{Key, KeyAction, KeyCombination};
use joyshop::key_sender::{send_ev, KeyEvent};

fn combo(name: &str, key: Key, ctrl: bool, alt: bool, shift: bool) -> KeyCombination {
    KeyCombination { name: name.to_owned(), key, ctrl, alt, shift }
}

fn ev(code: u16, down: bool) -> KeyEvent {
    KeyEvent { code, down }
}

#[test]
fn noop_dispatch_does_nothing() {
    let (events, note) = send_ev(&KeyAction::NoOp, true);
    assert!(events.is_empty());
    assert!(note.is_none());
    let (events, note) = send_ev(&KeyAction::NoOp, false);
    assert!(events.is_empty());
    assert!(note.is_none());
}

#[test]
fn hold_activation_presses_key_and_notifies() {
    let action = KeyAction::KeyHold(combo("Eraser", Key::E, false, false, false));
    let (events, note) = send_ev(&action, true);
    assert_eq!(events, vec![ev(0x45, true)]);
    assert_eq!(note.as_deref(), Some("Eraser"));
}

#[test]
fn hold_deactivation_releases_key_without_notification() {
    let action = KeyAction::KeyHold(combo("Eraser", Key::E, false, false, false));
    let (events, note) = send_ev(&action, false);
    assert_eq!(events, vec![ev(0x45, false)]);
    assert!(note.is_none());
}

#[test]
fn hold_modifiers_press_in_fixed_order_and_release_after_key() {
    let action = KeyAction::KeyHold(combo("Combo", Key::F1, true, true, true));
    let (down, _) = send_ev(&action, true);
    // Alt (0x12), then Shift (0x10), then Ctrl (0x11), then the main key.
    assert_eq!(
        down,
        vec![ev(0x12, true), ev(0x10, true), ev(0x11, true), ev(0x70, true)]
    );
    let (up, _) = send_ev(&action, false);
    assert_eq!(
        up,
        vec![ev(0x70, false), ev(0x12, false), ev(0x10, false), ev(0x11, false)]
    );
}

#[test]
fn click_activation_is_one_press_release_with_balanced_modifiers() {
    let action = KeyAction::KeyClick(combo("Save", Key::S, true, false, false));
    let (events, note) = send_ev(&action, true);
    assert_eq!(
        events,
        vec![ev(0x11, true), ev(0x53, true), ev(0x53, false), ev(0x11, false)]
    );
    assert_eq!(note.as_deref(), Some("Save"));
    // No key is left held: per code, presses equal releases.
    for code in [0x11u16, 0x53] {
        let presses = events.iter().filter(|e| e.code == code && e.down).count();
        let releases = events.iter().filter(|e| e.code == code && !e.down).count();
        assert_eq!(presses, 1);
        assert_eq!(releases, 1);
    }
}

#[test]
fn click_deactivation_is_a_no_op() {
    let action = KeyAction::KeyClick(combo("Save", Key::S, true, false, false));
    let (events, note) = send_ev(&action, false);
    assert!(events.is_empty());
    assert!(note.is_none());
}

#[test]
fn null_key_is_never_injected() {
    let action = KeyAction::KeyHold(combo("Mods only", Key::NoKey, false, false, true));
    let (down, note) = send_ev(&action, true);
    assert_eq!(down, vec![ev(0x10, true)]);
    assert_eq!(note.as_deref(), Some("Mods only"));
    let (up, _) = send_ev(&action, false);
    assert_eq!(up, vec![ev(0x10, false)]);
}

#[test]
fn hold_pair_is_balanced_for_every_code() {
    let action = KeyAction::KeyClick(combo("Redo", Key::Z, true, false, true));
    let (mut events, _) = send_ev(&action, true);
    let (mut up, _) = send_ev(&action, false);
    events.append(&mut up);
    let codes: Vec<u16> = events.iter().map(|e| e.code).collect();
    for code in codes {
        let net: i64 = events
            .iter()
            .filter(|e| e.code == code)
            .map(|e| if e.down { 1i64 } else { -1i64 })
            .sum();
        assert_eq!(net, 0);
    }
}

#[test]
fn key_codes_match_the_virtual_key_space() {
    assert_eq!(Key::NoKey.code(), 0x00);
    assert_eq!(Key::A.code(), 0x41);
    assert_eq!(Key::Z.code(), 0x5A);
    assert_eq!(Key::Space.code(), 0x20);
    assert_eq!(Key::LeftShift.code(), 0xA0);
    assert_eq!(Key::Oem4OpenSquareOrCurlyBracket.code(), 0xDB);
    assert_eq!(Key::F24.code(), 0x87);
    assert_eq!(Key::OemClear.code(), 0xFE);
}
