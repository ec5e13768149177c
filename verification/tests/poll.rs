use joyshop::battery_light::BatteryLevel;
use joyshop::configuration::{create_default, Key, KeyAction, KeyCombination};
use joyshop::input_recognizer::{Button, Snapshot, StickReading};
use joyshop::joyshop::{handle_stick_action, poll_step, Effect};

const CENTER: u16 = 2048;

fn idle_snapshot() -> Snapshot {
    Snapshot {
        left_pressed: vec![],
        right_pressed: vec![],
        shared_pressed: vec![],
        left_stick: StickReading { horizontal: CENTER, vertical: CENTER },
        right_stick: StickReading { horizontal: CENTER, vertical: CENTER },
        battery: BatteryLevel::Full,
    }
}

fn angle_floor_deg(stick: &StickReading) -> i32 {
    let x = stick.horizontal as f64 - 2048.0;
    let y = stick.vertical as f64 - 2048.0;
    y.atan2(x).to_degrees().floor() as i32
}

fn is_key(e: &Effect, code: u16, down: bool) -> bool {
    matches!(e, Effect::Key(k) if k.code == code && k.down == down)
}

fn is_notify(e: &Effect, name: &str) -> bool {
    matches!(e, Effect::Notify(n) if n == name)
}

#[test]
fn battery_change_reports_exactly_one_indicator_update() {
    let config = create_default();
    let last = idle_snapshot();
    let mut curr = idle_snapshot();
    curr.battery = BatteryLevel::Low;
    let out = poll_step(&config, &last, &curr, None, None, 0, 0);
    let (steady, flashing) = out.lights.expect("battery changed, update owed");
    assert_eq!(steady, vec![2u8, 3]);
    assert_eq!(flashing, Vec::<u8>::new());
    assert!(out.effects.is_empty());
}

#[test]
fn unchanged_battery_reports_no_indicator_update() {
    let config = create_default();
    let last = idle_snapshot();
    let curr = idle_snapshot();
    let out = poll_step(&config, &last, &curr, None, None, 0, 0);
    assert!(out.lights.is_none());
    assert!(out.effects.is_empty());
}

#[test]
fn button_press_edge_dispatches_its_binding() {
    // Default binding: ZL holds 'E' ("Eraser").
    let config = create_default();
    let last = idle_snapshot();
    let mut curr = idle_snapshot();
    curr.left_pressed = vec![Button::ZL];
    let out = poll_step(&config, &last, &curr, None, None, 0, 0);
    assert_eq!(out.effects.len(), 2);
    assert!(is_key(&out.effects[0], 0x45, true));
    assert!(is_notify(&out.effects[1], "Eraser"));
}

#[test]
fn button_release_edge_dispatches_deactivation() {
    let config = create_default();
    let mut last = idle_snapshot();
    last.left_pressed = vec![Button::ZL];
    let curr = idle_snapshot();
    let out = poll_step(&config, &last, &curr, None, None, 0, 0);
    assert_eq!(out.effects.len(), 1);
    assert!(is_key(&out.effects[0], 0x45, false));
}

#[test]
fn entering_a_zone_pulses_then_activates() {
    // Default left zone 0 binding: click 'O' ("Dodge").
    let config = create_default();
    let last = idle_snapshot();
    let mut curr = idle_snapshot();
    curr.left_stick = StickReading { horizontal: CENTER + 1200, vertical: CENTER };
    let left_angle = angle_floor_deg(&curr.left_stick);
    let out = poll_step(&config, &last, &curr, None, None, left_angle, 0);
    assert_eq!(out.new_left_stick, Some(0));
    assert_eq!(out.new_right_stick, None);
    assert_eq!(out.effects.len(), 4);
    assert!(matches!(out.effects[0], Effect::RumblePulse));
    assert!(is_key(&out.effects[1], 0x4F, true));
    assert!(is_key(&out.effects[2], 0x4F, false));
    assert!(is_notify(&out.effects[3], "Dodge"));
}

#[test]
fn staying_in_a_zone_emits_nothing() {
    let config = create_default();
    let mut last = idle_snapshot();
    last.left_stick = StickReading { horizontal: CENTER + 1200, vertical: CENTER };
    let curr = last.clone();
    let left_angle = angle_floor_deg(&curr.left_stick);
    let out = poll_step(&config, &last, &curr, Some(0), None, left_angle, 0);
    assert_eq!(out.new_left_stick, Some(0));
    assert!(out.effects.is_empty());
}

#[test]
fn leaving_a_hold_zone_releases_without_a_pulse() {
    // Default left zone 3 binding: hold 'R' ("Rotate"); stick back at rest.
    let config = create_default();
    let last = idle_snapshot();
    let curr = idle_snapshot();
    let out = poll_step(&config, &last, &curr, Some(3), None, 0, 0);
    assert_eq!(out.new_left_stick, None);
    assert_eq!(out.effects.len(), 1);
    assert!(is_key(&out.effects[0], 0x52, false));
}

#[test]
fn zone_change_deactivates_old_before_activating_new() {
    let config = create_default();
    // From zone 3 (hold 'R') directly to zone 0 (click 'O').
    let effects = handle_stick_action(&config, true, Some(3), Some(0));
    assert_eq!(effects.len(), 5);
    assert!(matches!(effects[0], Effect::RumblePulse));
    assert!(is_key(&effects[1], 0x52, false));
    assert!(is_key(&effects[2], 0x4F, true));
    assert!(is_key(&effects[3], 0x4F, false));
    assert!(is_notify(&effects[4], "Dodge"));
}

#[test]
fn right_half_buttons_use_right_bindings() {
    // Default binding: 'A' clicks ']' ("Larger Brush").
    let config = create_default();
    let last = idle_snapshot();
    let mut curr = idle_snapshot();
    curr.right_pressed = vec![Button::A];
    let out = poll_step(&config, &last, &curr, None, None, 0, 0);
    assert_eq!(out.effects.len(), 3);
    assert!(is_key(&out.effects[0], 0xDD, true));
    assert!(is_key(&out.effects[1], 0xDD, false));
    assert!(is_notify(&out.effects[2], "Larger Brush"));
}

#[test]
fn default_config_matches_the_documented_table() {
    let config = create_default();
    assert!(config.show_tooltip);
    match &config.zl {
        KeyAction::KeyHold(KeyCombination { name, key, ctrl, alt, shift }) => {
            assert_eq!(name, "Eraser");
            assert_eq!(*key, Key::E);
            assert!(!ctrl && !alt && !shift);
        },
        _ => panic!("zl must be a hold binding"),
    }
    match &config.minus {
        KeyAction::KeyClick(KeyCombination { name, key, ctrl, alt, shift }) => {
            assert_eq!(name, "Save");
            assert_eq!(*key, Key::S);
            assert!(*ctrl);
            assert!(!alt && !shift);
        },
        _ => panic!("minus must be a click binding"),
    }
    assert!(matches!(config.left_stick, KeyAction::NoOp));
    assert!(matches!(config.home, KeyAction::NoOp));
    match &config.right_sr {
        KeyAction::KeyClick(KeyCombination { name, key, ctrl, alt, shift }) => {
            assert_eq!(name, "Redo");
            assert_eq!(*key, Key::Z);
            assert!(*ctrl && *shift);
            assert!(!alt);
        },
        _ => panic!("right_sr must be a click binding"),
    }
}
