use joyshop::battery_light::BatteryLevel;
use joyshop::input_recognizer::{
    is_button_down, is_button_press, is_button_up, recognize_stick_slot, Button, Snapshot,
    StickReading,
};

fn snapshot(left: Vec<Button>, right: Vec<Button>, shared: Vec<Button>) -> Snapshot {
    Snapshot {
        left_pressed: left,
        right_pressed: right,
        shared_pressed: shared,
        left_stick: StickReading { horizontal: 2048, vertical: 2048 },
        right_stick: StickReading { horizontal: 2048, vertical: 2048 },
        battery: BatteryLevel::Full,
    }
}

/// Whole-degree floor of the recentered reading's angle, as the polling
/// loop computes it before calling the classifier.
fn angle_floor_deg(stick: &StickReading) -> i32 {
    let x = stick.horizontal as f64 - 2048.0;
    let y = stick.vertical as f64 - 2048.0;
    y.atan2(x).to_degrees().floor() as i32
}

#[test]
fn press_edge_is_detected() {
    let prev = snapshot(vec![], vec![], vec![]);
    let curr = snapshot(vec![Button::ZL], vec![], vec![]);
    assert!(is_button_down(&prev, &curr, true, Button::ZL));
    assert!(!is_button_up(&prev, &curr, true, Button::ZL));
    assert!(!is_button_down(&prev, &curr, false, Button::ZL));
}

#[test]
fn release_edge_is_detected() {
    let prev = snapshot(vec![], vec![Button::A], vec![]);
    let curr = snapshot(vec![], vec![], vec![]);
    assert!(is_button_up(&prev, &curr, false, Button::A));
    assert!(!is_button_down(&prev, &curr, false, Button::A));
}

#[test]
fn down_equals_up_with_snapshots_swapped() {
    let a = snapshot(vec![Button::L], vec![], vec![Button::SL]);
    let b = snapshot(vec![], vec![], vec![]);
    for side in [true, false] {
        for button in [Button::L, Button::SL, Button::A] {
            assert_eq!(
                is_button_down(&a, &b, side, button),
                is_button_up(&b, &a, side, button)
            );
            assert!(
                !(is_button_down(&a, &b, side, button) && is_button_up(&a, &b, side, button))
            );
        }
    }
}

#[test]
fn shared_buttons_register_from_either_side() {
    let s = snapshot(vec![], vec![], vec![Button::SR]);
    assert!(is_button_press(&s, true, Button::SR));
    assert!(is_button_press(&s, false, Button::SR));
}

#[test]
fn half_owned_button_needs_matching_side() {
    let s = snapshot(vec![Button::ZL], vec![], vec![]);
    assert!(is_button_press(&s, true, Button::ZL));
    assert!(!is_button_press(&s, false, Button::ZL));
}

#[test]
fn reading_right_of_center_enters_zone_zero() {
    // Distance 1200 exceeds the enter threshold (1000) and the angle is 0,
    // inside the first 60-degree arc.
    let stick = StickReading { horizontal: 2048 + 1200, vertical: 2048 };
    let angle = angle_floor_deg(&stick);
    assert_eq!(angle, 0);
    assert_eq!(recognize_stick_slot(6, 0, None, &stick, angle), Some(0));
}

#[test]
fn hysteresis_keeps_prior_zone_between_thresholds() {
    // Distance 950: above the exit threshold (900), at or below the enter
    // threshold (1000).
    let stick = StickReading { horizontal: 2048 + 950, vertical: 2048 };
    let angle = angle_floor_deg(&stick);
    assert_eq!(recognize_stick_slot(6, 0, Some(0), &stick, angle), Some(0));
}

#[test]
fn hysteresis_rejects_same_reading_from_rest() {
    let stick = StickReading { horizontal: 2048 + 950, vertical: 2048 };
    let angle = angle_floor_deg(&stick);
    assert_eq!(recognize_stick_slot(6, 0, None, &stick, angle), None);
}

#[test]
fn reading_below_exit_threshold_leaves_zone() {
    let stick = StickReading { horizontal: 2048 + 800, vertical: 2048 };
    let angle = angle_floor_deg(&stick);
    assert_eq!(recognize_stick_slot(6, 0, Some(2), &stick, angle), None);
}

#[test]
fn six_directions_map_to_six_zones() {
    // One reading inside each 60-degree arc, all far outside the dead zone.
    let cases: [(i32, usize); 6] = [
        (30, 0),
        (90, 1),
        (150, 2),
        (210, 3),
        (270, 4),
        (330, 5),
    ];
    for (deg, want) in cases {
        let rad = (deg as f64).to_radians();
        let stick = StickReading {
            horizontal: (2048.0 + 1500.0 * rad.cos()).round() as u16,
            vertical: (2048.0 + 1500.0 * rad.sin()).round() as u16,
        };
        let angle = angle_floor_deg(&stick);
        assert_eq!(recognize_stick_slot(6, 0, None, &stick, angle), Some(want), "at {deg} degrees");
    }
}

#[test]
fn negative_angles_normalize_into_upper_zones() {
    // Down-right diagonal: atan2 gives -45 degrees, which normalizes to 315.
    let stick = StickReading { horizontal: 2048 + 1500, vertical: 2048 - 1500 };
    let angle = angle_floor_deg(&stick);
    assert!(angle < 0);
    assert_eq!(recognize_stick_slot(6, 0, None, &stick, angle), Some(5));
}

#[test]
fn angular_offset_shifts_the_partition() {
    // Angle 0 plus a 90-degree offset lands in zone 1's arc.
    let stick = StickReading { horizontal: 2048 + 1500, vertical: 2048 };
    let angle = angle_floor_deg(&stick);
    assert_eq!(recognize_stick_slot(6, 90, None, &stick, angle), Some(1));
}

#[test]
fn arc_boundary_belongs_to_the_arc_starting_there() {
    // Exactly 90 degrees with four slots: arcs are [0,90), [90,180), ...,
    // so the boundary angle belongs to zone 1.
    let stick = StickReading { horizontal: 2048, vertical: 2048 + 1500 };
    let angle = angle_floor_deg(&stick);
    assert_eq!(angle, 90);
    assert_eq!(recognize_stick_slot(4, 0, None, &stick, angle), Some(1));
}
