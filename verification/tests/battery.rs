use joyshop::battery_light::{get_light_states, BatteryLevel};

#[test]
fn empty_flashes_all_four() {
    let (steady, flashing) = get_light_states(BatteryLevel::Empty);
    assert_eq!(steady, Vec::<u8>::new());
    assert_eq!(flashing, vec![0u8, 1, 2, 3]);
}

#[test]
fn critical_flashes_top_slot() {
    let (steady, flashing) = get_light_states(BatteryLevel::Critical);
    assert_eq!(steady, Vec::<u8>::new());
    assert_eq!(flashing, vec![3u8]);
}

#[test]
fn low_lights_two_steady() {
    let (steady, flashing) = get_light_states(BatteryLevel::Low);
    assert_eq!(steady, vec![2u8, 3]);
    assert_eq!(flashing, Vec::<u8>::new());
}

#[test]
fn medium_lights_three_steady() {
    let (steady, flashing) = get_light_states(BatteryLevel::Medium);
    assert_eq!(steady, vec![1u8, 2, 3]);
    assert_eq!(flashing, Vec::<u8>::new());
}

#[test]
fn full_lights_all_steady_none_flashing() {
    let (steady, flashing) = get_light_states(BatteryLevel::Full);
    assert_eq!(steady, vec![0u8, 1, 2, 3]);
    assert_eq!(flashing, Vec::<u8>::new());
}

#[test]
fn five_levels_give_five_distinct_patterns() {
    let levels = [
        BatteryLevel::Empty,
        BatteryLevel::Critical,
        BatteryLevel::Low,
        BatteryLevel::Medium,
        BatteryLevel::Full,
    ];
    let patterns: Vec<(Vec<u8>, Vec<u8>)> = levels.iter().map(|l| get_light_states(*l)).collect();
    for i in 0..patterns.len() {
        for j in 0..patterns.len() {
            if i != j {
                assert_ne!(patterns[i], patterns[j]);
            }
        }
    }
}
