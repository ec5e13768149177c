//! Battery indicator mapping: a pure, total table from a discrete battery
//! level to the indicator pattern (steadily lit slots, flashing slots) shown
//! on the controller's four ordered player-light slots.

use vstd::prelude::*;

verus! {

/// Discrete battery charge level reported with each controller snapshot.
#[derive(Clone, Copy, Debug, PartialEq, Eq, Structural)]
pub enum BatteryLevel {
    Empty,
    Critical,
    Low,
    Medium,
    Full,
}

/// Indicator slots (0-3) that are lit steadily for a battery level.
pub open spec fn steady_lights_spec(level: BatteryLevel) -> Seq<u8> {
    match level {
        BatteryLevel::Empty => Seq::<u8>::empty(),
        BatteryLevel::Critical => Seq::<u8>::empty(),
        BatteryLevel::Low => seq![2u8, 3u8],
        BatteryLevel::Medium => seq![1u8, 2u8, 3u8],
        BatteryLevel::Full => seq![0u8, 1u8, 2u8, 3u8],
    }
}

/// Indicator slots (0-3) that flash for a battery level.
pub open spec fn flash_lights_spec(level: BatteryLevel) -> Seq<u8> {
    match level {
        BatteryLevel::Empty => seq![0u8, 1u8, 2u8, 3u8],
        BatteryLevel::Critical => seq![3u8],
        BatteryLevel::Low => Seq::<u8>::empty(),
        BatteryLevel::Medium => Seq::<u8>::empty(),
        BatteryLevel::Full => Seq::<u8>::empty(),
    }
}

/// The indicator pattern for one battery level: the steadily lit slot
/// positions and the flashing slot positions, both in ascending order.
pub fn get_light_states(battery_level: BatteryLevel) -> (r: (Vec<u8>, Vec<u8>))
    ensures
        r.0@ == steady_lights_spec(battery_level),
        r.1@ == flash_lights_spec(battery_level),
{
    match battery_level {
        BatteryLevel::Empty => (vec![], vec![0u8, 1u8, 2u8, 3u8]),
        BatteryLevel::Critical => (vec![], vec![3u8]),
        BatteryLevel::Low => (vec![2u8, 3u8], vec![]),
        BatteryLevel::Medium => (vec![1u8, 2u8, 3u8], vec![]),
        BatteryLevel::Full => (vec![0u8, 1u8, 2u8, 3u8], vec![]),
    }
}

/// The battery mapping is a pure total function and the five levels yield
/// five pairwise distinct (steady, flashing) pairs; levels at or below
/// Critical light no steady indicator, and Full lights all four steadily
/// with none flashing.
pub proof fn lemma_battery_patterns_distinct(l1: BatteryLevel, l2: BatteryLevel)
    ensures
        l1 != l2 ==> !(steady_lights_spec(l1) =~= steady_lights_spec(l2)
            && flash_lights_spec(l1) =~= flash_lights_spec(l2)),
        steady_lights_spec(BatteryLevel::Empty).len() == 0,
        steady_lights_spec(BatteryLevel::Critical).len() == 0,
        steady_lights_spec(BatteryLevel::Full) =~= seq![0u8, 1u8, 2u8, 3u8],
        flash_lights_spec(BatteryLevel::Full).len() == 0,
{
}

} // verus!
