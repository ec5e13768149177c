//! Input recognition: edge detection on pressed-button sets of two
//! consecutive controller snapshots, and hysteresis-based classification of
//! an analog stick reading into one of `slot_count` angular zones.

use vstd::arithmetic::div_mod::{
    lemma_fundamental_div_mod_converse, lemma_mod_multiples_vanish, lemma_mod_pos_bound,
    lemma_multiply_divide_lt,
};
use vstd::prelude::*;

use crate::battery_light::BatteryLevel;

verus! {

/// A physical controller button. Buttons owned by one controller half
/// (such as the triggers) are reported in that half's pressed set; buttons
/// present on either half's layout (such as SL and SR) are reported in the
/// shared set.
#[derive(Clone, Copy, Debug, PartialEq, Eq, Structural)]
pub enum Button {
    A,
    X,
    Y,
    B,
    Plus,
    RStick,
    Home,
    R,
    ZR,
    Right,
    Up,
    Left,
    Down,
    Minus,
    LStick,
    Capture,
    L,
    ZL,
    SL,
    SR,
    ChargingGrip,
}

/// One analog stick's raw reading: unsigned sub-pixel coordinates with the
/// mechanical center near (2048, 2048).
#[derive(Clone, Copy, Debug, PartialEq, Eq, Structural)]
pub struct StickReading {
    pub horizontal: u16,
    pub vertical: u16,
}

/// One polled reading of the full controller state: the pressed buttons
/// (left-half, right-half and shared sets), both stick readings, and the
/// battery level.
#[derive(Clone, Debug)]
pub struct Snapshot {
    pub left_pressed: Vec<Button>,
    pub right_pressed: Vec<Button>,
    pub shared_pressed: Vec<Button>,
    pub left_stick: StickReading,
    pub right_stick: StickReading,
    pub battery: BatteryLevel,
}

/// Whether `button` counts as pressed in `s` when queried for the given
/// controller half: it is in that half's own pressed set or in the shared
/// set.
pub open spec fn pressed_spec(s: Snapshot, is_left: bool, button: Button) -> bool {
    (if is_left {
        s.left_pressed@.contains(button)
    } else {
        s.right_pressed@.contains(button)
    }) || s.shared_pressed@.contains(button)
}

/// A release-to-press transition between two consecutive snapshots.
pub open spec fn button_down_spec(
    last_state: Snapshot,
    state: Snapshot,
    is_left: bool,
    button: Button,
) -> bool {
    !pressed_spec(last_state, is_left, button) && pressed_spec(state, is_left, button)
}

/// A press-to-release transition between two consecutive snapshots.
pub open spec fn button_up_spec(
    last_state: Snapshot,
    state: Snapshot,
    is_left: bool,
    button: Button,
) -> bool {
    pressed_spec(last_state, is_left, button) && !pressed_spec(state, is_left, button)
}

fn buttons_contain(buttons: &Vec<Button>, button: Button) -> (r: bool)
    ensures
        r == buttons@.contains(button),
{
    let mut i: usize = 0;
    while i < buttons.len()
        invariant
            i <= buttons.len(),
            forall|j: int| 0 <= j < i ==> buttons@[j] != button,
        decreases buttons.len() - i,
    {
        if buttons[i] == button {
            return true;
        }
        i += 1;
    }
    false
}

/// Whether `button` is pressed in `state`, queried for the left or right
/// controller half.
pub fn is_button_press(state: &Snapshot, is_left: bool, button: Button) -> (r: bool)
    ensures
        r == pressed_spec(*state, is_left, button),
{
    if is_left {
        buttons_contain(&state.left_pressed, button) || buttons_contain(
            &state.shared_pressed,
            button,
        )
    } else {
        buttons_contain(&state.right_pressed, button) || buttons_contain(
            &state.shared_pressed,
            button,
        )
    }
}

/// True iff `button` was released in `last_state` and is pressed in `state`.
pub fn is_button_down(
    last_state: &Snapshot,
    state: &Snapshot,
    is_left: bool,
    button: Button,
) -> (r: bool)
    ensures
        r == button_down_spec(*last_state, *state, is_left, button),
{
    !is_button_press(last_state, is_left, button) && is_button_press(state, is_left, button)
}

/// True iff `button` was pressed in `last_state` and is released in `state`.
pub fn is_button_up(
    last_state: &Snapshot,
    state: &Snapshot,
    is_left: bool,
    button: Button,
) -> (r: bool)
    ensures
        r == button_up_spec(*last_state, *state, is_left, button),
{
    is_button_press(last_state, is_left, button) && !is_button_press(state, is_left, button)
}

/// Swapping the two snapshots turns a press edge into the matching release
/// edge: `is_button_down(p, c, ..)` equals `is_button_up(c, p, ..)`.
pub proof fn lemma_edge_symmetry(p: Snapshot, c: Snapshot, is_left: bool, button: Button)
    ensures
        button_down_spec(p, c, is_left, button) == button_up_spec(c, p, is_left, button),
{
}

/// One transition never reports a button both down and up.
pub proof fn lemma_edge_exclusive(p: Snapshot, c: Snapshot, is_left: bool, button: Button)
    ensures
        !(button_down_spec(p, c, is_left, button) && button_up_spec(p, c, is_left, button)),
{
}

/// Raw coordinate of the stick's mechanical center.
pub const STICK_CENTER: i64 = 2048;

/// A stick at rest must move farther than this radius (in raw units) from
/// the center before it registers a zone.
pub const DEAD_ZONE_ENTER: i64 = 1000;

/// A stick already in a zone stays classified until it returns closer to
/// the center than this radius (in raw units). Strictly smaller than
/// `DEAD_ZONE_ENTER`, which suppresses flicker at the boundary radius; both
/// radii are tunable constants.
pub const DEAD_ZONE_EXIT: i64 = 900;

/// The stick reading recentered around zero, horizontal component.
pub open spec fn centered_x(stick: StickReading) -> int {
    stick.horizontal as int - STICK_CENTER as int
}

/// The stick reading recentered around zero, vertical component.
pub open spec fn centered_y(stick: StickReading) -> int {
    stick.vertical as int - STICK_CENTER as int
}

/// Squared distance of the recentered reading from the center.
pub open spec fn sqr_dist_spec(stick: StickReading) -> int {
    centered_x(stick) * centered_x(stick) + centered_y(stick) * centered_y(stick)
}

/// A whole-circle angle in degrees brought into [0, 360).
pub open spec fn normalized_deg(deg: int) -> int {
    deg % 360
}

/// Width in degrees of one angular zone.
pub open spec fn zone_width(slot_count: int) -> int {
    360int / slot_count
}

/// The index of the angular zone containing `deg`, for `deg` in [0, 360):
/// zone `i` is the half-open arc [i * width, (i + 1) * width).
pub open spec fn zone_of_deg(slot_count: int, deg: int) -> int {
    deg / zone_width(slot_count)
}

/// Whether `deg` lies in zone `i`'s half-open arc.
pub open spec fn arc_contains(slot_count: int, i: int, deg: int) -> bool {
    zone_width(slot_count) * i <= deg < zone_width(slot_count) * (i + 1)
}

/// The zone classification of one stick reading, given the previously
/// reported zone (for hysteresis) and the reading's whole-degree angle
/// before the configured offset is applied.
pub open spec fn classify_spec(
    slot_count: int,
    deg_offset: int,
    last_result: Option<usize>,
    stick: StickReading,
    angle_floor_deg: int,
) -> Option<usize> {
    let threshold = if last_result is Some {
        (DEAD_ZONE_EXIT as int) * (DEAD_ZONE_EXIT as int)
    } else {
        (DEAD_ZONE_ENTER as int) * (DEAD_ZONE_ENTER as int)
    };
    if sqr_dist_spec(stick) <= threshold {
        Option::None
    } else {
        Option::Some(
            zone_of_deg(slot_count, normalized_deg(angle_floor_deg + deg_offset)) as usize,
        )
    }
}

/// Classifies one stick reading into an angular zone, or `None` when the
/// stick is inside the dead zone.
///
/// `angle_floor_deg` is the whole-degree floor of the recentered reading's
/// angle (`atan2(centered_y, centered_x)` in degrees); computing it needs
/// floating point and is the caller's task. It is ignored whenever the
/// distance test fails.
///
/// Hysteresis: with `last_result` `None` the squared distance must exceed
/// the enter threshold; with `last_result` `Some` it only needs to exceed
/// the strictly smaller exit threshold to stay classified.
pub fn recognize_stick_slot(
    slot_count: usize,
    deg_offset: i32,
    last_result: Option<usize>,
    stick: &StickReading,
    angle_floor_deg: i32,
) -> (r: Option<usize>)
    requires
        0 < slot_count <= 360,
        360int % (slot_count as int) == 0,
        -180 <= angle_floor_deg <= 180,
    ensures
        r == classify_spec(
            slot_count as int,
            deg_offset as int,
            last_result,
            *stick,
            angle_floor_deg as int,
        ),
{
    let x: i64 = stick.horizontal as i64 - STICK_CENTER;
    let y: i64 = stick.vertical as i64 - STICK_CENTER;
    proof {
        assert(0 <= x * x <= 63487 * 63487) by (nonlinear_arith)
            requires
                -2048 <= x <= 63487,
        ;
        assert(0 <= y * y <= 63487 * 63487) by (nonlinear_arith)
            requires
                -2048 <= y <= 63487,
        ;
    }
    let sqr_dist: i64 = x * x + y * y;

    let inside_dead_zone = match last_result {
        Option::Some(_) => sqr_dist <= DEAD_ZONE_EXIT * DEAD_ZONE_EXIT,
        Option::None => sqr_dist <= DEAD_ZONE_ENTER * DEAD_ZONE_ENTER,
    };
    if inside_dead_zone {
        return Option::None;
    }

    // Normalize angle + offset into [0, 360): shift by a multiple of 360
    // large enough to make the sum non-negative, then reduce.
    let shifted: u64 = ((angle_floor_deg as i64 + deg_offset as i64) + 360 * 5965233) as u64;
    let deg: u64 = shifted % 360;
    proof {
        lemma_mod_multiples_vanish(
            5965233,
            angle_floor_deg as int + deg_offset as int,
            360,
        );
    }

    let socket_degrees: u64 = (360 / slot_count) as u64;
    proof {
        lemma_zone_width_times_count(slot_count as int);
    }
    let zone: u64 = deg / socket_degrees;
    proof {
        lemma_multiply_divide_lt(deg as int, socket_degrees as int, slot_count as int);
    }
    Option::Some(zone as usize)
}

/// The zone width is positive and `zone_width * slot_count` recovers the
/// full circle whenever `slot_count` evenly divides 360.
pub proof fn lemma_zone_width_times_count(slot_count: int)
    requires
        0 < slot_count <= 360,
        360int % slot_count == 0,
    ensures
        zone_width(slot_count) * slot_count == 360,
        0 < zone_width(slot_count) <= 360,
{
    let sd = zone_width(slot_count);
    vstd::arithmetic::div_mod::lemma_fundamental_div_mod(360, slot_count);
    assert(360int == slot_count * sd);
    assert(slot_count * sd == sd * slot_count) by (nonlinear_arith);
    assert(0 < sd <= 360) by (nonlinear_arith)
        requires
            sd * slot_count == 360,
            0 < slot_count <= 360,
    ;
}

/// The angular partition is exhaustive and disjoint: every degree in
/// [0, 360) lies in exactly one zone's arc, namely the one `zone_of_deg`
/// names, whenever `slot_count` evenly divides 360.
pub proof fn lemma_partition_exhaustive_disjoint(slot_count: int, deg: int)
    requires
        0 < slot_count <= 360,
        360int % slot_count == 0,
        0 <= deg < 360,
    ensures
        0 <= zone_of_deg(slot_count, deg) < slot_count,
        forall|i: int|
            arc_contains(slot_count, i, deg) <==> i == zone_of_deg(slot_count, deg),
{
    let sd = zone_width(slot_count);
    lemma_zone_width_times_count(slot_count);
    lemma_multiply_divide_lt(deg, sd, slot_count);
    assert(0 <= zone_of_deg(slot_count, deg)) by {
        vstd::arithmetic::div_mod::lemma_div_pos_is_pos(deg, sd);
    };
    assert forall|i: int| arc_contains(slot_count, i, deg) implies i == zone_of_deg(
        slot_count,
        deg,
    ) by {
        assert(sd * (i + 1) == sd * i + sd) by (nonlinear_arith);
        assert(deg == i * sd + (deg - sd * i)) by (nonlinear_arith);
        lemma_fundamental_div_mod_converse(deg, sd, i, deg - sd * i);
    };
    assert forall|i: int| i == zone_of_deg(slot_count, deg) implies arc_contains(
        slot_count,
        i,
        deg,
    ) by {
        vstd::arithmetic::div_mod::lemma_fundamental_div_mod(deg, sd);
        lemma_mod_pos_bound(deg, sd);
        assert(deg == sd * (deg / sd) + deg % sd);
        assert(sd * (i + 1) == sd * i + sd) by (nonlinear_arith);
    };
}

/// Hysteresis: a reading whose squared distance lies strictly between the
/// exit and enter thresholds is rejected when the stick was at rest, but is
/// still classified by its angle when a zone was previously reported; in
/// particular, when the angle falls inside the prior zone's own arc the
/// prior zone is retained.
pub proof fn lemma_hysteresis(
    slot_count: int,
    deg_offset: int,
    stick: StickReading,
    angle_floor_deg: int,
    z: usize,
)
    requires
        0 < slot_count <= 360,
        360int % slot_count == 0,
        (DEAD_ZONE_EXIT as int) * (DEAD_ZONE_EXIT as int) < sqr_dist_spec(stick),
        sqr_dist_spec(stick) <= (DEAD_ZONE_ENTER as int) * (DEAD_ZONE_ENTER as int),
    ensures
        classify_spec(slot_count, deg_offset, Option::None, stick, angle_floor_deg)
            is None,
        classify_spec(slot_count, deg_offset, Option::Some(z), stick, angle_floor_deg)
            == Option::Some(
            zone_of_deg(slot_count, normalized_deg(angle_floor_deg + deg_offset)) as usize,
        ),
        arc_contains(
            slot_count,
            z as int,
            normalized_deg(angle_floor_deg + deg_offset),
        ) ==> classify_spec(slot_count, deg_offset, Option::Some(z), stick, angle_floor_deg)
            == Option::Some(z),
{
    let norm = normalized_deg(angle_floor_deg + deg_offset);
    vstd::arithmetic::div_mod::lemma_mod_bound(angle_floor_deg + deg_offset, 360);
    lemma_partition_exhaustive_disjoint(slot_count, norm);
    if arc_contains(slot_count, z as int, norm) {
        assert(z as int == zone_of_deg(slot_count, norm));
    }
}

} // verus!
