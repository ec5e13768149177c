//! One step of the per-controller polling loop: edge-detect every bound
//! button between the previous and the current snapshot, classify both
//! sticks, dispatch the affected bindings in a fixed order, and report the
//! indicator pattern when the battery level changed. The step is a pure
//! function from the two snapshots and the previous per-stick zones to an
//! ordered list of effects; performing the effects (key injection, haptic
//! pulse, lights, notifications) is the caller's task.

use vstd::prelude::*;

use crate::battery_light::{flash_lights_spec, get_light_states, steady_lights_spec};
use crate::configuration::{Config, KeyAction};
use crate::input_recognizer::{
    button_down_spec, button_up_spec, classify_spec, is_button_down, is_button_up,
    recognize_stick_slot, Button, Snapshot,
};
use crate::key_sender::{
    activation_events, deactivation_events, notification_spec, send_ev, KeyEvent,
};

verus! {

/// One externally visible effect of a poll step, in dispatch order.
#[derive(Clone, Debug)]
pub enum Effect {
    /// Inject this keyboard event.
    Key(KeyEvent),
    /// Announce this display name to the observer channel (fire-and-forget).
    Notify(String),
    /// Trigger the brief fixed zone-entry haptic pulse.
    RumblePulse,
}

/// The mathematical view of an effect: display names as character
/// sequences.
pub enum EffectView {
    Key(KeyEvent),
    Notify(Seq<char>),
    RumblePulse,
}

/// The view of one effect.
pub open spec fn effect_view(e: Effect) -> EffectView {
    match e {
        Effect::Key(ev) => EffectView::Key(ev),
        Effect::Notify(s) => EffectView::Notify(s@),
        Effect::RumblePulse => EffectView::RumblePulse,
    }
}

/// The view of an effect sequence.
pub open spec fn effects_view(s: Seq<Effect>) -> Seq<EffectView> {
    s.map_values(|e: Effect| effect_view(e))
}

/// Key events lifted into the effect stream.
pub open spec fn key_effects(evs: Seq<KeyEvent>) -> Seq<EffectView> {
    evs.map_values(|e: KeyEvent| EffectView::Key(e))
}

/// The effects of dispatching one action on an activation (`is_down`) or
/// deactivation edge: its key events in order, then — exactly on a
/// successful activation — one notification of the display name.
pub open spec fn dispatch_effects(a: KeyAction, is_down: bool) -> Seq<EffectView> {
    let keys = key_effects(
        if is_down {
            activation_events(a)
        } else {
            deactivation_events(a)
        },
    );
    match notification_spec(a, is_down) {
        Option::Some(n) => keys.push(EffectView::Notify(n)),
        Option::None => keys,
    }
}

/// The effects of checking one button between two snapshots: an activation
/// dispatch on a press edge, a deactivation dispatch on a release edge.
pub open spec fn button_effects(
    last_state: Snapshot,
    state: Snapshot,
    is_left: bool,
    button: Button,
    action: KeyAction,
) -> Seq<EffectView> {
    (if button_down_spec(last_state, state, is_left, button) {
        dispatch_effects(action, true)
    } else {
        Seq::<EffectView>::empty()
    }) + (if button_up_spec(last_state, state, is_left, button) {
        dispatch_effects(action, false)
    } else {
        Seq::<EffectView>::empty()
    })
}

/// The action bound to one of the six zones of a stick. Zone 0 is the arc
/// starting at 0 degrees (top right), continuing counter-clockwise.
pub open spec fn stick_binding_spec(config: Config, is_left: bool, zone: int) -> KeyAction {
    if is_left {
        if zone == 0 {
            config.left_stick_top_right
        } else if zone == 1 {
            config.left_stick_top_center
        } else if zone == 2 {
            config.left_stick_top_left
        } else if zone == 3 {
            config.left_stick_bottom_left
        } else if zone == 4 {
            config.left_stick_bottom_center
        } else {
            config.left_stick_bottom_right
        }
    } else {
        if zone == 0 {
            config.right_stick_top_right
        } else if zone == 1 {
            config.right_stick_top_center
        } else if zone == 2 {
            config.right_stick_top_left
        } else if zone == 3 {
            config.right_stick_bottom_left
        } else if zone == 4 {
            config.right_stick_bottom_center
        } else {
            config.right_stick_bottom_right
        }
    }
}

/// The deactivation dispatch of the zone being left, if any.
pub open spec fn stick_exit_effects(
    config: Config,
    is_left: bool,
    last_zone: Option<usize>,
) -> Seq<EffectView> {
    match last_zone {
        Option::Some(z) => if z < 6 {
            dispatch_effects(stick_binding_spec(config, is_left, z as int), false)
        } else {
            Seq::<EffectView>::empty()
        },
        Option::None => Seq::<EffectView>::empty(),
    }
}

/// The activation dispatch of the zone being entered, if any.
pub open spec fn stick_enter_effects(
    config: Config,
    is_left: bool,
    zone: Option<usize>,
) -> Seq<EffectView> {
    match zone {
        Option::Some(z) => if z < 6 {
            dispatch_effects(stick_binding_spec(config, is_left, z as int), true)
        } else {
            Seq::<EffectView>::empty()
        },
        Option::None => Seq::<EffectView>::empty(),
    }
}

/// The effects of one stick's zone transition: nothing when the zone is
/// unchanged; otherwise one haptic pulse exactly when the new zone is a
/// real zone, then the old zone's deactivation in full, then the new
/// zone's activation.
pub open spec fn stick_effects(
    config: Config,
    is_left: bool,
    last_zone: Option<usize>,
    zone: Option<usize>,
) -> Seq<EffectView> {
    if last_zone == zone {
        Seq::<EffectView>::empty()
    } else {
        (if zone is Some {
            seq![EffectView::RumblePulse]
        } else {
            Seq::<EffectView>::empty()
        }) + stick_exit_effects(config, is_left, last_zone) + stick_enter_effects(
            config,
            is_left,
            zone,
        )
    }
}

fn push_dispatch(effects: &mut Vec<Effect>, action: &KeyAction, is_down: bool)
    ensures
        effects_view(final(effects)@) == effects_view(old(effects)@) + dispatch_effects(
            *action,
            is_down,
        ),
{
    let ghost pre = effects@;
    let (events, note) = send_ev(action, is_down);
    let ghost evs = events@;
    let mut i: usize = 0;
    while i < events.len()
        invariant
            i <= events.len(),
            events@ == evs,
            effects_view(effects@) == effects_view(pre) + key_effects(evs.take(i as int)),
        decreases events.len() - i,
    {
        let ghost before = effects@;
        effects.push(Effect::Key(events[i]));
        proof {
            let ghost k = Effect::Key(evs[i as int]);
            assert(effects_view(before.push(k)) =~= effects_view(before).push(effect_view(k)));
            assert(key_effects(evs.take(i as int)).push(effect_view(k)) =~= key_effects(
                evs.take(i + 1 as int),
            ));
            assert((effects_view(pre) + key_effects(evs.take(i as int))).push(effect_view(k))
                =~= effects_view(pre) + key_effects(evs.take(i as int)).push(effect_view(k)));
        }
        i += 1;
    }
    proof {
        assert(evs.take(evs.len() as int) =~= evs);
    }
    match note {
        Option::Some(n) => {
            let ghost before = effects@;
            let ghost x = Effect::Notify(n);
            effects.push(Effect::Notify(n));
            proof {
                assert(effects_view(before.push(x)) =~= effects_view(before).push(effect_view(x)));
                assert(dispatch_effects(*action, is_down) == key_effects(evs).push(
                    effect_view(x),
                ));
                assert((effects_view(pre) + key_effects(evs)).push(effect_view(x))
                    =~= effects_view(pre) + key_effects(evs).push(effect_view(x)));
            }
        },
        Option::None => {
            proof {
                assert(effects_view(effects@) =~= effects_view(pre) + dispatch_effects(
                    *action,
                    is_down,
                ));
            }
        },
    }
}

/// The effects of checking one bound button between two consecutive
/// snapshots.
pub fn handle_button_action(
    last_state: &Snapshot,
    state: &Snapshot,
    is_left: bool,
    button: Button,
    action: &KeyAction,
) -> (effects: Vec<Effect>)
    ensures
        effects_view(effects@) == button_effects(*last_state, *state, is_left, button, *action),
{
    let mut effects: Vec<Effect> = Vec::new();
    proof {
        assert(effects_view(effects@) =~= Seq::<EffectView>::empty());
    }
    if is_button_down(last_state, state, is_left, button) {
        push_dispatch(&mut effects, action, true);
    }
    if is_button_up(last_state, state, is_left, button) {
        push_dispatch(&mut effects, action, false);
    }
    proof {
        assert(effects_view(effects@) =~= button_effects(
            *last_state,
            *state,
            is_left,
            button,
            *action,
        ));
    }
    effects
}

/// The action bound to one zone of a stick.
pub fn stick_binding<'a>(config: &'a Config, is_left: bool, zone: usize) -> (action: &'a KeyAction)
    requires
        zone < 6,
    ensures
        *action == stick_binding_spec(*config, is_left, zone as int),
{
    if is_left {
        if zone == 0 {
            &config.left_stick_top_right
        } else if zone == 1 {
            &config.left_stick_top_center
        } else if zone == 2 {
            &config.left_stick_top_left
        } else if zone == 3 {
            &config.left_stick_bottom_left
        } else if zone == 4 {
            &config.left_stick_bottom_center
        } else {
            &config.left_stick_bottom_right
        }
    } else {
        if zone == 0 {
            &config.right_stick_top_right
        } else if zone == 1 {
            &config.right_stick_top_center
        } else if zone == 2 {
            &config.right_stick_top_left
        } else if zone == 3 {
            &config.right_stick_bottom_left
        } else if zone == 4 {
            &config.right_stick_bottom_center
        } else {
            &config.right_stick_bottom_right
        }
    }
}

/// The effects of one stick's zone transition between two polls: the old
/// zone's binding deactivates in full before the new zone's binding
/// activates, and a haptic pulse accompanies every transition into a real
/// zone.
pub fn handle_stick_action(
    config: &Config,
    is_left: bool,
    last_stick: Option<usize>,
    stick: Option<usize>,
) -> (effects: Vec<Effect>)
    ensures
        effects_view(effects@) == stick_effects(*config, is_left, last_stick, stick),
{
    let same = match (&last_stick, &stick) {
        (Option::Some(a), Option::Some(b)) => *a == *b,
        (Option::None, Option::None) => true,
        _ => false,
    };
    let mut effects: Vec<Effect> = Vec::new();
    proof {
        assert(effects_view(effects@) =~= Seq::<EffectView>::empty());
    }
    if same {
        return effects;
    }
    if stick.is_some() {
        effects.push(Effect::RumblePulse);
        proof {
            assert(effects_view(effects@) =~= seq![EffectView::RumblePulse]);
        }
    }
    match last_stick {
        Option::Some(z) => {
            if z < 6 {
                push_dispatch(&mut effects, stick_binding(config, is_left, z), false);
            }
        },
        Option::None => {},
    }
    match stick {
        Option::Some(z) => {
            if z < 6 {
                push_dispatch(&mut effects, stick_binding(config, is_left, z), true);
            }
        },
        Option::None => {},
    }
    proof {
        assert(effects_view(effects@) =~= stick_effects(*config, is_left, last_stick, stick));
    }
    effects
}

/// The effects of edge-checking every bound button of both controller
/// halves, in the fixed dispatch order of one poll step.
pub open spec fn buttons_effects(config: Config, last_state: Snapshot, state: Snapshot) -> Seq<
    EffectView,
> {
    button_effects(last_state, state, true, Button::ZL, config.zl) + button_effects(
        last_state,
        state,
        true,
        Button::L,
        config.l,
    ) + button_effects(last_state, state, true, Button::Minus, config.minus) + button_effects(
        last_state,
        state,
        true,
        Button::LStick,
        config.left_stick,
    ) + button_effects(last_state, state, true, Button::Up, config.up) + button_effects(
        last_state,
        state,
        true,
        Button::Down,
        config.down,
    ) + button_effects(last_state, state, true, Button::Left, config.left) + button_effects(
        last_state,
        state,
        true,
        Button::Right,
        config.right,
    ) + button_effects(last_state, state, true, Button::SL, config.left_sl) + button_effects(
        last_state,
        state,
        true,
        Button::SR,
        config.left_sr,
    ) + button_effects(last_state, state, true, Button::Capture, config.capture) + button_effects(
        last_state,
        state,
        false,
        Button::ZR,
        config.zr,
    ) + button_effects(last_state, state, false, Button::R, config.r) + button_effects(
        last_state,
        state,
        false,
        Button::Plus,
        config.plus,
    ) + button_effects(last_state, state, false, Button::RStick, config.right_stick)
        + button_effects(last_state, state, false, Button::A, config.a) + button_effects(
        last_state,
        state,
        false,
        Button::B,
        config.b,
    ) + button_effects(last_state, state, false, Button::X, config.x) + button_effects(
        last_state,
        state,
        false,
        Button::Y,
        config.y,
    ) + button_effects(last_state, state, false, Button::Home, config.home) + button_effects(
        last_state,
        state,
        false,
        Button::SL,
        config.right_sl,
    ) + button_effects(last_state, state, false, Button::SR, config.right_sr)
}

/// Every effect of one poll step, in order: all button dispatches, then the
/// left stick's transition, then the right stick's.
pub open spec fn poll_effects(
    config: Config,
    last_state: Snapshot,
    state: Snapshot,
    last_left_stick: Option<usize>,
    new_left_stick: Option<usize>,
    last_right_stick: Option<usize>,
    new_right_stick: Option<usize>,
) -> Seq<EffectView> {
    buttons_effects(config, last_state, state) + stick_effects(
        config,
        true,
        last_left_stick,
        new_left_stick,
    ) + stick_effects(config, false, last_right_stick, new_right_stick)
}

/// The outcome of one poll step: the indicator pattern to push when the
/// battery level changed, the ordered effects to perform, and the two
/// sticks' zones to carry to the next poll.
pub struct PollOutput {
    pub lights: Option<(Vec<u8>, Vec<u8>)>,
    pub effects: Vec<Effect>,
    pub new_left_stick: Option<usize>,
    pub new_right_stick: Option<usize>,
}

fn append_effects(dst: &mut Vec<Effect>, src: Vec<Effect>)
    ensures
        effects_view(final(dst)@) == effects_view(old(dst)@) + effects_view(src@),
{
    let ghost src_view = src@;
    let mut src = src;
    dst.append(&mut src);
    proof {
        assert(effects_view(dst@) =~= effects_view(old(dst)@) + effects_view(src_view));
    }
}

/// One full poll-step decision, against the previous snapshot and the two
/// sticks' previously reported zones (six zones per stick, no angular
/// offset). The two angle arguments are the whole-degree floors of the
/// recentered stick readings' angles, which take floating point to compute
/// and so come from the caller.
///
/// The indicator pattern is reported exactly when the battery level
/// changed between the snapshots (change-triggered refresh policy).
pub fn poll_step(
    config: &Config,
    last_state: &Snapshot,
    state: &Snapshot,
    last_left_stick: Option<usize>,
    last_right_stick: Option<usize>,
    left_angle_floor_deg: i32,
    right_angle_floor_deg: i32,
) -> (out: PollOutput)
    requires
        -180 <= left_angle_floor_deg <= 180,
        -180 <= right_angle_floor_deg <= 180,
    ensures
        out.new_left_stick == classify_spec(
            6,
            0,
            last_left_stick,
            state.left_stick,
            left_angle_floor_deg as int,
        ),
        out.new_right_stick == classify_spec(
            6,
            0,
            last_right_stick,
            state.right_stick,
            right_angle_floor_deg as int,
        ),
        match out.lights {
            Option::Some(p) => state.battery != last_state.battery && p.0@ == steady_lights_spec(
                state.battery,
            ) && p.1@ == flash_lights_spec(state.battery),
            Option::None => state.battery == last_state.battery,
        },
        effects_view(out.effects@) == poll_effects(
            *config,
            *last_state,
            *state,
            last_left_stick,
            out.new_left_stick,
            last_right_stick,
            out.new_right_stick,
        ),
{
    let lights = if state.battery != last_state.battery {
        Option::Some(get_light_states(state.battery))
    } else {
        Option::None
    };

    let mut effects: Vec<Effect> = Vec::new();
    proof {
        assert(effects_view(effects@) =~= Seq::<EffectView>::empty());
    }
    append_effects(&mut effects, handle_button_action(last_state, state, true, Button::ZL, &config.zl));
    append_effects(&mut effects, handle_button_action(last_state, state, true, Button::L, &config.l));
    append_effects(&mut effects, handle_button_action(last_state, state, true, Button::Minus, &config.minus));
    append_effects(&mut effects, handle_button_action(last_state, state, true, Button::LStick, &config.left_stick));
    append_effects(&mut effects, handle_button_action(last_state, state, true, Button::Up, &config.up));
    append_effects(&mut effects, handle_button_action(last_state, state, true, Button::Down, &config.down));
    append_effects(&mut effects, handle_button_action(last_state, state, true, Button::Left, &config.left));
    append_effects(&mut effects, handle_button_action(last_state, state, true, Button::Right, &config.right));
    append_effects(&mut effects, handle_button_action(last_state, state, true, Button::SL, &config.left_sl));
    append_effects(&mut effects, handle_button_action(last_state, state, true, Button::SR, &config.left_sr));
    append_effects(&mut effects, handle_button_action(last_state, state, true, Button::Capture, &config.capture));
    append_effects(&mut effects, handle_button_action(last_state, state, false, Button::ZR, &config.zr));
    append_effects(&mut effects, handle_button_action(last_state, state, false, Button::R, &config.r));
    append_effects(&mut effects, handle_button_action(last_state, state, false, Button::Plus, &config.plus));
    append_effects(&mut effects, handle_button_action(last_state, state, false, Button::RStick, &config.right_stick));
    append_effects(&mut effects, handle_button_action(last_state, state, false, Button::A, &config.a));
    append_effects(&mut effects, handle_button_action(last_state, state, false, Button::B, &config.b));
    append_effects(&mut effects, handle_button_action(last_state, state, false, Button::X, &config.x));
    append_effects(&mut effects, handle_button_action(last_state, state, false, Button::Y, &config.y));
    append_effects(&mut effects, handle_button_action(last_state, state, false, Button::Home, &config.home));
    append_effects(&mut effects, handle_button_action(last_state, state, false, Button::SL, &config.right_sl));
    append_effects(&mut effects, handle_button_action(last_state, state, false, Button::SR, &config.right_sr));
    proof {
        assert(effects_view(effects@) =~= buttons_effects(*config, *last_state, *state));
    }

    let new_left_stick = recognize_stick_slot(
        6,
        0,
        last_left_stick,
        &state.left_stick,
        left_angle_floor_deg,
    );
    append_effects(&mut effects, handle_stick_action(config, true, last_left_stick, new_left_stick));

    let new_right_stick = recognize_stick_slot(
        6,
        0,
        last_right_stick,
        &state.right_stick,
        right_angle_floor_deg,
    );
    append_effects(&mut effects, handle_stick_action(config, false, last_right_stick, new_right_stick));

    proof {
        assert(effects_view(effects@) =~= poll_effects(
            *config,
            *last_state,
            *state,
            last_left_stick,
            new_left_stick,
            last_right_stick,
            new_right_stick,
        ));
    }
    PollOutput { lights, effects, new_left_stick, new_right_stick }
}

} // verus!
