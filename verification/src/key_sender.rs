//! Action dispatch: turns one configured key action and an
//! activation/deactivation edge into the exact sequence of virtual-key press
//! and release events to inject, plus the display name to announce on a
//! successful activation.

use vstd::prelude::*;

use crate::configuration::{Key, KeyAction, KeyCombination};

verus! {

/// One synthesized keyboard event: a virtual-key code, pressed or released.
#[derive(Clone, Copy, Debug, PartialEq, Eq, Structural)]
pub struct KeyEvent {
    pub code: u16,
    pub down: bool,
}

/// Virtual-key code of the Alt modifier.
pub const VK_ALT_CODE: u16 = 0x12;

/// Virtual-key code of the Shift modifier.
pub const VK_SHIFT_CODE: u16 = 0x10;

/// Virtual-key code of the Ctrl modifier.
pub const VK_CTRL_CODE: u16 = 0x11;

/// Relies on win_key_codes::VK_MENU, the OS virtual-key code of the Alt
/// modifier, defined there as the constant 0x12.
#[verifier::external_body]
fn vk_alt() -> (r: u16)
    ensures
        r == VK_ALT_CODE,
{
    win_key_codes::VK_MENU as u16
}

/// Relies on win_key_codes::VK_SHIFT, the OS virtual-key code of the Shift
/// modifier, defined there as the constant 0x10.
#[verifier::external_body]
fn vk_shift() -> (r: u16)
    ensures
        r == VK_SHIFT_CODE,
{
    win_key_codes::VK_SHIFT as u16
}

/// Relies on win_key_codes::VK_CONTROL, the OS virtual-key code of the Ctrl
/// modifier, defined there as the constant 0x11.
#[verifier::external_body]
fn vk_ctrl() -> (r: u16)
    ensures
        r == VK_CTRL_CODE,
{
    win_key_codes::VK_CONTROL as u16
}

/// A press of `code`.
pub open spec fn press(code: u16) -> KeyEvent {
    KeyEvent { code, down: true }
}

/// A release of `code`.
pub open spec fn release(code: u16) -> KeyEvent {
    KeyEvent { code, down: false }
}

/// The presses of a combination's active modifiers, in the fixed order
/// Alt, then Shift, then Ctrl.
pub open spec fn modifiers_down(k: KeyCombination) -> Seq<KeyEvent> {
    (if k.alt {
        seq![press(VK_ALT_CODE)]
    } else {
        Seq::<KeyEvent>::empty()
    }) + (if k.shift {
        seq![press(VK_SHIFT_CODE)]
    } else {
        Seq::<KeyEvent>::empty()
    }) + (if k.ctrl {
        seq![press(VK_CTRL_CODE)]
    } else {
        Seq::<KeyEvent>::empty()
    })
}

/// The releases of a combination's active modifiers, in the same fixed
/// order Alt, then Shift, then Ctrl.
pub open spec fn modifiers_up(k: KeyCombination) -> Seq<KeyEvent> {
    (if k.alt {
        seq![release(VK_ALT_CODE)]
    } else {
        Seq::<KeyEvent>::empty()
    }) + (if k.shift {
        seq![release(VK_SHIFT_CODE)]
    } else {
        Seq::<KeyEvent>::empty()
    }) + (if k.ctrl {
        seq![release(VK_CTRL_CODE)]
    } else {
        Seq::<KeyEvent>::empty()
    })
}

/// The press of a combination's main key, or nothing for the null key.
pub open spec fn main_key_down(k: KeyCombination) -> Seq<KeyEvent> {
    if k.key == Key::NoKey {
        Seq::<KeyEvent>::empty()
    } else {
        seq![press(k.key.code_spec())]
    }
}

/// The release of a combination's main key, or nothing for the null key.
pub open spec fn main_key_up(k: KeyCombination) -> Seq<KeyEvent> {
    if k.key == Key::NoKey {
        Seq::<KeyEvent>::empty()
    } else {
        seq![release(k.key.code_spec())]
    }
}

/// The event sequence emitted when an action activates: nothing for a
/// no-op; modifiers then the main key for a hold; modifiers, one
/// press-then-release of the main key, then the modifier releases for a
/// click.
pub open spec fn activation_events(a: KeyAction) -> Seq<KeyEvent> {
    match a {
        KeyAction::NoOp => Seq::<KeyEvent>::empty(),
        KeyAction::KeyHold(k) => modifiers_down(k) + main_key_down(k),
        KeyAction::KeyClick(k) => modifiers_down(k) + main_key_down(k) + main_key_up(k)
            + modifiers_up(k),
    }
}

/// The event sequence emitted when an action deactivates: the main key
/// release then the modifier releases for a hold; nothing for a no-op or a
/// click (clicks have no sustained state).
pub open spec fn deactivation_events(a: KeyAction) -> Seq<KeyEvent> {
    match a {
        KeyAction::NoOp => Seq::<KeyEvent>::empty(),
        KeyAction::KeyHold(k) => main_key_up(k) + modifiers_up(k),
        KeyAction::KeyClick(_) => Seq::<KeyEvent>::empty(),
    }
}

/// The display name announced by a dispatch: the action's name on a hold or
/// click activation, nothing otherwise.
pub open spec fn notification_spec(a: KeyAction, is_down: bool) -> Option<Seq<char>> {
    if is_down {
        match a {
            KeyAction::NoOp => Option::None,
            KeyAction::KeyHold(k) => Option::Some(k.name@),
            KeyAction::KeyClick(k) => Option::Some(k.name@),
        }
    } else {
        Option::None
    }
}

/// The view of an optional display name.
pub open spec fn notification_view(n: Option<String>) -> Option<Seq<char>> {
    match n {
        Option::Some(s) => Option::Some(s@),
        Option::None => Option::None,
    }
}

fn push_modifiers(events: &mut Vec<KeyEvent>, k: &KeyCombination, down: bool)
    ensures
        final(events)@ == old(events)@ + if down {
            modifiers_down(*k)
        } else {
            modifiers_up(*k)
        },
{
    if k.alt {
        events.push(KeyEvent { code: vk_alt(), down });
    }
    if k.shift {
        events.push(KeyEvent { code: vk_shift(), down });
    }
    if k.ctrl {
        events.push(KeyEvent { code: vk_ctrl(), down });
    }
    proof {
        assert(events@ =~= old(events)@ + if down {
            modifiers_down(*k)
        } else {
            modifiers_up(*k)
        });
    }
}

/// The event sequence and the display name to announce for one dispatch of
/// `key_action`: `is_down` true means the bound control is activating,
/// false that it is deactivating.
pub fn send_ev(key_action: &KeyAction, is_down: bool) -> (r: (Vec<KeyEvent>, Option<String>))
    ensures
        r.0@ == if is_down {
            activation_events(*key_action)
        } else {
            deactivation_events(*key_action)
        },
        notification_view(r.1) == notification_spec(*key_action, is_down),
{
    let mut events: Vec<KeyEvent> = Vec::new();
    if is_down {
        match key_action {
            KeyAction::NoOp => (events, Option::None),
            KeyAction::KeyHold(k) => {
                push_modifiers(&mut events, k, true);
                if !matches!(k.key, Key::NoKey) {
                    events.push(KeyEvent { code: k.key.code(), down: true });
                }
                proof {
                    assert(events@ =~= activation_events(*key_action));
                }
                (events, Option::Some(k.name.clone()))
            },
            KeyAction::KeyClick(k) => {
                push_modifiers(&mut events, k, true);
                if !matches!(k.key, Key::NoKey) {
                    events.push(KeyEvent { code: k.key.code(), down: true });
                    events.push(KeyEvent { code: k.key.code(), down: false });
                }
                push_modifiers(&mut events, k, false);
                proof {
                    assert(events@ =~= activation_events(*key_action));
                }
                (events, Option::Some(k.name.clone()))
            },
        }
    } else {
        match key_action {
            KeyAction::NoOp => (events, Option::None),
            KeyAction::KeyHold(k) => {
                if !matches!(k.key, Key::NoKey) {
                    events.push(KeyEvent { code: k.key.code(), down: false });
                }
                push_modifiers(&mut events, k, false);
                proof {
                    assert(events@ =~= deactivation_events(*key_action));
                }
                (events, Option::None)
            },
            KeyAction::KeyClick(_) => (events, Option::None),
        }
    }
}

/// Presses of `code` minus releases of `code` in an event sequence: the
/// net number of times `code` is left held down.
pub open spec fn net_presses(s: Seq<KeyEvent>, code: u16) -> int
    decreases s.len(),
{
    if s.len() == 0 {
        0
    } else {
        net_presses(s.drop_last(), code) + if s.last().code == code {
            if s.last().down {
                1int
            } else {
                -1int
            }
        } else {
            0int
        }
    }
}

/// How often event `e` occurs in an event sequence.
pub open spec fn count_event(s: Seq<KeyEvent>, e: KeyEvent) -> int
    decreases s.len(),
{
    if s.len() == 0 {
        0
    } else {
        count_event(s.drop_last(), e) + if s.last() == e {
            1int
        } else {
            0int
        }
    }
}

proof fn lemma_net_presses_concat(a: Seq<KeyEvent>, b: Seq<KeyEvent>, code: u16)
    ensures
        net_presses(a + b, code) == net_presses(a, code) + net_presses(b, code),
    decreases b.len(),
{
    if b.len() == 0 {
        assert(a + b =~= a);
    } else {
        assert((a + b).drop_last() =~= a + b.drop_last());
        lemma_net_presses_concat(a, b.drop_last(), code);
    }
}

proof fn lemma_count_event_concat(a: Seq<KeyEvent>, b: Seq<KeyEvent>, e: KeyEvent)
    ensures
        count_event(a + b, e) == count_event(a, e) + count_event(b, e),
    decreases b.len(),
{
    if b.len() == 0 {
        assert(a + b =~= a);
    } else {
        assert((a + b).drop_last() =~= a + b.drop_last());
        lemma_count_event_concat(a, b.drop_last(), e);
    }
}

proof fn lemma_modifiers_net(k: KeyCombination, code: u16)
    ensures
        net_presses(modifiers_down(k), code) + net_presses(modifiers_up(k), code) == 0,
        net_presses(modifiers_down(k), code) >= 0,
{
    let alt_d = if k.alt {
        seq![press(VK_ALT_CODE)]
    } else {
        Seq::<KeyEvent>::empty()
    };
    let shift_d = if k.shift {
        seq![press(VK_SHIFT_CODE)]
    } else {
        Seq::<KeyEvent>::empty()
    };
    let ctrl_d = if k.ctrl {
        seq![press(VK_CTRL_CODE)]
    } else {
        Seq::<KeyEvent>::empty()
    };
    let alt_u = if k.alt {
        seq![release(VK_ALT_CODE)]
    } else {
        Seq::<KeyEvent>::empty()
    };
    let shift_u = if k.shift {
        seq![release(VK_SHIFT_CODE)]
    } else {
        Seq::<KeyEvent>::empty()
    };
    let ctrl_u = if k.ctrl {
        seq![release(VK_CTRL_CODE)]
    } else {
        Seq::<KeyEvent>::empty()
    };
    lemma_net_presses_concat(alt_d + shift_d, ctrl_d, code);
    lemma_net_presses_concat(alt_d, shift_d, code);
    lemma_net_presses_concat(alt_u + shift_u, ctrl_u, code);
    lemma_net_presses_concat(alt_u, shift_u, code);
    reveal_with_fuel(net_presses, 2);
}

/// A click activation is balanced: for every code, presses and releases
/// cancel, so no key is left held afterward; a click deactivation emits
/// nothing at all.
pub proof fn lemma_click_balanced(k: KeyCombination, code: u16)
    ensures
        net_presses(activation_events(KeyAction::KeyClick(k)), code) == 0,
        deactivation_events(KeyAction::KeyClick(k)) =~= Seq::<KeyEvent>::empty(),
{
    let md = modifiers_down(k);
    let kd = main_key_down(k);
    let ku = main_key_up(k);
    let mu = modifiers_up(k);
    lemma_net_presses_concat(md + kd + ku, mu, code);
    lemma_net_presses_concat(md + kd, ku, code);
    lemma_net_presses_concat(md, kd, code);
    lemma_modifiers_net(k, code);
    reveal_with_fuel(net_presses, 2);
}

/// A click activation issues exactly one press of the main key followed
/// immediately by its one release, provided the main key is a real key and
/// is not itself one of the combination's active modifiers.
pub proof fn lemma_click_main_key_once(k: KeyCombination)
    requires
        k.key != Key::NoKey,
        k.alt ==> k.key.code_spec() != VK_ALT_CODE,
        k.shift ==> k.key.code_spec() != VK_SHIFT_CODE,
        k.ctrl ==> k.key.code_spec() != VK_CTRL_CODE,
    ensures
        count_event(activation_events(KeyAction::KeyClick(k)), press(k.key.code_spec())) == 1,
        count_event(activation_events(KeyAction::KeyClick(k)), release(k.key.code_spec())) == 1,
        ({
            let s = activation_events(KeyAction::KeyClick(k));
            exists|i: int|
                0 <= i && i + 1 < s.len() && #[trigger] s[i] == press(k.key.code_spec()) && s[i
                    + 1] == release(k.key.code_spec())
        }),
{
    let c = k.key.code_spec();
    let md = modifiers_down(k);
    let kd = main_key_down(k);
    let ku = main_key_up(k);
    let mu = modifiers_up(k);
    let s = activation_events(KeyAction::KeyClick(k));
    lemma_count_event_concat(md + kd + ku, mu, press(c));
    lemma_count_event_concat(md + kd, ku, press(c));
    lemma_count_event_concat(md, kd, press(c));
    lemma_count_event_concat(md + kd + ku, mu, release(c));
    lemma_count_event_concat(md + kd, ku, release(c));
    lemma_count_event_concat(md, kd, release(c));
    lemma_modifiers_count_zero(k, press(c));
    lemma_modifiers_count_zero(k, release(c));
    reveal_with_fuel(count_event, 2);
    let i = md.len() as int;
    assert(s[i] == press(c));
    assert(s[i + 1] == release(c));
}

proof fn lemma_modifiers_count_zero(k: KeyCombination, e: KeyEvent)
    requires
        k.alt ==> e.code != VK_ALT_CODE,
        k.shift ==> e.code != VK_SHIFT_CODE,
        k.ctrl ==> e.code != VK_CTRL_CODE,
    ensures
        count_event(modifiers_down(k), e) == 0,
        count_event(modifiers_up(k), e) == 0,
{
    let alt_d = if k.alt {
        seq![press(VK_ALT_CODE)]
    } else {
        Seq::<KeyEvent>::empty()
    };
    let shift_d = if k.shift {
        seq![press(VK_SHIFT_CODE)]
    } else {
        Seq::<KeyEvent>::empty()
    };
    let ctrl_d = if k.ctrl {
        seq![press(VK_CTRL_CODE)]
    } else {
        Seq::<KeyEvent>::empty()
    };
    let alt_u = if k.alt {
        seq![release(VK_ALT_CODE)]
    } else {
        Seq::<KeyEvent>::empty()
    };
    let shift_u = if k.shift {
        seq![release(VK_SHIFT_CODE)]
    } else {
        Seq::<KeyEvent>::empty()
    };
    let ctrl_u = if k.ctrl {
        seq![release(VK_CTRL_CODE)]
    } else {
        Seq::<KeyEvent>::empty()
    };
    lemma_count_event_concat(alt_d + shift_d, ctrl_d, e);
    lemma_count_event_concat(alt_d, shift_d, e);
    lemma_count_event_concat(alt_u + shift_u, ctrl_u, e);
    lemma_count_event_concat(alt_u, shift_u, e);
    reveal_with_fuel(count_event, 2);
}

/// A hold activation leaves keys held (never released more than pressed),
/// and the matching deactivation balances it exactly: after the pair, for
/// every code, no key is left held.
pub proof fn lemma_hold_balanced(k: KeyCombination, code: u16)
    ensures
        net_presses(activation_events(KeyAction::KeyHold(k)), code) >= 0,
        k.key != Key::NoKey && code == k.key.code_spec() ==> net_presses(
            activation_events(KeyAction::KeyHold(k)),
            code,
        ) >= 1,
        net_presses(
            activation_events(KeyAction::KeyHold(k)) + deactivation_events(KeyAction::KeyHold(k)),
            code,
        ) == 0,
{
    let md = modifiers_down(k);
    let kd = main_key_down(k);
    let ku = main_key_up(k);
    let mu = modifiers_up(k);
    lemma_net_presses_concat(md, kd, code);
    lemma_net_presses_concat(ku, mu, code);
    lemma_net_presses_concat(md + kd, ku + mu, code);
    lemma_modifiers_net(k, code);
    reveal_with_fuel(net_presses, 2);
}

} // verus!
