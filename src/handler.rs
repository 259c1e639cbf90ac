//! Keys the host handles itself, and dispatch of events to the guest.

use vstd::prelude::*;

use crate::app::{App, AppView};
use crate::error::{HostError, StateError, error_of};
use crate::event::{InputEvent, KeyCode, KeyEvent, KeyEventKind, event_spec};
use crate::lua_sim::{CallView, LuaSim, SessionView, enqueue, fresh_caches, loading, queue_refusal};

verus! {

/// The position one step forward, or back, on a ring of `len` positions.
pub open spec fn cycle(i: usize, len: nat, back: bool) -> usize {
    if back {
        ((i - 1) % (len as int)) as usize
    } else {
        ((i + 1) % (len as int)) as usize
    }
}

pub fn cycle_index(i: usize, len: usize, back: bool) -> (r: usize)
    requires
        len > 0,
    ensures
        r == cycle(i, len as nat, back),
        r < len,
{
    let cur = i % len;
    let ghost q = i as int / len as int;
    proof {
        vstd::arithmetic::div_mod::lemma_fundamental_div_mod(i as int, len as int);
    }
    if back {
        if cur == 0 {
            proof {
                assert(len * (q - 1) == len * q - len) by (nonlinear_arith);
                assert(i - 1 == len * (q - 1) + (len - 1));
                vstd::arithmetic::div_mod::lemma_mod_multiples_vanish(q - 1, len - 1, len as int);
                vstd::arithmetic::div_mod::lemma_small_mod((len - 1) as nat, len as nat);
            }
            len - 1
        } else {
            proof {
                assert(i - 1 == len * q + (cur - 1));
                vstd::arithmetic::div_mod::lemma_mod_multiples_vanish(q, cur - 1, len as int);
                vstd::arithmetic::div_mod::lemma_small_mod((cur - 1) as nat, len as nat);
            }
            cur - 1
        }
    } else {
        if cur + 1 == len {
            proof {
                assert(len * (q + 1) == len * q + len) by (nonlinear_arith);
                assert(i + 1 == len * (q + 1) + 0);
                vstd::arithmetic::div_mod::lemma_mod_multiples_vanish(q + 1, 0, len as int);
                vstd::arithmetic::div_mod::lemma_small_mod(0, len as nat);
            }
            0
        } else {
            proof {
                assert(i + 1 == len * q + (cur + 1));
                vstd::arithmetic::div_mod::lemma_mod_multiples_vanish(q, cur + 1, len as int);
                vstd::arithmetic::div_mod::lemma_small_mod((cur + 1) as nat, len as nat);
            }
            cur + 1
        }
    }
}

/// What a key does to the host before its event reaches the guest: `q`
/// quits, `i` toggles the info panel, Enter (Shift+Enter) selects the next
/// (previous) texture ramp and tells the guest, Tab (Shift+Tab) switches to
/// the next (previous) module. Releases do nothing.
pub open spec fn key_effect(a: AppView, s: SessionView, k: KeyEvent) -> (
    AppView,
    SessionView,
    Option<HostError>,
) {
    if k.kind is Release {
        (a, s, None)
    } else {
        match k.code {
            KeyCode::Char(c) => if c == 'q' {
                (AppView { running: false, ..a }, s, None)
            } else if c == 'i' {
                (AppView { show_info: !a.show_info, ..a }, s, None)
            } else {
                (a, s, None)
            },
            KeyCode::Enter => if a.textures.len() == 0 {
                (a, s, None)
            } else if queue_refusal(s) is Some {
                (a, s, queue_refusal(s))
            } else {
                let i = cycle(a.texture_index, a.textures.len(), k.modifiers.shift);
                (
                    AppView { texture_index: i, ..a },
                    enqueue(s, seq![CallView::SetTextureIndex(i)]),
                    None,
                )
            },
            KeyCode::Tab => if a.possible_simulations.len() == 0 {
                (a, s, None)
            } else if s.awaiting is Some {
                (a, s, Some(HostError::State(StateError::Busy)))
            } else {
                let i = cycle(
                    a.current_simulation_idx,
                    a.possible_simulations.len(),
                    k.modifiers.shift,
                );
                (
                    AppView { current_simulation_idx: i, ..fresh_caches(a) },
                    loading(i, a.particles),
                    None,
                )
            },
            KeyCode::Named(_) => (a, s, None),
        }
    }
}

/// Applies what a key does to the host, as [`key_effect`] says.
pub fn handle_key_events(event: &KeyEvent, app: &mut App, lua_sim: &mut LuaSim) -> (r: Result<
    (),
    HostError,
>)
    ensures
        key_effect(old(app)@, old(lua_sim)@, *event) == (final(app)@, final(lua_sim)@, error_of(r)),
{
    if let KeyEventKind::Release = event.kind {
        return Ok(());
    }
    match &event.code {
        KeyCode::Char(c) => {
            if *c == 'q' {
                app.quit();
            } else if *c == 'i' {
                app.show_info = !app.show_info;
            }
            Ok(())
        },
        KeyCode::Enter => {
            if app.textures.len() == 0 {
                return Ok(());
            }
            let i = cycle_index(app.texture_index, app.textures.len(), event.modifiers.shift);
            lua_sim.set_texture_index(i)?;
            app.texture_index = i;
            Ok(())
        },
        KeyCode::Tab => {
            if app.possible_simulations.len() == 0 {
                return Ok(());
            }
            if lua_sim.awaiting.is_some() {
                return Err(HostError::State(StateError::Busy));
            }
            let i = cycle_index(
                app.current_simulation_idx,
                app.possible_simulations.len(),
                event.modifiers.shift,
            );
            app.current_simulation_idx = i;
            lua_sim.switch_simulation(app)
        },
        KeyCode::Named(_) => Ok(()),
    }
}

/// `a2`, `s2` and error `e` are what dispatching `ev` leaves: the host's own
/// key handling first, then the event queued for the guest, after whatever
/// is already queued, so after a switch it reaches the new module.
pub open spec fn dispatched(
    a: AppView,
    s: SessionView,
    ev: InputEvent,
    a2: AppView,
    s2: SessionView,
    e: Option<HostError>,
) -> bool {
    let (a1, s1, e1) = match ev {
        InputEvent::Key(k) => key_effect(a, s, k),
        _ => (a, s, None),
    };
    if e1 is Some {
        a2 == a1 && s2 == s1 && e == e1
    } else {
        &&& a2 == a1
        &&& e == queue_refusal(s1)
        &&& e is Some ==> s2 == s1
        &&& e is None ==> s2 == enqueue(s1, seq![CallView::HandleEvents(event_spec(ev))])
    }
}

/// Handles an input event: keys the host handles first, then the event goes
/// to the guest.
pub fn handle_events(event: &InputEvent, app: &mut App, lua_sim: &mut LuaSim) -> (r: Result<
    (),
    HostError,
>)
    ensures
        dispatched(old(app)@, old(lua_sim)@, *event, final(app)@, final(lua_sim)@, error_of(r)),
{
    if let InputEvent::Key(k) = event {
        handle_key_events(k, app, lua_sim)?;
    }
    lua_sim.handle_events(event)
}

} // verus!
