//! The frame scheduler: when to wait for input, when to step the simulation
//! and when to stop. The surrounding program does what each [`Action`] says
//! and reports back with a [`Wake`].

use vstd::prelude::*;

use crate::app::{App, AppView};
use crate::error::{HostError, StateError, error_of};
use crate::event::{InputEvent, KeyCode, KeyEvent};
use crate::grid::{height_of, width_of, zero_grid};
use crate::handler::{cycle, cycle_index, dispatched, handle_events};
use crate::lua_sim::{
    CallView,
    LuaSim,
    SessionView,
    enqueue,
    fresh_caches,
    loading,
    queue_refusal,
};

verus! {

/// What the scheduler asks the surrounding program to do next.
#[derive(Debug, Clone, PartialEq, Eq)]
pub enum Action {
    /// Report the viewport's size with [`Wake::Viewport`].
    ReadViewport,
    /// Make the pending guest calls, answer each, render, then report
    /// [`Wake::Drained`].
    Drain,
    /// Start a frame of this many milliseconds and poll for input: report
    /// [`Wake::Input`] or, once the frame is over, [`Wake::Deadline`].
    StartFrame(u64),
    /// Keep polling for input until the current frame is over.
    Poll,
    /// Block until the next input event and report it.
    WaitInput,
    Exit,
}

/// What the surrounding program reports back.
#[derive(Debug, Clone, PartialEq, Eq)]
pub enum Wake {
    Viewport(usize, usize),
    Input(InputEvent),
    Deadline,
    Drained,
}

#[derive(Debug, Clone, Copy, PartialEq, Eq, Structural)]
pub enum Phase {
    /// Waiting for the first viewport size.
    Boot,
    /// Waiting for the guest calls that precede a new cycle.
    CycleStart,
    /// In a timed frame, polling for input.
    Timed,
    /// Guest calls for an event in a timed frame.
    TimedDrain,
    /// Event-driven, blocked on input.
    Driven,
    /// Guest calls for an event while event-driven.
    DrivenDrain,
    /// Guest calls for a module switch while event-driven.
    DrivenSwitch,
    /// Waiting for the viewport size before a step.
    Stepping,
    Finished,
}

pub struct Scheduler {
    pub phase: Phase,
}

/// The key that switches to the next module while event-driven.
pub open spec fn is_next_module_key(k: KeyEvent) -> bool {
    !(k.kind is Release) && k.code is Tab
}

/// The key that quits while event-driven.
pub open spec fn is_quit_key(k: KeyEvent) -> bool {
    !(k.kind is Release) && k.code == KeyCode::Char('q')
}

/// What checking the viewport before a step does: a grid of another size is
/// replaced by a zero grid of the viewport's size, and that very grid is
/// queued to be handed to the guest before anything queued later.
pub open spec fn sized(a: AppView, s: SessionView, width: usize, height: usize) -> (
    AppView,
    SessionView,
    Option<HostError>,
) {
    if width_of(a.particles) == width && height_of(a.particles) == height {
        (a, s, None)
    } else if queue_refusal(s) is Some {
        (a, s, queue_refusal(s))
    } else {
        (
            AppView { particles: zero_grid(width as nat, height as nat), ..a },
            enqueue(s, seq![CallView::SetParticles(zero_grid(width as nat, height as nat))]),
            None,
        )
    }
}

/// Resizing before a step: when the viewport's size differs from the grid's,
/// the host grid takes the viewport's size and that same grid is handed to
/// the guest before the step runs, so the step sees no size mismatch.
pub proof fn lemma_resize_precedes_step(a: AppView, s: SessionView, width: usize, height: usize)
    requires
        width >= 1,
        height >= 1,
        !(width_of(a.particles) == width && height_of(a.particles) == height),
        queue_refusal(s) is None,
    ensures
        ({
            let (a1, s1, e1) = sized(a, s, width, height);
            let q = enqueue(s1, seq![CallView::Simulate]).pending;
            let n = q.len();
            &&& e1 is None
            &&& width_of(a1.particles) == width && height_of(a1.particles) == height
            &&& q[0] == CallView::Simulate
            &&& q[1] == CallView::SetParticles(a1.particles)
            &&& forall|i: int| 2 <= i < n ==> q[i] == s.pending[i - 2]
        }),
{
}

/// Brings the grid to the viewport's size, and the guest's grid with it.
pub fn check_size(app: &mut App, lua_sim: &mut LuaSim, width: usize, height: usize) -> (r: Result<
    (),
    HostError,
>)
    ensures
        sized(old(app)@, old(lua_sim)@, width, height) == (
            final(app)@,
            final(lua_sim)@,
            error_of(r),
        ),
{
    let (current_width, current_height) = app.particles.dimensions();
    if width != current_width || height != current_height {
        if let Some(e) = lua_sim.refusal() {
            return Err(e);
        }
        app.change_dimensions(width, height);
        lua_sim.set_particles(app)?;
    }
    Ok(())
}

/// The action that opens a cycle: stop once the host no longer runs, else a
/// timed frame or a wait for input, by the frame period.
pub open spec fn cycle_opening(a: AppView) -> (Phase, Action) {
    if !a.running {
        (Phase::Finished, Action::Exit)
    } else if a.millis_per_frame > 0 {
        (Phase::Timed, Action::StartFrame(a.millis_per_frame))
    } else {
        (Phase::Driven, Action::WaitInput)
    }
}

/// Before a step: stop once the host no longer runs, else ask for the size.
pub open spec fn step_opening(a: AppView) -> (Phase, Action) {
    if !a.running {
        (Phase::Finished, Action::Exit)
    } else {
        (Phase::Stepping, Action::ReadViewport)
    }
}

/// The scheduler moves to phase `p2` and answers `act`.
pub open spec fn leads(p2: Phase, r: Result<Action, HostError>, q: Phase, act: Action) -> bool {
    p2 == q && r == Ok::<Action, HostError>(act)
}

/// Input while event-driven: the quit key ends the run at once, with nothing
/// sent to the guest and no step; the next-module key switches to the next
/// module; anything else is dispatched as usual.
pub open spec fn driven_input(
    a: AppView,
    s: SessionView,
    ev: InputEvent,
    p2: Phase,
    a2: AppView,
    s2: SessionView,
    r: Result<Action, HostError>,
) -> bool {
    if ev is Key && is_quit_key(ev->Key_0) {
        &&& leads(p2, r, Phase::Finished, Action::Exit)
        &&& a2 == AppView { running: false, ..a }
        &&& s2 == s
    } else if ev is Key && is_next_module_key(ev->Key_0) && a.possible_simulations.len() > 0 {
        if s.awaiting is Some {
            a2 == a && s2 == s && r == Err::<Action, HostError>(
                HostError::State(StateError::Busy),
            )
        } else {
            let i = cycle(a.current_simulation_idx, a.possible_simulations.len(), false);
            &&& leads(p2, r, Phase::DrivenSwitch, Action::Drain)
            &&& a2 == AppView { current_simulation_idx: i, ..fresh_caches(a) }
            &&& s2 == loading(i, a.particles)
        }
    } else {
        dispatched(a, s, ev, a2, s2, error_of(r)) && (r is Ok ==> leads(
            p2,
            r,
            Phase::DrivenDrain,
            Action::Drain,
        ))
    }
}

/// What one wake does, from phase `p`, caches `a` and session `s`, to phase
/// `p2`, caches `a2`, session `s2` and answer `r`.
pub open spec fn advance_post(
    p: Phase,
    a: AppView,
    s: SessionView,
    wake: Wake,
    p2: Phase,
    a2: AppView,
    s2: SessionView,
    r: Result<Action, HostError>,
) -> bool {
    match (p, wake) {
        (Phase::Boot, Wake::Viewport(w, h)) => {
            let a1 = AppView { particles: zero_grid(w as nat, h as nat), ..a };
            &&& a2 == a1
            &&& r is Ok <==> (a.current_simulation_idx < a.possible_simulations.len()
                && s.awaiting is None)
            &&& r is Ok ==> leads(p2, r, Phase::CycleStart, Action::Drain) && s2 == loading(
                a.current_simulation_idx,
                a1.particles,
            )
            &&& r is Err ==> s2 == s
        },
        (Phase::CycleStart, Wake::Drained) => a2 == a && s2 == s && leads(
            p2,
            r,
            cycle_opening(a).0,
            cycle_opening(a).1,
        ),
        (Phase::Timed, Wake::Input(ev)) => dispatched(a, s, ev, a2, s2, error_of(r)) && (r is Ok
            ==> leads(p2, r, Phase::TimedDrain, Action::Drain)),
        (Phase::TimedDrain, Wake::Drained) => a2 == a && s2 == s && if a.running {
            leads(p2, r, Phase::Timed, Action::Poll)
        } else {
            leads(p2, r, Phase::Finished, Action::Exit)
        },
        (Phase::Timed, Wake::Deadline) => a2 == a && s2 == s && leads(
            p2,
            r,
            step_opening(a).0,
            step_opening(a).1,
        ),
        (Phase::Driven, Wake::Input(ev)) => driven_input(a, s, ev, p2, a2, s2, r),
        (Phase::DrivenDrain, Wake::Drained) => a2 == a && s2 == s && if a.running
            && a.millis_per_frame == 0 {
            leads(p2, r, Phase::Driven, Action::WaitInput)
        } else {
            leads(p2, r, step_opening(a).0, step_opening(a).1)
        },
        (Phase::DrivenSwitch, Wake::Drained) => a2 == a && s2 == s && leads(
            p2,
            r,
            step_opening(a).0,
            step_opening(a).1,
        ),
        (Phase::Stepping, Wake::Viewport(w, h)) => {
            let (a1, s1, e1) = sized(a, s, w, h);
            &&& a2 == a1
            &&& if e1 is Some {
                s2 == s1 && error_of(r) == e1
            } else if queue_refusal(s1) is Some {
                s2 == s1 && error_of(r) == queue_refusal(s1)
            } else {
                s2 == enqueue(s1, seq![CallView::Simulate]) && leads(
                    p2,
                    r,
                    Phase::CycleStart,
                    Action::Drain,
                )
            }
        },
        _ => a2 == a && s2 == s && r == Err::<Action, HostError>(
            HostError::State(StateError::OutOfTurn),
        ),
    }
}

impl Scheduler {
    pub fn new() -> (s: Scheduler)
        ensures
            s.phase == Phase::Boot,
    {
        Scheduler { phase: Phase::Boot }
    }

    fn open_cycle(&mut self, app: &App) -> (r: Action)
        ensures
            (final(self).phase, r) == cycle_opening(app@),
    {
        if !app.running {
            self.phase = Phase::Finished;
            Action::Exit
        } else if app.millis_per_frame > 0 {
            self.phase = Phase::Timed;
            Action::StartFrame(app.millis_per_frame)
        } else {
            self.phase = Phase::Driven;
            Action::WaitInput
        }
    }

    fn open_step(&mut self, app: &App) -> (r: Action)
        ensures
            (final(self).phase, r) == step_opening(app@),
    {
        if !app.running {
            self.phase = Phase::Finished;
            Action::Exit
        } else {
            self.phase = Phase::Stepping;
            Action::ReadViewport
        }
    }

    /// Takes what the surrounding program reports and says what it does
    /// next. Any error ends the run.
    pub fn advance(&mut self, app: &mut App, lua_sim: &mut LuaSim, wake: Wake) -> (r: Result<
        Action,
        HostError,
    >)
        ensures
            advance_post(
                old(self).phase,
                old(app)@,
                old(lua_sim)@,
                wake,
                final(self).phase,
                final(app)@,
                final(lua_sim)@,
                r,
            ),
            r is Err ==> final(self).phase == Phase::Finished,
    {
        let outcome = self.react(app, lua_sim, wake);
        if outcome.is_err() {
            self.phase = Phase::Finished;
        }
        outcome
    }

    fn react(&mut self, app: &mut App, lua_sim: &mut LuaSim, wake: Wake) -> (r: Result<
        Action,
        HostError,
    >)
        ensures
            advance_post(
                old(self).phase,
                old(app)@,
                old(lua_sim)@,
                wake,
                final(self).phase,
                final(app)@,
                final(lua_sim)@,
                r,
            ),
    {
        match (self.phase, wake) {
            (Phase::Boot, Wake::Viewport(w, h)) => {
                app.change_dimensions(w, h);
                lua_sim.load_simulation(app)?;
                self.phase = Phase::CycleStart;
                Ok(Action::Drain)
            },
            (Phase::CycleStart, Wake::Drained) => Ok(self.open_cycle(app)),
            (Phase::Timed, Wake::Input(ev)) => {
                handle_events(&ev, app, lua_sim)?;
                self.phase = Phase::TimedDrain;
                Ok(Action::Drain)
            },
            (Phase::TimedDrain, Wake::Drained) => {
                if app.running {
                    self.phase = Phase::Timed;
                    Ok(Action::Poll)
                } else {
                    self.phase = Phase::Finished;
                    Ok(Action::Exit)
                }
            },
            (Phase::Timed, Wake::Deadline) => Ok(self.open_step(app)),
            (Phase::Driven, Wake::Input(ev)) => {
                if let InputEvent::Key(k) = &ev {
                    let pressed = match k.kind {
                        crate::event::KeyEventKind::Release => false,
                        _ => true,
                    };
                    if pressed {
                        if let KeyCode::Char(c) = k.code {
                            if c == 'q' {
                                app.quit();
                                self.phase = Phase::Finished;
                                return Ok(Action::Exit);
                            }
                        }
                        if let KeyCode::Tab = k.code {
                            if app.possible_simulations.len() > 0 {
                                if lua_sim.awaiting.is_some() {
                                    return Err(HostError::State(StateError::Busy));
                                }
                                app.current_simulation_idx = cycle_index(
                                    app.current_simulation_idx,
                                    app.possible_simulations.len(),
                                    false,
                                );
                                lua_sim.switch_simulation(app)?;
                                self.phase = Phase::DrivenSwitch;
                                return Ok(Action::Drain);
                            }
                        }
                    }
                }
                handle_events(&ev, app, lua_sim)?;
                self.phase = Phase::DrivenDrain;
                Ok(Action::Drain)
            },
            (Phase::DrivenDrain, Wake::Drained) => {
                if app.running && app.millis_per_frame == 0 {
                    self.phase = Phase::Driven;
                    Ok(Action::WaitInput)
                } else {
                    Ok(self.open_step(app))
                }
            },
            (Phase::DrivenSwitch, Wake::Drained) => Ok(self.open_step(app)),
            (Phase::Stepping, Wake::Viewport(w, h)) => {
                check_size(app, lua_sim, w, h)?;
                lua_sim.step()?;
                self.phase = Phase::CycleStart;
                Ok(Action::Drain)
            },
            _ => Err(HostError::State(StateError::OutOfTurn)),
        }
    }
}

} // verus!
