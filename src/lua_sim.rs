//! The simulation session: which module is live, which guest calls are still
//! to be made, and how each reply updates the host's caches.
//!
//! Calls wait on a stack whose last element runs next. Operations the host
//! starts are queued at the bottom, so they run in the order they were asked
//! for; what a reply asks for goes on top, so a chained simulation step and
//! its pulls finish before the pulls that asked for it.
//!
//! A load drops whatever was queued for the old module and queues exactly
//! its own calls, so the next answers are the load's; while they come, any
//! failure is a load failure and leaves no module loaded.

use vstd::prelude::*;

use crate::app::{App, AppView, FrameConfig};
use crate::error::{CallError, HostError, LoadError, StateError, error_of};
use crate::event::{FieldView, InputEvent, Record, event_spec, format_event, record_view};
use crate::grid::{Grid, is_rectangular, same_size};

verus! {

/// Which host caches a guest declares stale after a step or an event.
#[derive(Debug, Clone, Copy, PartialEq, Eq, Structural)]
pub struct ShouldUpdate {
    /// Run the simulation step again before the other pulls.
    pub simulation: bool,
    pub particles: bool,
    pub params: bool,
    pub config: bool,
}

impl ShouldUpdate {
    /// The intent that declares nothing stale, as from a handler that
    /// returns nothing.
    pub fn nothing() -> (u: ShouldUpdate)
        ensures
            !u.simulation && !u.particles && !u.params && !u.config,
    {
        ShouldUpdate { simulation: false, particles: false, params: false, config: false }
    }
}

/// One flag of an update table, as the guest left it.
#[derive(Debug, Clone, Copy, PartialEq, Eq, Structural)]
pub enum Flag {
    Missing,
    Bool(bool),
    /// A value that is not a boolean.
    Other,
}

pub open spec fn flag_value(f: Flag) -> Option<bool> {
    match f {
        Flag::Bool(b) => Some(b),
        _ => None,
    }
}

/// Decodes an update intent: each of the four flags must be a boolean.
pub fn get_should_update(simulation: Flag, particles: Flag, params: Flag, config: Flag) -> (r:
    Result<ShouldUpdate, CallError>)
    ensures
        r is Ok <==> (flag_value(simulation) is Some && flag_value(particles) is Some
            && flag_value(params) is Some && flag_value(config) is Some),
        r matches Ok(u) ==> Some(u.simulation) == flag_value(simulation) && Some(u.particles)
            == flag_value(particles) && Some(u.params) == flag_value(params) && Some(u.config)
            == flag_value(config),
        r is Err ==> r == Err::<ShouldUpdate, CallError>(CallError::BadIntent),
{
    match (simulation, particles, params, config) {
        (Flag::Bool(simulation), Flag::Bool(particles), Flag::Bool(params), Flag::Bool(config)) => {
            Ok(ShouldUpdate { simulation, particles, params, config })
        },
        _ => Err(CallError::BadIntent),
    }
}

/// One call into the guest module.
#[derive(Debug, Clone, PartialEq, Eq)]
pub enum GuestCall {
    /// Discard the sandbox and start a fresh one.
    Reset,
    /// Execute the current module in the sandbox and call its `setup` with
    /// this grid.
    Load(Grid),
    Simulate,
    HandleEvents(Record),
    /// Hand this grid to the guest.
    SetParticles(Grid),
    SetTextureIndex(usize),
    GetParticles,
    GetParams,
    GetTextures,
    GetConfig,
}

/// A [`GuestCall`] with its grid and record as sequences.
pub enum CallView {
    Reset,
    Load(Seq<Seq<u64>>),
    Simulate,
    HandleEvents(Seq<(Seq<char>, FieldView)>),
    SetParticles(Seq<Seq<u64>>),
    SetTextureIndex(usize),
    GetParticles,
    GetParams,
    GetTextures,
    GetConfig,
}

impl View for GuestCall {
    type V = CallView;

    open spec fn view(&self) -> CallView {
        match self {
            GuestCall::Reset => CallView::Reset,
            GuestCall::Load(g) => CallView::Load(g@),
            GuestCall::Simulate => CallView::Simulate,
            GuestCall::HandleEvents(r) => CallView::HandleEvents(record_view(r@)),
            GuestCall::SetParticles(g) => CallView::SetParticles(g@),
            GuestCall::SetTextureIndex(i) => CallView::SetTextureIndex(*i),
            GuestCall::GetParticles => CallView::GetParticles,
            GuestCall::GetParams => CallView::GetParams,
            GuestCall::GetTextures => CallView::GetTextures,
            GuestCall::GetConfig => CallView::GetConfig,
        }
    }
}

pub open spec fn calls_view(v: Seq<GuestCall>) -> Seq<CallView> {
    v.map_values(|c: GuestCall| c@)
}

/// What answer the call in flight expects.
#[derive(Debug, Clone, Copy, PartialEq, Eq, Structural)]
pub enum Expect {
    Fresh,
    Setup,
    Ack,
    /// The intent a simulation step returns.
    Stepped,
    /// The intent an event handler returns.
    Handled,
    Particles,
    Params,
    Textures,
    Config,
}

/// The outcome of one guest call.
#[derive(Debug, Clone, PartialEq, Eq)]
pub enum Reply {
    /// The call completed and returns nothing.
    Done,
    Update(ShouldUpdate),
    Particles(Grid),
    Params(String),
    /// Texture ramps, each glyph as a string.
    Textures(Vec<Vec<String>>),
    Config(FrameConfig),
    /// The call failed, with the guest's message.
    Failed(String),
    /// The call returned a value of the wrong shape.
    Invalid(CallError),
}

/// Cap on simulation steps answered before the queue drains.
pub const MAX_CHAIN: usize = 1000;

/// How many calls a load makes: reset, set-up, and four pulls.
pub const LOAD_CALLS: usize = 6;

/// The session with the guest: which module is live and the guest calls
/// still to be made. The sandbox itself is run by the surrounding program.
pub struct LuaSim {
    pub current_simulation_idx: usize,
    /// A module is set up, or queued to be set up by a pending call.
    pub loaded: bool,
    /// Calls still to be made; the last one runs next.
    pub pending: Vec<GuestCall>,
    pub awaiting: Option<Expect>,
    /// Simulation steps answered since the queue last drained.
    pub hops: usize,
    /// Answers still to come that belong to a load.
    pub load_left: usize,
}

/// The state of [`LuaSim`], with the queue as a sequence of call views.
pub struct SessionView {
    pub current_simulation_idx: usize,
    pub loaded: bool,
    pub pending: Seq<CallView>,
    pub awaiting: Option<Expect>,
    pub hops: nat,
    pub load_left: nat,
}

impl View for LuaSim {
    type V = SessionView;

    open spec fn view(&self) -> SessionView {
        SessionView {
            current_simulation_idx: self.current_simulation_idx,
            loaded: self.loaded,
            pending: calls_view(self.pending@),
            awaiting: self.awaiting,
            hops: self.hops as nat,
            load_left: self.load_left as nat,
        }
    }
}

pub open spec fn expect_of(c: CallView) -> Expect {
    match c {
        CallView::Reset => Expect::Fresh,
        CallView::Load(_) => Expect::Setup,
        CallView::Simulate => Expect::Stepped,
        CallView::HandleEvents(_) => Expect::Handled,
        CallView::SetParticles(_) => Expect::Ack,
        CallView::SetTextureIndex(_) => Expect::Ack,
        CallView::GetParticles => Expect::Particles,
        CallView::GetParams => Expect::Params,
        CallView::GetTextures => Expect::Textures,
        CallView::GetConfig => Expect::Config,
    }
}

/// The calls an update intent asks for, in stack order: a chained step runs
/// first, then the grid, parameters and configuration are pulled.
pub open spec fn plan(u: ShouldUpdate) -> Seq<CallView> {
    (if u.config { seq![CallView::GetConfig] } else { seq![] }) + (if u.params {
        seq![CallView::GetParams]
    } else {
        seq![]
    }) + (if u.particles { seq![CallView::GetParticles] } else { seq![] }) + (if u.simulation {
        seq![CallView::Simulate]
    } else {
        seq![]
    })
}

/// A load, in stack order: a fresh sandbox, the module set up with grid `g`,
/// then all four caches pulled: grid, parameters, textures, configuration.
pub open spec fn load_plan(g: Seq<Seq<u64>>) -> Seq<CallView> {
    seq![
        CallView::GetConfig,
        CallView::GetTextures,
        CallView::GetParams,
        CallView::GetParticles,
        CallView::Load(g),
        CallView::Reset,
    ]
}

/// The session a load of module `idx` with grid `g` leaves: the load's
/// calls and nothing else.
pub open spec fn loading(idx: usize, g: Seq<Seq<u64>>) -> SessionView {
    SessionView {
        current_simulation_idx: idx,
        loaded: true,
        pending: load_plan(g),
        awaiting: None,
        hops: 0,
        load_left: LOAD_CALLS as nat,
    }
}

/// The caches as a switch leaves them: nothing of the previous module.
pub open spec fn fresh_caches(a: AppView) -> AppView {
    AppView { texture_index: 0, current_params: seq![], textures: seq![], ..a }
}

/// Queues calls to run after those already pending.
pub open spec fn enqueue(s: SessionView, calls: Seq<CallView>) -> SessionView {
    SessionView { pending: calls + s.pending, ..s }
}

/// Why a call cannot be queued now, if it cannot.
pub open spec fn queue_refusal(s: SessionView) -> Option<HostError> {
    if s.awaiting is Some {
        Some(HostError::State(StateError::Busy))
    } else if !s.loaded {
        Some(HostError::State(StateError::NotLoaded))
    } else {
        None
    }
}

/// Takes the next call off the stack and waits for its answer.
pub open spec fn popped(s: SessionView) -> SessionView {
    SessionView {
        pending: s.pending.drop_last(),
        awaiting: Some(expect_of(s.pending.last())),
        ..s
    }
}

/// Reconciling an update intent: its calls go on top of the stack.
pub open spec fn chain(s: SessionView, u: ShouldUpdate) -> SessionView {
    SessionView { pending: s.pending + plan(u), ..s }
}

/// The session after a failed answer: nothing queued, and no module if the
/// answer belonged to a load.
pub open spec fn failed(s: SessionView) -> SessionView {
    SessionView {
        loaded: s.loaded && s.load_left == 0,
        pending: seq![],
        awaiting: None,
        hops: 0,
        load_left: 0,
        ..s
    }
}

/// A value of the wrong shape: a load failure while loading.
pub open spec fn shape_error(in_load: bool, e: CallError) -> HostError {
    if in_load {
        HostError::Load(LoadError::Reply(e))
    } else {
        HostError::Call(e)
    }
}

pub open spec fn styles_view(t: Seq<Vec<String>>) -> Seq<Seq<Seq<char>>> {
    t.map_values(|st: Vec<String>| st@.map_values(|g: String| g@))
}

/// Every glyph string has at least one character.
pub open spec fn glyphs_present(t: Seq<Seq<Seq<char>>>) -> bool {
    forall|i: int, j: int|
        0 <= i < t.len() && 0 <= j < t[i].len() ==> #[trigger] t[i][j].len() > 0
}

/// Each glyph string stands for its first character.
pub open spec fn glyphs_of(t: Seq<Seq<Seq<char>>>) -> Seq<Seq<char>> {
    t.map_values(|st: Seq<Seq<char>>| st.map_values(|g: Seq<char>| g[0]))
}

pub open spec fn with_config(a: AppView, c: FrameConfig) -> AppView {
    AppView {
        color_enabled: c.color_enabled,
        millis_per_frame: c.millis_per_frame,
        texture_index: c.texture_index,
        ..a
    }
}

/// How one reply changes the caches and the session, and the error it raises.
/// After an error nothing stays queued. While a load is answered, a grid
/// must keep the size of the grid the module was set up with, and any
/// failure is a load failure.
pub open spec fn absorb(a: AppView, s: SessionView, r: Reply) -> (
    AppView,
    SessionView,
    Option<HostError>,
) {
    let in_load = s.load_left > 0;
    let t = SessionView {
        awaiting: None,
        load_left: if in_load { (s.load_left - 1) as nat } else { 0 },
        ..s
    };
    let unexpected = (a, failed(s), Some(HostError::State(StateError::UnexpectedReply)));
    match s.awaiting {
        None => (a, failed(s), Some(HostError::State(StateError::NoCallPending))),
        Some(x) => match r {
            Reply::Failed(msg) => (
                a,
                failed(s),
                Some(
                    if in_load {
                        HostError::Load(LoadError::Guest(msg))
                    } else {
                        HostError::Call(CallError::Guest(msg))
                    },
                ),
            ),
            Reply::Invalid(e) => (a, failed(s), Some(shape_error(in_load, e))),
            Reply::Done => if x == Expect::Fresh || x == Expect::Ack || x == Expect::Setup {
                (a, t, None)
            } else {
                unexpected
            },
            Reply::Update(u) => if x == Expect::Handled {
                (a, chain(t, u), None)
            } else if x == Expect::Stepped {
                if t.hops >= MAX_CHAIN {
                    (a, failed(s), Some(HostError::Call(CallError::ChainTooLong)))
                } else {
                    (a, chain(SessionView { hops: t.hops + 1, ..t }, u), None)
                }
            } else {
                unexpected
            },
            Reply::Particles(g) => if x == Expect::Particles {
                if !is_rectangular(g@) {
                    (a, failed(s), Some(shape_error(in_load, CallError::RaggedGrid)))
                } else if in_load && !same_size(g@, a.particles) {
                    (a, failed(s), Some(shape_error(in_load, CallError::GridSize)))
                } else {
                    (AppView { particles: g@, ..a }, t, None)
                }
            } else {
                unexpected
            },
            Reply::Params(p) => if x == Expect::Params {
                (AppView { current_params: p@, ..a }, t, None)
            } else {
                unexpected
            },
            Reply::Textures(st) => if x == Expect::Textures {
                if glyphs_present(styles_view(st@)) {
                    (AppView { textures: glyphs_of(styles_view(st@)), ..a }, t, None)
                } else {
                    (a, failed(s), Some(shape_error(in_load, CallError::EmptyGlyph)))
                }
            } else {
                unexpected
            },
            Reply::Config(c) => if x == Expect::Config {
                (with_config(a, c), t, None)
            } else {
                unexpected
            },
        },
    }
}

fn is_rectangular_exec(g: &Grid) -> (r: bool)
    ensures
        r == is_rectangular(g@),
{
    if g.rows.len() == 0 {
        return true;
    }
    let width = g.rows[0].len();
    let mut i: usize = 0;
    while i < g.rows.len()
        invariant
            0 < g.rows@.len(),
            width == g.rows@[0]@.len(),
            i <= g.rows@.len(),
            forall|k: int| 0 <= k < i ==> #[trigger] g@[k].len() == width,
        decreases g.rows@.len() - i,
    {
        if g.rows[i].len() != width {
            assert(g@[i as int].len() != crate::grid::width_of(g@));
            return false;
        }
        i = i + 1;
    }
    true
}

/// The first character of each glyph string, or `None` if one is empty.
fn first_glyphs(styles: &Vec<Vec<String>>) -> (r: Option<Vec<Vec<char>>>)
    ensures
        r is Some <==> glyphs_present(styles_view(styles@)),
        r matches Some(t) ==> crate::app::textures_view(t@) == glyphs_of(styles_view(styles@)),
{
    let ghost sv = styles_view(styles@);
    let mut out: Vec<Vec<char>> = Vec::new();
    let mut i: usize = 0;
    while i < styles.len()
        invariant
            sv == styles_view(styles@),
            i <= styles@.len(),
            out@.len() == i,
            forall|k: int| 0 <= k < i ==> #[trigger] out@[k]@ == glyphs_of(sv)[k],
            forall|k: int, j: int|
                0 <= k < i && 0 <= j < sv[k].len() ==> #[trigger] sv[k][j].len() > 0,
        decreases styles@.len() - i,
    {
        let style = &styles[i];
        let mut ramp: Vec<char> = Vec::new();
        let mut j: usize = 0;
        while j < style.len()
            invariant
                sv == styles_view(styles@),
                i < styles@.len(),
                style == styles@[i as int],
                j <= style@.len(),
                ramp@.len() == j,
                forall|m: int| 0 <= m < j ==> #[trigger] ramp@[m] == sv[i as int][m][0],
                forall|m: int| 0 <= m < j ==> #[trigger] sv[i as int][m].len() > 0,
            decreases style@.len() - j,
        {
            let glyph = style[j].as_str();
            if glyph.is_empty() {
                assert(sv[i as int][j as int].len() == 0);
                return None;
            }
            ramp.push(glyph.get_char(0));
            j = j + 1;
        }
        assert(ramp@ =~= glyphs_of(sv)[i as int]);
        out.push(ramp);
        i = i + 1;
    }
    assert(crate::app::textures_view(out@) =~= glyphs_of(sv));
    Some(out)
}

impl LuaSim {
    pub fn new() -> (s: LuaSim)
        ensures
            s@ == (SessionView {
                current_simulation_idx: 0,
                loaded: false,
                pending: seq![],
                awaiting: None,
                hops: 0,
                load_left: 0,
            }),
    {
        let s = LuaSim {
            current_simulation_idx: 0,
            loaded: false,
            pending: Vec::new(),
            awaiting: None,
            hops: 0,
            load_left: 0,
        };
        assert(calls_view(s.pending@) =~= seq![]);
        s
    }

    /// Puts one call beneath what is already pending.
    fn queue_under(&mut self, call: GuestCall)
        ensures
            final(self)@ == enqueue(old(self)@, seq![call@]),
    {
        self.pending.insert(0, call);
        assert(calls_view(self.pending@) =~= seq![call@] + calls_view(old(self).pending@));
    }

    pub(crate) fn refusal(&self) -> (r: Option<HostError>)
        ensures
            r == queue_refusal(self@),
    {
        if self.awaiting.is_some() {
            Some(HostError::State(StateError::Busy))
        } else if !self.loaded {
            Some(HostError::State(StateError::NotLoaded))
        } else {
            None
        }
    }

    /// Replaces the queue by a load of module `idx` set up with `grid`.
    fn start_load(&mut self, idx: usize, grid: Grid)
        ensures
            final(self)@ == loading(idx, grid@),
    {
        let calls = vec![
            GuestCall::GetConfig,
            GuestCall::GetTextures,
            GuestCall::GetParams,
            GuestCall::GetParticles,
            GuestCall::Load(grid),
            GuestCall::Reset,
        ];
        assert(calls_view(calls@) =~= load_plan(grid@));
        self.pending = calls;
        self.awaiting = None;
        self.current_simulation_idx = idx;
        self.loaded = true;
        self.hops = 0;
        self.load_left = LOAD_CALLS;
    }

    /// Loads the module the host has selected in a fresh sandbox: set it up
    /// with the host's grid, then pull grid, parameters, textures and
    /// configuration. Calls still queued for the old module are dropped.
    pub fn load_simulation(&mut self, app: &App) -> (r: Result<(), HostError>)
        ensures
            old(self).awaiting is Some ==> r == Err::<(), HostError>(
                HostError::State(StateError::Busy),
            ) && final(self)@ == old(self)@,
            old(self).awaiting is None && app.current_simulation_idx
                >= app.possible_simulations@.len() ==> r == Err::<(), HostError>(
                HostError::State(StateError::NoSuchModule),
            ) && final(self)@ == old(self)@,
            old(self).awaiting is None && app.current_simulation_idx
                < app.possible_simulations@.len() ==> r is Ok && final(self)@ == loading(
                app.current_simulation_idx,
                app@.particles,
            ),
    {
        if self.awaiting.is_some() {
            return Err(HostError::State(StateError::Busy));
        }
        if app.current_simulation_idx >= app.possible_simulations.len() {
            return Err(HostError::State(StateError::NoSuchModule));
        }
        self.start_load(app.current_simulation_idx, app.particles.duplicate());
        Ok(())
    }

    /// Switches to the module the host has selected: the caches of the old
    /// module are emptied and the texture index starts over at zero, then
    /// the new module is loaded.
    pub fn switch_simulation(&mut self, app: &mut App) -> (r: Result<(), HostError>)
        ensures
            old(self).awaiting is Some ==> r == Err::<(), HostError>(
                HostError::State(StateError::Busy),
            ) && final(self)@ == old(self)@ && final(app)@ == old(app)@,
            old(self).awaiting is None && old(app).current_simulation_idx
                >= old(app).possible_simulations@.len() ==> r == Err::<(), HostError>(
                HostError::State(StateError::NoSuchModule),
            ) && final(self)@ == old(self)@ && final(app)@ == old(app)@,
            old(self).awaiting is None && old(app).current_simulation_idx
                < old(app).possible_simulations@.len() ==> r is Ok && final(self)@ == loading(
                old(app).current_simulation_idx,
                old(app)@.particles,
            ) && final(app)@ == fresh_caches(old(app)@),
    {
        if self.awaiting.is_some() {
            return Err(HostError::State(StateError::Busy));
        }
        if app.current_simulation_idx >= app.possible_simulations.len() {
            return Err(HostError::State(StateError::NoSuchModule));
        }
        app.texture_index = 0;
        app.current_params = String::new();
        app.textures = Vec::new();
        assert(crate::app::textures_view(app.textures@) =~= seq![]);
        self.start_load(app.current_simulation_idx, app.particles.duplicate());
        Ok(())
    }

    /// Queues a simulation step.
    pub fn step(&mut self) -> (r: Result<(), HostError>)
        ensures
            error_of(r) == queue_refusal(old(self)@),
            r is Ok ==> final(self)@ == enqueue(old(self)@, seq![CallView::Simulate]),
            r is Err ==> final(self)@ == old(self)@,
    {
        if let Some(e) = self.refusal() {
            return Err(e);
        }
        self.queue_under(GuestCall::Simulate);
        Ok(())
    }

    /// Queues handing the host's grid, as it is now, to the guest.
    pub fn set_particles(&mut self, app: &App) -> (r: Result<(), HostError>)
        ensures
            error_of(r) == queue_refusal(old(self)@),
            r is Ok ==> final(self)@ == enqueue(
                old(self)@,
                seq![CallView::SetParticles(app@.particles)],
            ),
            r is Err ==> final(self)@ == old(self)@,
    {
        if let Some(e) = self.refusal() {
            return Err(e);
        }
        self.queue_under(GuestCall::SetParticles(app.particles.duplicate()));
        Ok(())
    }

    /// Queues telling the guest which texture ramp is selected.
    pub fn set_texture_index(&mut self, idx: usize) -> (r: Result<(), HostError>)
        ensures
            error_of(r) == queue_refusal(old(self)@),
            r is Ok ==> final(self)@ == enqueue(old(self)@, seq![CallView::SetTextureIndex(idx)]),
            r is Err ==> final(self)@ == old(self)@,
    {
        if let Some(e) = self.refusal() {
            return Err(e);
        }
        self.queue_under(GuestCall::SetTextureIndex(idx));
        Ok(())
    }

    /// Queues pulling parameters, textures and configuration.
    pub fn update_all_data(&mut self) -> (r: Result<(), HostError>)
        ensures
            error_of(r) == queue_refusal(old(self)@),
            r is Ok ==> final(self)@ == enqueue(
                old(self)@,
                seq![CallView::GetConfig, CallView::GetTextures, CallView::GetParams],
            ),
            r is Err ==> final(self)@ == old(self)@,
    {
        if let Some(e) = self.refusal() {
            return Err(e);
        }
        self.queue_under(GuestCall::GetParams);
        self.queue_under(GuestCall::GetTextures);
        self.queue_under(GuestCall::GetConfig);
        assert(self@.pending =~= seq![CallView::GetConfig, CallView::GetTextures, CallView::GetParams]
            + old(self)@.pending);
        Ok(())
    }

    /// Queues handing an event to the guest, translated into its record.
    pub fn handle_events(&mut self, event: &InputEvent) -> (r: Result<(), HostError>)
        ensures
            error_of(r) == queue_refusal(old(self)@),
            r is Err ==> final(self)@ == old(self)@,
            r is Ok ==> final(self)@ == enqueue(
                old(self)@,
                seq![CallView::HandleEvents(event_spec(*event))],
            ),
    {
        if let Some(e) = self.refusal() {
            return Err(e);
        }
        let record = format_event(event);
        self.queue_under(GuestCall::HandleEvents(record));
        Ok(())
    }

    /// Takes the next call to make off the queue. When nothing is left the
    /// count of chained steps starts over.
    pub fn next_call(&mut self) -> (r: Result<Option<GuestCall>, HostError>)
        ensures
            old(self).awaiting is Some ==> r == Err::<Option<GuestCall>, HostError>(
                HostError::State(StateError::Busy),
            ) && final(self)@ == old(self)@,
            old(self).awaiting is None && old(self).pending@.len() == 0 ==> r
                == Ok::<Option<GuestCall>, HostError>(None) && final(self)@ == (SessionView {
                hops: 0,
                ..old(self)@
            }),
            old(self).awaiting is None && old(self).pending@.len() > 0 ==> (r matches Ok(Some(c))
                && c@ == old(self)@.pending.last()) && final(self)@ == popped(old(self)@),
    {
        if self.awaiting.is_some() {
            return Err(HostError::State(StateError::Busy));
        }
        match self.pending.pop() {
            None => {
                self.hops = 0;
                Ok(None)
            },
            Some(call) => {
                assert(calls_view(self.pending@) =~= calls_view(old(self).pending@).drop_last());
                let x = match &call {
                    GuestCall::Reset => Expect::Fresh,
                    GuestCall::Load(_) => Expect::Setup,
                    GuestCall::Simulate => Expect::Stepped,
                    GuestCall::HandleEvents(_) => Expect::Handled,
                    GuestCall::SetParticles(_) => Expect::Ack,
                    GuestCall::SetTextureIndex(_) => Expect::Ack,
                    GuestCall::GetParticles => Expect::Particles,
                    GuestCall::GetParams => Expect::Params,
                    GuestCall::GetTextures => Expect::Textures,
                    GuestCall::GetConfig => Expect::Config,
                };
                self.awaiting = Some(x);
                Ok(Some(call))
            },
        }
    }

    /// Replaces the cached grid with the one the guest returned, whole.
    pub fn update_particles(&self, app: &mut App, particles: Grid) -> (r: Result<(), HostError>)
        ensures
            r is Ok <==> is_rectangular(particles@),
            r is Ok ==> final(app)@ == (AppView { particles: particles@, ..old(app)@ }),
            r is Err ==> r == Err::<(), HostError>(HostError::Call(CallError::RaggedGrid))
                && final(app)@ == old(app)@,
    {
        if !is_rectangular_exec(&particles) {
            return Err(HostError::Call(CallError::RaggedGrid));
        }
        app.particles = particles;
        Ok(())
    }

    /// Replaces the cached parameter text.
    pub fn update_params(&self, app: &mut App, params: String)
        ensures
            final(app)@ == (AppView { current_params: params@, ..old(app)@ }),
    {
        app.current_params = params;
    }

    /// Replaces the cached texture ramps; each glyph stands for its first
    /// character.
    pub fn update_textures(&self, app: &mut App, styles: Vec<Vec<String>>) -> (r: Result<
        (),
        HostError,
    >)
        ensures
            r is Ok <==> glyphs_present(styles_view(styles@)),
            r is Ok ==> final(app)@ == (AppView {
                textures: glyphs_of(styles_view(styles@)),
                ..old(app)@
            }),
            r is Err ==> r == Err::<(), HostError>(HostError::Call(CallError::EmptyGlyph))
                && final(app)@ == old(app)@,
    {
        match first_glyphs(&styles) {
            Some(t) => {
                app.textures = t;
                Ok(())
            },
            None => Err(HostError::Call(CallError::EmptyGlyph)),
        }
    }

    /// Replaces the cached frame configuration.
    pub fn update_config(&self, app: &mut App, config: FrameConfig)
        ensures
            final(app)@ == with_config(old(app)@, config),
    {
        app.color_enabled = config.color_enabled;
        app.millis_per_frame = config.millis_per_frame;
        app.texture_index = config.texture_index;
    }

    /// Takes the reply to the call in flight and applies it.
    pub fn answer(&mut self, app: &mut App, reply: Reply) -> (r: Result<(), HostError>)
        ensures
            absorb(old(app)@, old(self)@, reply) == (final(app)@, final(self)@, error_of(r)),
    {
        let in_load = self.load_left > 0;
        let expected = self.awaiting;
        self.awaiting = None;
        if in_load {
            self.load_left = self.load_left - 1;
        }
        let outcome: Result<(), HostError> = match expected {
            None => Err(HostError::State(StateError::NoCallPending)),
            Some(x) => match reply {
                Reply::Failed(msg) => {
                    if in_load {
                        Err(HostError::Load(LoadError::Guest(msg)))
                    } else {
                        Err(HostError::Call(CallError::Guest(msg)))
                    }
                },
                Reply::Invalid(e) => Err(shaped(in_load, e)),
                Reply::Done => {
                    if x == Expect::Fresh || x == Expect::Ack || x == Expect::Setup {
                        Ok(())
                    } else {
                        Err(HostError::State(StateError::UnexpectedReply))
                    }
                },
                Reply::Update(u) => {
                    if x == Expect::Handled {
                        app.hande_update(&u, self);
                        Ok(())
                    } else if x == Expect::Stepped {
                        if self.hops >= MAX_CHAIN {
                            Err(HostError::Call(CallError::ChainTooLong))
                        } else {
                            self.hops = self.hops + 1;
                            app.hande_update(&u, self);
                            Ok(())
                        }
                    } else {
                        Err(HostError::State(StateError::UnexpectedReply))
                    }
                },
                Reply::Particles(g) => {
                    if x == Expect::Particles {
                        if !is_rectangular_exec(&g) {
                            Err(shaped(in_load, CallError::RaggedGrid))
                        } else if in_load && !same_dimensions(&g, &app.particles) {
                            Err(shaped(in_load, CallError::GridSize))
                        } else {
                            self.update_particles(app, g)
                        }
                    } else {
                        Err(HostError::State(StateError::UnexpectedReply))
                    }
                },
                Reply::Params(p) => {
                    if x == Expect::Params {
                        self.update_params(app, p);
                        Ok(())
                    } else {
                        Err(HostError::State(StateError::UnexpectedReply))
                    }
                },
                Reply::Textures(st) => {
                    if x == Expect::Textures {
                        match first_glyphs(&st) {
                            Some(t) => {
                                app.textures = t;
                                Ok(())
                            },
                            None => Err(shaped(in_load, CallError::EmptyGlyph)),
                        }
                    } else {
                        Err(HostError::State(StateError::UnexpectedReply))
                    }
                },
                Reply::Config(c) => {
                    if x == Expect::Config {
                        self.update_config(app, c);
                        Ok(())
                    } else {
                        Err(HostError::State(StateError::UnexpectedReply))
                    }
                },
            },
        };
        if outcome.is_err() {
            self.pending = Vec::new();
            self.hops = 0;
            self.load_left = 0;
            if in_load {
                self.loaded = false;
            }
            assert(calls_view(self.pending@) =~= seq![]);
        }
        outcome
    }
}

fn same_dimensions(g: &Grid, h: &Grid) -> (r: bool)
    ensures
        r == same_size(g@, h@),
{
    let (gw, gh) = g.dimensions();
    let (hw, hh) = h.dimensions();
    gw == hw && gh == hh
}

fn shaped(in_load: bool, e: CallError) -> (r: HostError)
    ensures
        r == shape_error(in_load, e),
{
    if in_load {
        HostError::Load(LoadError::Reply(e))
    } else {
        HostError::Call(e)
    }
}

impl App {
    /// Reconciles an update intent: the calls it asks for go on top of the
    /// session's queue, so a chained step and what it pulls come first.
    pub fn hande_update(&self, update: &ShouldUpdate, lua_sim: &mut LuaSim)
        ensures
            final(lua_sim)@ == chain(old(lua_sim)@, *update),
    {
        if update.config {
            lua_sim.pending.push(GuestCall::GetConfig);
        }
        if update.params {
            lua_sim.pending.push(GuestCall::GetParams);
        }
        if update.particles {
            lua_sim.pending.push(GuestCall::GetParticles);
        }
        if update.simulation {
            lua_sim.pending.push(GuestCall::Simulate);
        }
        assert(calls_view(lua_sim.pending@) =~= calls_view(old(lua_sim).pending@) + plan(*update));
    }
}

} // verus!
