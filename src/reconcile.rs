//! Runs of the session against a sequence of guest replies, and the laws the
//! reconciliation obeys whatever the guest answers.

use vstd::prelude::*;

use crate::app::AppView;
use crate::grid::{Grid, height_of, is_rectangular, same_size, width_of};
use crate::lua_sim::{
    MAX_CHAIN,
    CallView,
    Expect,
    Reply,
    SessionView,
    ShouldUpdate,
    absorb,
    chain,
    enqueue,
    fresh_caches,
    load_plan,
    loading,
    plan,
    popped,
};

verus! {

/// One round: the next call leaves the stack and `r` answers it, as
/// `LuaSim::next_call` followed by `LuaSim::answer` does.
pub open spec fn round(a: AppView, s: SessionView, r: Reply) -> (
    AppView,
    SessionView,
    Option<crate::error::HostError>,
) {
    absorb(a, popped(s), r)
}

/// Answers the queued calls in turn with `rs`, until the replies or the
/// queue run out or a reply raises an error, which is returned too.
pub open spec fn settle(a: AppView, s: SessionView, rs: Seq<Reply>) -> (
    AppView,
    SessionView,
    Option<crate::error::HostError>,
)
    decreases rs.len(),
{
    if rs.len() == 0 || s.pending.len() == 0 {
        (a, s, None)
    } else {
        let (a2, s2, e) = round(a, s, rs[0]);
        if e is Some {
            (a2, s2, e)
        } else {
            settle(a2, s2, rs.drop_first())
        }
    }
}

/// A call whose answer neither touches the grid nor queues further calls.
pub open spec fn keeps_grid(c: CallView) -> bool {
    match c {
        CallView::Simulate | CallView::HandleEvents(_) | CallView::GetParticles => false,
        _ => true,
    }
}

/// A pull of parameters or configuration.
pub open spec fn is_side_pull(c: CallView) -> bool {
    c is GetParams || c is GetConfig
}

/// The intent that flags nothing.
pub open spec fn quiet() -> ShouldUpdate {
    ShouldUpdate { simulation: false, particles: false, params: false, config: false }
}

proof fn lemma_settle_keeps_grid(a: AppView, s: SessionView, rs: Seq<Reply>)
    requires
        forall|i: int| 0 <= i < s.pending.len() ==> keeps_grid(#[trigger] s.pending[i]),
    ensures
        settle(a, s, rs).0.particles == a.particles,
    decreases rs.len(),
{
    if rs.len() == 0 || s.pending.len() == 0 {
    } else {
        let (a2, s2, e) = round(a, s, rs[0]);
        assert(keeps_grid(s.pending[s.pending.len() - 1]));
        if e is None {
            assert forall|i: int| 0 <= i < s2.pending.len() implies keeps_grid(
                #[trigger] s2.pending[i],
            ) by {
                assert(s2.pending[i] == s.pending[i]);
            }
            lemma_settle_keeps_grid(a2, s2, rs.drop_first());
        }
    }
}

proof fn lemma_absorb_under(a: AppView, s: SessionView, b: Seq<CallView>, r: Reply)
    ensures
        ({
            let (a1, s1, e1) = absorb(a, s, r);
            let (a2, s2, e2) = absorb(a, SessionView { pending: b + s.pending, ..s }, r);
            &&& a1 == a2
            &&& e1 == e2
            &&& e1 is None ==> s2 == SessionView { pending: b + s1.pending, ..s1 }
        }),
{
    let (a1, s1, e1) = absorb(a, s, r);
    if let Reply::Update(u) = r {
        assert((b + s.pending) + plan(u) =~= b + (s.pending + plan(u)));
    }
}

proof fn lemma_settle_under(a: AppView, s: SessionView, b: Seq<CallView>, rs: Seq<Reply>)
    requires
        forall|i: int| 0 <= i < b.len() ==> is_side_pull(#[trigger] b[i]),
    ensures
        settle(a, SessionView { pending: b + s.pending, ..s }, rs).0.particles == settle(
            a,
            s,
            rs,
        ).0.particles,
    decreases rs.len(),
{
    let u = SessionView { pending: b + s.pending, ..s };
    if rs.len() == 0 {
    } else if s.pending.len() == 0 {
        assert(u.pending =~= b);
        lemma_settle_keeps_grid(a, u, rs);
    } else {
        let p = s.pending;
        assert(u.pending.last() == p.last());
        assert(u.pending.drop_last() =~= b + p.drop_last());
        assert(popped(u) == SessionView { pending: b + popped(s).pending, ..popped(s) });
        lemma_absorb_under(a, popped(s), b, rs[0]);
        let (a1, s1, e1) = round(a, s, rs[0]);
        if e1 is None {
            lemma_settle_under(a1, s1, b, rs.drop_first());
        }
    }
}

proof fn lemma_settle_load_keeps_size(a: AppView, s: SessionView, rs: Seq<Reply>)
    requires
        forall|i: int|
            0 <= i < s.pending.len() ==> keeps_grid(#[trigger] s.pending[i])
                || s.pending[i] is GetParticles,
        s.load_left >= s.pending.len(),
    ensures
        same_size(settle(a, s, rs).0.particles, a.particles),
    decreases rs.len(),
{
    if rs.len() == 0 || s.pending.len() == 0 {
    } else {
        let (a2, s2, e) = round(a, s, rs[0]);
        let last = s.pending[s.pending.len() - 1];
        assert(keeps_grid(last) || last is GetParticles);
        if e is None {
            assert forall|i: int| 0 <= i < s2.pending.len() implies keeps_grid(
                #[trigger] s2.pending[i],
            ) || s2.pending[i] is GetParticles by {
                assert(s2.pending[i] == s.pending[i]);
            }
            lemma_settle_load_keeps_size(a2, s2, rs.drop_first());
        }
    }
}

proof fn lemma_absorb_agrees(a1: AppView, a2: AppView, s: SessionView, r: Reply)
    requires
        agree(a1, a2),
    ensures
        agree(absorb(a1, s, r).0, absorb(a2, s, r).0),
        absorb(a1, s, r).1 == absorb(a2, s, r).1,
        absorb(a1, s, r).2 == absorb(a2, s, r).2,
{
}

proof fn lemma_settle_agrees(a1: AppView, a2: AppView, s: SessionView, rs: Seq<Reply>)
    requires
        agree(a1, a2),
    ensures
        agree(settle(a1, s, rs).0, settle(a2, s, rs).0),
    decreases rs.len(),
{
    if rs.len() > 0 && s.pending.len() > 0 {
        lemma_absorb_agrees(a1, a2, popped(s), rs[0]);
        let (b1, s1, e1) = round(a1, s, rs[0]);
        let (b2, s2, e2) = round(a2, s, rs[0]);
        if e1 is None {
            lemma_settle_agrees(b1, b2, s1, rs.drop_first());
        }
    }
}

/// Reconciling an intent that flags nothing is a no-op: nothing is queued,
/// and on an idle session the caches stay exactly as they were whatever the
/// guest would answer.
pub proof fn lemma_quiet_update_is_noop(a: AppView, s: SessionView, rs: Seq<Reply>)
    ensures
        chain(s, quiet()) == s,
        s.pending.len() == 0 ==> settle(a, chain(s, quiet()), rs).0 == a,
{
    assert(plan(quiet()) =~= seq![]);
    assert(s.pending + plan(quiet()) =~= s.pending);
}

/// Pulling the grid replaces the cached grid whole: afterwards it is exactly
/// the grid pulled, whatever was cached, and no other cache changes. (While
/// loading, the pulled grid must have the size the module was set up with.)
pub proof fn lemma_particles_replace_whole_grid(a: AppView, s: SessionView, g: Grid)
    requires
        s.awaiting == Some(Expect::Particles),
        is_rectangular(g@),
        s.load_left > 0 ==> same_size(g@, a.particles),
    ensures
        absorb(a, s, Reply::Particles(g)).0 == (AppView { particles: g@, ..a }),
        absorb(a, s, Reply::Particles(g)).2 is None,
{
}

/// When an intent from an event handler chains a simulation step and does
/// not pull the grid itself, the grid the host ends with is the one that
/// step alone would have left, for every sequence of guest replies: the
/// intent's other pulls run only after the step and everything it pulls.
pub proof fn lemma_chained_step_decides_grid(
    a: AppView,
    s: SessionView,
    u: ShouldUpdate,
    rs: Seq<Reply>,
)
    requires
        s.pending.len() == 0,
        s.load_left == 0,
        u.simulation,
        !u.particles,
    ensures
        settle(a, chain(s, u), rs).0.particles == settle(
            a,
            enqueue(s, seq![CallView::Simulate]),
            rs,
        ).0.particles,
{
    let single = enqueue(s, seq![CallView::Simulate]);
    let b = plan(ShouldUpdate { simulation: false, ..u });
    assert(single.pending =~= seq![CallView::Simulate]);
    assert(chain(s, u) == SessionView { pending: b + single.pending, ..single }) by {
        assert(s.pending + plan(u) =~= b + single.pending);
    }
    assert forall|i: int| 0 <= i < b.len() implies is_side_pull(#[trigger] b[i]) by {}
    lemma_settle_under(a, single, b, rs);
}

/// A pull of the grid, parameters or configuration.
pub open spec fn is_pull(c: CallView) -> bool {
    c is GetParticles || c is GetParams || c is GetConfig
}

/// Every grid among the replies is `g`.
pub open spec fn grids_are(rs: Seq<Reply>, g: Grid) -> bool {
    forall|i: int| 0 <= i < rs.len() && (#[trigger] rs[i]) is Particles ==> rs[i] == Reply::Particles(g)
}

proof fn lemma_pulls_settle_on(a: AppView, s: SessionView, rs: Seq<Reply>, g: Grid)
    requires
        forall|i: int| 0 <= i < s.pending.len() ==> is_pull(#[trigger] s.pending[i]),
        s.load_left == 0,
        grids_are(rs, g),
        (exists|i: int| 0 <= i < s.pending.len() && (#[trigger] s.pending[i]) is GetParticles)
            || a.particles == g@,
    ensures
        ({
            let (a2, s2, e) = settle(a, s, rs);
            e is None && s2.pending.len() == 0 ==> a2.particles == g@
        }),
    decreases rs.len(),
{
    if rs.len() == 0 || s.pending.len() == 0 {
        if s.pending.len() == 0 {
            assert(!(exists|i: int| 0 <= i < s.pending.len() && (#[trigger] s.pending[i]) is GetParticles));
        }
    } else {
        let n = s.pending.len();
        let c = s.pending[n - 1];
        assert(is_pull(c));
        let (a2, s2, e) = round(a, s, rs[0]);
        if e is None {
            assert(rs[0] is Particles ==> rs[0] == Reply::Particles(g));
            assert forall|i: int| 0 <= i < s2.pending.len() implies is_pull(#[trigger] s2.pending[i]) by {
                assert(s2.pending[i] == s.pending[i]);
            }
            let rest = rs.drop_first();
            assert forall|i: int| 0 <= i < rest.len() && (#[trigger] rest[i]) is Particles implies rest[i]
                == Reply::Particles(g) by {
                assert(rest[i] == rs[i + 1]);
            }
            if !(c is GetParticles) && a.particles != g@ {
                let k = choose|i: int| 0 <= i < s.pending.len() && (#[trigger] s.pending[i]) is GetParticles;
                assert(k < n - 1);
                assert(s2.pending[k] == s.pending[k]);
            }
            lemma_pulls_settle_on(a2, s2, rest, g);
        }
    }
}

/// Chaining: when an intent asks for another simulation step, and the step's
/// own intent chains no further, the grid the host ends with is the guest's
/// grid after that step, whether the intent, the step's intent or both pull
/// it: every grid the guest hands back from then on is that same grid `g`,
/// and a reconciliation that ends without error has pulled it last.
pub proof fn lemma_chained_step_pulls_stepped_grid(
    a: AppView,
    s: SessionView,
    u: ShouldUpdate,
    u2: ShouldUpdate,
    rs: Seq<Reply>,
    g: Grid,
)
    requires
        s.pending.len() == 0,
        s.load_left == 0,
        s.hops < MAX_CHAIN,
        u.simulation,
        !u2.simulation,
        u.particles || u2.particles,
        rs.len() > 0,
        rs[0] == Reply::Update(u2),
        grids_are(rs.drop_first(), g),
    ensures
        ({
            let (a2, s2, e) = settle(a, chain(s, u), rs);
            e is None && s2.pending.len() == 0 ==> a2.particles == g@
        }),
{
    let s0 = chain(s, u);
    assert(s0.pending =~= plan(u));
    let (a1, s1, e1) = round(a, s0, rs[0]);
    let rest = plan(u).drop_last();
    assert(rest =~= plan(ShouldUpdate { simulation: false, ..u }));
    assert(s1.pending =~= rest + plan(u2));
    assert(settle(a, s0, rs) == settle(a1, s1, rs.drop_first()));
    assert forall|i: int| 0 <= i < s1.pending.len() implies is_pull(#[trigger] s1.pending[i]) by {}
    if u2.particles {
        assert(s1.pending[s1.pending.len() - 1] is GetParticles);
    } else {
        assert(s1.pending[if u.config { 1int } else { 0 } + if u.params { 1int } else { 0 }] is GetParticles);
    }
    lemma_pulls_settle_on(a1, s1, rs.drop_first(), g);
}

/// Loading a module keeps the grid the size of the viewport it was made
/// for, whatever the module answers: the grid a load pulls is refused
/// unless it has the size of the grid the module was set up with.
pub proof fn lemma_load_keeps_viewport(
    a: AppView,
    idx: usize,
    width: nat,
    height: nat,
    rs: Seq<Reply>,
)
    requires
        width >= 1,
        height >= 1,
        width_of(a.particles) == width,
        height_of(a.particles) == height,
    ensures
        ({
            let g = settle(a, loading(idx, a.particles), rs).0.particles;
            width_of(g) == width && height_of(g) == height
        }),
{
    let s = loading(idx, a.particles);
    assert forall|i: int| 0 <= i < s.pending.len() implies keeps_grid(#[trigger] s.pending[i])
        || s.pending[i] is GetParticles by {}
    lemma_settle_load_keeps_size(a, s, rs);
}

/// Switching modules keeps the grid the size of the viewport it was made
/// for, whatever the new module answers.
pub proof fn lemma_switch_keeps_viewport(
    a: AppView,
    idx: usize,
    width: nat,
    height: nat,
    rs: Seq<Reply>,
)
    requires
        width >= 1,
        height >= 1,
        width_of(a.particles) == width,
        height_of(a.particles) == height,
    ensures
        ({
            let g = settle(fresh_caches(a), loading(idx, a.particles), rs).0.particles;
            width_of(g) == width && height_of(g) == height
        }),
{
    lemma_load_keeps_viewport(fresh_caches(a), idx, width, height, rs);
}

/// Two hosts agree on the caches a module owns and on the grid.
pub open spec fn agree(a1: AppView, a2: AppView) -> bool {
    &&& a1.particles == a2.particles
    &&& a1.current_params == a2.current_params
    &&& a1.textures == a2.textures
    &&& a1.texture_index == a2.texture_index
}

/// After a switch, parameters, textures and texture index come from the new
/// module alone: two hosts with the same grid that switch to the same module
/// and get the same answers end with the same parameters, textures and
/// texture index, whatever the previous modules had left in them.
pub proof fn lemma_switch_isolates_module(a1: AppView, a2: AppView, idx: usize, rs: Seq<Reply>)
    requires
        a1.particles == a2.particles,
    ensures
        agree(
            settle(fresh_caches(a1), loading(idx, a1.particles), rs).0,
            settle(fresh_caches(a2), loading(idx, a2.particles), rs).0,
        ),
{
    lemma_settle_agrees(fresh_caches(a1), fresh_caches(a2), loading(idx, a1.particles), rs);
}

} // verus!
