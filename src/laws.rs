//! What holds of the activation gate over whole runs of ticks.

use vstd::prelude::*;
use crate::catalog::{ids_unique, lemma_find_unique};
use crate::engine::{
    Engine,
    TickResult,
    active_in,
    advance,
    is_switch,
    ms_to_ns,
    step,
};
use crate::expression::Expression;
use crate::motion::{bounce_velocity, lemma_velocity_bound, lemma_velocity_zero_at_start};
use crate::selector::selection;

verus! {

/// The state after the ticks `ticks` (each an audio level and a duration in
/// nanoseconds), run in order from `e` over the catalog `s`.
pub open spec fn run(e: Engine, s: Seq<Expression>, ticks: Seq<(i64, u128)>) -> Engine
    decreases ticks.len(),
{
    if ticks.len() == 0 {
        e
    } else {
        step(run(e, s, ticks.drop_last()), s, ticks.last().0 as int, ticks.last().1).0
    }
}

/// The total duration of `ticks`, in nanoseconds.
pub open spec fn total_ns(ticks: Seq<(i64, u128)>) -> int
    decreases ticks.len(),
{
    if ticks.len() == 0 {
        0
    } else {
        total_ns(ticks.drop_last()) + ticks.last().1
    }
}

/// How long a switch from the shown expression `a` to the candidate `c`
/// must wait, in nanoseconds: `c`'s attack time, and also `a`'s release time
/// where something is shown.
pub open spec fn switch_wait(a: Option<Expression>, c: Expression) -> int {
    match a {
        None => ms_to_ns(c.attack_ms),
        Some(x) => if ms_to_ns(x.release_ms) >= ms_to_ns(c.attack_ms) {
            ms_to_ns(x.release_ms)
        } else {
            ms_to_ns(c.attack_ms)
        },
    }
}

/// A tick keeps the bounce within its frames, with the offset on the bounce
/// curve.
pub proof fn lemma_step_keeps_invariant(e: Engine, s: Seq<Expression>, level: int, dt: u128)
    requires
        e.wf(),
    ensures
        step(e, s, level, dt).0.wf(),
{
    lemma_velocity_zero_at_start(e.max_velocity as int, e.max_frames as int);
    if let Some(ci) = selection(s, level) {
        let c = s[ci];
        lemma_velocity_zero_at_start(
            if c.has_bounce() {
                c.max_velocity as int
            } else {
                0
            },
            if c.has_bounce() {
                c.total_frames as int
            } else {
                0
            },
        );
        let e2 = {
            let a = active_in(e, s);
            let e1 = crate::engine::account(e, a, c, dt);
            if crate::engine::may_commit(e1, a, c) {
                crate::engine::commit(e1, c)
            } else {
                e1
            }
        };
        let f = advance(e2, dt).frame_counter;
        if e2.frame_counter < e2.max_frames {
            lemma_velocity_bound(e2.max_velocity as int, f as int, e2.max_frames as int);
            assert(e2.max_velocity as int * e2.max_velocity as int <= 0xffff_fffe_0000_0001)
                by (nonlinear_arith)
                requires
                    e2.max_velocity <= 0xffff_ffff,
            ;
        }
    }
}

/// Every run of ticks keeps `frame_counter <= max_frames` and the offset on
/// the bounce curve, which is zero on a bounce's first and last frames and
/// highest at its middle frame.
pub proof fn lemma_bounce_stays_in_range(e: Engine, s: Seq<Expression>, ticks: Seq<(i64, u128)>)
    requires
        e.wf(),
    ensures
        run(e, s, ticks).wf(),
        run(e, s, ticks).frame_counter <= run(e, s, ticks).max_frames,
        run(e, s, ticks).velocity == bounce_velocity(
            run(e, s, ticks).max_velocity as int,
            run(e, s, ticks).frame_counter as int,
            run(e, s, ticks).max_frames as int,
        ),
    decreases ticks.len(),
{
    if ticks.len() > 0 {
        lemma_bounce_stays_in_range(e, s, ticks.drop_last());
        lemma_step_keeps_invariant(
            run(e, s, ticks.drop_last()),
            s,
            ticks.last().0 as int,
            ticks.last().1,
        );
    }
}

/// A tick at a level below every threshold changes nothing: the same
/// expression stays active with the same offset, and nothing is redrawn.
pub proof fn lemma_silent_tick(e: Engine, s: Seq<Expression>, level: int, dt: u128)
    requires
        forall|j: int| 0 <= j < s.len() ==> #[trigger] s[j].threshold > level,
    ensures
        step(e, s, level, dt) == (
        e,
        TickResult { active_expression: e.active, vertical_offset: e.velocity, needs_redraw: false },
    ),
{
    if let Some(i) = selection(s, level) {
        let k = choose|k: int| crate::selector::is_selection(s, level, k);
        assert(crate::selector::is_selection(s, level, k));
    }
}

/// Any number of ticks at levels below every threshold leave the state as
/// it was: the active expression stays on display.
pub proof fn lemma_silence_keeps_state(e: Engine, s: Seq<Expression>, ticks: Seq<(i64, u128)>)
    requires
        forall|k: int, j: int|
            0 <= k < ticks.len() && 0 <= j < s.len() ==> #[trigger] s[j].threshold
                > #[trigger] ticks[k].0,
    ensures
        run(e, s, ticks) == e,
    decreases ticks.len(),
{
    if ticks.len() > 0 {
        let rest = ticks.drop_last();
        assert forall|k: int, j: int|
            0 <= k < rest.len() && 0 <= j < s.len() implies #[trigger] s[j].threshold
            > #[trigger] rest[k].0 by {
            assert(rest[k] == ticks[k]);
        }
        lemma_silence_keeps_state(e, s, rest);
        let last = ticks.last();
        assert forall|j: int| 0 <= j < s.len() implies #[trigger] s[j].threshold > last.0 as int by {
            assert(s[j].threshold > ticks[ticks.len() - 1].0);
        }
        lemma_silent_tick(e, s, last.0 as int, last.1);
    }
}

/// Ticks of no length never add to the pending time or the bounce frame.
pub proof fn lemma_zero_time_changes_no_clock(
    e: Engine,
    s: Seq<Expression>,
    ticks: Seq<(i64, u128)>,
)
    requires
        forall|k: int| 0 <= k < ticks.len() ==> (#[trigger] ticks[k]).1 == 0,
    ensures
        run(e, s, ticks).pending_elapsed_ns <= e.pending_elapsed_ns,
        run(e, s, ticks).frame_counter <= e.frame_counter,
    decreases ticks.len(),
{
    if ticks.len() > 0 {
        let rest = ticks.drop_last();
        assert forall|k: int| 0 <= k < rest.len() implies (#[trigger] rest[k]).1 == 0 by {
            assert(rest[k] == ticks[k]);
        }
        lemma_zero_time_changes_no_clock(e, s, rest);
        assert(ticks.last() == ticks[ticks.len() - 1]);
    }
}

proof fn lemma_total_grows(ticks: Seq<(i64, u128)>)
    ensures
        total_ns(ticks) >= 0,
        ticks.len() > 0 ==> total_ns(ticks) >= total_ns(ticks.drop_last()),
    decreases ticks.len(),
{
    if ticks.len() > 0 {
        lemma_total_grows(ticks.drop_last());
    }
}

proof fn lemma_switch_progress(
    e: Engine,
    s: Seq<Expression>,
    ticks: Seq<(i64, u128)>,
    ci: int,
)
    requires
        ids_unique(s),
        0 <= ci < s.len(),
        forall|k: int| 0 <= k < ticks.len() ==> selection(s, (#[trigger] ticks[k]).0 as int) == Some(ci),
        e.pending_elapsed_ns == 0,
        is_switch(active_in(e, s), s[ci]),
    ensures
        ({
            let r = run(e, s, ticks);
            let t = total_ns(ticks);
            let crossed = ticks.len() > 0 && t >= switch_wait(active_in(e, s), s[ci]);
            &&& crossed ==> r.active == Some(s[ci].id) && r.latched && r.pending_elapsed_ns == 0
            &&& !crossed ==> {
                &&& r.active == e.active
                &&& r.pending_elapsed_ns == if t > u128::MAX {
                    u128::MAX as int
                } else {
                    t
                }
                &&& ticks.len() > 0 ==> !r.latched
            }
        }),
    decreases ticks.len(),
{
    lemma_total_grows(ticks);
    if ticks.len() > 0 {
        let rest = ticks.drop_last();
        assert forall|k: int| 0 <= k < rest.len() implies selection(
            s,
            (#[trigger] rest[k]).0 as int,
        ) == Some(ci) by {
            assert(rest[k] == ticks[k]);
        }
        lemma_switch_progress(e, s, rest, ci);
        let last = ticks.last();
        assert(last == ticks[ticks.len() - 1]);
        assert(selection(s, last.0 as int) == Some(ci));
        let c = s[ci];
        let prev = run(e, s, rest);
        let gate = switch_wait(active_in(e, s), c);
        assert(gate <= 0xffff_ffff_ffff_ffff * 1_000_000);
        if rest.len() > 0 && total_ns(rest) >= gate {
            lemma_find_unique(s, ci);
            assert(active_in(prev, s) == Some(c));
        } else {
            assert(active_in(prev, s) == active_in(e, s));
        }
    }
}

/// With the same candidate selected on every tick, a switch away from the
/// shown expression (or to a first expression) is committed on the tick at
/// which the accumulated time first reaches the candidate's attack time and
/// the shown expression's release time, and not before; until then the
/// shown expression stays active.
pub proof fn lemma_switch_waits_for_timing(
    e: Engine,
    s: Seq<Expression>,
    ticks: Seq<(i64, u128)>,
    ci: int,
)
    requires
        ids_unique(s),
        0 <= ci < s.len(),
        forall|k: int| 0 <= k < ticks.len() ==> selection(s, (#[trigger] ticks[k]).0 as int) == Some(ci),
        e.pending_elapsed_ns == 0,
        is_switch(active_in(e, s), s[ci]),
    ensures
        run(e, s, ticks).active == if ticks.len() > 0 && total_ns(ticks) >= switch_wait(
            active_in(e, s),
            s[ci],
        ) {
            Some(s[ci].id)
        } else {
            e.active
        },
{
    lemma_switch_progress(e, s, ticks, ci);
}

} // verus!
