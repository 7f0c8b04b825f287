use vstd::prelude::*;

use crate::animation::{next_index, step, AnimationModel};

verus! {

/// The state after one tick for each entry of `deltas`, in order.
pub open spec fn run(m: AnimationModel, deltas: Seq<nat>) -> AnimationModel
    decreases deltas.len(),
{
    if deltas.len() == 0 {
        m
    } else {
        run(step(m, deltas[0]).0, deltas.drop_first())
    }
}

/// How many of the ticks in `deltas` change the frame.
pub open spec fn firings(m: AnimationModel, deltas: Seq<nat>) -> nat
    decreases deltas.len(),
{
    if deltas.len() == 0 {
        0
    } else {
        (if step(m, deltas[0]).1 { 1nat } else { 0nat }) + firings(
            step(m, deltas[0]).0,
            deltas.drop_first(),
        )
    }
}

/// The sum of the ticks' durations.
pub open spec fn total(deltas: Seq<nat>) -> nat
    decreases deltas.len(),
{
    if deltas.len() == 0 {
        0
    } else {
        deltas[0] + total(deltas.drop_first())
    }
}

/// Any sequence of ticks keeps the frame range, the interval and the
/// well-formedness of the state, so the frame shown stays within
/// `first_index..=last_index` after every tick.
pub proof fn lemma_run_stays_in_range(m: AnimationModel, deltas: Seq<nat>)
    requires
        m.wf(),
    ensures
        run(m, deltas).wf(),
        run(m, deltas).first_index == m.first_index,
        run(m, deltas).last_index == m.last_index,
        run(m, deltas).interval == m.interval,
        m.first_index <= run(m, deltas).current_index <= m.last_index,
    decreases deltas.len(),
{
    if deltas.len() > 0 {
        lemma_run_stays_in_range(step(m, deltas[0]).0, deltas.drop_first());
    }
}

/// A tick that does not bring the accumulated time up to the interval leaves
/// the frame unchanged and reports no change; the tick's time is kept.
pub proof fn lemma_short_tick_keeps_frame(m: AnimationModel, delta: nat)
    requires
        m.wf(),
        m.elapsed + delta < m.interval,
    ensures
        !step(m, delta).1,
        step(m, delta).0.current_index == m.current_index,
        step(m, delta).0.elapsed == m.elapsed + delta,
{
}

/// No time is lost: the time left over after a sequence of ticks, plus one
/// interval per frame change, is the time held before plus the ticks' total.
pub proof fn lemma_time_is_conserved(m: AnimationModel, deltas: Seq<nat>)
    requires
        m.wf(),
    ensures
        run(m, deltas).elapsed + firings(m, deltas) * m.interval == m.elapsed + total(deltas),
    decreases deltas.len(),
{
    if deltas.len() > 0 {
        let next = step(m, deltas[0]).0;
        let rest = deltas.drop_first();
        lemma_time_is_conserved(next, rest);
        let f = firings(next, rest);
        assert(next.interval == m.interval);
        assert(run(m, deltas) == run(next, rest));
        assert(total(deltas) == deltas[0] + total(rest));
        assert((f + 1) * m.interval == f * m.interval + m.interval) by (nonlinear_arith);
        if step(m, deltas[0]).1 {
            assert(firings(m, deltas) == f + 1);
            assert(next.elapsed + m.interval == m.elapsed + deltas[0]);
        } else {
            assert(firings(m, deltas) == f);
            assert(next.elapsed == m.elapsed + deltas[0]);
        }
    } else {
        assert(firings(m, deltas) * m.interval == 0) by (nonlinear_arith)
            requires
                firings(m, deltas) == 0,
        ;
    }
}

/// With a single-frame range every tick, firing or not, shows that one frame.
pub proof fn lemma_single_frame_stays(m: AnimationModel, deltas: Seq<nat>)
    requires
        m.wf(),
        m.first_index == m.last_index,
    ensures
        run(m, deltas).current_index == m.first_index,
    decreases deltas.len(),
{
    if deltas.len() > 0 {
        lemma_single_frame_stays(step(m, deltas[0]).0, deltas.drop_first());
    }
}

} // verus!
