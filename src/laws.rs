//! Properties of the tick, stated over the bank's model.
use vstd::prelude::*;

use crate::angle::{scaled, wrap_angle};
use crate::bank::{step, BankModel, CouplingConfig, PhasePulls};

verus! {

/// The state after applying a sequence of ticks in order.
pub open spec fn run(b: BankModel, ticks: Seq<(CouplingConfig, PhasePulls)>) -> BankModel
    decreases ticks.len(),
{
    if ticks.len() == 0 {
        b
    } else {
        step(run(b, ticks.drop_last()), ticks.last().0, ticks.last().1)
    }
}

/// Pulls that agree with sin 0 = 0: where two phases coincide, the pull
/// between them is zero.
pub open spec fn pulls_vanish_on_coincidence(b: BankModel, p: PhasePulls) -> bool {
    &&& b.reference.phase == b.focus.phase ==> p.reference_focus == 0
    &&& b.reference.phase == b.other.phase ==> p.reference_other == 0
    &&& b.other.phase == b.focus.phase ==> p.other_focus == 0
}

/// All three oscillators share one phase and one frequency.
pub open spec fn in_unison(b: BankModel) -> bool {
    &&& b.reference.phase == b.focus.phase
    &&& b.reference.phase == b.other.phase
    &&& b.reference.frequency == b.focus.frequency
    &&& b.reference.frequency == b.other.frequency
}

/// After a tick every phase lies in `[0, TWO_PI)`, whatever the state
/// before.
pub proof fn lemma_step_lands_in_turn(b: BankModel, c: CouplingConfig, p: PhasePulls)
    ensures
        step(b, c, p).wf(),
{
}

/// From a state whose phases lie in `[0, TWO_PI)`, every state reached by a
/// run of ticks has its phases there too.
pub proof fn lemma_run_stays_in_turn(b: BankModel, ticks: Seq<(CouplingConfig, PhasePulls)>)
    requires
        b.wf(),
    ensures
        run(b, ticks).wf(),
    decreases ticks.len(),
{
    if ticks.len() > 0 {
        lemma_run_stays_in_turn(b, ticks.drop_last());
        lemma_step_lands_in_turn(run(b, ticks.drop_last()), ticks.last().0, ticks.last().1);
    }
}

/// The reference's phase after a tick is its phase plus its frequency times
/// `dt`, wrapped; the followers, the gain, the cross-influence flag and the
/// pulls have no effect on it.
pub proof fn lemma_reference_independence(
    b: BankModel,
    c: CouplingConfig,
    p: PhasePulls,
    b2: BankModel,
    c2: CouplingConfig,
    p2: PhasePulls,
)
    requires
        b2.reference == b.reference,
        c2.dt == c.dt,
    ensures
        step(b, c, p).reference.phase == wrap_angle(
            b.reference.phase + scaled(b.reference.frequency, c.dt as int),
        ),
        step(b2, c2, p2).reference == step(b, c, p).reference,
{
}

/// With zero gain every follower runs freely: its phase after a tick is its
/// phase plus its frequency times `dt`, wrapped, whatever the reference does.
pub proof fn lemma_zero_coupling_runs_free(b: BankModel, c: CouplingConfig, p: PhasePulls)
    requires
        c.coupling_strength == 0,
    ensures
        step(b, c, p).focus.phase == wrap_angle(
            b.focus.phase + scaled(b.focus.frequency, c.dt as int),
        ),
        step(b, c, p).other.phase == wrap_angle(
            b.other.phase + scaled(b.other.frequency, c.dt as int),
        ),
{
}

/// Three oscillators that start with one phase and one frequency keep one
/// phase after any number of ticks, as long as each tick's pulls vanish
/// between coinciding phases.
pub proof fn lemma_unison_is_kept(b: BankModel, ticks: Seq<(CouplingConfig, PhasePulls)>)
    requires
        in_unison(b),
        forall|i: int|
            0 <= i < ticks.len() ==> pulls_vanish_on_coincidence(
                #[trigger] run(b, ticks.take(i)),
                ticks[i].1,
            ),
    ensures
        in_unison(run(b, ticks)),
    decreases ticks.len(),
{
    if ticks.len() > 0 {
        let front = ticks.drop_last();
        assert forall|i: int| 0 <= i < front.len() implies pulls_vanish_on_coincidence(
            #[trigger] run(b, front.take(i)),
            front[i].1,
        ) by {
            assert(front.take(i) =~= ticks.take(i));
            assert(run(b, ticks.take(i)) == run(b, front.take(i)));
        }
        lemma_unison_is_kept(b, front);
        let i = ticks.len() - 1;
        assert(ticks.take(i) =~= front);
        assert(pulls_vanish_on_coincidence(run(b, ticks.take(i)), ticks[i].1));
    }
}

/// Two runs from equal states through equal ticks agree at every step.
pub proof fn lemma_runs_are_deterministic(
    a: BankModel,
    b: BankModel,
    ticks: Seq<(CouplingConfig, PhasePulls)>,
)
    requires
        a == b,
    ensures
        forall|i: int| 0 <= i <= ticks.len() ==> #[trigger] run(a, ticks.take(i)) == run(b, ticks.take(i)),
{
}

} // verus!
