//! Lead/lag classification of a follower against the reference.
use vstd::prelude::*;

verus! {

/// How a follower is tuned relative to the reference.
#[derive(Clone, Copy, Debug, PartialEq, Eq, Structural)]
pub enum SynchronyState {
    /// The follower's frequency exceeds the reference's.
    Leading,
    /// The follower's frequency is below the reference's.
    Lagging,
    /// The two frequencies are equal.
    Aligned,
}

/// The state given by the sign of `follower - reference`.
pub open spec fn synchrony_of(reference: int, follower: int) -> SynchronyState {
    if follower > reference {
        SynchronyState::Leading
    } else if follower < reference {
        SynchronyState::Lagging
    } else {
        SynchronyState::Aligned
    }
}

/// Classifies one follower frequency against the reference frequency.
pub fn classify_one(reference_frequency: i64, follower_frequency: i64) -> (r: SynchronyState)
    ensures
        r == synchrony_of(reference_frequency as int, follower_frequency as int),
        (r == SynchronyState::Leading) <==> follower_frequency > reference_frequency,
        (r == SynchronyState::Lagging) <==> follower_frequency < reference_frequency,
        (r == SynchronyState::Aligned) <==> follower_frequency == reference_frequency,
{
    if follower_frequency > reference_frequency {
        SynchronyState::Leading
    } else if follower_frequency < reference_frequency {
        SynchronyState::Lagging
    } else {
        SynchronyState::Aligned
    }
}

/// Classifies each follower frequency against the reference frequency, in
/// the order given.
pub fn classify(reference_frequency: i64, follower_frequencies: &Vec<i64>) -> (r: Vec<SynchronyState>)
    ensures
        r@.len() == follower_frequencies@.len(),
        forall|i: int|
            0 <= i < r@.len() ==> r@[i] == synchrony_of(
                reference_frequency as int,
                follower_frequencies@[i] as int,
            ),
{
    let mut out: Vec<SynchronyState> = Vec::new();
    let mut i: usize = 0;
    while i < follower_frequencies.len()
        invariant
            i <= follower_frequencies@.len(),
            out@.len() == i,
            forall|j: int|
                0 <= j < i ==> out@[j] == synchrony_of(
                    reference_frequency as int,
                    follower_frequencies@[j] as int,
                ),
        decreases follower_frequencies@.len() - i,
    {
        out.push(classify_one(reference_frequency, follower_frequencies[i]));
        i = i + 1;
    }
    out
}

} // verus!
