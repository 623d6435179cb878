//! Pacing of the simulation against the rendered frames.
use vstd::prelude::*;

verus! {

/// How many rendered frames make one simulation tick.
pub const FRAMES_PER_TICK: u64 = 2;

/// Whether the simulation advances on this frame: it does on every
/// `FRAMES_PER_TICK`-th frame, starting with frame zero, and the renderer
/// reads unchanged state on the frames between.
pub fn ticks_on_frame(frame: u64) -> (r: bool)
    ensures
        r == (frame % FRAMES_PER_TICK == 0),
{
    frame % FRAMES_PER_TICK == 0
}

} // verus!
