//! The event stream as the controller sees it: key presses interleaved
//! with periodic ticks, delivered one at a time in arrival order. The
//! timer thread and the terminal reads that produce the stream live
//! outside the library; they hand in plain values of these types.

use vstd::prelude::*;

verus! {

/// A key press the controller reacts to. Every key without a binding is
/// delivered as `Other`, which the controller ignores.
#[derive(Clone, Copy, Debug, PartialEq, Eq, Structural)]
pub enum Key {
    Char(char),
    Up,
    Down,
    Other,
}

/// One element of the merged input stream: a key press, or the periodic
/// tick that forces a redraw even without input.
#[derive(Clone, Copy, Debug, PartialEq, Eq, Structural)]
pub enum Event {
    Input(Key),
    Tick,
}

/// How long the producer may wait for input before the next tick is due:
/// the remainder of the tick interval, clamped to zero once the interval
/// has already elapsed. The clamp is what keeps a slow poll from flooding
/// the stream with ticks — and the subtraction from underflowing.
pub fn tick_timeout_millis(tick_interval: u64, elapsed: u64) -> (r: u64)
    ensures
        elapsed < tick_interval ==> r == tick_interval - elapsed,
        elapsed >= tick_interval ==> r == 0,
{
    if elapsed < tick_interval {
        tick_interval - elapsed
    } else {
        0
    }
}

} // verus!
