//! What can go wrong.
use vstd::prelude::*;

verus! {

/// Why the oscillator gave no result.
#[derive(Clone, Copy, Debug, PartialEq, Eq, Structural)]
pub enum Error {
    /// The sample rate was zero or negative.
    InvalidInput,
    /// A value left the range of the fixed-point numbers: a pitch moved
    /// beyond `2^31` mel, a single step of the phase beyond `2^63` cycles,
    /// or the phase itself beyond `2^63` cycles.  Nothing has changed then.
    OutOfRange,
}

} // verus!
