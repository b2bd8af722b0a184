//! The closed set of waveform shapes.
use vstd::prelude::*;

verus! {

/// Which periodic function or noise process shapes the oscillator's output.
///
/// The oscillator only selects a shape; what a shape's amplitude is at a
/// phase is for the shape library to say.
#[derive(Clone, Copy, Debug, PartialEq, Eq, Structural)]
pub enum Waveform {
    /// A sine wave.
    Sine,
    /// A sawtooth wave.
    Saw,
    /// A square wave.
    Square,
    /// White noise.
    Noise,
    /// A random walk, used for drifting pitch: it reshapes the pitch before
    /// it is converted to hertz.
    NoiseWalk,
}

} // verus!
