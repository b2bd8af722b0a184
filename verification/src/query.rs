//! What the oscillator asks of its collaborators.
//!
//! The oscillator decides what is computed and in which order.  The
//! computations themselves (interpolating an envelope, converting between
//! pitch units, drawing a random number, evaluating a waveform shape) belong
//! to others.  So the oscillator works in steps: each step hands out one
//! [`Query`], and is resumed with the answer.
use vstd::prelude::*;
use crate::fixed::Fixed;
use crate::fixed::Wide;
use crate::waveform::Waveform;

verus! {

/// One piece of work for a collaborator.  The answer to each is one
/// [`Fixed`] number.
#[derive(Clone, Copy, Debug, PartialEq, Eq, Structural)]
pub enum Query {
    /// The value of the oscillator's frequency envelope at `ratio`: a pitch
    /// as a percentage of the hearing range.
    FrequencyEnvelope { ratio: Fixed },
    /// The value of the oscillator's amplitude envelope at `ratio`: a linear
    /// gain.
    AmplitudeEnvelope { ratio: Fixed },
    /// The percentage that the scaled percentage `perc` stands for under the
    /// scale weight `exponent`.
    ScaledPerc { perc: Fixed, exponent: Fixed },
    /// The pitch percentage `perc` in mel.
    MelFromPerc { perc: Fixed },
    /// The pitch percentage `perc` in hertz.
    HzFromPerc { perc: Fixed },
    /// The pitch `mel`, given in mel, in hertz.
    HzFromMel { mel: Fixed },
    /// One draw from the normal distribution with the given mean and
    /// variance.
    Gaussian { mean: Fixed, variance: Wide },
    /// The amplitude of the shape `waveform` at `phase`, which is given in
    /// cycles with 64 fractional bits.
    Shape { waveform: Waveform, phase: Wide },
}

} // verus!
