//! The oscillator as a mathematical value, and its collaborators as
//! functions.
//!
//! Contracts speak of an oscillator through its [`Model`].  What a sample
//! or a frequency *is* can only be said relative to what the collaborators
//! answer, so the definitions here take a [`Collaborators`]: one behaviour
//! of each of them, as a function.  Nothing is assumed of these functions;
//! every law holds for all of them.
use vstd::prelude::*;
use crate::envelope::Point;
use crate::error::Error;
use crate::fixed::fixed_of;
use crate::fixed::floor_div;
use crate::fixed::wide_of;
use crate::fixed::Fixed;
use crate::fixed::Wide;
use crate::fixed::SCALE;
use crate::query::Query;
use crate::waveform::Waveform;

verus! {

/// What an oscillator is made of.
pub struct Model {
    /// How far the waveform has come, in cycles.
    pub phase: Wide,
    /// The shape of the waveform.
    pub waveform: Waveform,
    /// How much randomness is applied to the pitch; none unless positive.
    pub gaussian_perc: Fixed,
    /// The points of the amplitude envelope.
    pub amplitude: Seq<Point>,
    /// The points of the frequency envelope.
    pub frequency: Seq<Point>,
}

/// One behaviour of the oscillator's collaborators during one resolution.
///
/// A random draw is one value in each resolution, so where two resolutions
/// are compared each has a `Collaborators` of its own.
pub struct Collaborators {
    /// The value of the envelope with the given points at a ratio.
    pub envelope: spec_fn(Seq<Point>, Fixed) -> Fixed,
    /// The percentage that a scaled percentage stands for under a scale
    /// weight.
    pub scaled_perc: spec_fn(Fixed, Fixed) -> Fixed,
    /// A pitch percentage in mel.
    pub mel_from_perc: spec_fn(Fixed) -> Fixed,
    /// A pitch percentage in hertz.
    pub hz_from_perc: spec_fn(Fixed) -> Fixed,
    /// A pitch in mel, in hertz.
    pub hz_from_mel: spec_fn(Fixed) -> Fixed,
    /// The draw from the normal distribution with a mean and a variance.
    pub gaussian: spec_fn(Fixed, Wide) -> Fixed,
    /// The amplitude of a waveform shape at a phase.
    pub shape: spec_fn(Waveform, Wide) -> Fixed,
}

/// The raw value of the scale weight 0.6 by which a noise walk reshapes its
/// pitch: 0.6 * 2^32, rounded.
pub const NOISE_WALK_WEIGHT: i64 = 2_576_980_378;

/// The raw value of 0.5, the mean of the draws that make the pitch warble.
pub const WARBLE_MEAN: i64 = 0x8000_0000;

/// How many mel a draw of one stands for.
pub const WARBLE_SPREAD: i64 = 1000;

/// The raw value of 500: the mel that are taken off, so that the mean draw
/// leaves the pitch where it was.
pub const WARBLE_CENTRE: i64 = 500 * SCALE;

/// The exact product of two numbers.
pub open spec fn product(a: Fixed, b: Fixed) -> Wide {
    Wide { raw: (a@ * b@) as i128 }
}

/// The pitch `mel`, in mel, moved by the draw `draw`: by
/// `draw * 1000 - 500` mel.  `None` where that leaves the range of the
/// numbers.
pub open spec fn warbled(mel: Fixed, draw: Fixed) -> Option<Fixed> {
    fixed_of(mel@ + draw@ * WARBLE_SPREAD - WARBLE_CENTRE)
}

/// By how much the phase moves in one sample, as a raw value with 64
/// fractional bits: `hz * multiplier / sample_hz` cycles, rounded down to
/// the next multiple of `2^-64`.
pub open spec fn phase_step(hz: Fixed, multiplier: Fixed, sample_hz: Fixed) -> int
    recommends
        sample_hz@ > 0,
{
    floor_div(hz@ * multiplier@ * SCALE, sample_hz@)
}

/// The phase one sample after `phase`.  `None` where the step or the new
/// phase leaves the range of the numbers.
pub open spec fn stepped(phase: Wide, hz: Fixed, multiplier: Fixed, sample_hz: Fixed) -> Option<
    Wide,
>
    recommends
        sample_hz@ > 0,
{
    match wide_of(phase_step(hz, multiplier, sample_hz)) {
        Some(step) => wide_of(phase@ + step@),
        None => None,
    }
}

impl Model {
    /// Whether the pitch is randomised.
    pub open spec fn warbles(self) -> bool {
        self.gaussian_perc@ > 0
    }

    /// The variance of the draws that randomise the pitch: the square of
    /// the warble amount.
    pub open spec fn variance(self) -> Wide {
        product(self.gaussian_perc, self.gaussian_perc)
    }

    /// This oscillator with its phase at `phase`.
    pub open spec fn at_phase(self, phase: Wide) -> Model {
        Model { phase, ..self }
    }

    /// What the collaborators answer to a query of this oscillator.
    pub open spec fn answer(self, c: Collaborators, query: Query) -> Fixed {
        match query {
            Query::FrequencyEnvelope { ratio } => (c.envelope)(self.frequency, ratio),
            Query::AmplitudeEnvelope { ratio } => (c.envelope)(self.amplitude, ratio),
            Query::ScaledPerc { perc, exponent } => (c.scaled_perc)(perc, exponent),
            Query::MelFromPerc { perc } => (c.mel_from_perc)(perc),
            Query::HzFromPerc { perc } => (c.hz_from_perc)(perc),
            Query::HzFromMel { mel } => (c.hz_from_mel)(mel),
            Query::Gaussian { mean, variance } => (c.gaussian)(mean, variance),
            Query::Shape { waveform, phase } => (c.shape)(waveform, phase),
        }
    }

    /// The pitch that the frequency envelope gives at `ratio`, as a
    /// percentage.
    pub open spec fn raw_pitch(self, ratio: Fixed, c: Collaborators) -> Fixed {
        (c.envelope)(self.frequency, ratio)
    }

    /// The pitch at `ratio` as a percentage, reshaped where the waveform is
    /// a noise walk.
    pub open spec fn pitch(self, ratio: Fixed, c: Collaborators) -> Fixed {
        let raw = self.raw_pitch(ratio, c);
        if self.waveform == Waveform::NoiseWalk {
            (c.scaled_perc)(raw, Fixed { raw: NOISE_WALK_WEIGHT })
        } else {
            raw
        }
    }

    /// The frequency in hertz of the pitch percentage `perc`: converted
    /// directly, or, where the pitch warbles, moved in mel by one draw.
    pub open spec fn frequency_of(self, perc: Fixed, c: Collaborators) -> Result<Fixed, Error> {
        if self.warbles() {
            let mel = (c.mel_from_perc)(perc);
            let draw = (c.gaussian)(Fixed { raw: WARBLE_MEAN }, self.variance());
            match warbled(mel, draw) {
                Some(moved) => Ok((c.hz_from_mel)(moved)),
                None => Err(Error::OutOfRange),
            }
        } else {
            Ok((c.hz_from_perc)(perc))
        }
    }

    /// The frequency in hertz that the oscillator produces at `ratio`.
    pub open spec fn frequency(self, ratio: Fixed, c: Collaborators) -> Result<Fixed, Error> {
        self.frequency_of(self.pitch(ratio, c), c)
    }

    /// The phase after the sample at `ratio` is taken.
    pub open spec fn next_phase(
        self,
        ratio: Fixed,
        multiplier: Fixed,
        sample_hz: Fixed,
        c: Collaborators,
    ) -> Result<Wide, Error> {
        if sample_hz@ <= 0 {
            Err(Error::InvalidInput)
        } else {
            match self.frequency(ratio, c) {
                Err(e) => Err(e),
                Ok(hz) => match stepped(self.phase, hz, multiplier, sample_hz) {
                    Some(phase) => Ok(phase),
                    None => Err(Error::OutOfRange),
                },
            }
        }
    }

    /// The sample at `ratio`: the shape's amplitude at the phase before the
    /// sample, times the gain.  It is owed exactly where the phase can move.
    pub open spec fn sample(
        self,
        ratio: Fixed,
        multiplier: Fixed,
        sample_hz: Fixed,
        c: Collaborators,
    ) -> Result<Wide, Error> {
        match self.next_phase(ratio, multiplier, sample_hz, c) {
            Err(e) => Err(e),
            Ok(_) => Ok(
                product((c.shape)(self.waveform, self.phase), (c.envelope)(self.amplitude, ratio)),
            ),
        }
    }
}

/// The product of two numbers is exact.
pub proof fn lemma_product_exact(a: Fixed, b: Fixed)
    ensures
        product(a, b)@ == a@ * b@,
{
    assert(-0x4000_0000_0000_0000_0000_0000_0000_0000 <= a@ * b@
        <= 0x4000_0000_0000_0000_0000_0000_0000_0000) by (nonlinear_arith)
        requires
            -0x8000_0000_0000_0000 <= a@ <= 0x8000_0000_0000_0000,
            -0x8000_0000_0000_0000 <= b@ <= 0x8000_0000_0000_0000,
    ;
}

} // verus!
