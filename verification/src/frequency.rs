//! Resolving the frequency, step by step.
//!
//! A resolution starts with the question for the frequency envelope's value
//! and ends with a frequency in hertz.  In between, each answer decides the
//! next question: a noise walk has its pitch reshaped first, and a warbling
//! oscillator goes through mel, where one random draw moves the pitch.
use vstd::prelude::*;
use crate::error::Error;
use crate::fixed::Fixed;
use crate::model::warbled;
use crate::model::Model;
use crate::model::NOISE_WALK_WEIGHT;
use crate::model::WARBLE_CENTRE;
use crate::model::WARBLE_MEAN;
use crate::model::WARBLE_SPREAD;
use crate::query::Query;
use crate::waveform::Waveform;

verus! {

/// Which answer a resolution of the frequency is waiting for.
///
/// The stages follow from one another through the steps.  A stage that the
/// caller makes up is resumed all the same: every step is defined for every
/// stage and every answer.
#[derive(Clone, Copy, Debug, PartialEq, Eq, Structural)]
pub enum Resolution {
    /// The value of the frequency envelope.
    Raw,
    /// The reshaped pitch of a noise walk.
    Rescaled,
    /// The pitch in mel.
    Mel,
    /// The random draw that moves the pitch `mel`.
    Draw { mel: Fixed },
    /// The frequency in hertz.
    Hz,
}

/// Where a resolution of the frequency stands after a step.
#[derive(Clone, Copy, Debug, PartialEq, Eq, Structural)]
pub enum FreqStep {
    /// The query is to be answered, and the resolution resumed with the
    /// answer.
    Ask(Resolution, Query),
    /// The frequency in hertz.
    Done(Fixed),
}

impl Model {
    /// The first step of every resolution: the question for the frequency
    /// envelope's value at `ratio`.
    pub open spec fn freq_start(ratio: Fixed) -> FreqStep {
        FreqStep::Ask(Resolution::Raw, Query::FrequencyEnvelope { ratio })
    }

    /// The step that follows once the pitch percentage `perc` is settled:
    /// on to mel where the pitch warbles, else straight to hertz.
    pub open spec fn freq_convert(self, perc: Fixed) -> FreqStep {
        if self.warbles() {
            FreqStep::Ask(Resolution::Mel, Query::MelFromPerc { perc })
        } else {
            FreqStep::Ask(Resolution::Hz, Query::HzFromPerc { perc })
        }
    }

    /// The step that follows when a resolution that waits at `at` gets
    /// `answer`.
    pub open spec fn freq_next(self, at: Resolution, answer: Fixed) -> Result<FreqStep, Error> {
        match at {
            Resolution::Raw => if self.waveform == Waveform::NoiseWalk {
                Ok(
                    FreqStep::Ask(
                        Resolution::Rescaled,
                        Query::ScaledPerc {
                            perc: answer,
                            exponent: Fixed { raw: NOISE_WALK_WEIGHT },
                        },
                    ),
                )
            } else {
                Ok(self.freq_convert(answer))
            },
            Resolution::Rescaled => Ok(self.freq_convert(answer)),
            Resolution::Mel => Ok(
                FreqStep::Ask(
                    Resolution::Draw { mel: answer },
                    Query::Gaussian {
                        mean: Fixed { raw: WARBLE_MEAN },
                        variance: self.variance(),
                    },
                ),
            ),
            Resolution::Draw { mel } => match warbled(mel, answer) {
                Some(moved) => Ok(FreqStep::Ask(Resolution::Hz, Query::HzFromMel { mel: moved })),
                None => Err(Error::OutOfRange),
            },
            Resolution::Hz => Ok(FreqStep::Done(answer)),
        }
    }
}

/// Moves the pitch `mel` by the draw `draw`.
pub fn warble(mel: Fixed, draw: Fixed) -> (r: Option<Fixed>)
    ensures
        r == warbled(mel, draw),
{
    let spread: i128 = (draw.raw as i128) * (WARBLE_SPREAD as i128);
    mel.offset(spread - (WARBLE_CENTRE as i128))
}

} // verus!
