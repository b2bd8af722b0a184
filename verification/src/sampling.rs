//! Taking one sample, step by step.
//!
//! A sample starts with a resolution of the frequency.  Once the frequency
//! is known the phase moves on, by the fraction of a cycle that one sample
//! lasts; the shape is then asked for its amplitude at the phase *before*
//! the move, the amplitude envelope for its gain, and the sample is their
//! product.
use vstd::prelude::*;
use crate::error::Error;
use crate::fixed::Fixed;
use crate::fixed::Wide;
use crate::frequency::FreqStep;
use crate::frequency::Resolution;
use crate::model::product;
use crate::model::stepped;
use crate::model::Model;
use crate::query::Query;

verus! {

/// Which answer a sample is waiting for.
#[derive(Clone, Copy, Debug, PartialEq, Eq, Structural)]
pub enum Stage {
    /// An answer within the resolution of the frequency.
    Frequency(Resolution),
    /// The amplitude of the shape.
    Shape,
    /// The gain, to go with the amplitude `shape`.
    Gain { shape: Fixed },
}

/// A sample that is being taken: where it stands, and what it was asked
/// for.
///
/// A sample that the caller makes up is resumed all the same; one with a
/// sample rate that is not positive is refused when it learns the frequency.
#[derive(Clone, Copy, Debug, PartialEq, Eq, Structural)]
pub struct Sampling {
    /// Which answer the sample is waiting for.
    pub stage: Stage,
    /// The playback position of the sample.
    pub ratio: Fixed,
    /// The factor by which the note retunes the oscillator.
    pub note_freq_multi: Fixed,
    /// The number of samples in a second.
    pub sample_hz: Fixed,
}

/// Where a sample stands after a step.
#[derive(Clone, Copy, Debug, PartialEq, Eq, Structural)]
pub enum AmpStep {
    /// The query is to be answered, and the sample resumed with the answer.
    Ask(Sampling, Query),
    /// The sample: the amplitude to emit.
    Done(Wide),
}

impl Sampling {
    /// This sample, waiting at `stage`.
    pub open spec fn at(self, stage: Stage) -> Sampling {
        Sampling { stage, ..self }
    }
}

impl Model {
    /// The first step of a sample: none where the sample rate is not
    /// positive, else the first step of a resolution of the frequency.
    pub open spec fn amp_start(ratio: Fixed, note_freq_multi: Fixed, sample_hz: Fixed) -> Result<
        AmpStep,
        Error,
    > {
        if sample_hz@ <= 0 {
            Err(Error::InvalidInput)
        } else {
            Ok(
                AmpStep::Ask(
                    Sampling {
                        stage: Stage::Frequency(Resolution::Raw),
                        ratio,
                        note_freq_multi,
                        sample_hz,
                    },
                    Query::FrequencyEnvelope { ratio },
                ),
            )
        }
    }

    /// The step that follows once the frequency `hz` is known: the phase
    /// moves on, and the shape is asked for its amplitude at the phase that
    /// the oscillator had.  Where the phase cannot move nothing changes.
    pub open spec fn amp_advance(self, at: Sampling, hz: Fixed) -> (Model, Result<AmpStep, Error>) {
        if at.sample_hz@ <= 0 {
            (self, Err(Error::InvalidInput))
        } else {
            match stepped(self.phase, hz, at.note_freq_multi, at.sample_hz) {
                Some(phase) => (
                    self.at_phase(phase),
                    Ok(
                        AmpStep::Ask(
                            at.at(Stage::Shape),
                            Query::Shape { waveform: self.waveform, phase: self.phase },
                        ),
                    ),
                ),
                None => (self, Err(Error::OutOfRange)),
            }
        }
    }

    /// The oscillator and the step that follow when the sample `at` gets
    /// `answer`.
    pub open spec fn amp_next(self, at: Sampling, answer: Fixed) -> (Model, Result<AmpStep, Error>) {
        match at.stage {
            Stage::Frequency(resolution) => match self.freq_next(resolution, answer) {
                Err(e) => (self, Err(e)),
                Ok(FreqStep::Ask(next, query)) => (
                    self,
                    Ok(AmpStep::Ask(at.at(Stage::Frequency(next)), query)),
                ),
                Ok(FreqStep::Done(hz)) => self.amp_advance(at, hz),
            },
            Stage::Shape => (
                self,
                Ok(
                    AmpStep::Ask(
                        at.at(Stage::Gain { shape: answer }),
                        Query::AmplitudeEnvelope { ratio: at.ratio },
                    ),
                ),
            ),
            Stage::Gain { shape } => (self, Ok(AmpStep::Done(product(shape, answer)))),
        }
    }
}

/// The phase one sample after `phase`, at the frequency `hz`.
pub fn advance(phase: Wide, hz: Fixed, multiplier: Fixed, sample_hz: Fixed) -> (r: Option<Wide>)
    requires
        sample_hz@ > 0,
    ensures
        r == stepped(phase, hz, multiplier, sample_hz),
{
    match hz.times(multiplier).per(sample_hz) {
        Some(step) => phase.plus(step),
        None => None,
    }
}

} // verus!
