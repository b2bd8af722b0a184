//! The oscillator: its state, its configuration and its steps.
use vstd::prelude::*;
use crate::envelope::zeroed_points;
use crate::envelope::Envelope;
use crate::error::Error;
use crate::fixed::Fixed;
use crate::fixed::Wide;
use crate::frequency::warble;
use crate::frequency::FreqStep;
use crate::frequency::Resolution;
use crate::model::Model;
use crate::model::NOISE_WALK_WEIGHT;
use crate::model::WARBLE_MEAN;
use crate::query::Query;
use crate::sampling::advance;
use crate::sampling::AmpStep;
use crate::sampling::Sampling;
use crate::sampling::Stage;
use crate::waveform::Waveform;

verus! {

/// The envelope of an oscillator's gain.
pub type AmpEnvelope = Envelope;

/// The envelope of an oscillator's pitch.
pub type FreqEnvelope = Envelope;

/// The fundamental component of a synthesizer: one periodic waveform
/// generator.
///
/// Once the oscillator is configured only its phase changes, and only by
/// taking a sample.  The phase is kept with 64 fractional bits, so that the
/// rounding of a step, less than `2^-64` of a cycle, stays out of hearing
/// however many samples add up.
///
/// Verified code reads the parts through the getters, whose contracts
/// speak of the view.
#[derive(Debug)]
pub struct Oscillator {
    /// How far the waveform has come, in cycles.
    phase: Wide,
    /// The shape of the waveform.
    pub waveform: Waveform,
    /// How much randomness is applied to the pitch; none unless positive.
    pub gaussian_perc: Fixed,
    /// The gain over the playback position.
    pub amplitude: AmpEnvelope,
    /// The pitch, as a percentage, over the playback position.
    pub frequency: FreqEnvelope,
}

impl View for Oscillator {
    type V = Model;

    closed spec fn view(&self) -> Model {
        Model {
            phase: self.phase,
            waveform: self.waveform,
            gaussian_perc: self.gaussian_perc,
            amplitude: self.amplitude@,
            frequency: self.frequency@,
        }
    }
}

impl Clone for Oscillator {
    /// An oscillator of its own with the same phase and configuration.
    fn clone(&self) -> (o: Oscillator)
        ensures
            o@ == self@,
    {
        Oscillator {
            phase: self.phase,
            waveform: self.waveform,
            gaussian_perc: self.gaussian_perc,
            amplitude: self.amplitude.clone(),
            frequency: self.frequency.clone(),
        }
    }
}

impl Oscillator {
    /// A sine oscillator at phase zero, with zeroed envelopes and no warble.
    pub fn new() -> (o: Oscillator)
        ensures
            o@ == (Model {
                phase: Wide { raw: 0 },
                waveform: Waveform::Sine,
                gaussian_perc: Fixed { raw: 0 },
                amplitude: zeroed_points(),
                frequency: zeroed_points(),
            }),
    {
        Oscillator {
            waveform: Waveform::Sine,
            phase: Wide { raw: 0 },
            amplitude: Envelope::zeroed(),
            frequency: Envelope::zeroed(),
            gaussian_perc: Fixed { raw: 0 },
        }
    }

    /// The oscillator with the given phase and configuration: what a host
    /// rebuilds from the five parts that it has stored.
    pub fn from_parts(
        phase: Wide,
        waveform: Waveform,
        gaussian_perc: Fixed,
        amplitude: AmpEnvelope,
        frequency: FreqEnvelope,
    ) -> (o: Oscillator)
        ensures
            o@ == (Model {
                phase,
                waveform,
                gaussian_perc,
                amplitude: amplitude@,
                frequency: frequency@,
            }),
    {
        Oscillator { phase, waveform, gaussian_perc, amplitude, frequency }
    }

    /// The same oscillator with another waveform.
    pub fn waveform(self, waveform: Waveform) -> (o: Oscillator)
        ensures
            o@ == (Model { waveform, ..self@ }),
    {
        Oscillator { waveform: waveform, ..self }
    }

    /// The same oscillator with another amplitude envelope.
    pub fn amplitude(self, amp_env: AmpEnvelope) -> (o: Oscillator)
        ensures
            o@ == (Model { amplitude: amp_env@, ..self@ }),
    {
        Oscillator { amplitude: amp_env, ..self }
    }

    /// The same oscillator with another frequency envelope.
    pub fn frequency(self, freq_env: FreqEnvelope) -> (o: Oscillator)
        ensures
            o@ == (Model { frequency: freq_env@, ..self@ }),
    {
        Oscillator { frequency: freq_env, ..self }
    }

    /// The same oscillator with another amount of randomness in its pitch.
    /// Any amount is taken as it is: one that is not positive switches the
    /// randomness off, and one above one is not clamped.
    pub fn warbliness(self, warbliness: Fixed) -> (o: Oscillator)
        ensures
            o@ == (Model { gaussian_perc: warbliness, ..self@ }),
    {
        Oscillator { gaussian_perc: warbliness, ..self }
    }

    /// The shape of the waveform.
    pub fn get_waveform(&self) -> (w: Waveform)
        ensures
            w == self@.waveform,
    {
        self.waveform
    }

    /// How much randomness is applied to the pitch.
    pub fn get_warbliness(&self) -> (amount: Fixed)
        ensures
            amount == self@.gaussian_perc,
    {
        self.gaussian_perc
    }

    /// The envelope of the gain.
    pub fn get_amplitude(&self) -> (e: &AmpEnvelope)
        ensures
            e@ == self@.amplitude,
    {
        &self.amplitude
    }

    /// The envelope of the pitch.
    pub fn get_frequency(&self) -> (e: &FreqEnvelope)
        ensures
            e@ == self@.frequency,
    {
        &self.frequency
    }

    /// How far the waveform has come, in cycles.
    pub fn phase(&self) -> (p: Wide)
        ensures
            p == self@.phase,
    {
        self.phase
    }

    /// Starts to resolve the frequency at the playback position `ratio`.
    /// Nothing changes.  A ratio outside of 0 to 1 is passed on as it is:
    /// what an envelope is worth there is for its evaluator to say.
    pub fn freq_at_ratio(&self, ratio: Fixed) -> (step: FreqStep)
        ensures
            step == Model::freq_start(ratio),
    {
        FreqStep::Ask(Resolution::Raw, Query::FrequencyEnvelope { ratio })
    }

    /// Resumes the resolution of the frequency that waits at `at` with the
    /// answer to its query.  Nothing changes.
    pub fn freq_resume(&self, at: Resolution, answer: Fixed) -> (r: Result<FreqStep, Error>)
        ensures
            r == self@.freq_next(at, answer),
    {
        match at {
            Resolution::Raw => {
                if self.waveform == Waveform::NoiseWalk {
                    Ok(
                        FreqStep::Ask(
                            Resolution::Rescaled,
                            Query::ScaledPerc {
                                perc: answer,
                                exponent: Fixed { raw: NOISE_WALK_WEIGHT },
                            },
                        ),
                    )
                } else {
                    Ok(self.convert(answer))
                }
            },
            Resolution::Rescaled => Ok(self.convert(answer)),
            Resolution::Mel => {
                let variance = self.gaussian_perc.times(self.gaussian_perc);
                Ok(
                    FreqStep::Ask(
                        Resolution::Draw { mel: answer },
                        Query::Gaussian { mean: Fixed { raw: WARBLE_MEAN }, variance },
                    ),
                )
            },
            Resolution::Draw { mel } => match warble(mel, answer) {
                Some(moved) => Ok(FreqStep::Ask(Resolution::Hz, Query::HzFromMel { mel: moved })),
                None => Err(Error::OutOfRange),
            },
            Resolution::Hz => Ok(FreqStep::Done(answer)),
        }
    }

    /// The step that follows once the pitch percentage `perc` is settled.
    fn convert(&self, perc: Fixed) -> (step: FreqStep)
        ensures
            step == self@.freq_convert(perc),
    {
        if self.gaussian_perc.is_positive() {
            FreqStep::Ask(Resolution::Mel, Query::MelFromPerc { perc })
        } else {
            FreqStep::Ask(Resolution::Hz, Query::HzFromPerc { perc })
        }
    }

    /// Starts to take the sample at the playback position `ratio`, for a
    /// note that retunes the oscillator by `note_freq_multi`, at `sample_hz`
    /// samples a second.  Nothing changes yet.  A sample rate that is not
    /// positive is refused; a ratio outside of 0 to 1 is passed on as it is.
    pub fn amp_at_ratio(&self, ratio: Fixed, note_freq_multi: Fixed, sample_hz: Fixed) -> (r:
        Result<AmpStep, Error>)
        ensures
            r == Model::amp_start(ratio, note_freq_multi, sample_hz),
    {
        if sample_hz.raw <= 0 {
            Err(Error::InvalidInput)
        } else {
            Ok(
                AmpStep::Ask(
                    Sampling {
                        stage: Stage::Frequency(Resolution::Raw),
                        ratio,
                        note_freq_multi,
                        sample_hz,
                    },
                    Query::FrequencyEnvelope { ratio },
                ),
            )
        }
    }

    /// Resumes the sample `at` with the answer to its query.  The phase
    /// moves on in the step that learns the frequency, and in no other; a
    /// step that fails changes nothing.
    pub fn amp_resume(&mut self, at: Sampling, answer: Fixed) -> (r: Result<AmpStep, Error>)
        ensures
            (final(self)@, r) == old(self)@.amp_next(at, answer),
    {
        match at.stage {
            Stage::Frequency(resolution) => match self.freq_resume(resolution, answer) {
                Err(e) => Err(e),
                Ok(FreqStep::Ask(next, query)) => Ok(
                    AmpStep::Ask(Sampling { stage: Stage::Frequency(next), ..at }, query),
                ),
                Ok(FreqStep::Done(hz)) => {
                    if at.sample_hz.raw <= 0 {
                        return Err(Error::InvalidInput);
                    }
                    let before = self.phase;
                    match advance(before, hz, at.note_freq_multi, at.sample_hz) {
                        Some(phase) => {
                            self.phase = phase;
                            Ok(
                                AmpStep::Ask(
                                    Sampling { stage: Stage::Shape, ..at },
                                    Query::Shape { waveform: self.waveform, phase: before },
                                ),
                            )
                        },
                        None => Err(Error::OutOfRange),
                    }
                },
            },
            Stage::Shape => Ok(
                AmpStep::Ask(
                    Sampling { stage: Stage::Gain { shape: answer }, ..at },
                    Query::AmplitudeEnvelope { ratio: at.ratio },
                ),
            ),
            Stage::Gain { shape } => Ok(AmpStep::Done(shape.times(answer))),
        }
    }
}

} // verus!
