//! The steps, run to their end.
//!
//! The step functions say what one answer leads to.  Here the steps are
//! chained: every query is answered as the collaborators would, until the
//! result is there.  The theorems say that such a run asks what
//! [`Model::frequency_queries`] and [`Model::sample_queries`] list, and
//! comes to what [`Model::frequency`] and [`Model::sample`] define.
use vstd::prelude::*;
use crate::error::Error;
use crate::fixed::Fixed;
use crate::fixed::Wide;
use crate::frequency::FreqStep;
use crate::model::warbled;
use crate::model::Collaborators;
use crate::model::Model;
use crate::model::NOISE_WALK_WEIGHT;
use crate::model::WARBLE_MEAN;
use crate::query::Query;
use crate::sampling::AmpStep;
use crate::waveform::Waveform;

verus! {

impl Model {
    /// What the resolution of the frequency that stands at `step` comes to
    /// when the collaborators `c` answer its queries; `None` where more
    /// than `turns` answers are needed.
    pub open spec fn freq_run(self, step: FreqStep, c: Collaborators, turns: nat) -> Option<
        Result<Fixed, Error>,
    >
        decreases turns,
    {
        match step {
            FreqStep::Done(hz) => Some(Ok(hz)),
            FreqStep::Ask(at, query) => if turns == 0 {
                None
            } else {
                match self.freq_next(at, self.answer(c, query)) {
                    Err(e) => Some(Err(e)),
                    Ok(next) => self.freq_run(next, c, (turns - 1) as nat),
                }
            },
        }
    }

    /// The queries that the resolution of the frequency that stands at
    /// `step` asks, in their order, when the collaborators `c` answer them;
    /// no more than `turns` of them.
    pub open spec fn freq_asked(self, step: FreqStep, c: Collaborators, turns: nat) -> Seq<Query>
        decreases turns,
    {
        match step {
            FreqStep::Done(_) => Seq::empty(),
            FreqStep::Ask(at, query) => if turns == 0 {
                Seq::empty()
            } else {
                match self.freq_next(at, self.answer(c, query)) {
                    Err(_) => seq![query],
                    Ok(next) => seq![query] + self.freq_asked(next, c, (turns - 1) as nat),
                }
            },
        }
    }

    /// The oscillator and the result that the sample that stands at `step`
    /// comes to when the collaborators `c` answer its queries; `None` where
    /// more than `turns` answers are needed.
    pub open spec fn amp_run(self, step: AmpStep, c: Collaborators, turns: nat) -> Option<
        (Model, Result<Wide, Error>),
    >
        decreases turns,
    {
        match step {
            AmpStep::Done(sample) => Some((self, Ok(sample))),
            AmpStep::Ask(at, query) => if turns == 0 {
                None
            } else {
                let (next, r) = self.amp_next(at, self.answer(c, query));
                match r {
                    Err(e) => Some((next, Err(e))),
                    Ok(step) => next.amp_run(step, c, (turns - 1) as nat),
                }
            },
        }
    }

    /// The queries that the sample that stands at `step` asks, in their
    /// order, when the collaborators `c` answer them; no more than `turns`
    /// of them.
    pub open spec fn amp_asked(self, step: AmpStep, c: Collaborators, turns: nat) -> Seq<Query>
        decreases turns,
    {
        match step {
            AmpStep::Done(_) => Seq::empty(),
            AmpStep::Ask(at, query) => if turns == 0 {
                Seq::empty()
            } else {
                let (next, r) = self.amp_next(at, self.answer(c, query));
                match r {
                    Err(_) => seq![query],
                    Ok(step) => seq![query] + next.amp_asked(step, c, (turns - 1) as nat),
                }
            },
        }
    }

    /// The oscillator after the sample at `ratio`: moved on where the sample
    /// is owed, unchanged where it is not.
    pub open spec fn after(
        self,
        ratio: Fixed,
        multiplier: Fixed,
        sample_hz: Fixed,
        c: Collaborators,
    ) -> Model {
        match self.next_phase(ratio, multiplier, sample_hz, c) {
            Ok(phase) => self.at_phase(phase),
            Err(_) => self,
        }
    }

    /// The oscillator after one sample at `ratio` for each of `cs`, in
    /// their order: every sample has collaborators of its own.
    pub open spec fn after_all(
        self,
        ratio: Fixed,
        multiplier: Fixed,
        sample_hz: Fixed,
        cs: Seq<Collaborators>,
    ) -> Model
        decreases cs.len(),
    {
        if cs.len() == 0 {
            self
        } else {
            self.after_all(ratio, multiplier, sample_hz, cs.drop_last()).after(
                ratio,
                multiplier,
                sample_hz,
                cs.last(),
            )
        }
    }

    /// What is asked to turn the pitch percentage `perc` into hertz: one
    /// conversion, or, where the pitch warbles, the conversion to mel, one
    /// draw around a half with the square of the warble amount as its
    /// variance, and the conversion of the moved pitch.
    pub open spec fn conversion_queries(self, perc: Fixed, c: Collaborators) -> Seq<Query> {
        if self.warbles() {
            let mean = Fixed { raw: WARBLE_MEAN };
            let mel = (c.mel_from_perc)(perc);
            let draw = (c.gaussian)(mean, self.variance());
            let asked = seq![
                Query::MelFromPerc { perc },
                Query::Gaussian { mean, variance: self.variance() },
            ];
            match warbled(mel, draw) {
                Some(moved) => asked.push(Query::HzFromMel { mel: moved }),
                None => asked,
            }
        } else {
            seq![Query::HzFromPerc { perc }]
        }
    }

    /// What is asked to resolve the frequency at `ratio`: the frequency
    /// envelope's value, for a noise walk its rescaling, and then what
    /// turns the pitch into hertz.
    pub open spec fn frequency_queries(self, ratio: Fixed, c: Collaborators) -> Seq<Query> {
        let raw = self.raw_pitch(ratio, c);
        let first = seq![Query::FrequencyEnvelope { ratio }];
        let reshaped = if self.waveform == Waveform::NoiseWalk {
            first.push(Query::ScaledPerc { perc: raw, exponent: Fixed { raw: NOISE_WALK_WEIGHT } })
        } else {
            first
        };
        reshaped + self.conversion_queries(self.pitch(ratio, c), c)
    }

    /// What is asked to take the sample at `ratio`: nothing where the
    /// sample rate is not positive; else what resolves the frequency, and,
    /// where the sample is owed, the shape's amplitude at the phase that
    /// the oscillator has before the sample, and the gain.
    pub open spec fn sample_queries(
        self,
        ratio: Fixed,
        multiplier: Fixed,
        sample_hz: Fixed,
        c: Collaborators,
    ) -> Seq<Query> {
        if sample_hz@ <= 0 {
            Seq::empty()
        } else if self.sample(ratio, multiplier, sample_hz, c) is Ok {
            self.frequency_queries(ratio, c) + seq![
                Query::Shape { waveform: self.waveform, phase: self.phase },
                Query::AmplitudeEnvelope { ratio },
            ]
        } else {
            self.frequency_queries(ratio, c)
        }
    }
}

/// A resolution of the frequency whose queries the collaborators answer is
/// over within five answers.  It asks what is to be asked, in that order,
/// and comes to the frequency at `ratio`.
pub proof fn lemma_resolution_gives_frequency(o: Model, ratio: Fixed, c: Collaborators)
    ensures
        o.freq_run(Model::freq_start(ratio), c, 5) == Some(o.frequency(ratio, c)),
        o.freq_asked(Model::freq_start(ratio), c, 5) == o.frequency_queries(ratio, c),
{
    reveal_with_fuel(Model::freq_run, 6);
    reveal_with_fuel(Model::freq_asked, 6);
    assert(o.freq_asked(Model::freq_start(ratio), c, 5) =~= o.frequency_queries(ratio, c));
}

/// A sample whose queries the collaborators answer is refused at once where
/// the sample rate is not positive.  Else it is over within seven answers:
/// it asks what is to be asked, in that order, and comes to the sample at
/// `ratio` and to the oscillator after it.
pub proof fn lemma_sampling_gives_sample(
    o: Model,
    ratio: Fixed,
    multiplier: Fixed,
    sample_hz: Fixed,
    c: Collaborators,
)
    ensures
        match Model::amp_start(ratio, multiplier, sample_hz) {
            Err(e) => {
                &&& sample_hz@ <= 0
                &&& o.sample(ratio, multiplier, sample_hz, c) == Err::<Wide, Error>(e)
                &&& o.after(ratio, multiplier, sample_hz, c) == o
            },
            Ok(step) => {
                &&& sample_hz@ > 0
                &&& o.amp_run(step, c, 7) == Some(
                    (
                        o.after(ratio, multiplier, sample_hz, c),
                        o.sample(ratio, multiplier, sample_hz, c),
                    ),
                )
                &&& o.amp_asked(step, c, 7) == o.sample_queries(ratio, multiplier, sample_hz, c)
            },
        },
{
    reveal_with_fuel(Model::amp_run, 8);
    reveal_with_fuel(Model::amp_asked, 8);
    if sample_hz@ > 0 {
        let step = Model::amp_start(ratio, multiplier, sample_hz)->Ok_0;
        assert(o.amp_asked(step, c, 7) =~= o.sample_queries(ratio, multiplier, sample_hz, c));
    }
}

} // verus!
