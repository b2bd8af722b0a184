use oscillator::{Error, Fixed, FreqStep, Oscillator, Query, Resolution, Wide, Waveform};

const ONE: i64 = 1 << 32;

fn ask(at: Resolution, query: Query) -> Result<FreqStep, Error> {
    Ok(FreqStep::Ask(at, query))
}

#[test]
fn resolution_starts_with_the_frequency_envelope() {
    let osc = Oscillator::new();
    let ratio = Fixed { raw: ONE / 4 };
    assert_eq!(
        osc.freq_at_ratio(ratio),
        FreqStep::Ask(Resolution::Raw, Query::FrequencyEnvelope { ratio })
    );
}

#[test]
fn ratio_outside_the_unit_interval_is_passed_on() {
    let osc = Oscillator::new();
    for raw in [-ONE, 2 * ONE, i64::MIN, i64::MAX] {
        let ratio = Fixed { raw };
        assert_eq!(
            osc.freq_at_ratio(ratio),
            FreqStep::Ask(Resolution::Raw, Query::FrequencyEnvelope { ratio })
        );
    }
}

#[test]
fn plain_pitch_goes_straight_to_hertz() {
    let osc = Oscillator::new();
    let perc = Fixed { raw: 90_000_000 };
    assert_eq!(
        osc.freq_resume(Resolution::Raw, perc),
        ask(Resolution::Hz, Query::HzFromPerc { perc })
    );
    let hz = Fixed::from_int(440);
    assert_eq!(osc.freq_resume(Resolution::Hz, hz), Ok(FreqStep::Done(hz)));
}

#[test]
fn every_standard_waveform_goes_straight_to_hertz() {
    let perc = Fixed { raw: 90_000_000 };
    for waveform in [Waveform::Sine, Waveform::Saw, Waveform::Square, Waveform::Noise] {
        let osc = Oscillator::new().waveform(waveform);
        assert_eq!(
            osc.freq_resume(Resolution::Raw, perc),
            ask(Resolution::Hz, Query::HzFromPerc { perc })
        );
    }
}

#[test]
fn noise_walk_rescales_the_pitch_with_weight_six_tenths() {
    let osc = Oscillator::new().waveform(Waveform::NoiseWalk);
    let perc = Fixed { raw: 90_000_000 };
    assert_eq!(
        osc.freq_resume(Resolution::Raw, perc),
        ask(
            Resolution::Rescaled,
            Query::ScaledPerc { perc, exponent: Fixed { raw: 2_576_980_378 } }
        )
    );
    let rescaled = Fixed { raw: 400_000_000 };
    assert_eq!(
        osc.freq_resume(Resolution::Rescaled, rescaled),
        ask(Resolution::Hz, Query::HzFromPerc { perc: rescaled })
    );
}

#[test]
fn warbling_pitch_goes_through_mel() {
    // a warble amount of three raw units: a variance of nine
    let osc = Oscillator::new().warbliness(Fixed { raw: 3 });
    let perc = Fixed { raw: 90_000_000 };
    assert_eq!(
        osc.freq_resume(Resolution::Raw, perc),
        ask(Resolution::Mel, Query::MelFromPerc { perc })
    );
    let mel = Fixed::from_int(1000);
    assert_eq!(
        osc.freq_resume(Resolution::Mel, mel),
        ask(
            Resolution::Draw { mel },
            Query::Gaussian { mean: Fixed { raw: ONE / 2 }, variance: Wide { raw: 9 } }
        )
    );
    // a draw of three quarters raises the pitch by 750 - 500 mel
    let draw = Fixed { raw: 3 * (ONE / 4) };
    assert_eq!(
        osc.freq_resume(Resolution::Draw { mel }, draw),
        ask(Resolution::Hz, Query::HzFromMel { mel: Fixed::from_int(1250) })
    );
    let hz = Fixed::from_int(1400);
    assert_eq!(osc.freq_resume(Resolution::Hz, hz), Ok(FreqStep::Done(hz)));
}

#[test]
fn variance_is_the_square_of_the_warble_amount() {
    // a tenth, squared, is a hundredth: 2^32 / 10 squared
    let tenth = Fixed { raw: 429_496_730 };
    let osc = Oscillator::new().warbliness(tenth);
    assert_eq!(
        osc.freq_resume(Resolution::Mel, Fixed { raw: 0 }),
        ask(
            Resolution::Draw { mel: Fixed { raw: 0 } },
            Query::Gaussian {
                mean: Fixed { raw: 2_147_483_648 },
                variance: Wide { raw: 184_467_441_080_692_900 },
            }
        )
    );
    // a warble amount of two has a variance of four
    let osc = Oscillator::new().warbliness(Fixed::from_int(2));
    assert_eq!(
        osc.freq_resume(Resolution::Mel, Fixed { raw: 0 }),
        ask(
            Resolution::Draw { mel: Fixed { raw: 0 } },
            Query::Gaussian { mean: Fixed { raw: 2_147_483_648 }, variance: Wide { raw: 4 << 64 } }
        )
    );
}

#[test]
fn noise_walk_that_warbles_rescales_first() {
    let osc = Oscillator::new()
        .waveform(Waveform::NoiseWalk)
        .warbliness(Fixed { raw: 1 });
    let perc = Fixed { raw: 90_000_000 };
    assert_eq!(
        osc.freq_resume(Resolution::Raw, perc),
        ask(
            Resolution::Rescaled,
            Query::ScaledPerc { perc, exponent: Fixed { raw: 2_576_980_378 } }
        )
    );
    let rescaled = Fixed { raw: 400_000_000 };
    assert_eq!(
        osc.freq_resume(Resolution::Rescaled, rescaled),
        ask(Resolution::Mel, Query::MelFromPerc { perc: rescaled })
    );
}

#[test]
fn no_warble_unless_the_amount_is_positive() {
    let perc = Fixed { raw: 90_000_000 };
    for raw in [0, -1, -ONE, i64::MIN] {
        let osc = Oscillator::new().warbliness(Fixed { raw });
        assert_eq!(
            osc.freq_resume(Resolution::Raw, perc),
            ask(Resolution::Hz, Query::HzFromPerc { perc })
        );
    }
    for raw in [1, ONE, 5 * ONE, i64::MAX] {
        let osc = Oscillator::new().warbliness(Fixed { raw });
        assert_eq!(
            osc.freq_resume(Resolution::Raw, perc),
            ask(Resolution::Mel, Query::MelFromPerc { perc })
        );
    }
}

#[test]
fn mean_draw_leaves_the_pitch() {
    let osc = Oscillator::new().warbliness(Fixed { raw: ONE / 10 });
    for raw in [0, 1, -1, 1000 * ONE, i64::MAX, i64::MIN] {
        let mel = Fixed { raw };
        assert_eq!(
            osc.freq_resume(Resolution::Draw { mel }, Fixed { raw: ONE / 2 }),
            ask(Resolution::Hz, Query::HzFromMel { mel })
        );
    }
}

#[test]
fn draw_moves_the_pitch_by_a_thousand_mel_a_unit() {
    let osc = Oscillator::new().warbliness(Fixed { raw: ONE / 10 });
    let mel = Fixed::from_int(2000);
    // a draw of zero lowers the pitch by 500 mel
    assert_eq!(
        osc.freq_resume(Resolution::Draw { mel }, Fixed { raw: 0 }),
        ask(Resolution::Hz, Query::HzFromMel { mel: Fixed::from_int(1500) })
    );
    // a draw of one raises it by 500 mel
    assert_eq!(
        osc.freq_resume(Resolution::Draw { mel }, Fixed::from_int(1)),
        ask(Resolution::Hz, Query::HzFromMel { mel: Fixed::from_int(2500) })
    );
    // a draw of minus two lowers it by 2500 mel
    assert_eq!(
        osc.freq_resume(Resolution::Draw { mel }, Fixed::from_int(-2)),
        ask(Resolution::Hz, Query::HzFromMel { mel: Fixed::from_int(-500) })
    );
    // the smallest step above the mean raises it by a thousand raw units
    assert_eq!(
        osc.freq_resume(Resolution::Draw { mel }, Fixed { raw: ONE / 2 + 1 }),
        ask(Resolution::Hz, Query::HzFromMel { mel: Fixed { raw: 2000 * ONE + 1000 } })
    );
}

#[test]
fn pitch_moved_out_of_range_is_an_error() {
    let osc = Oscillator::new().warbliness(Fixed { raw: 1 });
    let top = Fixed { raw: i64::MAX };
    assert_eq!(
        osc.freq_resume(Resolution::Draw { mel: top }, Fixed::from_int(1)),
        Err(Error::OutOfRange)
    );
    assert_eq!(
        osc.freq_resume(Resolution::Draw { mel: top }, Fixed { raw: ONE / 2 + 1 }),
        Err(Error::OutOfRange)
    );
    let bottom = Fixed { raw: i64::MIN };
    assert_eq!(
        osc.freq_resume(Resolution::Draw { mel: bottom }, Fixed { raw: 0 }),
        Err(Error::OutOfRange)
    );
    assert_eq!(
        osc.freq_resume(Resolution::Draw { mel: Fixed { raw: 0 } }, Fixed { raw: i64::MAX }),
        Err(Error::OutOfRange)
    );
    // just in range: the pitch ends at the top
    assert_eq!(
        osc.freq_resume(
            Resolution::Draw { mel: Fixed { raw: i64::MAX - 1000 } },
            Fixed { raw: ONE / 2 + 1 }
        ),
        ask(Resolution::Hz, Query::HzFromMel { mel: top })
    );
}

#[test]
fn same_answers_give_the_same_frequency() {
    let osc = Oscillator::new();
    let run = |osc: &Oscillator| {
        let mut step = osc.freq_at_ratio(Fixed { raw: ONE / 2 });
        let mut asked = Vec::new();
        loop {
            match step {
                FreqStep::Done(hz) => return (asked, hz),
                FreqStep::Ask(at, query) => {
                    asked.push(query);
                    let answer = match query {
                        Query::FrequencyEnvelope { ratio } => Fixed { raw: ratio.raw / 8 },
                        Query::HzFromPerc { perc } => Fixed { raw: perc.raw * 7 },
                        _ => panic!("a plain oscillator asks for nothing else"),
                    };
                    step = osc.freq_resume(at, answer).unwrap();
                }
            }
        }
    };
    let first = run(&osc);
    let second = run(&osc);
    assert_eq!(first, second);
    assert_eq!(first.1, Fixed { raw: (ONE / 2 / 8) * 7 });
    assert_eq!(
        first.0,
        vec![
            Query::FrequencyEnvelope { ratio: Fixed { raw: ONE / 2 } },
            Query::HzFromPerc { perc: Fixed { raw: ONE / 16 } },
        ]
    );
}

#[test]
fn resolving_the_frequency_leaves_the_oscillator() {
    let osc = Oscillator::new()
        .waveform(Waveform::NoiseWalk)
        .warbliness(Fixed { raw: ONE });
    let before = osc.clone();
    let mut step = osc.freq_at_ratio(Fixed { raw: 0 });
    let mut answers = 0;
    let hz = loop {
        match step {
            FreqStep::Done(hz) => break hz,
            FreqStep::Ask(at, _) => {
                answers += 1;
                step = osc.freq_resume(at, Fixed { raw: ONE / 2 }).unwrap();
            }
        }
    };
    assert_eq!(answers, 5);
    assert_eq!(hz, Fixed { raw: ONE / 2 });
    assert_eq!(osc.phase(), before.phase());
    assert_eq!(osc.waveform, before.waveform);
    assert_eq!(osc.gaussian_perc, before.gaussian_perc);
    assert_eq!(osc.amplitude.points, before.amplitude.points);
    assert_eq!(osc.frequency.points, before.frequency.points);
}
