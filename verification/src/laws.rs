//! What holds of every oscillator, whatever its collaborators answer.
use vstd::prelude::*;
use vstd::arithmetic::div_mod::lemma_fundamental_div_mod;
use vstd::arithmetic::div_mod::lemma_fundamental_div_mod_converse;
use vstd::arithmetic::div_mod::lemma_mod_bound;
use crate::error::Error;
use crate::fixed::Fixed;
use crate::fixed::fits_wide;
use crate::fixed::Wide;
use crate::fixed::SCALE;
use crate::frequency::Resolution;
use crate::model::lemma_product_exact;
use crate::model::phase_step;
use crate::model::product;
use crate::model::warbled;
use crate::model::Collaborators;
use crate::model::Model;
use crate::model::NOISE_WALK_WEIGHT;
use crate::model::WARBLE_MEAN;
use crate::query::Query;
use crate::sampling::Sampling;
use crate::sampling::Stage;
use crate::waveform::Waveform;

verus! {

/// Without warble the frequency is a function of the ratio, the waveform
/// and the frequency envelope alone: two oscillators that agree on these,
/// whatever their phases and their amplitude envelopes, produce the same
/// frequency, as long as the envelope evaluator and the pitch conversions
/// answer alike.  No random draw is asked for, and no error is possible.
pub proof fn lemma_frequency_without_warble(
    a: Model,
    b: Model,
    ratio: Fixed,
    c: Collaborators,
    d: Collaborators,
)
    requires
        !a.warbles(),
        !b.warbles(),
        a.waveform == b.waveform,
        a.frequency == b.frequency,
        c.envelope == d.envelope,
        c.scaled_perc == d.scaled_perc,
        c.hz_from_perc == d.hz_from_perc,
    ensures
        a.frequency(ratio, c) == b.frequency(ratio, d),
        a.frequency(ratio, c) is Ok,
        a.frequency_queries(ratio, c) == b.frequency_queries(ratio, d),
        forall|i: int|
            0 <= i < a.frequency_queries(ratio, c).len() ==> !(
            #[trigger] a.frequency_queries(ratio, c)[i] is Gaussian),
{
}

/// Reading the frequency has nothing to do with the phase: wherever the
/// oscillator stands, every step of a resolution and the frequency that it
/// comes to are the same.
pub proof fn lemma_frequency_ignores_phase(
    o: Model,
    phase: Wide,
    at: Resolution,
    answer: Fixed,
    ratio: Fixed,
    c: Collaborators,
)
    ensures
        o.at_phase(phase).freq_next(at, answer) == o.freq_next(at, answer),
        o.at_phase(phase).frequency(ratio, c) == o.frequency(ratio, c),
{
}

/// A step of a sample changes nothing but the phase, and the phase only
/// where the step learns the frequency and succeeds: every other step, and
/// every step that fails, leaves the oscillator as it was.
pub proof fn lemma_step_moves_the_phase_only(o: Model, at: Sampling, answer: Fixed)
    ensures
        ({
            let (next, r) = o.amp_next(at, answer);
            &&& next == o.at_phase(next.phase)
            &&& r is Err ==> next == o
            &&& at.stage != Stage::Frequency(Resolution::Hz) ==> next == o
        }),
{
}

/// A sample that is owed moves the phase by exactly one step, and a sample
/// that is not owed moves nothing.
pub proof fn lemma_phase_moves_by_step(
    o: Model,
    ratio: Fixed,
    multiplier: Fixed,
    sample_hz: Fixed,
    c: Collaborators,
)
    ensures
        match o.sample(ratio, multiplier, sample_hz, c) {
            Ok(_) => {
                &&& sample_hz@ > 0
                &&& o.frequency(ratio, c) is Ok
                &&& o.after(ratio, multiplier, sample_hz, c).phase@ == o.phase@ + phase_step(
                    o.frequency(ratio, c)->Ok_0,
                    multiplier,
                    sample_hz,
                )
            },
            Err(_) => o.after(ratio, multiplier, sample_hz, c) == o,
        },
{
}

/// The phase is continuous from sample to sample: of two consecutive
/// samples, the second reads the shape at the very phase that the first one
/// left, and moves on from there.
pub proof fn lemma_phase_continuity(
    o: Model,
    ratio: Fixed,
    multiplier: Fixed,
    sample_hz: Fixed,
    first: Collaborators,
    second: Collaborators,
)
    requires
        o.sample(ratio, multiplier, sample_hz, first) is Ok,
    ensures
        ({
            let left = o.next_phase(ratio, multiplier, sample_hz, first)->Ok_0;
            let then = o.after(ratio, multiplier, sample_hz, first);
            &&& then == o.at_phase(left)
            &&& match then.sample(ratio, multiplier, sample_hz, second) {
                Ok(sample) => {
                    &&& then.sample_queries(ratio, multiplier, sample_hz, second)
                        == then.frequency_queries(ratio, second) + seq![
                        Query::Shape { waveform: o.waveform, phase: left },
                        Query::AmplitudeEnvelope { ratio },
                    ]
                    &&& sample@ == (second.shape)(o.waveform, left)@ * (second.envelope)(
                        o.amplitude,
                        ratio,
                    )@
                    &&& then.after(ratio, multiplier, sample_hz, second).phase@ == left@
                        + phase_step(
                        then.frequency(ratio, second)->Ok_0,
                        multiplier,
                        sample_hz,
                    )
                },
                Err(_) => then.after(ratio, multiplier, sample_hz, second) == then,
            }
        }),
{
    let left = o.next_phase(ratio, multiplier, sample_hz, first)->Ok_0;
    lemma_product_exact(
        (second.shape)(o.waveform, left),
        (second.envelope)(o.amplitude, ratio),
    );
}

/// At a steady frequency the phase counts the samples.  Where every one of
/// a run of samples resolves the frequency `hz`, and the phase stays in
/// range, the phase after the run is the phase before it plus one step for
/// each sample, and the last sample of the run is the shape's amplitude at
/// the phase that the samples before it have added up, times the gain.
/// That phase falls short of the ideal `hz * multiplier / sample_hz` cycles
/// a sample by less than `2^-64` of a cycle for each sample.
pub proof fn lemma_steady_phase(
    o: Model,
    ratio: Fixed,
    multiplier: Fixed,
    sample_hz: Fixed,
    hz: Fixed,
    cs: Seq<Collaborators>,
)
    requires
        sample_hz@ > 0,
        forall|i: int|
            0 <= i < cs.len() ==> o.frequency(ratio, #[trigger] cs[i]) == Ok::<Fixed, Error>(hz),
        fits_wide(phase_step(hz, multiplier, sample_hz)),
        fits_wide(o.phase@ + cs.len() * phase_step(hz, multiplier, sample_hz)),
    ensures
        ({
            let step = phase_step(hz, multiplier, sample_hz);
            let count = cs.len() as int;
            let end = o.after_all(ratio, multiplier, sample_hz, cs);
            &&& end.phase@ == o.phase@ + count * step
            &&& end == o.at_phase(end.phase)
            &&& 0 <= count * (hz@ * multiplier@ * SCALE) - (count * step) * sample_hz@ <= count * (
            sample_hz@ - 1)
            &&& count > 0 ==> {
                let before = o.after_all(ratio, multiplier, sample_hz, cs.drop_last());
                &&& before.phase@ == o.phase@ + (count - 1) * step
                &&& before.sample(ratio, multiplier, sample_hz, cs.last()) == Ok::<Wide, Error>(
                    product(
                        (cs.last().shape)(o.waveform, before.phase),
                        (cs.last().envelope)(o.amplitude, ratio),
                    ),
                )
            }
        }),
    decreases cs.len(),
{
    let step: int = phase_step(hz, multiplier, sample_hz);
    let count: int = cs.len() as int;
    let d: int = sample_hz@;
    let x: int = hz@ * multiplier@ * SCALE;
    lemma_phase_step_is_accurate(hz, multiplier, sample_hz);
    assert(0 <= count * x - (count * step) * d <= count * (d - 1)) by (nonlinear_arith)
        requires
            step * d <= x < (step + 1) * d,
            count >= 0,
    ;
    if count > 0 {
        let earlier = cs.drop_last();
        // The phase before the last sample lies between the first and the
        // last one, so it is in range too.
        assert(fits_wide(o.phase@ + (count - 1) * step)) by (nonlinear_arith)
            requires
                fits_wide(o.phase@),
                fits_wide(o.phase@ + count * step),
                count >= 1,
        ;
        assert forall|i: int| 0 <= i < earlier.len() implies o.frequency(
            ratio,
            #[trigger] earlier[i],
        ) == Ok::<Fixed, Error>(hz) by {
            assert(earlier[i] == cs[i]);
        }
        lemma_steady_phase(o, ratio, multiplier, sample_hz, hz, earlier);
        let before = o.after_all(ratio, multiplier, sample_hz, earlier);
        assert(before.frequency(ratio, cs.last()) == o.frequency(ratio, cs.last()));
        assert(o.frequency(ratio, cs[count - 1]) == Ok::<Fixed, Error>(hz));
        assert(before.phase@ + step == o.phase@ + count * step) by (nonlinear_arith)
            requires
                before.phase@ == o.phase@ + (count - 1) * step,
        ;
    }
}

/// The sample is linear in the gain: where the amplitude envelope's value
/// at the ratio is `factor` times as large, with the same waveform, phase,
/// warble and frequency envelope, the sample is `factor` times as large.
/// Doubling the gain doubles the sample.
pub proof fn lemma_sample_scales_with_gain(
    a: Model,
    b: Model,
    factor: int,
    ratio: Fixed,
    multiplier: Fixed,
    sample_hz: Fixed,
    c: Collaborators,
)
    requires
        b == (Model { amplitude: b.amplitude, ..a }),
        (c.envelope)(b.amplitude, ratio)@ == factor * (c.envelope)(a.amplitude, ratio)@,
    ensures
        match a.sample(ratio, multiplier, sample_hz, c) {
            Ok(sample) => {
                &&& b.sample(ratio, multiplier, sample_hz, c) is Ok
                &&& b.sample(ratio, multiplier, sample_hz, c)->Ok_0@ == factor * sample@
            },
            Err(e) => b.sample(ratio, multiplier, sample_hz, c) == Err::<Wide, Error>(e),
        },
{
    let shape = (c.shape)(a.waveform, a.phase);
    let low = (c.envelope)(a.amplitude, ratio);
    let high = (c.envelope)(b.amplitude, ratio);
    lemma_product_exact(shape, low);
    lemma_product_exact(shape, high);
    assert(shape@ * (factor * low@) == factor * (shape@ * low@)) by (nonlinear_arith);
}

/// The step of the phase is linear in the note's multiplier up to the
/// rounding of each step, which is less than `2^-64` of a cycle: for any
/// two multipliers the steps are in the ratio of the multipliers, but for
/// an error of at most the sum of the multipliers' magnitudes in the cross
/// products.
pub proof fn lemma_phase_step_is_linear_in_multiplier(
    hz: Fixed,
    first: Fixed,
    second: Fixed,
    sample_hz: Fixed,
)
    requires
        sample_hz@ > 0,
    ensures
        ({
            let error = phase_step(hz, second, sample_hz) * first@ - phase_step(
                hz,
                first,
                sample_hz,
            ) * second@;
            -(magnitude(first@) + magnitude(second@)) <= error <= magnitude(first@) + magnitude(
                second@,
            )
        }),
{
    let d: int = sample_hz@;
    let m1: int = first@;
    let m2: int = second@;
    let x1: int = hz@ * m1 * SCALE;
    let x2: int = hz@ * m2 * SCALE;
    let s1: int = x1 / d;
    let r1: int = x1 % d;
    let s2: int = x2 / d;
    let r2: int = x2 % d;
    lemma_fundamental_div_mod(x1, d);
    lemma_fundamental_div_mod(x2, d);
    lemma_mod_bound(x1, d);
    lemma_mod_bound(x2, d);
    let error: int = s2 * m1 - s1 * m2;
    // d * error is r1 * m2 - r2 * m1: the exact parts cancel.
    let h: int = hz@ * SCALE;
    assert(x1 == h * m1 && x2 == h * m2) by (nonlinear_arith)
        requires
            x1 == hz@ * m1 * SCALE,
            x2 == hz@ * m2 * SCALE,
            h == hz@ * SCALE,
    ;
    assert(x2 * m1 == x1 * m2) by (nonlinear_arith)
        requires
            x1 == h * m1,
            x2 == h * m2,
    ;
    assert((d * s2) * m1 == x2 * m1 - r2 * m1) by (nonlinear_arith)
        requires
            x2 == d * s2 + r2,
    ;
    assert((d * s1) * m2 == x1 * m2 - r1 * m2) by (nonlinear_arith)
        requires
            x1 == d * s1 + r1,
    ;
    assert(d * error == (d * s2) * m1 - (d * s1) * m2) by (nonlinear_arith)
        requires
            error == s2 * m1 - s1 * m2,
    ;
    assert(d * error == r1 * m2 - r2 * m1);
    let a1: int = magnitude(m1);
    let a2: int = magnitude(m2);
    assert(-(d * a2) <= r1 * m2 <= d * a2) by (nonlinear_arith)
        requires
            0 <= r1 < d,
            a2 == if m2 < 0 {
                -m2
            } else {
                m2
            },
    ;
    assert(-(d * a1) <= r2 * m1 <= d * a1) by (nonlinear_arith)
        requires
            0 <= r2 < d,
            a1 == if m1 < 0 {
                -m1
            } else {
                m1
            },
    ;
    assert(-(a1 + a2) <= error <= a1 + a2) by (nonlinear_arith)
        requires
            d * error == r1 * m2 - r2 * m1,
            -(d * a2) <= r1 * m2 <= d * a2,
            -(d * a1) <= r2 * m1 <= d * a1,
            d > 0,
    ;
}

/// For a multiplier that is a whole `factor` times as large, the step of
/// the phase is at least `factor` times as large, and exceeds that by less
/// than `factor` raw units.  Where `hz * multiplier` is a whole multiple of
/// the sample rate nothing is rounded, and the step is exactly `factor`
/// times as large.
pub proof fn lemma_phase_step_scales_with_multiplier(
    hz: Fixed,
    multiplier: Fixed,
    scaled: Fixed,
    factor: int,
    sample_hz: Fixed,
)
    requires
        sample_hz@ > 0,
        factor >= 0,
        scaled@ == factor * multiplier@,
    ensures
        factor * phase_step(hz, multiplier, sample_hz) <= phase_step(hz, scaled, sample_hz),
        factor >= 1 ==> phase_step(hz, scaled, sample_hz) <= factor * phase_step(
            hz,
            multiplier,
            sample_hz,
        ) + factor - 1,
        (hz@ * multiplier@ * SCALE) % sample_hz@ == 0 ==> phase_step(hz, scaled, sample_hz)
            == factor * phase_step(hz, multiplier, sample_hz),
{
    let d: int = sample_hz@;
    let x: int = hz@ * multiplier@ * SCALE;
    let y: int = hz@ * scaled@ * SCALE;
    let q: int = x / d;
    let r: int = x % d;
    let p: int = y / d;
    let s: int = y % d;
    lemma_fundamental_div_mod(x, d);
    lemma_fundamental_div_mod(y, d);
    lemma_mod_bound(x, d);
    lemma_mod_bound(y, d);
    assert(y == factor * x) by (nonlinear_arith)
        requires
            y == hz@ * scaled@ * SCALE,
            x == hz@ * multiplier@ * SCALE,
            scaled@ == factor * multiplier@,
    ;
    // d * p + s == factor * (d * q + r), with both remainders below d.
    assert(d * p + s == factor * (d * q) + factor * r) by (nonlinear_arith)
        requires
            y == factor * x,
            x == d * q + r,
            y == d * p + s,
    ;
    assert(factor * q <= p) by (nonlinear_arith)
        requires
            d * p + s == factor * (d * q) + factor * r,
            0 <= r,
            s < d,
            factor >= 0,
            d > 0,
    ;
    if factor >= 1 {
        assert(p <= factor * q + factor - 1) by (nonlinear_arith)
            requires
                d * p + s == factor * (d * q) + factor * r,
                r < d,
                0 <= s,
                factor >= 1,
                d > 0,
        ;
    }
    if r == 0 {
        assert(y == (factor * q) * d + 0) by (nonlinear_arith)
            requires
                y == factor * x,
                x == d * q + r,
                r == 0,
        ;
        lemma_fundamental_div_mod_converse(y, d, factor * q, 0);
    }
}

/// One step of the phase falls short of `hz * multiplier / sample_hz`
/// cycles by less than one raw unit, which is `2^-64` of a cycle.
pub proof fn lemma_phase_step_is_accurate(hz: Fixed, multiplier: Fixed, sample_hz: Fixed)
    requires
        sample_hz@ > 0,
    ensures
        phase_step(hz, multiplier, sample_hz) * sample_hz@ <= hz@ * multiplier@ * SCALE
            < (phase_step(hz, multiplier, sample_hz) + 1) * sample_hz@,
{
    let d: int = sample_hz@;
    let x: int = hz@ * multiplier@ * SCALE;
    lemma_fundamental_div_mod(x, d);
    lemma_mod_bound(x, d);
    assert((x / d) * d <= x < (x / d + 1) * d) by (nonlinear_arith)
        requires
            x == d * (x / d) + x % d,
            0 <= x % d < d,
    ;
}

/// A noise walk reshapes its pitch before anything else: its frequency is
/// that of another waveform with the same envelope and warble whose pitch
/// percentage has been rescaled with the weight 0.6, whereas the other
/// waveform's own frequency is that of the pitch percentage as the envelope
/// gives it.
pub proof fn lemma_noise_walk_reshapes(walk: Model, plain: Model, ratio: Fixed, c: Collaborators)
    requires
        walk.waveform == Waveform::NoiseWalk,
        plain.waveform != Waveform::NoiseWalk,
        walk == (Model { waveform: Waveform::NoiseWalk, ..plain }),
    ensures
        plain.frequency(ratio, c) == plain.frequency_of(plain.raw_pitch(ratio, c), c),
        walk.frequency(ratio, c) == plain.frequency_of(
            (c.scaled_perc)(plain.raw_pitch(ratio, c), Fixed { raw: NOISE_WALK_WEIGHT }),
            c,
        ),
{
}

/// The warble is centred: the mean draw moves the pitch by nothing.
pub proof fn lemma_mean_draw_keeps_pitch(mel: Fixed)
    ensures
        warbled(mel, Fixed { raw: WARBLE_MEAN }) == Some(mel),
{
}

/// A draw above the mean raises the pitch and a draw below it lowers the
/// pitch, by a thousand mel for each unit between the draw and the mean.
pub proof fn lemma_draw_moves_pitch(mel: Fixed, draw: Fixed)
    ensures
        match warbled(mel, draw) {
            Some(moved) => moved@ - mel@ == 1000 * (draw@ - WARBLE_MEAN),
            None => true,
        },
{
}

/// The variance of the draws grows with the warble amount: of two positive
/// amounts the larger gives the larger variance.
pub proof fn lemma_variance_grows_with_warble(a: Model, b: Model)
    requires
        0 < a.gaussian_perc@ < b.gaussian_perc@,
    ensures
        a.variance()@ < b.variance()@,
{
    lemma_product_exact(a.gaussian_perc, a.gaussian_perc);
    lemma_product_exact(b.gaussian_perc, b.gaussian_perc);
    assert(a.gaussian_perc@ * a.gaussian_perc@ < b.gaussian_perc@ * b.gaussian_perc@)
        by (nonlinear_arith)
        requires
            0 < a.gaussian_perc@ < b.gaussian_perc@,
    ;
}

/// The phase never falls while the frequency, the multiplier and the sample
/// rate are not negative.
pub proof fn lemma_phase_never_falls(hz: Fixed, multiplier: Fixed, sample_hz: Fixed)
    requires
        hz@ >= 0,
        multiplier@ >= 0,
        sample_hz@ > 0,
    ensures
        phase_step(hz, multiplier, sample_hz) >= 0,
{
    let x: int = hz@ * multiplier@ * SCALE;
    assert(x >= 0) by (nonlinear_arith)
        requires
            x == hz@ * multiplier@ * SCALE,
            hz@ >= 0,
            multiplier@ >= 0,
    ;
    lemma_fundamental_div_mod(x, sample_hz@);
    lemma_mod_bound(x, sample_hz@);
    assert(x / sample_hz@ >= 0) by (nonlinear_arith)
        requires
            x == sample_hz@ * (x / sample_hz@) + x % sample_hz@,
            x % sample_hz@ < sample_hz@,
            x >= 0,
            sample_hz@ > 0,
    ;
}

/// How far `x` is from zero.
pub open spec fn magnitude(x: int) -> int {
    if x < 0 {
        -x
    } else {
        x
    }
}

} // verus!
