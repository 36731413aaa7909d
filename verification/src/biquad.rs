//! A single second-order recursive filter ("biquad") in Direct Form I: a
//! configuration, the coefficients derived from it, and a four-cell history.
//!
//! Every numeric field is an IEEE 754 binary64 bit pattern (see
//! [`crate::fbits`]). The coefficient formulas are the standard
//! Regalia/audio-cookbook design equations, and the contracts pin each
//! coefficient and each processed sample to the exact sequence of rounding
//! operations that produces it.

use vstd::prelude::*;

use crate::fbits::{
    add_bits, cos_poly, div_bits, fadd, fcos, fdiv, fmul, fneg, fpow10, fsin, fsqrt, fsub,
    is_finite, is_nan, is_zero, mul_bits, neg_bits, pow10_poly, sin_poly, sqrt_newton, sub_bits,
    FORTY_BITS, NEG_TWO_BITS, ONE_BITS, PI_BITS, TWO_BITS, ZERO_BITS,
};

verus! {

/// The eight response shapes a biquad filter can take. The enumeration is
/// closed: coefficient derivation matches exhaustively over these variants.
#[derive(Clone, Copy, Debug, PartialEq, Eq, Structural)]
pub enum BiquadFilterType {
    Lowpass,
    Highpass,
    Bandpass,
    Lowshelf,
    Highshelf,
    Peaking,
    Notch,
    Allpass,
}

/// One filter's requested behaviour: a shape, a centre or corner frequency in
/// hertz, a quality factor, and a gain in decibels (the gain matters only for
/// the shelf and peaking shapes). The three numbers are binary64 bit patterns.
#[derive(Clone, Copy, Debug)]
pub struct FilterConfig {
    pub filter_type: BiquadFilterType,
    pub frequency: u64,
    pub q: u64,
    pub gain: u64,
}

/// A biquad filter: its configuration, the coefficients derived from the
/// configuration, and the last two inputs and outputs. All numeric fields are
/// binary64 bit patterns.
#[derive(Clone, Copy, Debug)]
pub struct BiquadFilter {
    pub filter_type: BiquadFilterType,
    pub frequency: u64,
    pub q: u64,
    pub gain: u64,
    /// Denominator coefficients.
    pub a0: u64,
    pub a1: u64,
    pub a2: u64,
    /// Numerator coefficients.
    pub b0: u64,
    pub b1: u64,
    pub b2: u64,
    /// The two most recent inputs.
    pub x1: u64,
    pub x2: u64,
    /// The two most recent (unnormalized) outputs.
    pub y1: u64,
    pub y2: u64,
    pub sample_rate: u64,
}

/// The filter with its six coefficients recomputed from its configuration
/// fields; everything else, the history included, is unchanged. The formulas
/// are the cookbook design equations, written as the exact composition of
/// rounding operations the implementation performs.
pub open spec fn with_coeffs(f: BiquadFilter) -> BiquadFilter {
    let w0 = div_bits(mul_bits(mul_bits(TWO_BITS, PI_BITS), f.frequency), f.sample_rate);
    let cos_w0 = cos_poly(w0);
    let sin_w0 = sin_poly(w0);
    let alpha = div_bits(sin_w0, mul_bits(TWO_BITS, f.q));
    let a = pow10_poly(div_bits(f.gain, FORTY_BITS));
    let sqrt_a = sqrt_newton(a);
    match f.filter_type {
        BiquadFilterType::Lowpass => BiquadFilter {
            b0: div_bits(sub_bits(ONE_BITS, cos_w0), TWO_BITS),
            b1: sub_bits(ONE_BITS, cos_w0),
            b2: div_bits(sub_bits(ONE_BITS, cos_w0), TWO_BITS),
            a0: add_bits(ONE_BITS, alpha),
            a1: mul_bits(NEG_TWO_BITS, cos_w0),
            a2: sub_bits(ONE_BITS, alpha),
            ..f
        },
        BiquadFilterType::Highpass => BiquadFilter {
            b0: div_bits(add_bits(ONE_BITS, cos_w0), TWO_BITS),
            b1: neg_bits(add_bits(ONE_BITS, cos_w0)),
            b2: div_bits(add_bits(ONE_BITS, cos_w0), TWO_BITS),
            a0: add_bits(ONE_BITS, alpha),
            a1: mul_bits(NEG_TWO_BITS, cos_w0),
            a2: sub_bits(ONE_BITS, alpha),
            ..f
        },
        BiquadFilterType::Bandpass => BiquadFilter {
            b0: alpha,
            b1: ZERO_BITS,
            b2: neg_bits(alpha),
            a0: add_bits(ONE_BITS, alpha),
            a1: mul_bits(NEG_TWO_BITS, cos_w0),
            a2: sub_bits(ONE_BITS, alpha),
            ..f
        },
        BiquadFilterType::Notch => BiquadFilter {
            b0: ONE_BITS,
            b1: mul_bits(NEG_TWO_BITS, cos_w0),
            b2: ONE_BITS,
            a0: add_bits(ONE_BITS, alpha),
            a1: mul_bits(NEG_TWO_BITS, cos_w0),
            a2: sub_bits(ONE_BITS, alpha),
            ..f
        },
        BiquadFilterType::Allpass => BiquadFilter {
            b0: sub_bits(ONE_BITS, alpha),
            b1: mul_bits(NEG_TWO_BITS, cos_w0),
            b2: add_bits(ONE_BITS, alpha),
            a0: add_bits(ONE_BITS, alpha),
            a1: mul_bits(NEG_TWO_BITS, cos_w0),
            a2: sub_bits(ONE_BITS, alpha),
            ..f
        },
        BiquadFilterType::Lowshelf => {
            let ap1 = add_bits(a, ONE_BITS);
            let am1 = sub_bits(a, ONE_BITS);
            let boost = mul_bits(mul_bits(TWO_BITS, sqrt_a), alpha);
            BiquadFilter {
                b0: mul_bits(a, add_bits(sub_bits(ap1, mul_bits(am1, cos_w0)), boost)),
                b1: mul_bits(mul_bits(TWO_BITS, a), sub_bits(am1, mul_bits(ap1, cos_w0))),
                b2: mul_bits(a, sub_bits(sub_bits(ap1, mul_bits(am1, cos_w0)), boost)),
                a0: add_bits(add_bits(ap1, mul_bits(am1, cos_w0)), boost),
                a1: mul_bits(NEG_TWO_BITS, add_bits(am1, mul_bits(ap1, cos_w0))),
                a2: sub_bits(add_bits(ap1, mul_bits(am1, cos_w0)), boost),
                ..f
            }
        },
        BiquadFilterType::Highshelf => {
            let ap1 = add_bits(a, ONE_BITS);
            let am1 = sub_bits(a, ONE_BITS);
            let boost = mul_bits(mul_bits(TWO_BITS, sqrt_a), alpha);
            BiquadFilter {
                b0: mul_bits(a, add_bits(add_bits(ap1, mul_bits(am1, cos_w0)), boost)),
                b1: mul_bits(mul_bits(NEG_TWO_BITS, a), add_bits(am1, mul_bits(ap1, cos_w0))),
                b2: mul_bits(a, sub_bits(add_bits(ap1, mul_bits(am1, cos_w0)), boost)),
                a0: add_bits(sub_bits(ap1, mul_bits(am1, cos_w0)), boost),
                a1: mul_bits(TWO_BITS, sub_bits(am1, mul_bits(ap1, cos_w0))),
                a2: sub_bits(sub_bits(ap1, mul_bits(am1, cos_w0)), boost),
                ..f
            }
        },
        BiquadFilterType::Peaking => BiquadFilter {
            b0: add_bits(ONE_BITS, mul_bits(alpha, a)),
            b1: mul_bits(NEG_TWO_BITS, cos_w0),
            b2: sub_bits(ONE_BITS, mul_bits(alpha, a)),
            a0: add_bits(ONE_BITS, div_bits(alpha, a)),
            a1: mul_bits(NEG_TWO_BITS, cos_w0),
            a2: sub_bits(ONE_BITS, div_bits(alpha, a)),
            ..f
        },
    }
}

/// The filter as [`BiquadFilter::new`] builds it: the configuration stored,
/// the coefficients derived, the history zeroed.
pub open spec fn spec_new(config: FilterConfig, sample_rate: u64) -> BiquadFilter {
    with_coeffs(
        BiquadFilter {
            filter_type: config.filter_type,
            frequency: config.frequency,
            q: config.q,
            gain: config.gain,
            a0: ZERO_BITS,
            a1: ZERO_BITS,
            a2: ZERO_BITS,
            b0: ZERO_BITS,
            b1: ZERO_BITS,
            b2: ZERO_BITS,
            x1: ZERO_BITS,
            x2: ZERO_BITS,
            y1: ZERO_BITS,
            y2: ZERO_BITS,
            sample_rate,
        },
    )
}

/// The filter with the given configuration stored in place of its own;
/// coefficients and history are not yet touched.
pub open spec fn with_config(f: BiquadFilter, config: FilterConfig) -> BiquadFilter {
    BiquadFilter {
        filter_type: config.filter_type,
        frequency: config.frequency,
        q: config.q,
        gain: config.gain,
        ..f
    }
}

/// The unnormalized Direct Form I output for one input sample: the value that
/// enters the output history before the division by `a0`.
pub open spec fn raw_out(f: BiquadFilter, x: u64) -> u64 {
    sub_bits(
        sub_bits(
            add_bits(add_bits(mul_bits(f.b0, x), mul_bits(f.b1, f.x1)), mul_bits(f.b2, f.x2)),
            mul_bits(f.a1, f.y1),
        ),
        mul_bits(f.a2, f.y2),
    )
}

/// The filter after processing one sample: the history shifted by one, with
/// the unnormalized output entering the output history.
pub open spec fn step_state(f: BiquadFilter, x: u64) -> BiquadFilter {
    BiquadFilter { x1: x, x2: f.x1, y1: raw_out(f, x), y2: f.y1, ..f }
}

/// The sample [`BiquadFilter::process`] returns: the unnormalized output
/// divided by `a0`.
pub open spec fn step_out(f: BiquadFilter, x: u64) -> u64 {
    div_bits(raw_out(f, x), f.a0)
}

/// The filter after processing a whole sequence of samples in order.
pub open spec fn run_state(f: BiquadFilter, xs: Seq<u64>) -> BiquadFilter
    decreases xs.len(),
{
    if xs.len() == 0 {
        f
    } else {
        run_state(step_state(f, xs[0]), xs.drop_first())
    }
}

/// The samples a filter returns for a whole sequence of inputs, the history
/// carried from each sample to the next.
pub open spec fn run_out(f: BiquadFilter, xs: Seq<u64>) -> Seq<u64>
    decreases xs.len(),
{
    if xs.len() == 0 {
        Seq::empty()
    } else {
        seq![step_out(f, xs[0])] + run_out(step_state(f, xs[0]), xs.drop_first())
    }
}

/// The filter with all four history cells returned to zero; configuration and
/// coefficients unchanged.
pub open spec fn reset_state(f: BiquadFilter) -> BiquadFilter {
    BiquadFilter { x1: ZERO_BITS, x2: ZERO_BITS, y1: ZERO_BITS, y2: ZERO_BITS, ..f }
}

/// All four history cells hold a zero (of either sign).
pub open spec fn history_is_zero(f: BiquadFilter) -> bool {
    is_zero(f.x1) && is_zero(f.x2) && is_zero(f.y1) && is_zero(f.y2)
}

/// The five coefficients that multiply history or input are finite.
pub open spec fn feedback_coeffs_finite(f: BiquadFilter) -> bool {
    is_finite(f.b0) && is_finite(f.b1) && is_finite(f.b2) && is_finite(f.a1) && is_finite(f.a2)
}

impl BiquadFilter {
    /// Builds a filter from a configuration and a sample rate: the
    /// coefficients are derived at once and the history starts at zero.
    pub fn new(config: FilterConfig, sample_rate: u64) -> (f: BiquadFilter)
        ensures
            f == spec_new(config, sample_rate),
    {
        let mut filter = BiquadFilter {
            filter_type: config.filter_type,
            frequency: config.frequency,
            q: config.q,
            gain: config.gain,
            a0: ZERO_BITS,
            a1: ZERO_BITS,
            a2: ZERO_BITS,
            b0: ZERO_BITS,
            b1: ZERO_BITS,
            b2: ZERO_BITS,
            x1: ZERO_BITS,
            x2: ZERO_BITS,
            y1: ZERO_BITS,
            y2: ZERO_BITS,
            sample_rate,
        };
        filter.update_coefficients();
        filter
    }

    /// Replaces the configuration and recomputes the coefficients. The
    /// history is deliberately left untouched, so filter memory carries over
    /// a retune (which can produce a transient).
    pub fn update_config(&mut self, config: FilterConfig)
        ensures
            *final(self) == with_coeffs(with_config(*old(self), config)),
    {
        self.filter_type = config.filter_type;
        self.frequency = config.frequency;
        self.q = config.q;
        self.gain = config.gain;
        self.update_coefficients();
    }

    /// Processes one sample through the Direct Form I difference equation and
    /// shifts the history. The unnormalized output (before the division by
    /// `a0`) is what enters the history. With a zero history, finite
    /// coefficients and a usable `a0`, a zero input yields a zero output.
    pub fn process(&mut self, input: u64) -> (r: u64)
        ensures
            *final(self) == step_state(*old(self), input),
            r == step_out(*old(self), input),
            history_is_zero(*old(self)) && is_zero(input) && feedback_coeffs_finite(*old(self))
                && !is_zero(old(self).a0) && !is_nan(old(self).a0) ==> is_zero(r),
            history_is_zero(*old(self)) && is_zero(input) && feedback_coeffs_finite(*old(self))
                ==> history_is_zero(*final(self)),
    {
        let p0 = fmul(self.b0, input);
        let p1 = fmul(self.b1, self.x1);
        let p2 = fmul(self.b2, self.x2);
        let q1 = fmul(self.a1, self.y1);
        let q2 = fmul(self.a2, self.y2);
        let output = fsub(fsub(fadd(fadd(p0, p1), p2), q1), q2);

        self.x2 = self.x1;
        self.x1 = input;
        self.y2 = self.y1;
        self.y1 = output;

        fdiv(output, self.a0)
    }

    /// Processes a buffer sample by sample, the history carried across the
    /// whole buffer exactly as across repeated single-sample calls.
    pub fn process_buffer(&mut self, buffer: Vec<u64>) -> (out: Vec<u64>)
        ensures
            out@ == run_out(*old(self), buffer@),
            *final(self) == run_state(*old(self), buffer@),
    {
        let ghost all = buffer@;
        let mut out: Vec<u64> = Vec::new();
        let mut i: usize = 0;
        proof {
            assert(all.subrange(0, all.len() as int) =~= all);
            assert(out@ + run_out(*self, all) =~= run_out(*self, all));
        }
        while i < buffer.len()
            invariant
                i <= buffer.len(),
                buffer@ == all,
                run_out(*old(self), all) == out@ + run_out(
                    *self,
                    all.subrange(i as int, all.len() as int),
                ),
                run_state(*old(self), all) == run_state(
                    *self,
                    all.subrange(i as int, all.len() as int),
                ),
            decreases all.len() - i,
        {
            let ghost rest = all.subrange(i as int, all.len() as int);
            let ghost prev = *self;
            let y = self.process(buffer[i]);
            out.push(y);
            i += 1;
            proof {
                assert(rest[0] == all[i - 1 as int]);
                assert(rest.drop_first() =~= all.subrange(i as int, all.len() as int));
                assert(run_out(prev, rest) == seq![y] + run_out(
                    *self,
                    all.subrange(i as int, all.len() as int),
                ));
                assert((out@.drop_last() + seq![y]) + run_out(
                    *self,
                    all.subrange(i as int, all.len() as int),
                ) =~= out@.drop_last() + (seq![y] + run_out(
                    *self,
                    all.subrange(i as int, all.len() as int),
                )));
                assert(out@.drop_last() + seq![y] =~= out@);
            }
        }
        proof {
            assert(all.subrange(all.len() as int, all.len() as int) =~= Seq::<u64>::empty());
            assert(out@ + Seq::<u64>::empty() =~= out@);
        }
        out
    }

    /// Zeroes all four history cells; configuration and coefficients stay as
    /// they are.
    pub fn reset(&mut self)
        ensures
            *final(self) == reset_state(*old(self)),
    {
        self.x1 = ZERO_BITS;
        self.x2 = ZERO_BITS;
        self.y1 = ZERO_BITS;
        self.y2 = ZERO_BITS;
    }

    /// Derives the six coefficients from the stored configuration, following
    /// the cookbook design equations shape by shape.
    fn update_coefficients(&mut self)
        ensures
            *final(self) == with_coeffs(*old(self)),
    {
        let w0 = fdiv(fmul(fmul(TWO_BITS, PI_BITS), self.frequency), self.sample_rate);
        let cos_w0 = fcos(w0);
        let sin_w0 = fsin(w0);
        let alpha = fdiv(sin_w0, fmul(TWO_BITS, self.q));
        let a = fpow10(fdiv(self.gain, FORTY_BITS));
        let sqrt_a = fsqrt(a);

        match self.filter_type {
            BiquadFilterType::Lowpass => {
                self.b0 = fdiv(fsub(ONE_BITS, cos_w0), TWO_BITS);
                self.b1 = fsub(ONE_BITS, cos_w0);
                self.b2 = fdiv(fsub(ONE_BITS, cos_w0), TWO_BITS);
                self.a0 = fadd(ONE_BITS, alpha);
                self.a1 = fmul(NEG_TWO_BITS, cos_w0);
                self.a2 = fsub(ONE_BITS, alpha);
            },
            BiquadFilterType::Highpass => {
                self.b0 = fdiv(fadd(ONE_BITS, cos_w0), TWO_BITS);
                self.b1 = fneg(fadd(ONE_BITS, cos_w0));
                self.b2 = fdiv(fadd(ONE_BITS, cos_w0), TWO_BITS);
                self.a0 = fadd(ONE_BITS, alpha);
                self.a1 = fmul(NEG_TWO_BITS, cos_w0);
                self.a2 = fsub(ONE_BITS, alpha);
            },
            BiquadFilterType::Bandpass => {
                self.b0 = alpha;
                self.b1 = ZERO_BITS;
                self.b2 = fneg(alpha);
                self.a0 = fadd(ONE_BITS, alpha);
                self.a1 = fmul(NEG_TWO_BITS, cos_w0);
                self.a2 = fsub(ONE_BITS, alpha);
            },
            BiquadFilterType::Notch => {
                self.b0 = ONE_BITS;
                self.b1 = fmul(NEG_TWO_BITS, cos_w0);
                self.b2 = ONE_BITS;
                self.a0 = fadd(ONE_BITS, alpha);
                self.a1 = fmul(NEG_TWO_BITS, cos_w0);
                self.a2 = fsub(ONE_BITS, alpha);
            },
            BiquadFilterType::Allpass => {
                self.b0 = fsub(ONE_BITS, alpha);
                self.b1 = fmul(NEG_TWO_BITS, cos_w0);
                self.b2 = fadd(ONE_BITS, alpha);
                self.a0 = fadd(ONE_BITS, alpha);
                self.a1 = fmul(NEG_TWO_BITS, cos_w0);
                self.a2 = fsub(ONE_BITS, alpha);
            },
            BiquadFilterType::Lowshelf => {
                let ap1 = fadd(a, ONE_BITS);
                let am1 = fsub(a, ONE_BITS);
                let boost = fmul(fmul(TWO_BITS, sqrt_a), alpha);
                self.b0 = fmul(a, fadd(fsub(ap1, fmul(am1, cos_w0)), boost));
                self.b1 = fmul(fmul(TWO_BITS, a), fsub(am1, fmul(ap1, cos_w0)));
                self.b2 = fmul(a, fsub(fsub(ap1, fmul(am1, cos_w0)), boost));
                self.a0 = fadd(fadd(ap1, fmul(am1, cos_w0)), boost);
                self.a1 = fmul(NEG_TWO_BITS, fadd(am1, fmul(ap1, cos_w0)));
                self.a2 = fsub(fadd(ap1, fmul(am1, cos_w0)), boost);
            },
            BiquadFilterType::Highshelf => {
                let ap1 = fadd(a, ONE_BITS);
                let am1 = fsub(a, ONE_BITS);
                let boost = fmul(fmul(TWO_BITS, sqrt_a), alpha);
                self.b0 = fmul(a, fadd(fadd(ap1, fmul(am1, cos_w0)), boost));
                self.b1 = fmul(fmul(NEG_TWO_BITS, a), fadd(am1, fmul(ap1, cos_w0)));
                self.b2 = fmul(a, fsub(fadd(ap1, fmul(am1, cos_w0)), boost));
                self.a0 = fadd(fsub(ap1, fmul(am1, cos_w0)), boost);
                self.a1 = fmul(TWO_BITS, fsub(am1, fmul(ap1, cos_w0)));
                self.a2 = fsub(fsub(ap1, fmul(am1, cos_w0)), boost);
            },
            BiquadFilterType::Peaking => {
                self.b0 = fadd(ONE_BITS, fmul(alpha, a));
                self.b1 = fmul(NEG_TWO_BITS, cos_w0);
                self.b2 = fsub(ONE_BITS, fmul(alpha, a));
                self.a0 = fadd(ONE_BITS, fdiv(alpha, a));
                self.a1 = fmul(NEG_TWO_BITS, cos_w0);
                self.a2 = fsub(ONE_BITS, fdiv(alpha, a));
            },
        }
    }
}

/// Resetting a filter twice in a row leaves exactly the state that one reset
/// leaves.
pub proof fn lemma_reset_idempotent(f: BiquadFilter)
    ensures
        reset_state(reset_state(f)) == reset_state(f),
{
}

/// After a reset, a filter processes a sample exactly as a freshly built
/// filter with identical coefficients does: the output depends only on the
/// coefficients and the (zero) history.
pub proof fn lemma_reset_matches_fresh(f: BiquadFilter, config: FilterConfig, sample_rate: u64, x: u64)
    requires
        spec_new(config, sample_rate).a0 == f.a0,
        spec_new(config, sample_rate).a1 == f.a1,
        spec_new(config, sample_rate).a2 == f.a2,
        spec_new(config, sample_rate).b0 == f.b0,
        spec_new(config, sample_rate).b1 == f.b1,
        spec_new(config, sample_rate).b2 == f.b2,
    ensures
        step_out(reset_state(f), x) == step_out(spec_new(config, sample_rate), x),
{
}

} // verus!
