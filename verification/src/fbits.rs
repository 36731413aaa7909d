//! IEEE 754 binary64 arithmetic on 64-bit patterns.
//!
//! A `u64` here is always the bit pattern of a binary64 value. The four
//! rounding operations (add, subtract, multiply, divide) are performed by
//! `rustc_apfloat`, a pure-software IEEE 754 implementation, behind trusted
//! wrappers; each result is named by an uninterpreted spec function, since the
//! operations are functions of the operand bit patterns alone. Negation,
//! sine, cosine, the exponential and the square root are verified code built
//! on top of those operations, and their contracts pin the exact composition
//! of rounding steps that produces each result.

use vstd::prelude::*;

use rustc_apfloat::Float;

verus! {

/// The sign bit of a binary64 pattern.
pub const SIGN_MASK: u64 = 0x8000_0000_0000_0000;

/// Everything but the sign bit.
pub const ABS_MASK: u64 = 0x7FFF_FFFF_FFFF_FFFF;

/// The exponent field.
pub const EXP_MASK: u64 = 0x7FF0_0000_0000_0000;

/// The fraction field.
pub const FRAC_MASK: u64 = 0x000F_FFFF_FFFF_FFFF;

pub const ZERO_BITS: u64 = 0x0000_0000_0000_0000;

pub const HALF_BITS: u64 = 0x3FE0_0000_0000_0000;

pub const ONE_BITS: u64 = 0x3FF0_0000_0000_0000;

pub const TWO_BITS: u64 = 0x4000_0000_0000_0000;

pub const NEG_TWO_BITS: u64 = 0xC000_0000_0000_0000;

pub const FORTY_BITS: u64 = 0x4044_0000_0000_0000;

/// The binary64 value nearest to the circle constant pi.
pub const PI_BITS: u64 = 0x4009_21FB_5444_2D18;

/// The binary64 value nearest to the natural logarithm of ten.
pub const LN10_BITS: u64 = 0x4002_6BB1_BBB5_5516;

/// The pattern encodes a zero of either sign.
pub open spec fn is_zero(b: u64) -> bool {
    b & ABS_MASK == 0
}

/// The pattern encodes a finite value (zero, subnormal or normal).
pub open spec fn is_finite(b: u64) -> bool {
    b & EXP_MASK != EXP_MASK
}

/// The pattern encodes a NaN.
pub open spec fn is_nan(b: u64) -> bool {
    b & EXP_MASK == EXP_MASK && b & FRAC_MASK != 0
}

/// The binary64 sum of the two patterns, rounded to nearest, ties to even.
pub uninterp spec fn add_bits(a: u64, b: u64) -> u64;

/// The binary64 difference of the two patterns, rounded to nearest, ties to even.
pub uninterp spec fn sub_bits(a: u64, b: u64) -> u64;

/// The binary64 product of the two patterns, rounded to nearest, ties to even.
pub uninterp spec fn mul_bits(a: u64, b: u64) -> u64;

/// The binary64 quotient of the two patterns, rounded to nearest, ties to even.
pub uninterp spec fn div_bits(a: u64, b: u64) -> u64;

/// Relies on `rustc_apfloat::ieee::Double`'s `Add`: IEEE 754 binary64
/// addition with round-to-nearest-even, a function of the operand bit
/// patterns alone. The sum of two zeros is a zero of one sign or the other.
#[verifier::external_body]
pub fn fadd(a: u64, b: u64) -> (r: u64)
    ensures
        r == add_bits(a, b),
        is_zero(a) && is_zero(b) ==> is_zero(r),
{
    let x = rustc_apfloat::ieee::Double::from_bits(a as u128);
    let y = rustc_apfloat::ieee::Double::from_bits(b as u128);
    (x + y).value.to_bits() as u64
}

/// Relies on `rustc_apfloat::ieee::Double`'s `Sub`: IEEE 754 binary64
/// subtraction with round-to-nearest-even, a function of the operand bit
/// patterns alone. The difference of two zeros is a zero.
#[verifier::external_body]
pub fn fsub(a: u64, b: u64) -> (r: u64)
    ensures
        r == sub_bits(a, b),
        is_zero(a) && is_zero(b) ==> is_zero(r),
{
    let x = rustc_apfloat::ieee::Double::from_bits(a as u128);
    let y = rustc_apfloat::ieee::Double::from_bits(b as u128);
    (x - y).value.to_bits() as u64
}

/// Relies on `rustc_apfloat::ieee::Double`'s `Mul`: IEEE 754 binary64
/// multiplication with round-to-nearest-even, a function of the operand bit
/// patterns alone. A finite value times a zero is a zero.
#[verifier::external_body]
pub fn fmul(a: u64, b: u64) -> (r: u64)
    ensures
        r == mul_bits(a, b),
        is_finite(a) && is_zero(b) ==> is_zero(r),
{
    let x = rustc_apfloat::ieee::Double::from_bits(a as u128);
    let y = rustc_apfloat::ieee::Double::from_bits(b as u128);
    (x * y).value.to_bits() as u64
}

/// Relies on `rustc_apfloat::ieee::Double`'s `Div`: IEEE 754 binary64
/// division with round-to-nearest-even, a function of the operand bit
/// patterns alone. A zero divided by anything other than a zero or a NaN is
/// a zero.
#[verifier::external_body]
pub fn fdiv(a: u64, b: u64) -> (r: u64)
    ensures
        r == div_bits(a, b),
        is_zero(a) && !is_zero(b) && !is_nan(b) ==> is_zero(r),
{
    let x = rustc_apfloat::ieee::Double::from_bits(a as u128);
    let y = rustc_apfloat::ieee::Double::from_bits(b as u128);
    (x / y).value.to_bits() as u64
}

/// The binary64 negation of a pattern: the sign bit flipped. This is exact
/// for every input, NaNs included.
pub open spec fn neg_bits(b: u64) -> u64 {
    b ^ SIGN_MASK
}

/// Negation, performed directly on the pattern.
pub fn fneg(b: u64) -> (r: u64)
    ensures
        r == neg_bits(b),
{
    b ^ SIGN_MASK
}


/// The sine polynomial: a Maclaurin series with thirteen correction terms,
/// each step an `fbits` rounding operation. Term `k` multiplies its
/// predecessor by the negated square of the argument and divides by
/// `(2k)(2k+1)`; every divisor is an integer, exactly representable. For the
/// arguments a physically valid filter produces (angular frequencies between
/// zero and pi) the result is accurate to well within one part in ten to the
/// twelfth.
pub open spec fn sin_poly(x: u64) -> u64 {
    let m = neg_bits(mul_bits(x, x));
    let t0 = x;
    let s0 = x;
    let t1 = div_bits(mul_bits(t0, m), 0x4018000000000000);  // divisor 6
    let s1 = add_bits(s0, t1);
    let t2 = div_bits(mul_bits(t1, m), 0x4034000000000000);  // divisor 20
    let s2 = add_bits(s1, t2);
    let t3 = div_bits(mul_bits(t2, m), 0x4045000000000000);  // divisor 42
    let s3 = add_bits(s2, t3);
    let t4 = div_bits(mul_bits(t3, m), 0x4052000000000000);  // divisor 72
    let s4 = add_bits(s3, t4);
    let t5 = div_bits(mul_bits(t4, m), 0x405B800000000000);  // divisor 110
    let s5 = add_bits(s4, t5);
    let t6 = div_bits(mul_bits(t5, m), 0x4063800000000000);  // divisor 156
    let s6 = add_bits(s5, t6);
    let t7 = div_bits(mul_bits(t6, m), 0x406A400000000000);  // divisor 210
    let s7 = add_bits(s6, t7);
    let t8 = div_bits(mul_bits(t7, m), 0x4071000000000000);  // divisor 272
    let s8 = add_bits(s7, t8);
    let t9 = div_bits(mul_bits(t8, m), 0x4075600000000000);  // divisor 342
    let s9 = add_bits(s8, t9);
    let t10 = div_bits(mul_bits(t9, m), 0x407A400000000000);  // divisor 420
    let s10 = add_bits(s9, t10);
    let t11 = div_bits(mul_bits(t10, m), 0x407FA00000000000);  // divisor 506
    let s11 = add_bits(s10, t11);
    let t12 = div_bits(mul_bits(t11, m), 0x4082C00000000000);  // divisor 600
    let s12 = add_bits(s11, t12);
    let t13 = div_bits(mul_bits(t12, m), 0x4085F00000000000);  // divisor 702
    let s13 = add_bits(s12, t13);
    s13
}


/// Sine of a pattern, computing exactly [`sin_poly`].
pub fn fsin(x: u64) -> (r: u64)
    ensures
        r == sin_poly(x),
{
    let m = fneg(fmul(x, x));
    let t0 = x;
    let s0 = x;
    let t1 = fdiv(fmul(t0, m), 0x4018000000000000);  // divisor 6
    let s1 = fadd(s0, t1);
    let t2 = fdiv(fmul(t1, m), 0x4034000000000000);  // divisor 20
    let s2 = fadd(s1, t2);
    let t3 = fdiv(fmul(t2, m), 0x4045000000000000);  // divisor 42
    let s3 = fadd(s2, t3);
    let t4 = fdiv(fmul(t3, m), 0x4052000000000000);  // divisor 72
    let s4 = fadd(s3, t4);
    let t5 = fdiv(fmul(t4, m), 0x405B800000000000);  // divisor 110
    let s5 = fadd(s4, t5);
    let t6 = fdiv(fmul(t5, m), 0x4063800000000000);  // divisor 156
    let s6 = fadd(s5, t6);
    let t7 = fdiv(fmul(t6, m), 0x406A400000000000);  // divisor 210
    let s7 = fadd(s6, t7);
    let t8 = fdiv(fmul(t7, m), 0x4071000000000000);  // divisor 272
    let s8 = fadd(s7, t8);
    let t9 = fdiv(fmul(t8, m), 0x4075600000000000);  // divisor 342
    let s9 = fadd(s8, t9);
    let t10 = fdiv(fmul(t9, m), 0x407A400000000000);  // divisor 420
    let s10 = fadd(s9, t10);
    let t11 = fdiv(fmul(t10, m), 0x407FA00000000000);  // divisor 506
    let s11 = fadd(s10, t11);
    let t12 = fdiv(fmul(t11, m), 0x4082C00000000000);  // divisor 600
    let s12 = fadd(s11, t12);
    let t13 = fdiv(fmul(t12, m), 0x4085F00000000000);  // divisor 702
    let s13 = fadd(s12, t13);
    s13
}


/// The cosine polynomial: the Maclaurin series companion of [`sin_poly`],
/// with divisors `(2k-1)(2k)`.
pub open spec fn cos_poly(x: u64) -> u64 {
    let m = neg_bits(mul_bits(x, x));
    let t0 = ONE_BITS;
    let s0 = ONE_BITS;
    let t1 = div_bits(mul_bits(t0, m), 0x4000000000000000);  // divisor 2
    let s1 = add_bits(s0, t1);
    let t2 = div_bits(mul_bits(t1, m), 0x4028000000000000);  // divisor 12
    let s2 = add_bits(s1, t2);
    let t3 = div_bits(mul_bits(t2, m), 0x403E000000000000);  // divisor 30
    let s3 = add_bits(s2, t3);
    let t4 = div_bits(mul_bits(t3, m), 0x404C000000000000);  // divisor 56
    let s4 = add_bits(s3, t4);
    let t5 = div_bits(mul_bits(t4, m), 0x4056800000000000);  // divisor 90
    let s5 = add_bits(s4, t5);
    let t6 = div_bits(mul_bits(t5, m), 0x4060800000000000);  // divisor 132
    let s6 = add_bits(s5, t6);
    let t7 = div_bits(mul_bits(t6, m), 0x4066C00000000000);  // divisor 182
    let s7 = add_bits(s6, t7);
    let t8 = div_bits(mul_bits(t7, m), 0x406E000000000000);  // divisor 240
    let s8 = add_bits(s7, t8);
    let t9 = div_bits(mul_bits(t8, m), 0x4073200000000000);  // divisor 306
    let s9 = add_bits(s8, t9);
    let t10 = div_bits(mul_bits(t9, m), 0x4077C00000000000);  // divisor 380
    let s10 = add_bits(s9, t10);
    let t11 = div_bits(mul_bits(t10, m), 0x407CE00000000000);  // divisor 462
    let s11 = add_bits(s10, t11);
    let t12 = div_bits(mul_bits(t11, m), 0x4081400000000000);  // divisor 552
    let s12 = add_bits(s11, t12);
    let t13 = div_bits(mul_bits(t12, m), 0x4084500000000000);  // divisor 650
    let s13 = add_bits(s12, t13);
    s13
}


/// Cosine of a pattern, computing exactly [`cos_poly`].
pub fn fcos(x: u64) -> (r: u64)
    ensures
        r == cos_poly(x),
{
    let m = fneg(fmul(x, x));
    let t0 = ONE_BITS;
    let s0 = ONE_BITS;
    let t1 = fdiv(fmul(t0, m), 0x4000000000000000);  // divisor 2
    let s1 = fadd(s0, t1);
    let t2 = fdiv(fmul(t1, m), 0x4028000000000000);  // divisor 12
    let s2 = fadd(s1, t2);
    let t3 = fdiv(fmul(t2, m), 0x403E000000000000);  // divisor 30
    let s3 = fadd(s2, t3);
    let t4 = fdiv(fmul(t3, m), 0x404C000000000000);  // divisor 56
    let s4 = fadd(s3, t4);
    let t5 = fdiv(fmul(t4, m), 0x4056800000000000);  // divisor 90
    let s5 = fadd(s4, t5);
    let t6 = fdiv(fmul(t5, m), 0x4060800000000000);  // divisor 132
    let s6 = fadd(s5, t6);
    let t7 = fdiv(fmul(t6, m), 0x4066C00000000000);  // divisor 182
    let s7 = fadd(s6, t7);
    let t8 = fdiv(fmul(t7, m), 0x406E000000000000);  // divisor 240
    let s8 = fadd(s7, t8);
    let t9 = fdiv(fmul(t8, m), 0x4073200000000000);  // divisor 306
    let s9 = fadd(s8, t9);
    let t10 = fdiv(fmul(t9, m), 0x4077C00000000000);  // divisor 380
    let s10 = fadd(s9, t10);
    let t11 = fdiv(fmul(t10, m), 0x407CE00000000000);  // divisor 462
    let s11 = fadd(s10, t11);
    let t12 = fdiv(fmul(t11, m), 0x4081400000000000);  // divisor 552
    let s12 = fadd(s11, t12);
    let t13 = fdiv(fmul(t12, m), 0x4084500000000000);  // divisor 650
    let s13 = fadd(s12, t13);
    s13
}


/// The exponential polynomial: a Maclaurin series with twenty-six terms,
/// each step an `fbits` rounding operation. An argument of zero yields
/// exactly one.
pub open spec fn exp_poly(x: u64) -> u64 {
    let s1 = add_bits(ONE_BITS, x);
    let t2 = div_bits(mul_bits(x, x), 0x4000000000000000);  // divisor 2
    let s2 = add_bits(s1, t2);
    let t3 = div_bits(mul_bits(t2, x), 0x4008000000000000);  // divisor 3
    let s3 = add_bits(s2, t3);
    let t4 = div_bits(mul_bits(t3, x), 0x4010000000000000);  // divisor 4
    let s4 = add_bits(s3, t4);
    let t5 = div_bits(mul_bits(t4, x), 0x4014000000000000);  // divisor 5
    let s5 = add_bits(s4, t5);
    let t6 = div_bits(mul_bits(t5, x), 0x4018000000000000);  // divisor 6
    let s6 = add_bits(s5, t6);
    let t7 = div_bits(mul_bits(t6, x), 0x401C000000000000);  // divisor 7
    let s7 = add_bits(s6, t7);
    let t8 = div_bits(mul_bits(t7, x), 0x4020000000000000);  // divisor 8
    let s8 = add_bits(s7, t8);
    let t9 = div_bits(mul_bits(t8, x), 0x4022000000000000);  // divisor 9
    let s9 = add_bits(s8, t9);
    let t10 = div_bits(mul_bits(t9, x), 0x4024000000000000);  // divisor 10
    let s10 = add_bits(s9, t10);
    let t11 = div_bits(mul_bits(t10, x), 0x4026000000000000);  // divisor 11
    let s11 = add_bits(s10, t11);
    let t12 = div_bits(mul_bits(t11, x), 0x4028000000000000);  // divisor 12
    let s12 = add_bits(s11, t12);
    let t13 = div_bits(mul_bits(t12, x), 0x402A000000000000);  // divisor 13
    let s13 = add_bits(s12, t13);
    let t14 = div_bits(mul_bits(t13, x), 0x402C000000000000);  // divisor 14
    let s14 = add_bits(s13, t14);
    let t15 = div_bits(mul_bits(t14, x), 0x402E000000000000);  // divisor 15
    let s15 = add_bits(s14, t15);
    let t16 = div_bits(mul_bits(t15, x), 0x4030000000000000);  // divisor 16
    let s16 = add_bits(s15, t16);
    let t17 = div_bits(mul_bits(t16, x), 0x4031000000000000);  // divisor 17
    let s17 = add_bits(s16, t17);
    let t18 = div_bits(mul_bits(t17, x), 0x4032000000000000);  // divisor 18
    let s18 = add_bits(s17, t18);
    let t19 = div_bits(mul_bits(t18, x), 0x4033000000000000);  // divisor 19
    let s19 = add_bits(s18, t19);
    let t20 = div_bits(mul_bits(t19, x), 0x4034000000000000);  // divisor 20
    let s20 = add_bits(s19, t20);
    let t21 = div_bits(mul_bits(t20, x), 0x4035000000000000);  // divisor 21
    let s21 = add_bits(s20, t21);
    let t22 = div_bits(mul_bits(t21, x), 0x4036000000000000);  // divisor 22
    let s22 = add_bits(s21, t22);
    let t23 = div_bits(mul_bits(t22, x), 0x4037000000000000);  // divisor 23
    let s23 = add_bits(s22, t23);
    let t24 = div_bits(mul_bits(t23, x), 0x4038000000000000);  // divisor 24
    let s24 = add_bits(s23, t24);
    let t25 = div_bits(mul_bits(t24, x), 0x4039000000000000);  // divisor 25
    let s25 = add_bits(s24, t25);
    let t26 = div_bits(mul_bits(t25, x), 0x403A000000000000);  // divisor 26
    let s26 = add_bits(s25, t26);
    s26
}


/// The exponential of a pattern, computing exactly [`exp_poly`].
pub fn fexp(x: u64) -> (r: u64)
    ensures
        r == exp_poly(x),
{
    let s1 = fadd(ONE_BITS, x);
    let t2 = fdiv(fmul(x, x), 0x4000000000000000);  // divisor 2
    let s2 = fadd(s1, t2);
    let t3 = fdiv(fmul(t2, x), 0x4008000000000000);  // divisor 3
    let s3 = fadd(s2, t3);
    let t4 = fdiv(fmul(t3, x), 0x4010000000000000);  // divisor 4
    let s4 = fadd(s3, t4);
    let t5 = fdiv(fmul(t4, x), 0x4014000000000000);  // divisor 5
    let s5 = fadd(s4, t5);
    let t6 = fdiv(fmul(t5, x), 0x4018000000000000);  // divisor 6
    let s6 = fadd(s5, t6);
    let t7 = fdiv(fmul(t6, x), 0x401C000000000000);  // divisor 7
    let s7 = fadd(s6, t7);
    let t8 = fdiv(fmul(t7, x), 0x4020000000000000);  // divisor 8
    let s8 = fadd(s7, t8);
    let t9 = fdiv(fmul(t8, x), 0x4022000000000000);  // divisor 9
    let s9 = fadd(s8, t9);
    let t10 = fdiv(fmul(t9, x), 0x4024000000000000);  // divisor 10
    let s10 = fadd(s9, t10);
    let t11 = fdiv(fmul(t10, x), 0x4026000000000000);  // divisor 11
    let s11 = fadd(s10, t11);
    let t12 = fdiv(fmul(t11, x), 0x4028000000000000);  // divisor 12
    let s12 = fadd(s11, t12);
    let t13 = fdiv(fmul(t12, x), 0x402A000000000000);  // divisor 13
    let s13 = fadd(s12, t13);
    let t14 = fdiv(fmul(t13, x), 0x402C000000000000);  // divisor 14
    let s14 = fadd(s13, t14);
    let t15 = fdiv(fmul(t14, x), 0x402E000000000000);  // divisor 15
    let s15 = fadd(s14, t15);
    let t16 = fdiv(fmul(t15, x), 0x4030000000000000);  // divisor 16
    let s16 = fadd(s15, t16);
    let t17 = fdiv(fmul(t16, x), 0x4031000000000000);  // divisor 17
    let s17 = fadd(s16, t17);
    let t18 = fdiv(fmul(t17, x), 0x4032000000000000);  // divisor 18
    let s18 = fadd(s17, t18);
    let t19 = fdiv(fmul(t18, x), 0x4033000000000000);  // divisor 19
    let s19 = fadd(s18, t19);
    let t20 = fdiv(fmul(t19, x), 0x4034000000000000);  // divisor 20
    let s20 = fadd(s19, t20);
    let t21 = fdiv(fmul(t20, x), 0x4035000000000000);  // divisor 21
    let s21 = fadd(s20, t21);
    let t22 = fdiv(fmul(t21, x), 0x4036000000000000);  // divisor 22
    let s22 = fadd(s21, t22);
    let t23 = fdiv(fmul(t22, x), 0x4037000000000000);  // divisor 23
    let s23 = fadd(s22, t23);
    let t24 = fdiv(fmul(t23, x), 0x4038000000000000);  // divisor 24
    let s24 = fadd(s23, t24);
    let t25 = fdiv(fmul(t24, x), 0x4039000000000000);  // divisor 25
    let s25 = fadd(s24, t25);
    let t26 = fdiv(fmul(t25, x), 0x403A000000000000);  // divisor 26
    let s26 = fadd(s25, t26);
    s26
}


/// Ten raised to a pattern, as the exponential of the argument times the
/// natural logarithm of ten.
pub open spec fn pow10_poly(x: u64) -> u64 {
    exp_poly(mul_bits(x, LN10_BITS))
}

/// Ten to the power of a pattern, computing exactly [`pow10_poly`].
pub fn fpow10(x: u64) -> (r: u64)
    ensures
        r == pow10_poly(x),
{
    fexp(fmul(x, LN10_BITS))
}

/// The starting point of the square-root iteration: a power of two whose
/// exponent is half the argument's, so the guess is within a factor of two
/// of the root for every normal positive argument.
pub open spec fn sqrt_guess(b: u64) -> u64 {
    (((((b >> 52) & 0x7FF) + 0x3FF) / 2) as u64) << 52
}

/// One Newton step of the square-root iteration.
pub open spec fn sqrt_step(b: u64, y: u64) -> u64 {
    mul_bits(HALF_BITS, add_bits(y, div_bits(b, y)))
}

/// The square root as eight Newton steps from [`sqrt_guess`]; a zero of
/// either sign is returned unchanged. Eight steps bring the guess's error
/// below one part in ten to the fifteenth for every normal positive argument.
pub open spec fn sqrt_newton(b: u64) -> u64 {
    if b & ABS_MASK == 0 {
        b
    } else {
        let y0 = sqrt_guess(b);
        let y1 = sqrt_step(b, y0);
        let y2 = sqrt_step(b, y1);
        let y3 = sqrt_step(b, y2);
        let y4 = sqrt_step(b, y3);
        let y5 = sqrt_step(b, y4);
        let y6 = sqrt_step(b, y5);
        let y7 = sqrt_step(b, y6);
        let y8 = sqrt_step(b, y7);
        y8
    }
}

/// Square root of a pattern, computing exactly [`sqrt_newton`].
pub fn fsqrt(b: u64) -> (r: u64)
    ensures
        r == sqrt_newton(b),
{
    if b & ABS_MASK == 0 {
        b
    } else {
        let e = (b >> 52) & 0x7FF;
        assert(e <= 0x7FF) by (bit_vector)
            requires
                e == (b >> 52) & 0x7FF,
        ;
        let y0 = ((e + 0x3FF) / 2) << 52;
        assert(y0 == sqrt_guess(b));
        let y1 = fmul(HALF_BITS, fadd(y0, fdiv(b, y0)));
        let y2 = fmul(HALF_BITS, fadd(y1, fdiv(b, y1)));
        let y3 = fmul(HALF_BITS, fadd(y2, fdiv(b, y2)));
        let y4 = fmul(HALF_BITS, fadd(y3, fdiv(b, y3)));
        let y5 = fmul(HALF_BITS, fadd(y4, fdiv(b, y4)));
        let y6 = fmul(HALF_BITS, fadd(y5, fdiv(b, y5)));
        let y7 = fmul(HALF_BITS, fadd(y6, fdiv(b, y6)));
        let y8 = fmul(HALF_BITS, fadd(y7, fdiv(b, y7)));
        y8
    }
}

} // verus!
