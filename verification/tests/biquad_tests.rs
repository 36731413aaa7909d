use biquad_eq::biquad::{BiquadFilter, BiquadFilterType, FilterConfig};

fn bits(x: f64) -> u64 {
    x.to_bits()
}

fn val(b: u64) -> f64 {
    f64::from_bits(b)
}

fn config(filter_type: BiquadFilterType, frequency: f64, q: f64, gain: f64) -> FilterConfig {
    FilterConfig {
        filter_type,
        frequency: bits(frequency),
        q: bits(q),
        gain: bits(gain),
    }
}

const ALL_TYPES: [BiquadFilterType; 8] = [
    BiquadFilterType::Lowpass,
    BiquadFilterType::Highpass,
    BiquadFilterType::Bandpass,
    BiquadFilterType::Lowshelf,
    BiquadFilterType::Highshelf,
    BiquadFilterType::Peaking,
    BiquadFilterType::Notch,
    BiquadFilterType::Allpass,
];

/// The cookbook coefficient formulas, computed in ordinary floating point:
/// (b0, b1, b2, a0, a1, a2).
fn reference_coeffs(
    filter_type: BiquadFilterType,
    frequency: f64,
    q: f64,
    gain: f64,
    sample_rate: f64,
) -> [f64; 6] {
    let w0 = 2.0 * std::f64::consts::PI * frequency / sample_rate;
    let cos_w0 = w0.cos();
    let sin_w0 = w0.sin();
    let alpha = sin_w0 / (2.0 * q);
    let a = 10_f64.powf(gain / 40.0);
    let sqrt_a = a.sqrt();
    match filter_type {
        BiquadFilterType::Lowpass => [
            (1.0 - cos_w0) / 2.0,
            1.0 - cos_w0,
            (1.0 - cos_w0) / 2.0,
            1.0 + alpha,
            -2.0 * cos_w0,
            1.0 - alpha,
        ],
        BiquadFilterType::Highpass => [
            (1.0 + cos_w0) / 2.0,
            -(1.0 + cos_w0),
            (1.0 + cos_w0) / 2.0,
            1.0 + alpha,
            -2.0 * cos_w0,
            1.0 - alpha,
        ],
        BiquadFilterType::Bandpass => [
            alpha,
            0.0,
            -alpha,
            1.0 + alpha,
            -2.0 * cos_w0,
            1.0 - alpha,
        ],
        BiquadFilterType::Notch => [
            1.0,
            -2.0 * cos_w0,
            1.0,
            1.0 + alpha,
            -2.0 * cos_w0,
            1.0 - alpha,
        ],
        BiquadFilterType::Allpass => [
            1.0 - alpha,
            -2.0 * cos_w0,
            1.0 + alpha,
            1.0 + alpha,
            -2.0 * cos_w0,
            1.0 - alpha,
        ],
        BiquadFilterType::Lowshelf => [
            a * ((a + 1.0) - (a - 1.0) * cos_w0 + 2.0 * sqrt_a * alpha),
            2.0 * a * ((a - 1.0) - (a + 1.0) * cos_w0),
            a * ((a + 1.0) - (a - 1.0) * cos_w0 - 2.0 * sqrt_a * alpha),
            (a + 1.0) + (a - 1.0) * cos_w0 + 2.0 * sqrt_a * alpha,
            -2.0 * ((a - 1.0) + (a + 1.0) * cos_w0),
            (a + 1.0) + (a - 1.0) * cos_w0 - 2.0 * sqrt_a * alpha,
        ],
        BiquadFilterType::Highshelf => [
            a * ((a + 1.0) + (a - 1.0) * cos_w0 + 2.0 * sqrt_a * alpha),
            -2.0 * a * ((a - 1.0) + (a + 1.0) * cos_w0),
            a * ((a + 1.0) + (a - 1.0) * cos_w0 - 2.0 * sqrt_a * alpha),
            (a + 1.0) - (a - 1.0) * cos_w0 + 2.0 * sqrt_a * alpha,
            2.0 * ((a - 1.0) - (a + 1.0) * cos_w0),
            (a + 1.0) - (a - 1.0) * cos_w0 - 2.0 * sqrt_a * alpha,
        ],
        BiquadFilterType::Peaking => [
            1.0 + alpha * a,
            -2.0 * cos_w0,
            1.0 - alpha * a,
            1.0 + alpha / a,
            -2.0 * cos_w0,
            1.0 - alpha / a,
        ],
    }
}

fn filter_coeffs(f: &BiquadFilter) -> [f64; 6] {
    [val(f.b0), val(f.b1), val(f.b2), val(f.a0), val(f.a1), val(f.a2)]
}

fn assert_close(got: f64, want: f64, rel: f64, what: &str) {
    let scale = want.abs().max(1e-30);
    let err = (got - want).abs() / scale;
    assert!(
        err <= rel,
        "{}: got {}, want {}, relative error {}",
        what,
        got,
        want,
        err
    );
}

#[test]
fn coefficients_match_cookbook_formulas_all_types() {
    for ft in ALL_TYPES {
        let f = BiquadFilter::new(config(ft, 1000.0, 0.707, 0.0), bits(44100.0));
        let got = filter_coeffs(&f);
        let want = reference_coeffs(ft, 1000.0, 0.707, 0.0, 44100.0);
        for k in 0..6 {
            assert_close(got[k], want[k], 1e-9, &format!("{:?} coefficient {}", ft, k));
        }
    }
}

#[test]
fn shelf_and_peaking_coefficients_with_nonzero_gain() {
    for ft in [
        BiquadFilterType::Lowshelf,
        BiquadFilterType::Highshelf,
        BiquadFilterType::Peaking,
    ] {
        for gain in [6.0, -9.5, 12.0] {
            let f = BiquadFilter::new(config(ft, 2500.0, 1.1, gain), bits(48000.0));
            let got = filter_coeffs(&f);
            let want = reference_coeffs(ft, 2500.0, 1.1, gain, 48000.0);
            for k in 0..6 {
                assert_close(
                    got[k],
                    want[k],
                    1e-9,
                    &format!("{:?} gain {} coefficient {}", ft, gain, k),
                );
            }
        }
    }
}

#[test]
fn zero_input_first_output_is_zero() {
    for ft in ALL_TYPES {
        let mut f = BiquadFilter::new(config(ft, 1000.0, 0.707, 3.0), bits(44100.0));
        let y = val(f.process(bits(0.0)));
        assert_eq!(y, 0.0, "{:?}: first output for zero input", ft);
    }
}

#[test]
fn process_matches_direct_form_one_bit_for_bit() {
    let mut f = BiquadFilter::new(
        config(BiquadFilterType::Lowpass, 1000.0, 0.707, 0.0),
        bits(44100.0),
    );
    let [b0, b1, b2, a0, a1, a2] = filter_coeffs(&f);
    let (mut x1, mut x2, mut y1, mut y2) = (0.0_f64, 0.0_f64, 0.0_f64, 0.0_f64);
    for x in [1.0, 0.5, -0.25, 0.125, 3.5, -2.75] {
        let got = f.process(bits(x));
        let out = b0 * x + b1 * x1 + b2 * x2 - a1 * y1 - a2 * y2;
        x2 = x1;
        x1 = x;
        y2 = y1;
        y1 = out;
        assert_eq!(got, bits(out / a0), "output for input {}", x);
    }
    assert_eq!(f.x1, bits(x1));
    assert_eq!(f.x2, bits(x2));
    assert_eq!(f.y1, bits(y1));
    assert_eq!(f.y2, bits(y2));
}

#[test]
fn process_buffer_equals_repeated_process() {
    let c = config(BiquadFilterType::Peaking, 800.0, 2.0, 4.5);
    let mut whole = BiquadFilter::new(c, bits(44100.0));
    let mut single = BiquadFilter::new(c, bits(44100.0));
    let samples = [0.1, -0.7, 1.3, 0.0, 2.5, -1.1];
    let out = whole.process_buffer(samples.iter().map(|x| bits(*x)).collect());
    assert_eq!(out.len(), samples.len());
    for (k, x) in samples.iter().enumerate() {
        assert_eq!(out[k], single.process(bits(*x)), "sample {}", k);
    }
    assert_eq!(whole.x1, single.x1);
    assert_eq!(whole.y1, single.y1);
}

#[test]
fn update_config_recomputes_coefficients_and_keeps_history() {
    let mut f = BiquadFilter::new(
        config(BiquadFilterType::Lowpass, 1000.0, 0.707, 0.0),
        bits(44100.0),
    );
    f.process(bits(1.0));
    f.process(bits(-0.5));
    let history = (f.x1, f.x2, f.y1, f.y2);
    let new_config = config(BiquadFilterType::Highpass, 3000.0, 0.9, 0.0);
    f.update_config(new_config);
    let fresh = BiquadFilter::new(new_config, bits(44100.0));
    assert_eq!(filter_coeffs(&f).map(f64::to_bits), filter_coeffs(&fresh).map(f64::to_bits));
    assert_eq!((f.x1, f.x2, f.y1, f.y2), history, "history must survive a retune");
    assert_eq!((fresh.x1, fresh.x2, fresh.y1, fresh.y2), (0, 0, 0, 0));
}

#[test]
fn reset_is_idempotent_and_matches_fresh_filter() {
    let c = config(BiquadFilterType::Bandpass, 1200.0, 1.4, 0.0);
    let mut f = BiquadFilter::new(c, bits(44100.0));
    f.process(bits(0.9));
    f.process(bits(-1.8));
    f.reset();
    let once = f.clone();
    f.reset();
    assert_eq!((f.x1, f.x2, f.y1, f.y2), (once.x1, once.x2, once.y1, once.y2));
    assert_eq!(filter_coeffs(&f).map(f64::to_bits), filter_coeffs(&once).map(f64::to_bits));
    let mut fresh = BiquadFilter::new(c, bits(44100.0));
    assert_eq!(f.process(bits(0.6)), fresh.process(bits(0.6)));
}

#[test]
fn lowpass_impulse_response_is_single_signed_and_exact() {
    let mut f = BiquadFilter::new(
        config(BiquadFilterType::Lowpass, 1000.0, 0.707, 0.0),
        bits(44100.0),
    );
    let [b0, b1, b2, a0, a1, a2] = filter_coeffs(&f);
    let mut impulse = vec![bits(1.0)];
    impulse.extend(std::iter::repeat(bits(0.0)).take(19));
    let out = f.process_buffer(impulse);
    // The response never changes sign: an all-positive, non-oscillatory tail.
    for (k, y) in out.iter().enumerate() {
        assert!(val(*y) > 0.0, "sample {} is {}", k, val(*y));
    }
    // And it is exactly the Direct Form I recurrence on the coefficients.
    let (mut x1, mut x2, mut y1, mut y2) = (0.0_f64, 0.0_f64, 0.0_f64, 0.0_f64);
    for (k, y) in out.iter().enumerate() {
        let x = if k == 0 { 1.0 } else { 0.0 };
        let raw = b0 * x + b1 * x1 + b2 * x2 - a1 * y1 - a2 * y2;
        x2 = x1;
        x1 = x;
        y2 = y1;
        y1 = raw;
        assert_eq!(*y, bits(raw / a0), "sample {}", k);
    }
}

#[test]
fn shelf_zero_gain_collapses_to_flat_formulas() {
    // With a gain of zero decibels the shelf amplitude is one, and the
    // numerator formulas collapse onto the denominator ones exactly; the
    // first sample out of a fresh filter then equals the sample in.
    for ft in [BiquadFilterType::Lowshelf, BiquadFilterType::Highshelf] {
        let mut f = BiquadFilter::new(config(ft, 1000.0, 0.707, 0.0), bits(44100.0));
        assert_eq!(f.b0, f.a0, "{:?}", ft);
        assert_eq!(f.b1, f.a1, "{:?}", ft);
        assert_eq!(f.b2, f.a2, "{:?}", ft);
        assert_eq!(f.process(bits(0.5)), bits(0.5), "{:?}", ft);
    }
}

#[test]
fn coefficients_differ_between_types() {
    let lp = BiquadFilter::new(
        config(BiquadFilterType::Lowpass, 1000.0, 0.707, 0.0),
        bits(44100.0),
    );
    let hp = BiquadFilter::new(
        config(BiquadFilterType::Highpass, 1000.0, 0.707, 0.0),
        bits(44100.0),
    );
    assert_ne!(lp.b0, hp.b0);
    assert_eq!(lp.a0, hp.a0);
}

#[test]
fn coefficients_stay_accurate_near_nyquist() {
    // A corner frequency high in the band exercises the series evaluations
    // at the largest arguments they see for a physically valid filter.
    for ft in ALL_TYPES {
        let f = BiquadFilter::new(config(ft, 19000.0, 0.8, 4.0), bits(44100.0));
        let got = filter_coeffs(&f);
        let want = reference_coeffs(ft, 19000.0, 0.8, 4.0, 44100.0);
        for k in 0..6 {
            assert_close(got[k], want[k], 1e-9, &format!("{:?} coefficient {}", ft, k));
        }
    }
}
