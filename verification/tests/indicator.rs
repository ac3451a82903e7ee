//! End-to-end tests that drive the verified core with the indicator's
//! binary64 arithmetic: the two-pole filter recursion, the windowed
//! difference sum and the adaptive mean-square normalization.

use trend_flex::transform::Echo;
use trend_flex::trend_flex::TrendFlex;

/// Feeds one binary64 sample through the indicator, performing the step's
/// arithmetic on the operands the core reports.
fn drive(tf: &mut TrendFlex<Echo>, raw: f64) {
    let ops = tf.begin_update(raw.to_bits());
    let w = tf.window_len as f64;
    let a1 = (-8.88442402435 / w).exp();
    let b1 = 2.0 * a1 * (4.44221201218 / w).cos();
    let c3 = -a1 * a1;
    let c1 = 1.0 - b1 - c3;
    let cur = f64::from_bits(ops.val);
    let prev = f64::from_bits(ops.prev);
    let mut filt = c1 * (cur + prev) / 2.0;
    if let Some(f1) = ops.filt1 {
        filt += b1 * f64::from_bits(f1);
    }
    if let Some(f2) = ops.filt2 {
        filt += c3 * f64::from_bits(f2);
    }
    let mut d_sum = 0.0;
    d_sum += filt - filt; // the just-computed value's own (zero) difference
    for i in (0..tf.q_filts.len()).rev() {
        d_sum += filt - f64::from_bits(tf.q_filts[i]);
    }
    d_sum /= w;
    let ms0 = 0.04 * d_sum.powi(2) + 0.96 * f64::from_bits(tf.last_m);
    let norm = d_sum / ms0.sqrt();
    tf.finish_update(filt.to_bits(), ms0.to_bits(), norm.to_bits());
}

fn last_value(tf: &TrendFlex<Echo>) -> f64 {
    f64::from_bits(tf.last())
}

/// A fixed pseudo-random sample sequence, identical on every run.
fn samples(n: usize) -> Vec<f64> {
    let mut state: u64 = 0x2545F4914F6CDD1D;
    let mut out = Vec::new();
    for _ in 0..n {
        state = state.wrapping_mul(6364136223846793005).wrapping_add(1442695040888963407);
        out.push(100.0 + ((state >> 33) % 1000) as f64 / 50.0);
    }
    out
}

#[test]
fn warmup_outputs_are_zero() {
    let mut tf = TrendFlex::new_final(16);
    for &v in samples(15).iter() {
        drive(&mut tf, v);
        assert_eq!(tf.last(), 0, "warm-up output must be exactly +0.0");
    }
}

#[test]
fn scenario_window_two() {
    let mut tf = TrendFlex::new_final(2);

    drive(&mut tf, 1.0);
    // One stored entry is fewer than the window of two: warm-up.
    assert_eq!(last_value(&tf), 0.0);
    assert_eq!(tf.q_filts.len(), 1);

    drive(&mut tf, 2.0);
    // Derived from the formulas with window_len = 2:
    //   a1 = exp(-4.44221201218), b1 = 2 a1 cos(2.22110600609), c3 = -a1^2,
    //   c1 = 1 - b1 - c3, f1 = c1 (1+1)/2, f2 = c1 (2+1)/2 + b1 f1,
    //   d = ((f2-f2) + (f2-f1))/2, ms0 = 0.04 d^2, out = d / sqrt(ms0),
    // so out = d / (0.2 |d|) = 5 up to rounding.
    let a1 = (-8.88442402435f64 / 2.0).exp();
    let b1 = 2.0 * a1 * (4.44221201218f64 / 2.0).cos();
    let c3 = -a1 * a1;
    let c1 = 1.0 - b1 - c3;
    let f1 = c1 * (1.0 + 1.0) / 2.0;
    let f2 = c1 * (2.0 + 1.0) / 2.0 + b1 * f1;
    let d2 = ((f2 - f2) + (f2 - f1)) / 2.0;
    let ms2 = 0.04 * d2.powi(2) + 0.96 * 0.0;
    let expect2 = d2 / ms2.sqrt();
    assert!((last_value(&tf) - expect2).abs() < 1e-9);
    assert!((last_value(&tf) - 5.0).abs() < 1e-9);

    drive(&mut tf, 3.0);
    let f3 = c1 * (3.0 + 2.0) / 2.0 + b1 * f2 + c3 * f1;
    let d3 = (((f3 - f3) + (f3 - f2)) + (f3 - f1)) / 2.0;
    let ms3 = 0.04 * d3.powi(2) + 0.96 * ms2;
    let expect3 = d3 / ms3.sqrt();
    assert!((last_value(&tf) - expect3).abs() < 1e-9);
}

#[test]
fn repeated_runs_are_bit_identical() {
    let inputs = samples(40);
    let mut a = TrendFlex::new_final(7);
    let mut b = TrendFlex::new_final(7);
    for &v in inputs.iter() {
        drive(&mut a, v);
        drive(&mut b, v);
        assert_eq!(a.last(), b.last(), "outputs must agree bit for bit");
    }
}

#[test]
fn explicit_identity_matches_default_constructor() {
    let inputs = samples(30);
    let mut explicit = TrendFlex::new(Echo::new(), 5);
    let mut default = TrendFlex::new_final(5);
    for &v in inputs.iter() {
        drive(&mut explicit, v);
        drive(&mut default, v);
        assert_eq!(explicit.last(), default.last());
    }
}

#[test]
fn constant_stream_settles_to_zero() {
    let mut tf = TrendFlex::new_final(3);
    for i in 0..20000 {
        drive(&mut tf, 7.0);
        let out = last_value(&tf);
        assert!(!out.is_nan(), "output must never be NaN (step {i})");
        if i >= 1000 {
            assert_eq!(out, 0.0, "output must settle to zero (step {i})");
        }
    }
}

#[test]
fn history_never_exceeds_window_plus_one() {
    let mut tf = TrendFlex::new_final(4);
    for (k, &v) in samples(50).iter().enumerate() {
        drive(&mut tf, v);
        assert!(tf.q_filts.len() <= 5);
        assert_eq!(tf.q_filts.len(), (k + 1).min(5));
    }
}

#[test]
fn last_is_a_pure_query() {
    let mut tf = TrendFlex::new_final(2);
    for &v in samples(10).iter() {
        drive(&mut tf, v);
        let first = tf.last();
        assert_eq!(tf.last(), first);
        assert_eq!(tf.last(), first);
    }
}

#[test]
fn window_of_one_normalizes_from_second_sample() {
    let mut tf = TrendFlex::new_final(1);
    drive(&mut tf, 1.0);
    // No warm-up with a window of one, but the very first mean-square
    // estimate is zero, so the degenerate-variance guard still fires.
    assert_eq!(last_value(&tf), 0.0);
    drive(&mut tf, 3.0);
    assert!((last_value(&tf) - 5.0).abs() < 1e-9);
}

#[test]
fn long_run_stays_finite() {
    let mut tf = TrendFlex::new_final(16);
    for (k, &v) in samples(512).iter().enumerate() {
        drive(&mut tf, v);
        let out = last_value(&tf);
        assert!(!out.is_nan());
        assert!(out.is_finite());
        if k < 15 {
            assert_eq!(out, 0.0);
        }
        assert!(tf.q_filts.len() <= 17);
    }
}
