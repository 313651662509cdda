//! The sliding transform and its frame reducer.

use dsp_lab::dft::{inverse_dft, SlidingDft};
use dsp_lab::math::FX_ONE;

const Q: f64 = 4294967296.0;

fn to_fx(x: f64) -> i64 {
    (x * Q).round() as i64
}

fn from_fx(v: i64) -> f64 {
    v as f64 / Q
}

#[test]
fn inverse_dft_even_minus_odd() {
    // Bins at even indices are summed, bins at odd indices subtracted, and
    // the real part is divided by the frame length.
    let frame = vec![(8i64, 100i64), (4i64, 7i64)];
    assert_eq!(inverse_dft(&frame), 2);
    let frame = vec![(10i64, 0i64), (2i64, 0i64), (4i64, 0i64), (0i64, 0i64)];
    assert_eq!(inverse_dft(&frame), 3);
}

#[test]
fn inverse_dft_division_floors() {
    let frame = vec![(-3i64, 0i64)];
    assert_eq!(inverse_dft(&frame), -3);
    let frame = vec![(-3i64, 0i64), (0i64, 0i64)];
    assert_eq!(inverse_dft(&frame), -2);
}

#[test]
fn sliding_dft_identity_rotors_accumulate() {
    // With every phasor at the complex unit, a step adds the difference
    // sample to every bin and rotates by one, i.e. leaves the sum.
    let mut dft = SlidingDft::new();
    dft.set_size(2);
    dft.step(FX_ONE);
    let frame = dft.frame_ref();
    assert_eq!(frame.len(), 2);
    assert_eq!(frame[0], (FX_ONE, 0));
    assert_eq!(frame[1], (FX_ONE, 0));
    dft.step(2 * FX_ONE);
    let frame = dft.frame_ref();
    assert_eq!(frame[0], (3 * FX_ONE, 0));
    assert_eq!(frame[1], (3 * FX_ONE, 0));
}

fn dft_rotors(n: usize) -> Vec<(i64, i64)> {
    let mut rotors = Vec::new();
    for k in 0..n {
        let th = std::f64::consts::TAU * k as f64 / n as f64;
        rotors.push((to_fx(th.cos()), to_fx(th.sin())));
    }
    rotors
}

#[test]
fn sliding_round_trip_tracks_sinusoid() {
    // Feeding a sinusoid aligned to one bin and reducing every frame with
    // the inverse yields the sinusoid again, delayed by N/2 - 1 samples,
    // with error below 1e-5 over a short run.
    const N: usize = 16;
    const F0: usize = 2;
    let mut dft = SlidingDft::new();
    dft.set_size(N);
    dft.load_rotors(dft_rotors(N));
    let xs: Vec<f64> = (0..4 * N)
        .map(|t| 0.5 * (std::f64::consts::TAU * (F0 * t) as f64 / N as f64).cos())
        .collect();
    let mut out: Vec<f64> = Vec::new();
    for &x in &xs {
        dft.step(to_fx(x));
        out.push(from_fx(inverse_dft(dft.frame_ref())));
    }
    let delay = N / 2 - 1;
    for t in N..4 * N {
        let err = (out[t] - xs[t - delay]).abs();
        assert!(err < 1e-5, "t = {} err = {}", t, err);
    }
}

#[test]
fn sliding_reconfiguration_resets_analysis() {
    let mut dft = SlidingDft::new();
    assert_eq!(dft.size(), 256);
    dft.step(FX_ONE);
    dft.set_size(8);
    assert_eq!(dft.size(), 8);
    let frame = dft.frame_ref();
    assert_eq!(frame.len(), 8);
    for k in 0..8 {
        assert_eq!(frame[k], (0, 0));
    }
}
