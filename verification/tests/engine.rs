//! The block overlap-add engine: hop table, striping, reconfiguration and
//! reconstruction.

use dsp_lab::math::FX_ONE;
use dsp_lab::ola::FftCore;
use dsp_lab::shared_enums::{OverlapPolicy, WindowMode};
use num::complex::Complex;
use rustfft::FftPlanner;

#[test]
fn hop_table_documented_values() {
    let mut core = FftCore::new();
    core.set_size(256);
    assert_eq!(core.hop(), 256); // Off policy: hop is the whole block

    core.set_overlap_policy(OverlapPolicy::Default);
    core.set_win_type(WindowMode::Hann);
    assert_eq!(core.hop(), 128); // ratio 0.5

    core.set_win_type(WindowMode::BlackmanHarris);
    assert_eq!(core.hop(), 256 - 169); // floor(0.661 * 256) = 169

    core.set_win_type(WindowMode::Welch);
    core.set_overlap_policy(OverlapPolicy::Eco);
    assert_eq!(core.hop(), 256 - 75); // floor(0.293 * 256) = 75

    core.set_win_type(WindowMode::Triangular);
    core.set_overlap_policy(OverlapPolicy::FlatPower);
    assert_eq!(core.hop(), 256 - 213); // floor(0.8325 * 256) = 213

    core.set_win_type(WindowMode::FlatTop);
    core.set_overlap_policy(OverlapPolicy::FlatAmplitude);
    assert_eq!(core.hop(), 256 - 170); // floor(0.6667 * 256) = 170

    core.set_win_type(WindowMode::Kaiser);
    core.set_overlap_policy(OverlapPolicy::FlatPower);
    assert_eq!(core.hop(), 256 - 202); // floor(0.79 * 256) = 202

    core.set_win_type(WindowMode::Box);
    assert_eq!(core.hop(), 256); // boxcar never overlaps
}

#[test]
fn overlap_count_follows_hop() {
    let mut core = FftCore::new();
    core.set_size(256);
    assert_eq!(core.parallel_bufs(), 1);
    core.set_overlap_policy(OverlapPolicy::Default);
    core.set_win_type(WindowMode::Hann);
    assert_eq!(core.parallel_bufs(), 2); // 256 / 128
    core.set_win_type(WindowMode::BlackmanHarris);
    assert_eq!(core.parallel_bufs(), 3); // ceil(256 / 87)
    core.set_win_type(WindowMode::Triangular);
    core.set_overlap_policy(OverlapPolicy::FlatPower);
    assert_eq!(core.parallel_bufs(), 6); // ceil(256 / 43) capped at 6
}

#[test]
fn block_engine_emits_every_block() {
    // N = 4, policy Off (hop = N), rectangular window: one ready frame per
    // four samples, holding exactly those four samples.
    let mut core = FftCore::new();
    core.set_size(4);
    let mut frames: Vec<Vec<i64>> = Vec::new();
    for t in 0..12i64 {
        core.step(t * FX_ONE);
        if core.is_updated() {
            frames.push(core.take_frame().clone());
        }
    }
    assert_eq!(frames.len(), 3);
    assert_eq!(frames[0], vec![0, FX_ONE, 2 * FX_ONE, 3 * FX_ONE]);
    assert_eq!(frames[1], vec![4 * FX_ONE, 5 * FX_ONE, 6 * FX_ONE, 7 * FX_ONE]);
    assert_eq!(frames[2], vec![8 * FX_ONE, 9 * FX_ONE, 10 * FX_ONE, 11 * FX_ONE]);
}

#[test]
fn block_engine_impulse_spectrum() {
    // Feeding 1, 0, 0, 0, ... with N = 4, no overlap and the rectangular
    // window: each emitted frame starts with the impulse, and its forward
    // transform (by any correct length-4 transform) is [1, 1, 1, 1].
    let mut core = FftCore::new();
    core.set_size(4);
    let mut planner = FftPlanner::<f64>::new();
    let fft = planner.plan_fft_forward(4);
    let mut seen = 0;
    for t in 0..16usize {
        core.step(if t % 4 == 0 { FX_ONE } else { 0 });
        if core.is_updated() {
            seen += 1;
            let frame = core.take_frame();
            let mut buf: Vec<Complex<f64>> = frame
                .iter()
                .map(|&v| Complex::new(v as f64 / 4294967296.0, 0.0))
                .collect();
            fft.process(&mut buf);
            for bin in &buf {
                assert!((bin.re - 1.0).abs() < 1e-9);
                assert!(bin.im.abs() < 1e-9);
            }
        }
    }
    assert_eq!(seen, 4);
}

#[test]
fn overlapping_blocks_share_samples() {
    // N = 8 with a 50% overlap: a frame appears every 4 samples once the
    // first block is full, and consecutive frames overlap by 4 samples.
    let mut core = FftCore::new();
    core.set_size(8);
    core.set_overlap_policy(OverlapPolicy::Default);
    core.set_win_type(WindowMode::Hann);
    assert_eq!(core.hop(), 4);
    let mut frames: Vec<(usize, Vec<i64>)> = Vec::new();
    for t in 0..17i64 {
        core.step(t);
        if core.is_updated() {
            frames.push((t as usize, core.take_frame().clone()));
        }
    }
    let expect: Vec<(usize, Vec<i64>)> = vec![
        (7, vec![0, 1, 2, 3, 4, 5, 6, 7]),
        (11, vec![4, 5, 6, 7, 8, 9, 10, 11]),
        (15, vec![8, 9, 10, 11, 12, 13, 14, 15]),
    ];
    assert_eq!(frames, expect);
}

#[test]
fn reconfiguration_discards_blocks_in_flight() {
    // Changing the block size mid-stream leaves no cursor beyond the new
    // block length, and the next frame is assembled entirely under the new
    // configuration.
    let mut core = FftCore::new();
    core.set_size(8);
    for t in 0..6i64 {
        core.step(100 + t);
    }
    core.set_size(4);
    assert!(!core.is_updated());
    let mut frames: Vec<Vec<i64>> = Vec::new();
    for t in 0..8i64 {
        core.step(200 + t);
        if core.is_updated() {
            frames.push(core.take_frame().clone());
        }
    }
    assert_eq!(frames.len(), 2);
    assert_eq!(frames[0], vec![200, 201, 202, 203]);
    assert_eq!(frames[1], vec![204, 205, 206, 207]);
}

#[test]
fn window_table_is_applied_to_blocks() {
    let mut core = FftCore::new();
    core.set_size(4);
    core.load_window(vec![FX_ONE, FX_ONE / 2, FX_ONE / 4, 0]);
    for _ in 0..4 {
        core.step(8 * FX_ONE);
    }
    assert!(core.is_updated());
    assert_eq!(
        core.take_frame().clone(),
        vec![8 * FX_ONE, 4 * FX_ONE, 2 * FX_ONE, 0]
    );
}

#[test]
fn overlap_add_accumulates_and_streams() {
    let mut core = FftCore::new();
    core.set_size(4);
    core.overlap_add(&vec![1, 2, 3, 4]);
    core.overlap_add(&vec![10, 20, 30, 40]);
    assert_eq!(core.out_stream(), 11);
    assert_eq!(core.out_stream(), 22);
    // A block handed back now lands at the new cursor position.
    core.overlap_add(&vec![100, 200, 300, 400]);
    assert_eq!(core.out_stream(), 33 + 100);
    assert_eq!(core.out_stream(), 44 + 200);
    assert_eq!(core.out_stream(), 300);
    assert_eq!(core.out_stream(), 400);
    // Slots are cleared as they are played back.
    assert_eq!(core.out_stream(), 0);
}
