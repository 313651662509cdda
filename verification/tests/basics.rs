//! Sample arithmetic, ring buffers and the random core.

use dsp_lab::chaos::{NoiseWhite, RandomCore};
use dsp_lab::math::{c_add, c_mul, c_sub, fx_add, fx_mul, fx_sub, FX_ONE};
use dsp_lab::ring::{RawRingBuffer, SafeRawRingBuffer};
use dsp_lab::traits::{EmptyProcess, EmptySource, Process, Source};

#[test]
fn fx_ops_exact_values() {
    let q = FX_ONE;
    assert_eq!(fx_add(3 * q, 4 * q), 7 * q);
    assert_eq!(fx_sub(3 * q, 4 * q), -q);
    assert_eq!(fx_mul(3 * q, 2 * q), 6 * q);
    assert_eq!(fx_mul(q / 2, q / 2), q / 4);
    assert_eq!(fx_mul(-2 * q, 3 * q), -6 * q);
}

#[test]
fn fx_ops_saturate() {
    assert_eq!(fx_add(i64::MAX, 1), i64::MAX);
    assert_eq!(fx_add(i64::MIN, -1), i64::MIN);
    assert_eq!(fx_sub(i64::MIN, 1), i64::MIN);
    assert_eq!(fx_mul(i64::MAX, i64::MAX), i64::MAX);
    assert_eq!(fx_mul(i64::MAX, i64::MIN), i64::MIN);
}

#[test]
fn fx_mul_floors_toward_minus_infinity() {
    // -1 * 1 in raw units is -1/2^32, whose floor is -1, not 0.
    assert_eq!(fx_mul(-1, 1), -1);
    assert_eq!(fx_mul(1, 1), 0);
}

#[test]
fn complex_ops_exact_values() {
    let q = FX_ONE;
    assert_eq!(c_add((q, 2 * q), (3 * q, -q)), (4 * q, q));
    assert_eq!(c_sub((q, 2 * q), (3 * q, -q)), (-2 * q, 3 * q));
    // (1 + 2i) * (3 - i) = 5 + 5i
    assert_eq!(c_mul((q, 2 * q), (3 * q, -q)), (5 * q, 5 * q));
    // multiplying by i rotates: (0 + i) * (0 + i) = -1
    assert_eq!(c_mul((0, q), (0, q)), (-q, 0));
}

#[test]
fn ring_buffer_recent_history() {
    let mut buf = RawRingBuffer::<4>::new();
    buf.push(1);
    buf.push(2);
    buf.push(3);
    buf.push(4);
    buf.push(5);
    assert_eq!(buf.get(0), 5);
    assert_eq!(buf.get(1), 4);
    assert_eq!(buf.get(2), 3);
    assert_eq!(buf.get(3), 2);
}

#[test]
fn ring_buffer_addressing_after_wrap() {
    // Pushing C + k distinct values: age 0 is the last value pushed and age
    // C - 1 the oldest still resident, for several k.
    const C: usize = 8;
    let mut buf = RawRingBuffer::<C>::new();
    let mut pushed: Vec<i64> = Vec::new();
    for v in 0..(C as i64 + 21) {
        buf.push(100 + v);
        pushed.push(100 + v);
        if pushed.len() >= C {
            assert_eq!(buf.get(0), *pushed.last().unwrap());
            assert_eq!(buf.get(C - 1), pushed[pushed.len() - C]);
        }
    }
}

#[test]
fn safe_ring_buffer_rejects_bad_capacities() {
    assert!(SafeRawRingBuffer::<0>::new().is_none());
    assert!(SafeRawRingBuffer::<5>::new().is_none());
    assert!(SafeRawRingBuffer::<6>::new().is_none());
    assert!(SafeRawRingBuffer::<4>::new().is_some());
    assert!(SafeRawRingBuffer::<8>::new().is_some());
    assert!(SafeRawRingBuffer::<16>::new().is_some());
}

#[test]
fn safe_ring_buffer_checked_lookup() {
    let mut buf = SafeRawRingBuffer::<4>::new().unwrap();
    buf.push(1);
    buf.push(2);
    buf.push(3);
    buf.push(4);
    buf.push(5);
    assert_eq!(buf.get(0), Some(5));
    assert_eq!(buf.get(1), Some(4));
    assert_eq!(buf.get(2), Some(3));
    assert_eq!(buf.get(3), Some(2));
    assert_eq!(buf.get(4), None);
}

#[test]
fn random_core_known_values() {
    let mut rng = RandomCore::new();
    assert_eq!(rng.next(), 18398323793);
    let mut rng2 = RandomCore::new();
    rng2.reseed(11);
    assert_eq!(rng2.next(), xorshift_model(12987237132));
}

#[test]
fn random_core_seeds_differ() {
    let mut rng1 = RandomCore::new();
    let mut rng2 = RandomCore::new();
    rng1.reseed(11);
    rng2.reseed(17);
    assert!(rng1.next() != rng2.next());
}

fn xorshift_model(mut s: u64) -> u64 {
    s ^= s << 13;
    s ^= s >> 7;
    s ^= s << 17;
    s
}

#[test]
fn noise_white_uniform_on_unit_interval() {
    let mut nse = NoiseWhite::new(1);
    assert_eq!(nse.next_bits(), 4603804788898070533);
    let mut acc: f64 = 0.0;
    for _ in 0..10000 {
        let sample = f64::from_bits(nse.next_bits()) * 2.0 - 1.0;
        assert!(sample >= 0.0 && sample < 1.0);
        acc += sample;
    }
    acc /= 10000.0;
    assert!(acc > 0.45 && acc < 0.55);
}

#[test]
fn empty_process_and_source() {
    let mut p = EmptyProcess {};
    assert_eq!(p.step(41i64), 41);
    let mut s = EmptySource {};
    assert_eq!(s.step(), FX_ONE);
}
