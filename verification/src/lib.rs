//! A streaming spectral engine on fixed-point samples: a power-of-two circular
//! sample buffer, a recursive sliding discrete transform, and a block-based
//! overlap-add transform engine with configurable windows and overlap policies.
//!
//! Samples are `i64` values in Q32 fixed point: the real number `x` is stored
//! as `round(x * 2^32)`. All arithmetic on samples saturates at the `i64`
//! range, and every operation's result is pinned down exactly by its contract.
//! The trigonometric tables that the transforms rotate by (and the forward /
//! inverse transform primitive of the block engine) are supplied by the caller
//! as plain fixed-point values, so the engine itself is free of floating point.

pub mod chaos;
pub mod dft;
pub mod math;
pub mod ola;
pub mod ring;
pub mod shared_enums;
pub mod traits;
