//! Closed enumerations shared by the processing modules: interpolation and
//! mixing selectors, and the window / overlap configuration of the transform
//! engines.

use vstd::prelude::*;

verus! {

/// Used to select sample interpolation method.
///
/// - `Truncate`: no interpolation, fastest
/// - `NearestNeighbor`: select the closest index to the specified time, fast
/// - `Linear`: you need at least this to remove artifacts when modulating time
/// - `Quadratic`: less distortion than linear, slowest
#[derive(Clone, Copy, Debug, PartialEq, Eq, Structural)]
pub enum InterpMethod {
    Truncate,
    NearestNeighbor,
    Linear,
    Quadratic,
}

/// Used to select how volume is scaled when mixing samples.
///
/// - `Off`: no volume scaling, total volume will be much higher than individual
///   inputs
/// - `Perceptual`: maintains the perceived (RMS) volume roughly constant
/// - `Unity`: maintains the total peak volume roughly constant
#[derive(Clone, Copy, Debug, PartialEq, Eq, Structural)]
pub enum ScaleMethod {
    Off,
    Perceptual,
    Unity,
}

/// Used to select sample polarization.
///
/// - `Unity`: no polarization (total polarization is +1)
/// - `Zero`: total polarization is zero (phase cancellation)
/// - `NegativeUnity`: total polarization is -1
#[derive(Clone, Copy, Debug, PartialEq, Eq, Structural)]
pub enum Polarization {
    Unity,
    Zero,
    NegativeUnity,
}

/// Used in the transform engines to select the windowing function applied to
/// a block of input samples before analysis.
#[derive(Clone, Copy, Debug, PartialEq, Eq, Structural)]
pub enum WindowMode {
    Box,
    Triangular,
    Welch,
    Hann,
    BlackmanHarris,
    Nuttal,
    Kaiser,
    FlatTop,
}

/// Used in the block transform engine to determine the overlap ratio between
/// consecutive analysis blocks. Different amounts of overlap trade performance
/// against reconstruction and analysis quality.
///
/// - `Off`: disables overlapping entirely; the hop equals the block size
/// - `Eco`: like `Default`, but caps the overlap at 50% so at most two
///   buffers run in parallel
/// - `Default`: compromise between flat amplitude and computational cost
/// - `FlatAmplitude`: prioritizes a flat amplitude response of the
///   reconstruction
/// - `FlatPower`: prioritizes a flat power spectrum in the analysis
#[derive(Clone, Copy, Debug, PartialEq, Eq, Structural)]
pub enum OverlapPolicy {
    Off,
    Eco,
    Default,
    FlatAmplitude,
    FlatPower,
}

} // verus!
