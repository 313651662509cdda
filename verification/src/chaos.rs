//! Random generators: the integer core of the library's chaotic sources.
//!
//! `RandomCore` is a 64-bit xorshift generator; every other random process is
//! built on it. `NoiseWhite` turns its output into uniform white noise: it
//! assembles the bit pattern of a float in `[1, 2)` from the upper bits of
//! the generator state, which the caller turns into a sample.

use vstd::prelude::*;

verus! {

/// One xorshift update of the 64-bit generator state.
pub open spec fn xorshift_s(s: u64) -> u64 {
    let a = s ^ (s << 13);
    let b = a ^ (a >> 7);
    b ^ (b << 17)
}

/// The generator state after `n` updates of `s`.
pub open spec fn xorshift_iter(s: u64, n: nat) -> u64
    decreases n,
{
    if n == 0 {
        s
    } else {
        xorshift_s(xorshift_iter(s, (n - 1) as nat))
    }
}

/// The state that reseeding with `seed` leaves behind: the low nibble plus
/// one is the starting state, and the high nibble plus one gives how many
/// updates mangle it.
pub open spec fn reseeded(seed: u8) -> u64 {
    xorshift_iter(((seed & 0x0f) + 1) as u64, ((seed >> 4) + 1) as nat)
}

/// The bit pattern `NoiseWhite` assembles from one generator update: the
/// upper bits of the state, masked into the mantissa of a float in `[1, 2)`.
pub open spec fn noise_bits_s(s: u64) -> u64 {
    ((xorshift_s(s) >> 11) & 0x000f_ffff_ffff_ffff) | 0x3fe0_0000_0000_0000
}

/// Generate random `u64` values; this is used to implement all other chaotic
/// processes. The algorithm provides bad quality in the lowest bit, so
/// either use the upper 32 bits, or cast to float.
pub struct RandomCore {
    state: u64,
}

impl RandomCore {
    /// The generator state.
    pub closed spec fn state_spec(&self) -> u64 {
        self.state
    }

    /// Creates a generator with a small fixed nonzero state.
    pub fn new() -> (r: Self)
        ensures
            r.state_spec() == 17u64,
    {
        Self { state: 17 }
    }

    /// Reseeds from a byte: very lightweight and low quality, but good
    /// enough for audio, and cheap enough to initialize many instances.
    pub fn reseed(&mut self, seed: u8)
        ensures
            final(self).state_spec() == reseeded(seed),
    {
        proof {
            assert((seed & 0xf0) >> 4 == seed >> 4 && (seed & 0xf0) >> 4 < 16
                && seed & 0x0f < 16) by (bit_vector);
        }
        let start_state = seed & 0x0f;
        let skips = ((seed & 0xf0) >> 4) + 1;
        self.state = start_state as u64 + 1;
        let mut n: u8 = 0;
        while n < skips
            invariant
                n <= skips,
                self.state == xorshift_iter(((seed & 0x0f) + 1) as u64, n as nat),
            decreases skips - n,
        {
            self.next();
            n = n + 1;
        }
    }

    /// Advances the state by one xorshift update and returns it.
    pub fn next(&mut self) -> (r: u64)
        ensures
            r == xorshift_s(old(self).state_spec()),
            final(self).state_spec() == r,
    {
        let ghost s = self.state;
        self.state = self.state ^ (self.state << 13u64);
        let ghost a = self.state;
        self.state = self.state ^ (self.state >> 7u64);
        let ghost b = self.state;
        self.state = self.state ^ (self.state << 17u64);
        proof {
            assert(a == s ^ (s << 13u64));
            assert(b == a ^ (a >> 7u64));
        }
        self.state
    }
}

/// Generates white noise: with the bit patterns interpreted as floats and
/// mapped to `[-1, 1)`, the output has a uniform distribution and a uniform
/// power spectrum.
pub struct NoiseWhite {
    rng: RandomCore,
}

impl NoiseWhite {
    /// The state of the backing generator.
    pub closed spec fn rng_state(&self) -> u64 {
        self.rng.state_spec()
    }

    /// Creates a noise source from a seed byte.
    pub fn new(seed: u8) -> (r: Self)
        ensures
            r.rng_state() == reseeded(seed),
    {
        let mut rng = RandomCore::new();
        rng.reseed(seed);
        Self { rng }
    }

    /// Advances the generator and assembles the bit pattern of a float in
    /// `[1, 2)`: the upper bits of the state fill the mantissa under a fixed
    /// exponent. The caller maps the float onto `[-1, 1)`.
    pub fn next_bits(&mut self) -> (r: u64)
        ensures
            r == noise_bits_s(old(self).rng_state()),
            final(self).rng_state() == xorshift_s(old(self).rng_state()),
    {
        let mut bits = self.rng.next() >> 11u64;
        bits = bits & 0x000f_ffff_ffff_ffff;
        bits = bits | 0x3fe0_0000_0000_0000;
        bits
    }
}

} // verus!
