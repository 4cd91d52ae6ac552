//! Pseudo-random number generation.
//!
//! Every sampling decision of the renderer (scatter directions, defocus-disk
//! points, the reflect-or-refract draw of a dielectric) is derived from this
//! generator, so each pixel job can own an independently seeded copy and no
//! synchronization is ever needed for randomness.

use vstd::prelude::*;

verus! {

/// One advance of the 128-bit shift-register state.
pub open spec fn xorshift_step(s: u128) -> u128 {
    let a: u128 = s ^ (s << 23);
    let b: u128 = a ^ (a >> 17);
    b ^ (b << 26)
}

/// The state of the generator returned by [`XorShift::copy_reset`]: the old
/// state folded into its own successor, then stirred once more so the copy
/// does not shadow the parent's sequence.
pub open spec fn reseed_mix(s: u128) -> u128 {
    let m0: u128 = s ^ xorshift_step(s);
    let m1: u128 = m0 ^ (m0 >> 13);
    let m2: u128 = m1 ^ (m1 << 5);
    m2 ^ (m2 >> 11)
}

/// A xorshift pseudo-random generator over a 128-bit state.
///
/// This is not cryptographically secure; it only has to be fast, seedable and
/// reproducible so that a render is deterministic for a fixed seed.
#[derive(Clone)]
pub struct XorShift {
    state: u128,
}

impl View for XorShift {
    type V = u128;

    closed spec fn view(&self) -> u128 {
        self.state
    }
}

impl XorShift {
    /// Creates a generator from the given seed.
    pub fn new(seed: u128) -> (r: Self)
        ensures
            r@ == seed,
    {
        Self { state: seed }
    }

    /// Advances the state once and returns it.
    pub fn next_int(&mut self) -> (r: u128)
        ensures
            final(self)@ == xorshift_step(old(self)@),
            r == final(self)@,
    {
        self.state = self.state ^ (self.state << 23);
        self.state = self.state ^ (self.state >> 17);
        self.state = self.state ^ (self.state << 26);
        self.state
    }

    /// The integer phase of drawing a uniform sample in `[0, 1)`: advances the
    /// state once and reduces the draw modulo `u32::MAX`. Dividing the result
    /// by `u32::MAX` (a float operation, left to the caller) yields the
    /// sample; the strict bound below is what keeps that quotient below one.
    pub fn next_01_numerator(&mut self) -> (r: u32)
        ensures
            final(self)@ == xorshift_step(old(self)@),
            r as u128 == xorshift_step(old(self)@) % 0xFFFF_FFFFu128,
            r < 0xFFFF_FFFFu32,
    {
        let next: u128 = self.next_int();
        let bounded: u128 = next % 0xFFFF_FFFFu128;
        bounded as u32
    }

    /// Splits off a freshly stirred generator for a child job, advancing this
    /// generator once so successive children receive distinct seeds.
    pub fn copy_reset(&mut self) -> (r: Self)
        ensures
            final(self)@ == xorshift_step(old(self)@),
            r@ == reseed_mix(old(self)@),
    {
        let self_state: u128 = self.state;
        let next: u128 = self.next_int();
        let mut reset_state: u128 = self_state ^ next;
        reset_state = reset_state ^ (reset_state >> 13);
        reset_state = reset_state ^ (reset_state << 5);
        reset_state = reset_state ^ (reset_state >> 11);
        Self { state: reset_state }
    }
}

} // verus!
