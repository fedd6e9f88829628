//! A pseudo-random number generator built on a 64-bit xorshift step.
//!
//! The generator holds a seed and a state word. Every draw mixes the seed
//! into the state, applies one xorshift step, stores the result as the new
//! state and returns it; the narrower draws truncate that word. Given the
//! same seed and state, the sequence of draws is fully determined.

use vstd::prelude::*;

verus! {

/// One xorshift step over the 64-bit word `s`.
pub open spec fn xorshift(s: u64) -> u64 {
    let a = s ^ (s << 13u64);
    let b = a ^ (a >> 17u64);
    b ^ (b << 5u64)
}

/// A xorshift pseudo-random number generator with a 64-bit state and seed.
pub struct RNG {
    state: u64,
    seed: u64,
}

impl RNG {
    /// The generator's current state word.
    pub closed spec fn state_spec(&self) -> u64 {
        self.state
    }

    /// The generator's seed word.
    pub closed spec fn seed_spec(&self) -> u64 {
        self.seed
    }

    /// The 64-bit word the next draw will produce.
    pub open spec fn next_spec(&self) -> u64 {
        xorshift(self.seed_spec() ^ self.state_spec())
    }

    /// Creates a new generator from the given state and seed. If either is
    /// zero, the state is drawn from the clock instead, so the seed is kept
    /// in every case but the state is only known when both are nonzero.
    pub fn new(initial_state: u64, initial_seed: u64) -> (r: Self)
        ensures
            r.seed_spec() == initial_seed,
            initial_state != 0 && initial_seed != 0 ==> r.state_spec() == initial_state,
    {
        let mut r = RNG { state: initial_state, seed: initial_seed };
        if initial_state == 0 || initial_seed == 0 {
            r.randomize_state();
        }
        r
    }

    /// Relies on `std::time::SystemTime::now` for the current wall-clock
    /// time, read as whole milliseconds since the Unix epoch. Nothing is
    /// assumed of the value; a clock before the epoch is read as zero.
    #[verifier::external_body]
    fn now() -> u64 {
        match std::time::SystemTime::now().duration_since(std::time::SystemTime::UNIX_EPOCH) {
            Ok(d) => d.as_millis() as u64,
            Err(_) => 0,
        }
    }

    /// Replaces the state with the current clock reading; the value of the
    /// new state is unknown. The seed is kept.
    pub fn randomize_state(&mut self) -> (r: &mut Self)
        ensures
            r.seed_spec() == old(self).seed_spec(),
            *final(self) == *final(r),
    {
        self.state = Self::now();
        self
    }

    /// Replaces the seed with the current clock reading; the value of the
    /// new seed is unknown. The state is kept.
    pub fn randomize_seed(&mut self) -> (r: &mut Self)
        ensures
            r.state_spec() == old(self).state_spec(),
            *final(self) == *final(r),
    {
        self.seed = Self::now();
        self
    }

    /// Replaces both the state and the seed with clock readings; the new
    /// values are unknown.
    pub fn randomize(&mut self) -> (r: &mut Self)
        ensures
            *final(self) == *final(r),
    {
        self.randomize_state();
        self.randomize_seed();
        self
    }

    /// Sets the seed; the state is kept.
    pub fn set_seed(&mut self, seed: u64) -> (r: &mut Self)
        ensures
            r.state_spec() == old(self).state_spec(),
            r.seed_spec() == seed,
            *final(self) == *final(r),
    {
        self.seed = seed;
        self
    }

    /// Resets the state to zero; the seed is kept.
    pub fn reset_state(&mut self) -> (r: &mut Self)
        ensures
            r.state_spec() == 0,
            r.seed_spec() == old(self).seed_spec(),
            *final(self) == *final(r),
    {
        self.state = 0;
        self
    }

    /// Draws the next 64-bit word: one xorshift step over the seed mixed
    /// into the state. The result becomes the new state; the seed is kept.
    pub fn randu64(&mut self) -> (r: u64)
        ensures
            r == old(self).next_spec(),
            final(self).state_spec() == old(self).next_spec(),
            final(self).seed_spec() == old(self).seed_spec(),
    {
        let mut s = self.seed ^ self.state;
        s ^= s << 13u64;
        s ^= s >> 17u64;
        s ^= s << 5u64;
        self.state = s;
        self.state
    }

    /// Draws the next word reinterpreted as a signed 64-bit integer.
    pub fn randi64(&mut self) -> (r: i64)
        ensures
            r == old(self).next_spec() as i64,
            final(self).state_spec() == old(self).next_spec(),
            final(self).seed_spec() == old(self).seed_spec(),
    {
        #[verifier::truncate]
        (self.randu64() as i64)
    }

    /// Draws the next word truncated to 32 bits.
    pub fn randu32(&mut self) -> (r: u32)
        ensures
            r == old(self).next_spec() as u32,
            final(self).state_spec() == old(self).next_spec(),
            final(self).seed_spec() == old(self).seed_spec(),
    {
        #[verifier::truncate]
        (self.randu64() as u32)
    }

    /// Draws the next word truncated to 32 bits and reinterpreted as signed.
    pub fn randi32(&mut self) -> (r: i32)
        ensures
            r == old(self).next_spec() as u32 as i32,
            final(self).state_spec() == old(self).next_spec(),
            final(self).seed_spec() == old(self).seed_spec(),
    {
        #[verifier::truncate]
        (self.randu32() as i32)
    }

    /// Draws the next word truncated to 16 bits.
    pub fn randu16(&mut self) -> (r: u16)
        ensures
            r == old(self).next_spec() as u16,
            final(self).state_spec() == old(self).next_spec(),
            final(self).seed_spec() == old(self).seed_spec(),
    {
        #[verifier::truncate]
        (self.randu64() as u16)
    }

    /// Draws the next word truncated to 16 bits and reinterpreted as signed.
    pub fn randi16(&mut self) -> (r: i16)
        ensures
            r == old(self).next_spec() as i16,
            final(self).state_spec() == old(self).next_spec(),
            final(self).seed_spec() == old(self).seed_spec(),
    {
        #[verifier::truncate]
        (self.randu64() as i16)
    }

    /// Draws the next word truncated to 8 bits.
    pub fn randu8(&mut self) -> (r: u8)
        ensures
            r == old(self).next_spec() as u8,
            final(self).state_spec() == old(self).next_spec(),
            final(self).seed_spec() == old(self).seed_spec(),
    {
        #[verifier::truncate]
        (self.randu64() as u8)
    }

    /// Draws the next word truncated to 8 bits and reinterpreted as signed.
    pub fn randi8(&mut self) -> (r: i8)
        ensures
            r == old(self).next_spec() as i8,
            final(self).state_spec() == old(self).next_spec(),
            final(self).seed_spec() == old(self).seed_spec(),
    {
        #[verifier::truncate]
        (self.randu64() as i8)
    }

    /// Draws a boolean: true exactly when the next word, read as a signed
    /// 64-bit integer, is non-negative.
    pub fn randb(&mut self) -> (r: bool)
        ensures
            r == (old(self).next_spec() as i64 >= 0),
            final(self).state_spec() == old(self).next_spec(),
            final(self).seed_spec() == old(self).seed_spec(),
    {
        self.randi64() >= 0
    }
}

} // verus!
