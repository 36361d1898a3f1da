use vstd::prelude::*;

verus! {

/// The value a zero seed is replaced with.
pub const DEFAULT_SEED: u64 = 0x9e3779b185ebca87;

/// One step of the 64-bit xorshift generator.
pub open spec fn xorshift(x: u64) -> u64 {
    let a = x ^ (x << 7u64);
    let b = a ^ (a >> 9u64);
    b ^ (b << 8u64)
}

/// The state a generator starts from: the seed, with zero replaced.
pub open spec fn start_state(seed: u64) -> u64 {
    if seed == 0 {
        DEFAULT_SEED
    } else {
        seed
    }
}

/// Deterministic xorshift pseudo-random generator.
pub struct SimpleRng(pub u64);

impl SimpleRng {
    pub open spec fn state(&self) -> u64 {
        self.0
    }

    pub fn new(seed: u64) -> (r: SimpleRng)
        ensures
            r.state() == start_state(seed),
    {
        let seed = if seed == 0 {
            DEFAULT_SEED
        } else {
            seed
        };
        SimpleRng(seed)
    }

    /// Advances the generator and returns its new state.
    pub fn next(&mut self) -> (r: u64)
        ensures
            r == xorshift(old(self).state()),
            final(self).state() == r,
    {
        let mut value = self.0;
        value ^= value << 7u64;
        value ^= value >> 9u64;
        value ^= value << 8u64;
        self.0 = value;
        self.0
    }
}

/// A nonzero state never steps to zero, so a generator never stalls.
pub proof fn lemma_xorshift_nonzero(x: u64)
    requires
        x != 0,
    ensures
        xorshift(x) != 0,
{
    assert(x != 0 ==> (x ^ (x << 7u64)) ^ ((x ^ (x << 7u64)) >> 9u64) ^ (((x ^ (x << 7u64)) ^ ((x
        ^ (x << 7u64)) >> 9u64)) << 8u64) != 0) by (bit_vector);
}

} // verus!
