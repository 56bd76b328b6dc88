//! The public, non-cryptographic random stream (xorshift1024*), used
//! where unpredictability is not a security property (spin bits, test
//! reproducibility).  The state is an explicit value owned by the caller.

use vstd::prelude::*;

verus! {

/// Multiplier of the xorshift1024* output function.
pub const PUBLIC_RANDOM_MULTIPLIER: u64 = 1181783497276652981;

/// Mask applied to every output before it is returned.
pub const PUBLIC_RANDOM_OBFUSCATOR: u64 = 0x5555_5555_5555_5555;

/// Abstract state: the sixteen seed words, the current index and the
/// output obfuscator.
pub struct RandomModel {
    pub seed: Seq<u64>,
    pub index: int,
    pub obfuscator: u64,
}

/// xorshift1024* generator state.
#[derive(Debug, Clone, Copy)]
pub struct PublicRandomState {
    seed: [u64; 16],
    index: usize,
    obfuscator: u64,
}

impl View for PublicRandomState {
    type V = RandomModel;

    closed spec fn view(&self) -> RandomModel {
        RandomModel { seed: self.seed@, index: self.index as int, obfuscator: self.obfuscator }
    }
}

/// The state every process starts from.
pub open spec fn spec_initial_random() -> RandomModel {
    RandomModel {
        seed: seq![1u64, 2, 3, 4, 5, 6, 7, 8, 9, 10, 11, 12, 13, 14, 15, 16],
        index: 0,
        obfuscator: PUBLIC_RANDOM_OBFUSCATOR,
    }
}

/// The xorshift mixing of the word at the current index (`s0`) into the
/// next word (`s1`).
pub open spec fn xorshift_mix(s0: u64, s1: u64) -> u64 {
    let a = s1 ^ (s1 << 31u64);
    let b = a ^ (a >> 11u64);
    b ^ (s0 ^ (s0 >> 30u64))
}

/// One generator step: advance the index and replace the word there.
pub open spec fn spec_random_step(m: RandomModel) -> (RandomModel, u64) {
    let j = (m.index + 1) % 16;
    let s1 = xorshift_mix(m.seed[m.index], m.seed[j]);
    (RandomModel { seed: m.seed.update(j, s1), index: j, obfuscator: m.obfuscator }, s1)
}

/// `n` generator steps.
pub open spec fn spec_random_steps(m: RandomModel, n: nat) -> RandomModel
    decreases n,
{
    if n == 0 {
        m
    } else {
        spec_random_steps(spec_random_step(m).0, (n - 1) as nat)
    }
}

/// The state after seeding with `seed`, from the initial state when
/// `reset_context` is non-zero.
pub open spec fn spec_random_seed_64(m: RandomModel, seed: u64, reset_context: i32) -> RandomModel {
    let b = if reset_context != 0 { spec_initial_random() } else { m };
    spec_random_steps(
        RandomModel { seed: b.seed.update(b.index, b.seed[b.index] ^ seed), index: b.index, obfuscator: b.obfuscator },
        16,
    )
}

/// The next output and the state after it.
pub open spec fn spec_random_64(m: RandomModel) -> (RandomModel, u64) {
    let (n, s1) = spec_random_step(m);
    (n, vstd::wrapping::u64_specs::wrapping_mul(s1, PUBLIC_RANDOM_MULTIPLIER) ^ n.obfuscator)
}

proof fn lemma_steps_unfold(m: RandomModel, n: nat)
    ensures
        spec_random_steps(m, n + 1) == spec_random_step(spec_random_steps(m, n)).0,
    decreases n,
{
    if n > 0 {
        lemma_steps_unfold(spec_random_step(m).0, (n - 1) as nat);
        assert(spec_random_steps(m, n) == spec_random_steps(spec_random_step(m).0, (n - 1) as nat));
    } else {
        reveal_with_fuel(spec_random_steps, 2);
    }
}

impl PublicRandomState {
    #[verifier::type_invariant]
    closed spec fn inv(self) -> bool {
        self.index < 16
    }

    /// The state every process starts from.
    pub fn new() -> (r: PublicRandomState)
        ensures
            r@ == spec_initial_random(),
    {
        let r = PublicRandomState {
            seed: [1, 2, 3, 4, 5, 6, 7, 8, 9, 10, 11, 12, 13, 14, 15, 16],
            index: 0,
            obfuscator: PUBLIC_RANDOM_OBFUSCATOR,
        };
        assert(r@.seed =~= spec_initial_random().seed);
        r
    }

    /// One xorshift1024* step; returns the new word.
    pub fn step(&mut self) -> (r: u64)
        ensures
            (final(self)@, r) == spec_random_step(old(self)@),
    {
        proof {
            use_type_invariant(&*self);
        }
        let i = self.index;
        let s0 = self.seed[i];
        let i1: usize = i + 1;
        let j: usize = i1 & 15;
        assert(j == i1 % 16) by (bit_vector)
            requires
                j == i1 & 15,
        ;
        let mut s1 = self.seed[j];
        s1 = s1 ^ (s1 << 31u64);
        s1 = s1 ^ (s1 >> 11u64);
        s1 = s1 ^ (s0 ^ (s0 >> 30u64));
        self.index = j;
        self.seed[j] = s1;
        proof {
            assert(self@.seed =~= old(self)@.seed.update(j as int, s1));
        }
        s1
    }
}

/// Seed the public random stream: start over from the initial state when
/// `reset_context` is non-zero, mix `seed` into the current word, then
/// run sixteen steps.
pub fn public_random_seed_64(state: &mut PublicRandomState, seed: u64, reset_context: i32)
    ensures
        final(state)@ == spec_random_seed_64(old(state)@, seed, reset_context),
{
    if reset_context != 0 {
        *state = PublicRandomState::new();
    }
    proof {
        use_type_invariant(&*state);
    }
    let idx = state.index;
    state.seed[idx] = state.seed[idx] ^ seed;
    let ghost start = state@;
    proof {
        let b = if reset_context != 0 { spec_initial_random() } else { old(state)@ };
        assert(start.seed =~= b.seed.update(b.index, b.seed[b.index] ^ seed));
    }
    let mut k: usize = 0;
    while k < 16
        invariant
            k <= 16,
            state@ == spec_random_steps(start, k as nat),
        decreases 16 - k,
    {
        state.step();
        proof {
            lemma_steps_unfold(start, k as nat);
        }
        k = k + 1;
    }
}

/// The next value of the public random stream.
pub fn public_random_64(state: &mut PublicRandomState) -> (r: u64)
    ensures
        (final(state)@, r) == spec_random_64(old(state)@),
{
    let s = state.step();
    s.wrapping_mul(PUBLIC_RANDOM_MULTIPLIER) ^ state.obfuscator
}

/// Reseeding with a reset makes the stream reproducible: the state that
/// follows depends on the seed alone, not on what came before.
pub proof fn law_reseed_is_reproducible(a: RandomModel, b: RandomModel, seed: u64, reset_context: i32)
    requires
        reset_context != 0,
    ensures
        spec_random_seed_64(a, seed, reset_context) == spec_random_seed_64(b, seed, reset_context),
{
}

} // verus!
