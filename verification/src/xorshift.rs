//! A 64-bit xorshift generator: the state is advanced by three chained
//! shift-and-xor steps, and each draw returns the new state.

use crate::uniform;
use vstd::prelude::*;

verus! {

/// The state a zero seed is remapped to. An all-zero state is a fixed point
/// of the recurrence and would produce an infinite run of zeros.
pub const SEED_ZERO_FALLBACK: u64 = 0xDEAD_BEEF;

/// The state a fresh generator starts from: seed zero is remapped to the
/// fallback constant, every other seed is taken as it is.
pub open spec fn seeded_state(seed: u64) -> u64 {
    if seed == 0 {
        SEED_ZERO_FALLBACK
    } else {
        seed
    }
}

/// One advance of the recurrence: three chained shift-and-xor steps.
pub open spec fn step(s: u64) -> u64 {
    let a = s ^ (s << 13);
    let b = a ^ (a >> 7);
    b ^ (b << 17)
}

/// The state after `n` draws from state `s`.
pub open spec fn nth_state(s: u64, n: nat) -> u64
    decreases n,
{
    if n == 0 {
        s
    } else {
        step(nth_state(s, (n - 1) as nat))
    }
}

/// Each of the three shift-and-xor stages is invertible, so zero is the only
/// state that steps to zero: a nonzero state never reaches the fixed point.
pub proof fn lemma_step_nonzero(s: u64)
    requires
        s != 0,
    ensures
        step(s) != 0,
{
    assert(step(s) != 0) by (bit_vector)
        requires
            s != 0,
    ;
}

/// Seed-zero safety, generalized: a nonzero state stays nonzero under any
/// number of draws.
pub proof fn lemma_nth_state_nonzero(s: u64, n: nat)
    requires
        s != 0,
    ensures
        nth_state(s, n) != 0,
    decreases n,
{
    if n > 0 {
        lemma_nth_state_nonzero(s, (n - 1) as nat);
        lemma_step_nonzero(nth_state(s, (n - 1) as nat));
    }
}

/// Seed-zero safety: whatever the seed — zero included — the state is nonzero
/// after any number of draws, so a generator never emits an infinite zero run.
pub proof fn lemma_seed_zero_safety(seed: u64, n: nat)
    ensures
        nth_state(seeded_state(seed), n) != 0,
{
    lemma_nth_state_nonzero(seeded_state(seed), n);
}

/// Determinism: the state after `n` draws is a function of the seed alone, so
/// two generators given equal seeds produce bit-identical output sequences.
pub proof fn lemma_deterministic(seed_a: u64, seed_b: u64, n: nat)
    requires
        seed_a == seed_b,
    ensures
        nth_state(seeded_state(seed_a), n) == nth_state(seeded_state(seed_b), n),
{
}

/// Batch equivalence: after `i` draws the state is `nth_state(s, i)`, and one
/// more draw steps it once — so element `i` of a batch of draws equals the
/// result of the `i + 1`-th sequential single draw.
pub proof fn lemma_batch_equivalence(s: u64, i: nat)
    ensures
        nth_state(s, i + 1) == step(nth_state(s, i)),
{
}

/// A xorshift generator. The single `u64` of state is the whole of its
/// memory, and every draw both advances and returns it.
pub struct Xorshift64 {
    state: u64,
}

impl View for Xorshift64 {
    type V = u64;

    closed spec fn view(&self) -> u64 {
        self.state
    }
}

impl Xorshift64 {
    #[verifier::type_invariant]
    spec fn wf(self) -> bool {
        self.state != 0
    }

    /// Seeds a generator; seed zero is remapped so the state is never the
    /// all-zero fixed point.
    pub fn new(seed: u64) -> (g: Self)
        ensures
            g@ == seeded_state(seed),
    {
        Xorshift64 { state: if seed == 0 {
            SEED_ZERO_FALLBACK
        } else {
            seed
        } }
    }

    /// Advances the state by one step of the recurrence and returns it.
    pub fn next_int(&mut self) -> (r: u64)
        ensures
            final(self)@ == step(old(self)@),
            r == final(self)@,
            r != 0,
    {
        proof {
            use_type_invariant(&*self);
            lemma_step_nonzero(self.state);
        }
        let s0: u64 = self.state;
        let s1: u64 = s0 ^ (s0 << 13);
        let s2: u64 = s1 ^ (s1 >> 7);
        let s3: u64 = s2 ^ (s2 << 17);
        self.state = s3;
        s3
    }

    /// Takes `count` draws in strict sequential order; element `i` is the
    /// state after `i + 1` steps, exactly as `i + 1` single draws would give.
    pub fn next_ints(&mut self, count: usize) -> (r: Vec<u64>)
        ensures
            r@.len() == count,
            forall|j: int| 0 <= j < count ==> r@[j] == nth_state(old(self)@, (j + 1) as nat),
            final(self)@ == nth_state(old(self)@, count as nat),
    {
        let ghost s0: u64 = self.state;
        let mut results: Vec<u64> = Vec::with_capacity(count);
        let mut i: usize = 0;
        while i < count
            invariant
                i <= count,
                results@.len() == i,
                forall|j: int| 0 <= j < i ==> results@[j] == nth_state(s0, (j + 1) as nat),
                self@ == nth_state(s0, i as nat),
            decreases count - i,
        {
            let v: u64 = self.next_int();
            results.push(v);
            i = i + 1;
        }
        results
    }

    /// Draws once and folds the draw into `[min, max]` by remainder — the
    /// modulo-biased mapping, kept on purpose.
    pub fn random_int(&mut self, min: i64, max: i64) -> (r: i64)
        requires
            min <= max,
            max - min < u64::MAX,
        ensures
            final(self)@ == step(old(self)@),
            r == uniform::mapped(step(old(self)@), min, max),
            min <= r <= max,
    {
        let val: u64 = self.next_int();
        uniform::map_draw_64(val, min, max)
    }

    /// Takes `count` draws in strict sequential order and folds each into
    /// `[min, max]`, exactly as `count` calls of `random_int` would.
    pub fn random_ints(&mut self, count: usize, min: i64, max: i64) -> (r: Vec<i64>)
        requires
            min <= max,
            max - min < u64::MAX,
        ensures
            r@.len() == count,
            forall|j: int|
                0 <= j < count ==> r@[j] == uniform::mapped(
                    nth_state(old(self)@, (j + 1) as nat),
                    min,
                    max,
                ),
            forall|j: int| 0 <= j < count ==> min <= #[trigger] r@[j] <= max,
            final(self)@ == nth_state(old(self)@, count as nat),
    {
        let ghost s0: u64 = self.state;
        let mut results: Vec<i64> = Vec::with_capacity(count);
        let mut i: usize = 0;
        while i < count
            invariant
                min <= max,
                max - min < u64::MAX,
                i <= count,
                results@.len() == i,
                forall|j: int|
                    0 <= j < i ==> results@[j] == uniform::mapped(
                        nth_state(s0, (j + 1) as nat),
                        min,
                        max,
                    ),
                forall|j: int| 0 <= j < i ==> min <= #[trigger] results@[j] <= max,
                self@ == nth_state(s0, i as nat),
            decreases count - i,
        {
            let val: u64 = self.next_int();
            results.push(uniform::map_draw_64(val, min, max));
            i = i + 1;
        }
        results
    }
}

} // verus!
