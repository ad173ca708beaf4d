//! A 32-bit PCG generator (XSH-RR): a 64-bit linear-congruential state update
//! followed by an xorshift-and-rotate output permutation. The state advance
//! uses wrapping 64-bit multiply-add, and the output is a right rotation of
//! the xorshifted high bits — both bit-exact, so a seed pins the whole
//! output sequence.

use crate::uniform;
use vstd::prelude::*;
use vstd::wrapping::u64_specs;

verus! {

/// The multiplier of the linear-congruential state update.
pub const MULTIPLIER: u64 = 6364136223846793005;

/// The fixed odd constant added to the seed to form the initial state,
/// avoiding weak initial correlations between nearby seeds.
pub const STATE_SEED_OFFSET: u64 = 0xDA3E39CB94B95BDB;

/// The state a fresh generator starts from: the seed plus a fixed odd
/// constant, wrapping.
pub open spec fn seeded_state(seed: u64) -> u64 {
    u64_specs::wrapping_add(seed, STATE_SEED_OFFSET)
}

/// The increment a fresh generator uses: the seed with its lowest bit forced,
/// so it is odd — the linear-congruential step needs an odd increment for
/// full period.
pub open spec fn seeded_increment(seed: u64) -> u64 {
    seed | 1
}

/// One advance of the state: wrapping multiply by the fixed multiplier, then
/// wrapping add of the increment.
pub open spec fn advance(state: u64, increment: u64) -> u64 {
    u64_specs::wrapping_add(u64_specs::wrapping_mul(state, MULTIPLIER), increment)
}

/// The state after `n` draws from `state` under `increment`.
pub open spec fn nth_state(state: u64, increment: u64, n: nat) -> u64
    decreases n,
{
    if n == 0 {
        state
    } else {
        advance(nth_state(state, increment, (n - 1) as nat), increment)
    }
}

/// The output permutation: xorshift the state down, keep 32 bits, and rotate
/// them right by the state's top five bits.
pub open spec fn output(state: u64) -> u32 {
    let xorshifted = (((state >> 18) ^ state) >> 27) as u32;
    let rot = ((state >> 59) as u32) & 31;
    (xorshifted >> rot) | (xorshifted << (((32 - rot) as u32) & 31))
}

/// Forcing the lowest bit with a bitwise OR makes any value odd.
pub proof fn lemma_or_one_odd(x: u64)
    ensures
        (x | 1) % 2 == 1,
{
    assert((x | 1) % 2 == 1) by (bit_vector);
}

/// A five-bit mask keeps a value below 32, so it is a valid 32-bit shift.
proof fn lemma_mask31(x: u32)
    by (bit_vector)
    ensures
        x & 31 < 32,
{
}

/// Determinism: the state after `n` draws is a function of the seed alone, so
/// two generators given equal seeds produce bit-identical output sequences.
pub proof fn lemma_deterministic(seed_a: u64, seed_b: u64, n: nat)
    requires
        seed_a == seed_b,
    ensures
        nth_state(seeded_state(seed_a), seeded_increment(seed_a), n) == nth_state(
            seeded_state(seed_b),
            seeded_increment(seed_b),
            n,
        ),
{
}

/// Batch equivalence: after `i` draws the state is `nth_state(.., i)`, and
/// one more draw advances it once and returns its output — so element `i` of
/// a batch of draws equals the result of the `i + 1`-th sequential single
/// draw.
pub proof fn lemma_batch_equivalence(state: u64, increment: u64, i: nat)
    ensures
        nth_state(state, increment, i + 1) == advance(nth_state(state, increment, i), increment),
{
}

/// A PCG generator: the 64-bit state advanced each draw, and the odd
/// increment fixed at seeding.
pub struct Pcg32 {
    state: u64,
    inc: u64,
}

/// The mathematical value of a [`Pcg32`]: its state and its increment.
pub ghost struct Pcg32View {
    pub state: u64,
    pub increment: u64,
}

impl View for Pcg32 {
    type V = Pcg32View;

    closed spec fn view(&self) -> Pcg32View {
        Pcg32View { state: self.state, increment: self.inc }
    }
}

impl Pcg32 {
    #[verifier::type_invariant]
    spec fn wf(self) -> bool {
        self.inc % 2 == 1
    }

    /// Seeds a generator. The increment gets its lowest bit forced, so it is
    /// odd for any seed; the state is the seed offset by a fixed odd
    /// constant, wrapping.
    pub fn new(seed: u64) -> (g: Self)
        ensures
            g@.state == seeded_state(seed),
            g@.increment == seeded_increment(seed),
            g@.increment % 2 == 1,
    {
        proof {
            lemma_or_one_odd(seed);
        }
        Pcg32 { state: seed.wrapping_add(STATE_SEED_OFFSET), inc: seed | 1 }
    }

    /// The increment the linear-congruential step adds at each draw; it is
    /// odd for every reachable generator.
    pub fn increment(&self) -> (i: u64)
        ensures
            i == self@.increment,
            i % 2 == 1,
    {
        proof {
            use_type_invariant(&*self);
        }
        self.inc
    }

    /// Advances the state once and returns the output permutation of the
    /// state as it was before the call.
    pub fn next_int(&mut self) -> (r: u32)
        ensures
            final(self)@.state == advance(old(self)@.state, old(self)@.increment),
            final(self)@.increment == old(self)@.increment,
            r == output(old(self)@.state),
    {
        proof {
            use_type_invariant(&*self);
        }
        let oldstate: u64 = self.state;
        self.state = oldstate.wrapping_mul(MULTIPLIER).wrapping_add(self.inc);
        let xorshifted: u32 = (((oldstate >> 18) ^ oldstate) >> 27) as u32;
        let rot: u32 = ((oldstate >> 59) as u32) & 31;
        proof {
            lemma_mask31((oldstate >> 59) as u32);
        }
        let shift_left: u32 = (32 - rot) & 31;
        proof {
            lemma_mask31((32 - rot) as u32);
        }
        (xorshifted >> rot) | (xorshifted << shift_left)
    }

    /// Takes `count` draws in strict sequential order; element `i` is the
    /// output of the state after `i` advances, exactly as `i + 1` single
    /// draws would give.
    pub fn next_ints(&mut self, count: usize) -> (r: Vec<u32>)
        ensures
            r@.len() == count,
            forall|j: int|
                0 <= j < count ==> r@[j] == output(
                    nth_state(old(self)@.state, old(self)@.increment, j as nat),
                ),
            final(self)@.state == nth_state(old(self)@.state, old(self)@.increment, count as nat),
            final(self)@.increment == old(self)@.increment,
    {
        let ghost s0: u64 = self.state;
        let ghost inc0: u64 = self.inc;
        let mut results: Vec<u32> = Vec::with_capacity(count);
        let mut i: usize = 0;
        while i < count
            invariant
                i <= count,
                results@.len() == i,
                forall|j: int| 0 <= j < i ==> results@[j] == output(nth_state(s0, inc0, j as nat)),
                self@.state == nth_state(s0, inc0, i as nat),
                self@.increment == inc0,
            decreases count - i,
        {
            let v: u32 = self.next_int();
            results.push(v);
            i = i + 1;
        }
        results
    }

    /// Draws once and folds the draw into `[min, max]` by remainder over a
    /// 32-bit range width — the modulo-biased mapping, kept on purpose.
    pub fn random_int(&mut self, min: i64, max: i64) -> (r: i64)
        requires
            min <= max,
            max - min < u32::MAX,
        ensures
            final(self)@.state == advance(old(self)@.state, old(self)@.increment),
            final(self)@.increment == old(self)@.increment,
            r == uniform::mapped(output(old(self)@.state) as u64, min, max),
            min <= r <= max,
    {
        let val: u32 = self.next_int();
        uniform::map_draw_32(val, min, max)
    }

    /// Takes `count` draws in strict sequential order and folds each into
    /// `[min, max]` by remainder over a 64-bit range width, exactly as
    /// `count` single draws mapped the same way.
    pub fn random_ints(&mut self, count: usize, min: i64, max: i64) -> (r: Vec<i64>)
        requires
            min <= max,
            max - min < u64::MAX,
        ensures
            r@.len() == count,
            forall|j: int|
                0 <= j < count ==> r@[j] == uniform::mapped(
                    output(nth_state(old(self)@.state, old(self)@.increment, j as nat)) as u64,
                    min,
                    max,
                ),
            forall|j: int| 0 <= j < count ==> min <= #[trigger] r@[j] <= max,
            final(self)@.state == nth_state(old(self)@.state, old(self)@.increment, count as nat),
            final(self)@.increment == old(self)@.increment,
    {
        let ghost s0: u64 = self.state;
        let ghost inc0: u64 = self.inc;
        let mut results: Vec<i64> = Vec::with_capacity(count);
        let mut i: usize = 0;
        while i < count
            invariant
                min <= max,
                max - min < u64::MAX,
                i <= count,
                results@.len() == i,
                forall|j: int|
                    0 <= j < i ==> results@[j] == uniform::mapped(
                        output(nth_state(s0, inc0, j as nat)) as u64,
                        min,
                        max,
                    ),
                forall|j: int| 0 <= j < i ==> min <= #[trigger] results@[j] <= max,
                self@.state == nth_state(s0, inc0, i as nat),
                self@.increment == inc0,
            decreases count - i,
        {
            let val: u32 = self.next_int();
            results.push(uniform::map_draw_64(val as u64, min, max));
            i = i + 1;
        }
        results
    }
}

} // verus!
