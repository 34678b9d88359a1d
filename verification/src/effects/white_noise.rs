use vstd::prelude::*;

verus! {

/// The state in which the default source of randomness starts for `seed`:
/// the two words of a Xorshift128+ generator, one below and one above the
/// seed, each wrapping at the ends of the 64-bit range.
pub open spec fn seeded_state(seed: u64) -> (u64, u64) {
    (
        if seed == 0 {
            u64::MAX
        } else {
            (seed - 1) as u64
        },
        if seed == u64::MAX {
            0u64
        } else {
            (seed + 1) as u64
        },
    )
}

/// One step of Xorshift128+: the state that follows `state`.
pub open spec fn xorshift_next(state: (u64, u64)) -> (u64, u64) {
    let x = state.0;
    let y = state.1;
    let a = x ^ (x << 23);
    let b = a ^ (a >> 17);
    (y, b ^ y ^ (y >> 26))
}

/// One step of Xorshift128+: the value that a read in `state` returns, the
/// sum of the new second word and the old one, wrapping at 64 bits.
pub open spec fn xorshift_output(state: (u64, u64)) -> u64 {
    let sum = xorshift_next(state).1 + state.1;
    if sum > u64::MAX {
        (sum - u64::MAX - 1) as u64
    } else {
        sum as u64
    }
}

/// The state of a generator that started in `state` and was read `count`
/// times.
pub open spec fn state_after_draws(state: (u64, u64), count: nat) -> (u64, u64)
    decreases count,
{
    if count == 0 {
        state
    } else {
        xorshift_next(state_after_draws(state, (count - 1) as nat))
    }
}

/// The value of the read number `index`, counted from zero, of a generator
/// that started in `state`.
pub open spec fn nth_draw(state: (u64, u64), index: nat) -> u64 {
    xorshift_output(state_after_draws(state, index))
}

/// `random::default` makes a Xorshift128+ generator whose two state words are
/// `seed - 1` and `seed + 1`, both wrapping; they are handed out as they are.
#[verifier::external_body]
fn default_source_state(seed: u64) -> (state: (u64, u64))
    ensures
        state == seeded_state(seed),
{
    let words: [u64; 2] = random::default(seed).into();
    (words[0], words[1])
}

/// `random::Source::read_u64` on a `random::Xorshift128Plus` set up with the
/// two words of `state`: it returns the next value and leaves the generator in
/// the next state, by the shifts and exclusive-ors of Xorshift128+. Setting
/// the generator up fails on a state of two zero words.
#[verifier::external_body]
fn read_source(state: (u64, u64)) -> (read: (u64, (u64, u64)))
    requires
        state.0 != 0 || state.1 != 0,
    ensures
        read.0 == xorshift_output(state),
        read.1 == xorshift_next(state),
{
    let mut source = random::Xorshift128Plus::new([state.0, state.1]);
    let value = random::Source::read_u64(&mut source);
    let words: [u64; 2] = source.into();
    (value, (words[0], words[1]))
}

/// A state with a bit set is followed by a state with a bit set.
proof fn lemma_next_state_has_a_bit(state: (u64, u64))
    requires
        state.0 != 0 || state.1 != 0,
    ensures
        xorshift_next(state).0 != 0 || xorshift_next(state).1 != 0,
{
    let x = state.0;
    let y = state.1;
    assert(x != 0 || y != 0 ==> y != 0 || ((x ^ (x << 23)) ^ ((x ^ (x << 23)) >> 17)) ^ y ^ (y
        >> 26) != 0) by (bit_vector);
}

/// The white noise source: a seeded pseudo-random generator whose reads are
/// fixed by the seed and by the number of reads before them.
///
/// This type keeps the generator's state and hands out its raw 64-bit reads,
/// each uniformly spread over the whole range of `u64`.
pub struct WhiteNoiseGenerator {
    state: (u64, u64),
}

impl View for WhiteNoiseGenerator {
    type V = (u64, u64);

    closed spec fn view(&self) -> (u64, u64) {
        self.state
    }
}

impl WhiteNoiseGenerator {
    #[verifier::type_invariant]
    spec fn has_a_bit(self) -> bool {
        self.state.0 != 0 || self.state.1 != 0
    }

    /// A generator in the state that the default source of randomness starts
    /// in for `seed`.
    pub fn new(seed: u64) -> (generator: Self)
        ensures
            generator@ == seeded_state(seed),
    {
        WhiteNoiseGenerator { state: default_source_state(seed) }
    }

    /// A fixed, human-readable label, for diagnostics only.
    pub fn name(&self) -> (label: &'static str)
        ensures
            label@ == "White Noise"@,
    {
        "White Noise"
    }

    /// Reads the next value from the generator.
    pub fn draw(&mut self) -> (value: u64)
        ensures
            value == xorshift_output(old(self)@),
            final(self)@ == xorshift_next(old(self)@),
    {
        proof {
            use_type_invariant(&*self);
            lemma_next_state_has_a_bit(self.state);
        }
        let (value, next) = read_source(self.state);
        self.state = next;
        value
    }
}

/// Two generators made from the same seed return the same values, read for
/// read, and are in the same state after the same number of reads.
pub proof fn lemma_same_seed_same_noise(
    first: WhiteNoiseGenerator,
    second: WhiteNoiseGenerator,
    seed: u64,
    count: nat,
)
    requires
        first@ == seeded_state(seed),
        second@ == seeded_state(seed),
    ensures
        nth_draw(first@, count) == nth_draw(second@, count),
        state_after_draws(first@, count) == state_after_draws(second@, count),
{
}

} // verus!
