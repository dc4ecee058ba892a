use vstd::prelude::*;
use rand_mt::Mt;

verus! {

/// The Mersenne Twister generator of the `rand_mt` crate, carried through
/// opaquely.
#[verifier::external_type_specification]
#[verifier::external_body]
pub struct ExMt(Mt);

/// Output number `k` (counting from 0) of the 32-bit MT19937 generator
/// seeded with `seed`. MT19937 is deterministic: its outputs depend on the
/// seed and the position alone.
pub uninterp spec fn mt19937_output(seed: u32, k: nat) -> u32;

/// The `n` outputs of the MT19937 stream of `seed` that start at position
/// `from`, in order.
pub open spec fn stream_values(seed: u32, from: nat, n: nat) -> Seq<u32> {
    Seq::new(n, |j: int| mt19937_output(seed, (from + j) as nat))
}

/// An MT19937 generator together with where it stands: the seed its stream
/// started from and how many outputs it has given since. Only the four
/// methods below, each a call into `rand_mt`, build or change one, so the
/// bookkeeping always describes the generator.
pub struct MtStream {
    rng: Mt,
    seed: u32,
    position: Ghost<nat>,
}

impl MtStream {
    /// The seed the stream started from.
    pub closed spec fn stream_seed(&self) -> u32 {
        self.seed
    }

    /// How many outputs the stream has given since it started.
    pub closed spec fn position(&self) -> nat {
        self.position@
    }

    /// Calls `rand_mt::Mt::new`, which seeds the generator with `seed` and
    /// leaves it before its first output. The contract claims that the stream
    /// is the one of `seed`, at position 0.
    #[verifier::external_body]
    pub(crate) fn new(seed: u32) -> (s: MtStream)
        ensures
            s.stream_seed() == seed,
            s.position() == 0,
    {
        MtStream { rng: Mt::new(seed), seed, position: Ghost(0) }
    }

    /// Calls `rand_mt::Mt::reseed`, which puts the generator into the state
    /// that seeding with `seed` gives (`Mt::new` is this call on a fresh
    /// generator). The contract claims that the stream is the one of `seed`,
    /// back at position 0.
    #[verifier::external_body]
    pub(crate) fn reseed(&mut self, seed: u32)
        ensures
            final(self).stream_seed() == seed,
            final(self).position() == 0,
    {
        self.rng.reseed(seed);
        self.seed = seed;
        self.position = Ghost(0);
    }

    /// Calls `rand_mt::Mt::next_u32`, which returns the generator's next
    /// output and advances it by one. The contract claims that the value is
    /// the output of the stream's seed at the current position, and that the
    /// position moves on by one.
    #[verifier::external_body]
    pub(crate) fn next_u32(&mut self) -> (x: u32)
        ensures
            x == mt19937_output(old(self).stream_seed(), old(self).position()),
            final(self).stream_seed() == old(self).stream_seed(),
            final(self).position() == old(self).position() + 1,
    {
        let x = self.rng.next_u32();
        self.position = Ghost(self.position@ + 1);
        x
    }

    /// Calls `Clone::clone` on the `rand_mt::Mt`, which copies the generator's
    /// state. The contract claims that the copy stands at the same place in
    /// the same stream.
    #[verifier::external_body]
    pub(crate) fn duplicate(&self) -> (c: MtStream)
        ensures
            c.stream_seed() == self.stream_seed(),
            c.position() == self.position(),
    {
        MtStream { rng: self.rng.clone(), seed: self.seed, position: Ghost(self.position@) }
    }

    /// The seed the stream started from.
    pub(crate) fn seed(&self) -> (s: u32)
        ensures
            s == self.stream_seed(),
    {
        self.seed
    }
}

/// Drawing `k` values and then `m` more gives the same values as drawing
/// `k + m` at once: successive draws continue one stream.
pub proof fn law_draws_continue_the_stream(seed: u32, from: nat, k: nat, m: nat)
    ensures
        stream_values(seed, from, k) + stream_values(seed, from + k, m) == stream_values(seed, from, k + m),
{
    assert(stream_values(seed, from, k) + stream_values(seed, from + k, m) =~= stream_values(seed, from, k + m));
}

} // verus!
