use vstd::prelude::*;
use crate::stream::{stream_values, MtStream};

verus! {

/// The factor that multiplies the process count in a seed.
pub const SEED_BASE: u32 = 19937;

/// `1` when streams are independent per process, `0` when they are shared.
pub open spec fn indep_factor(indep: bool) -> int {
    if indep { 1 } else { 0 }
}

/// The seed of a process: the base times the number of processes, plus the
/// rank when each process gets its own stream. Ranks and sizes are read as
/// 32-bit unsigned numbers, as a cast does.
pub open spec fn seed_of(rank: i32, size: i32, indep: bool) -> int {
    SEED_BASE * (size as u32) + (rank as u32) * indep_factor(indep)
}

/// Computes the seed of a process from its rank, the number of processes and
/// whether streams are independent per process.
pub fn compute_seed(rank: i32, size: i32, indep: bool) -> (seed: u32)
    requires
        seed_of(rank, size, indep) <= u32::MAX,
    ensures
        seed == seed_of(rank, size, indep),
{
    let s = size as u32;
    let r = rank as u32;
    assert(SEED_BASE * s <= u32::MAX) by (nonlinear_arith)
        requires
            SEED_BASE * s + r * indep_factor(indep) <= u32::MAX,
            0 <= r * indep_factor(indep),
    {
    }
    if indep {
        SEED_BASE * s + r
    } else {
        SEED_BASE * s
    }
}

/// Computes the seed of a process when it fits in 32 bits, and returns `None`
/// when it does not (where computing it would overflow).
pub fn checked_seed(rank: i32, size: i32, indep: bool) -> (seed: Option<u32>)
    ensures
        seed_of(rank, size, indep) <= u32::MAX ==> seed == Some(seed_of(rank, size, indep) as u32),
        seed_of(rank, size, indep) > u32::MAX ==> seed is None,
{
    let s = size as u32 as u64;
    let r = rank as u32 as u64;
    let f: u64 = if indep { 1 } else { 0 };
    assert(s * 19937 <= 0xffff_ffffu64 * 19937) by (nonlinear_arith)
        requires
            s <= 0xffff_ffffu64,
    ;
    assert(r * f <= 0xffff_ffffu64) by (nonlinear_arith)
        requires
            r <= 0xffff_ffffu64,
            f <= 1,
    ;
    let total = s * 19937 + r * f;
    if total <= 0xffff_ffffu64 {
        Some(compute_seed(rank, size, indep))
    } else {
        None
    }
}

/// With shared streams, every process of a group gets the same seed.
pub proof fn law_shared_streams_share_seed(r1: i32, r2: i32, size: i32)
    ensures
        seed_of(r1, size, false) == seed_of(r2, size, false),
{
}

/// With independent streams, processes of different (non-negative) ranks get
/// different seeds.
pub proof fn law_independent_streams_differ(r1: i32, r2: i32, size: i32)
    requires
        0 <= r1,
        0 <= r2,
        r1 != r2,
    ensures
        seed_of(r1, size, true) != seed_of(r2, size, true),
{
}

/// The abstract state of a Monte-Carlo engine: whether its stream is
/// independent per process, the seed the stream starts from, and the position
/// in that MT19937 stream of the next value to be drawn.
pub struct MonteCarloView {
    pub indep: bool,
    pub seed: u32,
    pub position: nat,
}

/// A Monte-Carlo engine: an MT19937 random stream started from a seed that
/// depends on the process's place in its group.
pub struct MonteCarlo {
    indep: bool,
    rng: MtStream,
}

impl View for MonteCarlo {
    type V = MonteCarloView;

    closed spec fn view(&self) -> MonteCarloView {
        MonteCarloView { indep: self.indep, seed: self.rng.stream_seed(), position: self.rng.position() }
    }
}

impl Clone for MonteCarlo {
    /// A copy of the engine, standing at the same place in the same stream.
    fn clone(&self) -> (c: Self)
        ensures
            c@ == self@,
    {
        MonteCarlo { indep: self.indep, rng: self.rng.duplicate() }
    }
}

impl MonteCarlo {
    /// An engine for process `rank` of `size`, its stream independent of the
    /// other processes' when `indep` holds, standing at the start of the
    /// stream of its seed.
    pub fn new(rank: i32, size: i32, indep: bool) -> (mc: MonteCarlo)
        requires
            seed_of(rank, size, indep) <= u32::MAX,
        ensures
            mc@ == (MonteCarloView { indep, seed: seed_of(rank, size, indep) as u32, position: 0 }),
    {
        let seed = compute_seed(rank, size, indep);
        MonteCarlo { indep, rng: MtStream::new(seed) }
    }

    /// An engine standing at the start of the stream of the given seed.
    pub fn with_seed(seed: u32, indep: bool) -> (mc: MonteCarlo)
        ensures
            mc@ == (MonteCarloView { indep, seed, position: 0 }),
    {
        MonteCarlo { indep, rng: MtStream::new(seed) }
    }

    /// Whether the stream is independent per process.
    pub fn indep(&self) -> (b: bool)
        ensures
            b == self@.indep,
    {
        self.indep
    }

    /// The seed the stream started from.
    pub fn seed(&self) -> (s: u32)
        ensures
            s == self@.seed,
    {
        self.rng.seed()
    }

    /// Rewinds the stream to its start: the next values drawn are again the
    /// first values of the stream of the seed.
    pub fn reset(&mut self)
        ensures
            final(self)@ == (MonteCarloView { position: 0, ..old(self)@ }),
    {
        let seed = self.rng.seed();
        self.rng.reseed(seed);
    }

    /// The next `n` raw 32-bit outputs of the stream, in the order drawn: the
    /// MT19937 outputs of the seed from the current position on.
    pub fn draw_u32s(&mut self, n: usize) -> (draws: Vec<u32>)
        ensures
            draws@ == stream_values(old(self)@.seed, old(self)@.position, n as nat),
            final(self)@ == (MonteCarloView { position: old(self)@.position + n as nat, ..old(self)@ }),
    {
        let mut draws: Vec<u32> = Vec::new();
        let mut i: usize = 0;
        while i < n
            invariant
                i <= n,
                draws@ == stream_values(old(self)@.seed, old(self)@.position, i as nat),
                self@ == (MonteCarloView { position: old(self)@.position + i as nat, ..old(self)@ }),
            decreases n - i,
        {
            let x = self.rng.next_u32();
            draws.push(x);
            proof {
                assert(draws@ =~= stream_values(old(self)@.seed, old(self)@.position, (i + 1) as nat));
            }
            i = i + 1;
        }
        draws
    }
}

/// Two engines that stand at the same place in the same stream draw the same
/// values: in particular, engines built with equal arguments do.
pub proof fn law_equal_engines_draw_equal_values(v1: MonteCarloView, v2: MonteCarloView, n: nat)
    requires
        v1.seed == v2.seed,
        v1.position == v2.position,
    ensures
        stream_values(v1.seed, v1.position, n) == stream_values(v2.seed, v2.position, n),
{
}

/// After a reset the engine draws what it drew when it was first built: the
/// first values of the stream of its seed, whatever was drawn in between.
pub proof fn law_reset_rewinds(v: MonteCarloView, n: nat)
    ensures
        stream_values((MonteCarloView { position: 0, ..v }).seed, (MonteCarloView { position: 0, ..v }).position, n)
            == stream_values(v.seed, 0, n),
{
}

} // verus!
