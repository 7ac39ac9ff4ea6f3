use rand::rngs::OsRng;
use rand::rngs::StdRng;
use rand::Rng;
use rand::RngCore;
use rand::SeedableRng;
use vstd::prelude::*;

verus! {

/// The generator of the `rand` crate that backs [`RandomSource`]. Its state is
/// opaque to the verifier: values of this type are only carried around.
#[verifier::external_type_specification]
#[verifier::external_body]
pub struct ExStdRng(rand::rngs::StdRng);

/// The error `rand` reports when a generator cannot be seeded. Opaque to the
/// verifier.
#[verifier::external_type_specification]
#[verifier::external_body]
pub struct ExRandError(rand::Error);

/// Trusted: `StdRng::seed_from_u64` of `rand`. It expands the seed and never
/// fails; nothing is claimed about the generator it returns.
#[verifier::external_body]
fn std_rng_from_seed(seed: u64) -> StdRng {
    StdRng::seed_from_u64(seed)
}

/// Trusted: `StdRng::from_rng` of `rand`, fed with `OsRng`. It reports an
/// error instead of panicking when the operating system has no entropy to
/// give; nothing is claimed about which of the two comes back.
#[verifier::external_body]
fn std_rng_from_os() -> Result<StdRng, rand::Error> {
    StdRng::from_rng(OsRng)
}

/// Trusted: `RngCore::next_u32` of `rand`, on `StdRng`. Any 32-bit value may
/// come back, so nothing is claimed about it.
#[verifier::external_body]
fn std_rng_next_u32(rng: &mut StdRng) -> u32 {
    rng.next_u32()
}

/// Trusted: `Rng::gen_range` of `rand`, on `StdRng`, for the half-open range
/// `0..bound` of `usize`. `gen_range` panics on an empty range, hence the
/// precondition; for a non-empty range it returns a member of the range.
#[verifier::external_body]
fn std_rng_below(rng: &mut StdRng, bound: usize) -> (r: usize)
    requires
        bound > 0,
    ensures
        r < bound,
{
    rng.gen_range(0..bound)
}

/// Seed used when the operating system cannot provide entropy.
pub const FALLBACK_SEED: u64 = 0x0DDB_1A5E_5BAD_5EED;

/// A source of pseudo-random numbers that is passed explicitly to every
/// operation that needs randomness.
///
/// A source built with [`RandomSource::from_seed`] replays the same stream
/// for the same seed, which makes genomes, mutations and placements
/// reproducible. The contracts of this library never depend on which numbers
/// a source yields: they hold for every possible stream.
pub struct RandomSource {
    rng: StdRng,
}

impl RandomSource {
    /// A source that replays the stream determined by `seed`.
    pub fn from_seed(seed: u64) -> RandomSource {
        RandomSource { rng: std_rng_from_seed(seed) }
    }

    /// A source seeded by the operating system. Should the operating system
    /// be unable to provide entropy, the source is seeded with
    /// [`FALLBACK_SEED`] instead, so that construction never fails.
    pub fn from_entropy() -> RandomSource {
        match std_rng_from_os() {
            Ok(rng) => RandomSource { rng },
            Err(_) => RandomSource::from_seed(FALLBACK_SEED),
        }
    }

    /// The next 32 random bits.
    pub fn next_u32(&mut self) -> u32 {
        std_rng_next_u32(&mut self.rng)
    }

    /// A random index below `bound`.
    pub fn below(&mut self, bound: usize) -> (index: usize)
        requires
            bound > 0,
        ensures
            index < bound,
    {
        std_rng_below(&mut self.rng, bound)
    }
}

} // verus!
