use rand::Rng;
use vstd::prelude::*;

verus! {

/// The generator that `rand` keeps for each thread: `rand::rngs::ThreadRng`.
/// It is carried from `thread_rng` to `gen_range`; nothing inside it is
/// visible to the verifier.
#[verifier::external_type_specification]
#[verifier::external_body]
pub struct ExThreadRng(rand::rngs::ThreadRng);

/// `rand::thread_rng` takes nothing and hands out the calling thread's
/// generator, which the operating system seeds. Nothing is claimed of the
/// generator. (The call panics where the system has no entropy to give; no
/// argument could rule that out.)
pub assume_specification[ rand::thread_rng ]() -> (rng: rand::rngs::ThreadRng);

/// Calls `rand::Rng::gen_range` on the generator with the half-open range
/// `low..high`.
///
/// Believed, not proved: the value lies in the range. `rand` documents that,
/// and that an empty range panics, which the precondition rules out. Which
/// value of the range comes, and how often, is left open: two calls with the
/// same bounds may differ. (The generator reseeds itself from the operating
/// system now and then, and the call panics where the system has no entropy
/// to give at that moment; no argument could rule that out.)
#[verifier::external_body]
pub(crate) fn gen_range(rng: &mut rand::rngs::ThreadRng, low: u32, high: u32) -> (r: u32)
    requires
        low < high,
    ensures
        low <= r < high,
{
    rng.gen_range(low..high)
}

} // verus!
