//! The entropy source: a seeded pseudo-random generator and bounded draws.

use nanorand::Pcg64;
use nanorand::Rng;
use nanorand::SeedableRng;
use vstd::prelude::*;

verus! {

/// `nanorand::Pcg64`, carried as an opaque value: nothing of its state is
/// visible to the proofs.
#[verifier::external_type_specification]
#[verifier::external_body]
pub struct ExPcg64(Pcg64);

/// Seed that a generator is built with before real seed material is mixed in.
pub const PLACEHOLDER_SEED: u128 = 1;

/// The value that a bounded draw makes of a raw one: the raw draw is moved up
/// by `low`, wrapping at `modulus`, and reduced below `high`.
pub open spec fn bounded(raw: int, low: int, high: int, modulus: int) -> int {
    ((raw + low) % modulus) % high
}

/// A bounded draw lies below `high`, whatever was drawn. Where the raw draw,
/// moved up by `low`, stays below `high`, it is that sum and so lies in
/// `[low, high)`; where the sum reaches `high` it may fall below `low`.
pub proof fn lemma_bounded_range(raw: int, low: int, high: int, modulus: int)
    requires
        0 <= raw < modulus,
        0 <= low < modulus,
        0 < high,
    ensures
        0 <= bounded(raw, low, high, modulus) < high,
        raw + low < high && raw + low < modulus ==> low <= bounded(raw, low, high, modulus) < high,
{
    vstd::arithmetic::div_mod::lemma_mod_bound((raw + low) % modulus, high);
    if raw + low < high && raw + low < modulus {
        vstd::arithmetic::div_mod::lemma_small_mod((raw + low) as nat, modulus as nat);
        vstd::arithmetic::div_mod::lemma_small_mod((raw + low) as nat, high as nat);
    }
}

/// Every value below `high` is the bounded draw of some raw draw: that a
/// bounded draw lies below `high` is all that can be said of it without
/// knowing the raw one.
pub proof fn lemma_bounded_reaches(value: int, low: int, high: int, modulus: int)
    requires
        0 <= value < high <= modulus,
        0 <= low < modulus,
    ensures
        exists|raw: int| 0 <= raw < modulus && #[trigger] bounded(raw, low, high, modulus) == value,
{
    let raw = if value >= low {
        value - low
    } else {
        value - low + modulus
    };
    vstd::arithmetic::div_mod::lemma_small_mod(value as nat, modulus as nat);
    vstd::arithmetic::div_mod::lemma_small_mod(value as nat, high as nat);
    if value < low {
        vstd::arithmetic::div_mod::lemma_mod_add_multiples_vanish(value, modulus);
    }
    assert(bounded(raw, low, high, modulus) == value);
}

/// Calls `nanorand::Pcg64::new_seed`. Nothing is claimed of the generator
/// that comes back.
#[verifier::external_body]
fn pcg64_new_seed(seed: u128) -> Pcg64 {
    Pcg64::new_seed(seed)
}

/// Calls `nanorand::SeedableRng::reseed` on a `Pcg64`. Nothing is claimed of
/// the generator afterwards.
#[verifier::external_body]
fn pcg64_reseed(rng: &mut Pcg64, seed: [u8; 16]) {
    rng.reseed(seed)
}

/// Calls `nanorand::Rng::generate::<u8>` on a `Pcg64`. The byte may be any
/// byte, and the generator moves on: nothing more is claimed.
#[verifier::external_body]
fn pcg64_generate_u8(rng: &mut Pcg64) -> u8 {
    rng.generate::<u8>()
}

/// Calls `nanorand::Rng::generate::<u32>` on a `Pcg64`. The word may be any
/// word, and the generator moves on: nothing more is claimed.
#[verifier::external_body]
fn pcg64_generate_u32(rng: &mut Pcg64) -> u32 {
    rng.generate::<u32>()
}

/// Reduces a raw byte into `[0, high)` after moving it up by `low`.
///
/// The mapping is biased and is not a draw from `[low, high)`: the sum is
/// reduced modulo `high`, so it falls below `low` whenever it reaches `high`.
pub fn bounded_u8(raw: u8, low: u8, high: u8) -> (r: u8)
    requires
        high > 0,
    ensures
        r == bounded(raw as int, low as int, high as int, 0x100),
        r < high,
        raw + low < high ==> r == raw + low,
{
    proof {
        if raw + low < high {
            vstd::arithmetic::div_mod::lemma_small_mod((raw + low) as nat, high as nat);
        }
    }
    raw.wrapping_add(low) % high
}

/// Reduces a raw word into `[0, high)` after moving it up by `low`.
///
/// The mapping is biased and is not a draw from `[low, high)`: the sum is
/// reduced modulo `high`, so it falls below `low` whenever it reaches `high`.
pub fn bounded_u32(raw: u32, low: u32, high: u32) -> (r: u32)
    requires
        high > 0,
    ensures
        r == bounded(raw as int, low as int, high as int, 0x1_0000_0000),
        r < high,
        raw + low < high ==> r == raw + low,
{
    proof {
        if raw + low < high {
            vstd::arithmetic::div_mod::lemma_small_mod((raw + low) as nat, high as nat);
        }
    }
    raw.wrapping_add(low) % high
}

/// What can be seen of an entropy source: the seed material it was made
/// from and the number of raw draws taken from it since.
pub struct RandView {
    pub seed: Seq<u8>,
    pub drawn: nat,
}

impl RandView {
    /// The source after one more raw draw.
    pub open spec fn drawn_once(self) -> RandView {
        RandView { drawn: self.drawn + 1, ..self }
    }
}

/// The entropy source.
pub struct Rand {
    rng: Pcg64,
    seed: Ghost<Seq<u8>>,
    drawn: Ghost<nat>,
}

impl View for Rand {
    type V = RandView;

    closed spec fn view(&self) -> RandView {
        RandView { seed: self.seed@, drawn: self.drawn@ }
    }
}

/// Whether a source that was there has had exactly one raw draw taken from
/// it.
pub open spec fn drew_once(before: Option<Rand>, after: Option<Rand>) -> bool {
    &&& before matches Some(b)
    &&& after matches Some(a)
    &&& a@ == b@.drawn_once()
}

impl Rand {
    /// Builds the source from 16 bytes of seed material.
    ///
    /// The generator is first made with [`PLACEHOLDER_SEED`], so that one
    /// exists whatever happens to the seed material, and is then reseeded.
    pub fn init(seed: [u8; 16]) -> (rand: Rand)
        ensures
            rand@ == (RandView { seed: seed@, drawn: 0 }),
    {
        let mut rng = pcg64_new_seed(PLACEHOLDER_SEED);
        pcg64_reseed(&mut rng, seed);
        Rand { rng, seed: Ghost(seed@), drawn: Ghost(0) }
    }

    /// Draws a byte below `high`: one raw byte put through [`bounded_u8`].
    pub fn rand_u8(&mut self, low: u8, high: u8) -> (r: u8)
        requires
            high > 0,
        ensures
            r < high,
            final(self)@ == old(self)@.drawn_once(),
    {
        let raw: u8 = pcg64_generate_u8(&mut self.rng);
        proof {
            self.drawn@ = self.drawn@ + 1;
        }
        bounded_u8(raw, low, high)
    }

    /// Draws a word below `high`: one raw word put through [`bounded_u32`].
    pub fn rand_u32(&mut self, low: u32, high: u32) -> (r: u32)
        requires
            high > 0,
        ensures
            r < high,
            final(self)@ == old(self)@.drawn_once(),
    {
        let raw: u32 = pcg64_generate_u32(&mut self.rng);
        proof {
            self.drawn@ = self.drawn@ + 1;
        }
        bounded_u32(raw, low, high)
    }
}

} // verus!
