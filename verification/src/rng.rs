//! Seeded random words from `rand`, and the integer noise shapes the
//! devices derive from them.
//!
//! Every stochastic device owns a [`SeededRng`], a deterministic stream of
//! `u64` words: `rand`'s `StdRng` is a pseudo-random generator whose output
//! is a function of the seed alone, so the word at each position can be
//! named and every consumer of the stream verified against that name.

use vstd::prelude::*;

verus! {

use crate::numeric::POWER_LIMIT;

/// The word that `rand::rngs::StdRng`, seeded with `seed` through
/// `seed_from_u64`, returns from its `index`-th call of `next_u64`.
pub uninterp spec fn std_rng_word(seed: u64, index: u64) -> u64;

/// A deterministic word stream: `rand`'s standard generator together with
/// the seed it was built from and the number of words drawn so far.
///
/// The two fields mirroring the generator state are private; only
/// [`SeededRng::new`] and [`SeededRng::next_word`] touch them, which is what
/// ties the opaque generator to the `(seed, position)` model.
pub struct SeededRng {
    inner: rand::rngs::StdRng,
    seed: u64,
    drawn: u64,
}

#[verifier::external_type_specification]
#[verifier::external_body]
pub struct ExStdRng(rand::rngs::StdRng);

impl SeededRng {
    /// The seed this stream was built from.
    pub closed spec fn seed(&self) -> u64 {
        self.seed
    }

    /// How many words have been drawn from this stream.
    pub closed spec fn position(&self) -> u64 {
        self.drawn
    }

    /// Relies on `rand_core::SeedableRng::seed_from_u64` and
    /// `rand::rngs::StdRng`: builds the generator in its documented
    /// reproducible initial state for `seed`.
    #[verifier::external_body]
    pub fn new(seed: u64) -> (r: SeededRng)
        ensures
            r.seed() == seed,
            r.position() == 0,
    {
        SeededRng { inner: rand::SeedableRng::seed_from_u64(seed), seed, drawn: 0 }
    }

    /// Relies on `rand_core::Rng::next_u64` on `StdRng`: a deterministic,
    /// reproducible generator, so the word returned is a function of the
    /// seed and of the position in the stream alone.
    #[verifier::external_body]
    pub fn next_word(&mut self) -> (r: u64)
        requires
            old(self).position() < u64::MAX,
        ensures
            r == std_rng_word(old(self).seed(), old(self).position()),
            final(self).seed() == old(self).seed(),
            final(self).position() == old(self).position() + 1,
    {
        self.drawn += 1;
        rand::Rng::next_u64(&mut self.inner)
    }
}

/// A word folded to the range `[lo, hi]` by its remainder.
pub open spec fn uniform_in_spec(w: u64, lo: u64, hi: u64) -> u64
    recommends
        lo <= hi < u64::MAX,
{
    (lo + w % (hi - lo + 1) as u64) as u64
}

/// Fold a random word to a uniform value in `[lo, hi]`.
pub fn uniform_in(w: u64, lo: u64, hi: u64) -> (r: u64)
    requires
        lo <= hi < u64::MAX,
    ensures
        r == uniform_in_spec(w, lo, hi),
        lo <= r <= hi,
{
    lo + w % (hi - lo + 1)
}

/// The zero-mean noise value, in the same milli scale as `std_milli`,
/// carried by the word `w`: four 16-bit lanes of the word are summed into
/// an approximately Gaussian value which is centred and scaled so that its
/// standard deviation is close to `std_milli`.
pub open spec fn noise_spec(w: u64, std_milli: int) -> int
    recommends
        std_milli >= 0,
{
    let lane0 = w as int % 65536;
    let lane1 = (w as int / 65536) % 65536;
    let lane2 = (w as int / (65536int * 65536)) % 65536;
    let lane3 = (w as int / (65536int * 65536 * 65536)) % 65536;
    let centered = lane0 + lane1 + lane2 + lane3 - 131070;
    let scaled = if centered >= 0 {
        centered * 1000 / 37837
    } else {
        -((-centered) * 1000 / 37837)
    };
    if scaled >= 0 {
        scaled * std_milli / 1000
    } else {
        -((-scaled) * std_milli / 1000)
    }
}

/// Shape a random word into zero-mean noise with standard deviation close
/// to `std_milli` (an approximately Gaussian sum of four uniform lanes).
pub fn noise_from_word(w: u64, std_milli: i64) -> (r: i64)
    requires
        0 <= std_milli <= POWER_LIMIT,
    ensures
        r == noise_spec(w, std_milli as int),
        -4 * std_milli <= r <= 4 * std_milli,
{
    let lane0 = (w % 65536) as i64;
    let lane1 = ((w / 65536) % 65536) as i64;
    let lane2 = ((w / (65536 * 65536)) % 65536) as i64;
    let lane3 = ((w / (65536 * 65536 * 65536)) % 65536) as i64;
    let centered = lane0 + lane1 + lane2 + lane3 - 131070;
    let scaled = if centered >= 0 {
        centered * 1000 / 37837
    } else {
        -((-centered) * 1000 / 37837)
    };
    proof {
        assert(-3465 <= scaled <= 3465);
        let s = std_milli as int;
        assert(forall|m: int| 0 <= m <= 3465 && #[trigger] (m * s) >= 0 ==> m * s / 1000 <= 4 * s
            && 0 <= m * s / 1000) by (nonlinear_arith)
            requires
                s >= 0,
        ;
        if scaled >= 0 {
            vstd::arithmetic::mul::lemma_mul_nonnegative(scaled as int, s);
            vstd::arithmetic::mul::lemma_mul_inequality(scaled as int, 3465, s);
        } else {
            vstd::arithmetic::mul::lemma_mul_nonnegative(-(scaled as int), s);
            vstd::arithmetic::mul::lemma_mul_inequality(-(scaled as int), 3465, s);
        }
    }
    if scaled >= 0 {
        scaled * std_milli / 1000
    } else {
        -((-scaled) * std_milli / 1000)
    }
}

} // verus!
