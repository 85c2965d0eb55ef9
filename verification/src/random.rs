//! Random sampling utilities.
//!
//! Every random quantity in the renderer is drawn from a `SampleRng`, a
//! ChaCha-based generator seeded per sample. The generator's word stream is
//! a pure function of the seed (`chacha8_word`), so every sampling function
//! here has an exact contract over that stream and the whole render is
//! reproducible bit for bit from the seeds alone.

use vstd::prelude::*;

use rand::{RngCore, SeedableRng};
use rand_chacha::ChaCha8Rng;

use crate::fixed::{fx_add, fx_mul, fx_sub, Fx};
use crate::interval::Interval;
use crate::vec3::Vec3;

verus! {

#[verifier::external_type_specification]
#[verifier::external_body]
pub struct ExChaCha8Rng(ChaCha8Rng);

/// The `k`-th 32-bit word (counting from zero) that a ChaCha generator with
/// eight rounds emits after being seeded from `seed`. The stream is a pure,
/// platform-independent function of the seed; this name stands for it, and
/// the trusted items below are the only places that speak for it.
pub uninterp spec fn chacha8_word(seed: u64, k: int) -> u32;

/// Relies on `rand_chacha::ChaCha8Rng` via `SeedableRng::seed_from_u64`:
/// seeding is a pure function of the `u64` seed, so the returned generator
/// stands at the start of the deterministic stream named by `chacha8_word`.
#[verifier::external_body]
fn chacha_from_seed(seed: u64) -> ChaCha8Rng {
    ChaCha8Rng::seed_from_u64(seed)
}

/// A deterministic per-sample random source: a ChaCha generator with eight
/// rounds together with the seed it was built from and (in ghost state) how
/// many words it has already emitted. The fields are private so that the
/// generator state always matches the recorded seed and position.
pub struct SampleRng {
    inner: ChaCha8Rng,
    seed: u64,
    drawn: Ghost<int>,
}

impl SampleRng {
    /// The seed this generator was built from.
    pub closed spec fn seed(self) -> u64 {
        self.seed
    }

    /// How many words have been drawn so far.
    pub closed spec fn drawn(self) -> int {
        self.drawn@
    }

    /// A fresh generator standing at the start of the stream for `seed`.
    pub fn new(seed: u64) -> (r: SampleRng)
        ensures
            r.seed() == seed,
            r.drawn() == 0,
    {
        SampleRng { inner: chacha_from_seed(seed), seed, drawn: Ghost(0int) }
    }

    /// Relies on `rand_chacha::ChaCha8Rng` via `RngCore::next_u32`: the
    /// generator emits the next word of the deterministic, portable stream
    /// that `chacha8_word` names.
    #[verifier::external_body]
    pub fn next_word(&mut self) -> (w: u32)
        ensures
            final(self).seed() == old(self).seed(),
            final(self).drawn() == old(self).drawn() + 1,
            w == chacha8_word(old(self).seed(), old(self).drawn()),
    {
        self.inner.next_u32()
    }
}

/// Mantissa of the unit-range scalar made from one stream word: the word's
/// sixteen high bits, a value in `[0, 1)`.
pub open spec fn word_unit(w: u32) -> int {
    w as int / 65536
}

/// The scalar in `[0, 1)` made from one stream word.
pub fn scalar_from_word(rng: &mut SampleRng) -> (r: Fx)
    ensures
        final(rng).seed() == old(rng).seed(),
        final(rng).drawn() == old(rng).drawn() + 1,
        r.raw == word_unit(chacha8_word(old(rng).seed(), old(rng).drawn())),
        0 <= r.raw < 65536,
{
    let w = rng.next_word();
    Fx { raw: (w / 65536u32) as i64 }
}

/// The scalar drawn uniformly from `interval` by one stream word:
/// `min + size * u` for a unit-range `u`.
pub open spec fn spec_uniform_in(iv: Interval, w: u32) -> Fx {
    Fx {
        raw: fx_add(
            iv.min.raw as int,
            fx_mul(fx_sub(iv.max.raw as int, iv.min.raw as int), word_unit(w)),
        ) as i64,
    }
}

/// The vector whose components come from three consecutive stream words,
/// each unit-range or drawn from `interval`.
pub open spec fn spec_random_vector(seed: u64, k: int, interval: Option<Interval>) -> Vec3 {
    match interval {
        None => Vec3 {
            x: Fx { raw: word_unit(chacha8_word(seed, k)) as i64 },
            y: Fx { raw: word_unit(chacha8_word(seed, k + 1)) as i64 },
            z: Fx { raw: word_unit(chacha8_word(seed, k + 2)) as i64 },
        },
        Some(iv) => Vec3 {
            x: spec_uniform_in(iv, chacha8_word(seed, k)),
            y: spec_uniform_in(iv, chacha8_word(seed, k + 1)),
            z: spec_uniform_in(iv, chacha8_word(seed, k + 2)),
        },
    }
}

/// A vector with three freshly drawn components: unit-range ones when no
/// interval is given, else uniform draws from the interval.
pub fn random_vector(rng: &mut SampleRng, interval: Option<Interval>) -> (v: Vec3)
    ensures
        final(rng).seed() == old(rng).seed(),
        final(rng).drawn() == old(rng).drawn() + 3,
        v == spec_random_vector(old(rng).seed(), old(rng).drawn(), interval),
{
    match interval {
        None => {
            let x = scalar_from_word(rng);
            let y = scalar_from_word(rng);
            let z = scalar_from_word(rng);
            Vec3 { x, y, z }
        },
        Some(iv) => {
            let size = iv.max.sub(iv.min);
            let x = iv.min.add(size.mul(scalar_from_word(rng)));
            let y = iv.min.add(size.mul(scalar_from_word(rng)));
            let z = iv.min.add(size.mul(scalar_from_word(rng)));
            Vec3 { x, y, z }
        },
    }
}

/// Rejection sampling ran out of candidates: a fatal invariant violation
/// (each candidate is accepted with probability over one half, so the cap
/// is reached with vanishing probability). Verified code cannot panic, so
/// the condition is surfaced as this value and callers pass it on.
#[derive(Clone, Copy, Debug, PartialEq, Eq, Structural)]
pub struct SampleExhausted;

/// The symmetric interval `[-1, 1]` that rejection sampling draws from.
pub open spec fn spec_sym_interval() -> Interval {
    Interval { min: Fx { raw: -65536i64 }, max: Fx { raw: 65536i64 } }
}

/// How many candidates rejection sampling examines before giving up.
pub const REJECTION_CAP: u32 = 64;

/// What rejection sampling toward the unit ball returns, starting at word
/// `k` with `tries` candidates left: the first candidate whose squared
/// length lies strictly between zero and one (so the sample can later be
/// normalized without dividing by a zero length), paired with the stream
/// position after it; `None` if every candidate is rejected.
pub open spec fn spec_unit_ball_from(seed: u64, k: int, tries: nat) -> (Option<Vec3>, int)
    decreases tries,
{
    if tries == 0 {
        (None::<Vec3>, k)
    } else {
        let c = spec_random_vector(seed, k, Some(spec_sym_interval()));
        if 0 < c.spec_length2().raw < 65536 {
            (Some(c), k + 3)
        } else {
            spec_unit_ball_from(seed, k + 3, (tries - 1) as nat)
        }
    }
}

/// What rejection sampling toward the unit ball returns at word `k`.
pub open spec fn spec_unit_ball(seed: u64, k: int) -> (Option<Vec3>, int) {
    spec_unit_ball_from(seed, k, REJECTION_CAP as nat)
}

/// A vector inside the unit ball (squared length strictly between zero and
/// one), by rejection sampling over `[-1, 1)^3`; `None` when the candidate
/// cap is exhausted, which callers treat as a fatal invariant violation.
#[verifier::loop_isolation(false)]
pub fn random_vector_in_unit_sphere(rng: &mut SampleRng) -> (v: Option<Vec3>)
    ensures
        final(rng).seed() == old(rng).seed(),
        (v, final(rng).drawn()) == spec_unit_ball(old(rng).seed(), old(rng).drawn()),
        v matches Some(u) ==> 0 < u.spec_length2().raw < 65536,
{
    let interval = Interval::new(Fx { raw: -65536 }, Fx { raw: 65536 });
    let mut tries: u32 = REJECTION_CAP;
    let ghost seed = rng.seed();
    let ghost k0 = rng.drawn();
    loop
        invariant
            0 <= tries <= REJECTION_CAP,
            rng.seed() == seed,
            interval == spec_sym_interval(),
            spec_unit_ball(seed, k0) == spec_unit_ball_from(seed, rng.drawn(), tries as nat),
        decreases tries,
    {
        if tries == 0 {
            return None;
        }
        let candidate = random_vector(rng, Some(interval));
        let len2 = candidate.length2();
        if 0 < len2.raw && len2.raw < 65536 {
            return Some(candidate);
        }
        tries = tries - 1;
    }
}

/// What rejection sampling toward the unit disk returns, starting at word
/// `k` with `tries` candidates left: the first pair of coordinates with
/// squared length below one, as a vector in the z = 0 plane, paired with
/// the stream position after it; `None` if every candidate is rejected.
pub open spec fn spec_unit_disk_from(seed: u64, k: int, tries: nat) -> (Option<Vec3>, int)
    decreases tries,
{
    if tries == 0 {
        (None::<Vec3>, k)
    } else {
        let c = Vec3 {
            x: spec_uniform_in(spec_sym_interval(), chacha8_word(seed, k)),
            y: spec_uniform_in(spec_sym_interval(), chacha8_word(seed, k + 1)),
            z: Fx { raw: 0i64 },
        };
        if c.spec_length2().raw < 65536 {
            (Some(c), k + 2)
        } else {
            spec_unit_disk_from(seed, k + 2, (tries - 1) as nat)
        }
    }
}

/// What rejection sampling toward the unit disk returns at word `k`.
pub open spec fn spec_unit_disk(seed: u64, k: int) -> (Option<Vec3>, int) {
    spec_unit_disk_from(seed, k, REJECTION_CAP as nat)
}

/// A point of the unit disk in the z = 0 plane (squared length below one),
/// for depth-of-field lens sampling: two fresh coordinates per candidate,
/// by rejection; `None` when the candidate cap is exhausted.
#[verifier::loop_isolation(false)]
pub fn random_vector_in_unit_disk(rng: &mut SampleRng) -> (v: Option<Vec3>)
    ensures
        final(rng).seed() == old(rng).seed(),
        (v, final(rng).drawn()) == spec_unit_disk(old(rng).seed(), old(rng).drawn()),
        v matches Some(u) ==> u.spec_length2().raw < 65536 && u.z.raw == 0,
{
    let interval = Interval::new(Fx { raw: -65536 }, Fx { raw: 65536 });
    let size = interval.max.sub(interval.min);
    let mut tries: u32 = REJECTION_CAP;
    let ghost seed = rng.seed();
    let ghost k0 = rng.drawn();
    loop
        invariant
            0 <= tries <= REJECTION_CAP,
            rng.seed() == seed,
            interval == spec_sym_interval(),
            size.raw == 131072,
            spec_unit_disk(seed, k0) == spec_unit_disk_from(seed, rng.drawn(), tries as nat),
        decreases tries,
    {
        if tries == 0 {
            return None;
        }
        let x = interval.min.add(size.mul(scalar_from_word(rng)));
        let y = interval.min.add(size.mul(scalar_from_word(rng)));
        let candidate = Vec3 { x, y, z: Fx { raw: 0 } };
        if candidate.length2().raw < 65536 {
            return Some(candidate);
        }
        tries = tries - 1;
    }
}

/// What drawing a unit vector returns: a unit-ball sample, normalized, or
/// `None` on exhaustion.
pub open spec fn spec_unit_vector(seed: u64, k: int) -> (Option<Vec3>, int) {
    let (v, k2) = spec_unit_ball(seed, k);
    match v {
        Some(u) => (Some(u.spec_normalize()), k2),
        None => (None::<Vec3>, k2),
    }
}

/// A vector of (approximately) unit length: a unit-ball sample, normalized.
/// The accepted sample has positive squared length, so the normalization
/// never divides by zero and the result is never the zero vector; every
/// component stays within plus or minus two hundred fifty-six units.
/// `None` surfaces rejection exhaustion.
pub fn random_unit_vector(rng: &mut SampleRng) -> (v: Option<Vec3>)
    ensures
        final(rng).seed() == old(rng).seed(),
        (v, final(rng).drawn()) == spec_unit_vector(old(rng).seed(), old(rng).drawn()),
        v matches Some(u) ==> u != Vec3::spec_zero() && u.spec_bounded_by(16777216),
{
    match random_vector_in_unit_sphere(rng) {
        Some(ball) => {
            proof {
                crate::vec3::lemma_normalize_in_ball(ball);
            }
            Some(ball.normalize())
        },
        None => None,
    }
}

/// A unit vector flipped, if needed, into the hemisphere around `normal`:
/// its inner product with the normal is never negative. `None` surfaces
/// rejection exhaustion.
pub fn random_vector_on_hemisphere(rng: &mut SampleRng, normal: &Vec3) -> (v: Option<Vec3>)
    ensures
        final(rng).seed() == old(rng).seed(),
        ({
            let (u, k2) = spec_unit_vector(old(rng).seed(), old(rng).drawn());
            &&& final(rng).drawn() == k2
            &&& v == match u {
                Some(w) => if w.spec_dot(*normal).raw > 0 {
                    Some(w)
                } else {
                    Some(w.spec_neg())
                },
                None => None::<Vec3>,
            }
        }),
        v matches Some(w) ==> w.spec_dot(*normal).raw >= 0,
{
    match random_unit_vector(rng) {
        Some(vector) => {
            if vector.dot(*normal).raw > 0 {
                Some(vector)
            } else {
                proof {
                    assert(vector.spec_wf());
                    crate::vec3::lemma_dot_neg(vector, *normal);
                }
                Some(vector.neg())
            }
        },
        None => None,
    }
}

} // verus!
