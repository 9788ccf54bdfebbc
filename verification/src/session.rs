//! Session identifiers and the generator they are drawn from.

use crate::piece::Digest;
use rand_xorshift::XorShiftRng;
use vstd::prelude::*;

verus! {

/// The generator that hands out a session's identifiers. Its state is never
/// read here.
#[verifier::external_type_specification]
#[verifier::external_body]
pub struct ExXorShiftRng(XorShiftRng);

/// Seed of the generator that every lifecycle of the harness starts from.
pub const TEST_SEED: [u8; 16] = [
    0x59, 0x62, 0xbe, 0x5d, 0x76, 0x3d, 0x31, 0x8d, 0x17, 0xdb, 0x37, 0x32, 0x54, 0x06, 0xbc, 0xe5,
];

/// The identifiers of one sealing session.
#[derive(Clone, Copy, Debug, PartialEq, Eq)]
pub struct SessionIds {
    pub sector_id: u64,
    pub prover_id: Digest,
    pub ticket: Digest,
    pub seed: Digest,
}

/// The four 32-bit words that are the whole state of a generator, in the
/// order in which the generator holds them.
pub uninterp spec fn generator_words(rng: XorShiftRng) -> Seq<u32>;

/// The `i`-th 32-bit word of a seed, read with the low byte first.
pub open spec fn seed_word(seed: Seq<u8>, i: int) -> u32 {
    (seed[4 * i] + seed[4 * i + 1] * 0x100 + seed[4 * i + 2] * 0x1_0000 + seed[4 * i + 3]
        * 0x100_0000) as u32
}

/// The state that a 16-byte seed gives a generator: the seed's four words,
/// or four times `0xBAD5EED` for the seed of zeros, which the generator
/// cannot run on.
pub open spec fn seeded_words(seed: Seq<u8>) -> Seq<u32> {
    let words = Seq::new(4, |i: int| seed_word(seed, i));
    if forall|i: int| 0 <= i < 4 ==> words[i] == 0 {
        Seq::new(4, |i: int| 0xBAD_5EEDu32)
    } else {
        words
    }
}

/// What drawing one field element does to a generator in state `words`:
/// the bytes of the element, as `blstrs::Scalar::random` samples it and the
/// tree hasher's domain encodes it, and the state the generator is left in.
pub uninterp spec fn field_draw(words: Seq<u32>) -> (Digest, Seq<u32>);

/// Makes a generator from a seed with `XorShiftRng::from_seed`, which
/// reads the seed as four little-endian words and takes them for its state,
/// replacing a seed of zeros by a preset one: [`seeded_words`].
#[verifier::external_body]
fn seeded_rng(seed: [u8; 16]) -> (rng: XorShiftRng)
    ensures
        generator_words(rng) == seeded_words(seed@),
{
    <XorShiftRng as rand::SeedableRng>::from_seed(seed)
}

/// Draws a field element with `blstrs::Scalar::random` and returns its
/// canonical little-endian bytes, as the tree hasher's domain holds them.
///
/// Sampling takes 64-bit words from the generator until four of them, the
/// top bit masked away, are below the field's modulus. It reads nothing but
/// the generator, so both the element and the state the generator ends in
/// are decided by the state it began in: [`field_draw`].
#[verifier::external_body]
fn random_prover_id(rng: &mut XorShiftRng) -> (prover_id: Digest)
    ensures
        prover_id == field_draw(generator_words(*old(rng))).0,
        generator_words(*final(rng)) == field_draw(generator_words(*old(rng))).1,
{
    let element = <blstrs::Scalar as ff::Field>::random(&mut *rng);
    let domain = filecoin_proofs::DefaultTreeDomain::from(element);
    let mut prover_id = [0u8; 32];
    prover_id.copy_from_slice(AsRef::<[u8]>::as_ref(&domain));
    prover_id
}

/// What drawing 32 bytes does to a generator in state `words`: the bytes,
/// as `rand::Rng::gen` fills an array from the generator's output, and the
/// state the generator is left in.
pub uninterp spec fn digest_draw(words: Seq<u32>) -> (Digest, Seq<u32>);

/// What drawing a 64-bit number does to a generator in state `words`: the
/// number, as `rand::Rng::gen` takes it from the generator's output, and
/// the state the generator is left in.
pub uninterp spec fn sector_draw(words: Seq<u32>) -> (u64, Seq<u32>);

/// Draws 32 bytes with `rand::Rng::gen`, which asks the generator for one
/// byte after the other and reads nothing else: [`digest_draw`].
#[verifier::external_body]
fn random_digest(rng: &mut XorShiftRng) -> (digest: Digest)
    ensures
        digest == digest_draw(generator_words(*old(rng))).0,
        generator_words(*final(rng)) == digest_draw(generator_words(*old(rng))).1,
{
    rand::Rng::gen(rng)
}

/// Draws a sector number with `rand::Rng::gen`, which asks the generator
/// for 64 bits and reads nothing else: [`sector_draw`].
#[verifier::external_body]
fn random_sector_id(rng: &mut XorShiftRng) -> (sector_id: u64)
    ensures
        sector_id == sector_draw(generator_words(*old(rng))).0,
        generator_words(*final(rng)) == sector_draw(generator_words(*old(rng))).1,
{
    rand::Rng::gen::<u64>(rng)
}

/// The session that a generator in state `words` gives a prover, and the
/// state it is left in: the ticket is drawn first, then the seed, then the
/// sector number.
pub open spec fn drawn_session(words: Seq<u32>, prover_id: Digest) -> (SessionIds, Seq<u32>) {
    let ticket = digest_draw(words);
    let seed = digest_draw(ticket.1);
    let sector = sector_draw(seed.1);
    (SessionIds { sector_id: sector.0, prover_id, ticket: ticket.0, seed: seed.0 }, sector.1)
}

/// The sum of two numbers in 64 bits, starting over from zero where it
/// leaves them.
pub open spec fn wrapping_sum(a: u64, b: u64) -> u64 {
    if a + b > u64::MAX {
        (a + b - u64::MAX - 1) as u64
    } else {
        (a + b) as u64
    }
}

/// The session of the `run`-th lifecycle of a process, made from a drawn
/// session: the sector number moves on by the run's number, so that runs
/// that draw the same session still seal different sectors.
pub open spec fn numbered(ids: SessionIds, run: u64) -> SessionIds {
    SessionIds { sector_id: wrapping_sum(ids.sector_id, run), ..ids }
}

impl SessionIds {
    /// Gives the session the sector number of the `run`-th lifecycle: see
    /// [`numbered`].
    pub fn for_run(self, run: u64) -> (ids: SessionIds)
        ensures
            ids == numbered(self, run),
    {
        let sector_id = if self.sector_id <= u64::MAX - run {
            self.sector_id + run
        } else {
            self.sector_id - (u64::MAX - run) - 1
        };
        SessionIds { sector_id, prover_id: self.prover_id, ticket: self.ticket, seed: self.seed }
    }
}

/// The generator of the harness, seeded with [`TEST_SEED`], together with
/// the prover's identifier, which is the first thing drawn from it: the
/// bytes of the first field element that the seeded generator gives. The
/// generator comes back in the state that this one draw has left it in, so
/// that a session drawn from it follows the prover in the same stream.
pub fn seeded_prover() -> (drawn: (XorShiftRng, Digest))
    ensures
        drawn.1 == field_draw(seeded_words(TEST_SEED@)).0,
        generator_words(drawn.0) == field_draw(seeded_words(TEST_SEED@)).1,
{
    let mut rng = seeded_rng(TEST_SEED);
    let prover_id = random_prover_id(&mut rng);
    (rng, prover_id)
}

/// Draws the remaining identifiers of a session for a given prover: the
/// ticket first, then the seed, then the sector number.
pub fn draw_session(rng: &mut XorShiftRng, prover_id: Digest) -> (ids: SessionIds)
    ensures
        ids == drawn_session(generator_words(*old(rng)), prover_id).0,
        generator_words(*final(rng)) == drawn_session(generator_words(*old(rng)), prover_id).1,
{
    let ticket = random_digest(rng);
    let seed = random_digest(rng);
    let sector_id = random_sector_id(rng);
    SessionIds { sector_id, prover_id, ticket, seed }
}

} // verus!
