//! Pieces: the client data that goes into a sector, and the checks on what
//! comes back out of it.

use crate::config::MAX_SECTOR_SIZE;
use vstd::prelude::*;

verus! {

/// The error type of the proving library's fallible calls. Its content is
/// never read here.
#[verifier::external_type_specification]
#[verifier::external_body]
pub struct ExAnyhowError(anyhow::Error);

/// A 32-byte digest: a commitment, an identifier, a ticket or a seed.
pub type Digest = [u8; 32];

/// Number of payload bytes that `padded` bytes of sector space hold.
///
/// Sector space is a run of 32-byte field elements, each of which carries
/// 254 bits of payload. A trailing partial element carries payload only.
/// The sum is rounded down to whole bytes.
pub open spec fn unpadded_capacity(padded: nat) -> nat {
    ((padded / 32) * 254 + (padded % 32) * 8) / 8
}

/// Whether a byte count is within what the proving library converts
/// without overflow or rounding on this machine.
pub open spec fn convertible(bytes: u64) -> bool {
    bytes <= MAX_SECTOR_SIZE && bytes * 8 <= usize::MAX
}

/// A piece never holds more than the sector space it is cut for.
pub proof fn lemma_capacity_bounded(padded: nat)
    ensures
        unpadded_capacity(padded) <= padded,
{
    let q = padded / 32;
    let r = padded % 32;
    assert(q * 254 + r * 8 <= (q * 32 + r) * 8);
}

/// What the proving library knows of a piece: its commitment and its
/// unpadded size in bytes.
#[derive(Clone, Copy, Debug, PartialEq, Eq)]
pub struct PieceInfo {
    pub commitment: Digest,
    pub size: u64,
}

/// A run of `length` unpadded bytes that starts `offset` bytes into a piece.
#[derive(Clone, Copy, Debug, PartialEq, Eq, Structural)]
pub struct ByteRange {
    pub offset: u64,
    pub length: u64,
}

/// Converts a padded byte count to the unpadded count through
/// `filecoin_proofs::UnpaddedBytesAmount::from(PaddedBytesAmount)`.
///
/// That conversion hands the count to `fr32::to_unpadded_bytes`, which
/// multiplies it by eight, maps every full 256 bits to 254, keeps the rest,
/// and divides by eight in floating point, rounding down. Within
/// [`convertible`] the product fits the machine word and every intermediate
/// value is an integer below 2^53, so the result is [`unpadded_capacity`].
#[verifier::external_body]
fn unpadded_bytes(padded: u64) -> (unpadded: u64)
    requires
        convertible(padded),
    ensures
        unpadded as nat == unpadded_capacity(padded as nat),
{
    filecoin_proofs::UnpaddedBytesAmount::from(filecoin_proofs::PaddedBytesAmount(padded)).0
}

/// Number of bytes in the one piece that fills a sector of `sector_size`
/// bytes, or `None` for a size beyond what this machine converts.
pub fn piece_size(sector_size: u64) -> (size: Option<u64>)
    ensures
        size is Some <==> convertible(sector_size),
        size matches Some(n) ==> n as nat == unpadded_capacity(sector_size as nat),
{
    if sector_size <= MAX_SECTOR_SIZE && sector_size <= usize::MAX as u64 / 8 {
        Some(unpadded_bytes(sector_size))
    } else {
        None
    }
}

/// Draws one byte from `rand::random`, the thread-local generator of the
/// `rand` crate. Any byte may come back.
#[verifier::external_body]
fn random_byte() -> (byte: u8) {
    rand::random::<u8>()
}

/// Fills a buffer with `count` random bytes.
pub fn random_bytes(count: u64) -> (bytes: Vec<u8>)
    ensures
        bytes@.len() == count,
{
    let mut bytes: Vec<u8> = Vec::new();
    let mut filled: u64 = 0;
    while filled < count
        invariant
            filled <= count,
            bytes@.len() == filled,
        decreases count - filled,
    {
        bytes.push(random_byte());
        filled = filled + 1;
    }
    bytes
}

/// Makes up the content of the piece that fills a sector of `sector_size`
/// bytes: as many random bytes as the sector has room for. There is no
/// piece for a sector beyond what this machine converts.
pub fn generate_piece_bytes(sector_size: u64) -> (bytes: Option<Vec<u8>>)
    ensures
        bytes is Some <==> convertible(sector_size),
        bytes matches Some(piece) ==> piece@.len() == unpadded_capacity(sector_size as nat),
{
    match piece_size(sector_size) {
        Some(number_of_bytes_in_piece) => Some(random_bytes(number_of_bytes_in_piece)),
        None => None,
    }
}

/// Compares two digests byte by byte.
pub fn digest_eq(a: &Digest, b: &Digest) -> (same: bool)
    ensures
        same == (*a == *b),
{
    let mut i: usize = 0;
    while i < 32
        invariant
            i <= 32,
            forall|j: int| 0 <= j < i ==> a[j] == b[j],
        decreases 32 - i,
    {
        if a[i] != b[i] {
            return false;
        }
        i = i + 1;
    }
    assert(*a =~= *b);
    true
}

/// The digest of 32 zero bytes, which stands for "no commitment".
pub open spec fn is_zero_digest(digest: Digest) -> bool {
    forall|i: int| 0 <= i < 32 ==> digest[i] == 0
}

/// Tells whether a digest is all zero bytes.
pub fn digest_is_zero(digest: &Digest) -> (zero: bool)
    ensures
        zero == is_zero_digest(*digest),
{
    let mut i: usize = 0;
    while i < 32
        invariant
            i <= 32,
            forall|j: int| 0 <= j < i ==> digest[j] == 0,
        decreases 32 - i,
    {
        if digest[i] != 0 {
            return false;
        }
        i = i + 1;
    }
    true
}

/// The bytes of `piece` that `range` covers, or `None` where the range
/// reaches past the end of the piece.
pub open spec fn piece_range(piece: Seq<u8>, range: ByteRange) -> Option<Seq<u8>> {
    if range.offset + range.length <= piece.len() {
        Some(piece.subrange(range.offset as int, range.offset + range.length))
    } else {
        None
    }
}

/// Tells whether `contents` is, byte for byte, the part of `piece` that
/// `range` covers. A range that does not lie within the piece matches
/// nothing.
pub fn range_matches(piece: &Vec<u8>, range: ByteRange, contents: &Vec<u8>) -> (same: bool)
    ensures
        same == (piece_range(piece@, range) == Some(contents@)),
{
    let piece_len = piece.len();
    if range.offset > piece_len as u64 || range.length > piece_len as u64 - range.offset {
        return false;
    }
    if contents.len() as u64 != range.length {
        return false;
    }
    let start = range.offset as usize;
    let count = range.length as usize;
    let ghost expected = piece@.subrange(start as int, start + count);
    let mut i: usize = 0;
    while i < count
        invariant
            i <= count,
            start == range.offset,
            count == range.length,
            start + count <= piece@.len() == piece_len,
            contents@.len() == count,
            expected == piece@.subrange(start as int, start + count),
            forall|j: int| 0 <= j < i ==> contents@[j] == expected[j],
        decreases count - i,
    {
        if contents[i] != piece[start + i] {
            assert(contents@[i as int] != expected[i as int]);
            return false;
        }
        i = i + 1;
    }
    assert(contents@ =~= expected);
    true
}

/// The data commitment of a sector of `sector_size` bytes that holds
/// `pieces` in this order, as `filecoin_proofs::compute_comm_d` computes it
/// from the pieces' commitments and sizes; `None` where it reports an error.
pub uninterp spec fn data_commitment(sector_size: u64, pieces: Seq<PieceInfo>) -> Option<Digest>;

/// Number of bits that `size` bytes of payload take up in sector space: 256
/// for every full 254, and the rest as they are.
pub open spec fn padded_bits(size: u64) -> int {
    (size * 8 / 254) * 256 + (size * 8) % 254
}

/// How often the padded bits of a sector's largest piece must fit the
/// machine word for the data commitment of `count` pieces to be recomputed.
/// One piece is padded once and nothing else is. With more pieces, sums of
/// pieces and of the zero pieces that fill the gaps between them are padded
/// too, and none of these is as large as four times the number of pieces
/// times the largest piece.
pub open spec fn working_room(count: nat) -> nat {
    if count <= 1 {
        1
    } else {
        4 * count
    }
}

/// The inputs on which the data commitment is recomputed: at least one
/// piece, every size within what the proving library converts, and the
/// machine word wide enough for the padded sizes that are computed on the
/// way.
pub open spec fn commitment_inputs(sector_size: u64, pieces: Seq<PieceInfo>) -> bool {
    &&& convertible(sector_size)
    &&& pieces.len() >= 1
    &&& forall|i: int|
        #![trigger pieces[i]]
        0 <= i < pieces.len() ==> {
            &&& convertible(pieces[i].size)
            &&& working_room(pieces.len()) * padded_bits(pieces[i].size) <= usize::MAX
        }
}

/// The piece that fills a sector takes up no more bits, padded, than the
/// sector has.
pub proof fn lemma_padded_capacity_fits(sector_size: u64)
    ensures
        unpadded_capacity(sector_size as nat) <= sector_size,
        padded_bits(unpadded_capacity(sector_size as nat) as u64) <= sector_size * 8,
{
    let q = sector_size as int / 32;
    let r = sector_size as int % 32;
    let c = (q * 254 + r * 8) / 8;
    assert(c == unpadded_capacity(sector_size as nat));
    assert(8 * c <= q * 254 + r * 8);
    assert(c <= sector_size);
    let a = (c * 8) / 254;
    assert(254 * a <= q * 254 + r * 8);
    assert(a <= q);
    assert(padded_bits(c as u64) == c * 8 + 2 * a);
}

/// Calls `filecoin_proofs::compute_comm_d` on the sector size and on the
/// pieces, each as the proving library's own `PieceInfo`.
///
/// For a sector with at least one piece that function hashes commitments
/// pairwise, filling gaps with the commitments of zero pieces, and reads
/// nothing but its arguments: the answer is [`data_commitment`]. It pads
/// every piece size, which multiplies by eight and maps 254 bits to 256 in
/// the machine word, and with several pieces it pads sums of them as well.
/// Within [`commitment_inputs`] all of these fit the word, and the sum of
/// the padded sizes fits 64 bits.
#[verifier::external_body]
fn compute_comm_d(sector_size: u64, pieces: &Vec<PieceInfo>) -> (computed: Result<
    Digest,
    anyhow::Error,
>)
    requires
        commitment_inputs(sector_size, pieces@),
    ensures
        data_commitment(sector_size, pieces@) == match computed {
            Ok(digest) => Some(digest),
            Err(_) => None,
        },
{
    let infos: Vec<filecoin_proofs::PieceInfo> = pieces.iter().map(
        |piece| filecoin_proofs::PieceInfo {
            commitment: piece.commitment,
            size: filecoin_proofs::UnpaddedBytesAmount(piece.size),
        },
    ).collect();
    filecoin_proofs::compute_comm_d(filecoin_proofs::SectorSize(sector_size), &infos)
}

/// Recomputes a sector's data commitment from its pieces alone.
pub fn recompute_data_commitment(sector_size: u64, pieces: &Vec<PieceInfo>) -> (computed: Option<
    Digest,
>)
    requires
        commitment_inputs(sector_size, pieces@),
    ensures
        computed == data_commitment(sector_size, pieces@),
{
    match compute_comm_d(sector_size, pieces) {
        Ok(digest) => Some(digest),
        Err(_) => None,
    }
}

/// Copies a buffer.
pub fn copy_of<T: Copy>(items: &Vec<T>) -> (copy: Vec<T>)
    ensures
        copy@ == items@,
{
    let mut copy: Vec<T> = Vec::new();
    let mut i: usize = 0;
    while i < items.len()
        invariant
            i <= items@.len(),
            copy@ == items@.take(i as int),
        decreases items@.len() - i,
    {
        copy.push(items[i]);
        assert(items@.take(i + 1) =~= items@.take(i as int).push(items@[i as int]));
        i = i + 1;
    }
    assert(items@.take(items@.len() as int) =~= items@);
    copy
}

} // verus!
