use seal_lifecycle::piece::{
    copy_of, digest_eq, digest_is_zero, generate_piece_bytes, piece_size, random_bytes,
    range_matches, recompute_data_commitment, ByteRange, PieceInfo,
};

fn counting(len: usize) -> Vec<u8> {
    (0..len).map(|i| (i % 251) as u8).collect()
}

#[test]
fn piece_size_of_sector_sizes() {
    assert_eq!(piece_size(32768), Some(32512));
    assert_eq!(piece_size(2048), Some(2032));
    assert_eq!(piece_size(1 << 35), Some((1 << 35) - (1 << 28)));
    assert_eq!(piece_size(128), Some(127));
}

#[test]
fn piece_size_of_odd_byte_counts() {
    assert_eq!(piece_size(0), Some(0));
    assert_eq!(piece_size(1), Some(1));
    assert_eq!(piece_size(31), Some(31));
    assert_eq!(piece_size(32), Some(31));
    assert_eq!(piece_size(33), Some(32));
    assert_eq!(piece_size(64), Some(63));
    assert_eq!(piece_size(100), Some(99));
}

#[test]
fn piece_size_at_the_bound() {
    assert_eq!(piece_size(1 << 50), Some((1 << 50) - (1 << 43)));
    assert_eq!(piece_size((1 << 50) + 1), None);
    assert_eq!(piece_size(u64::MAX), None);
}

#[test]
fn piece_size_is_the_proving_librarys() {
    for padded in [0u64, 1, 31, 32, 127, 128, 129, 1000, 2048, 32768, 1 << 30] {
        let theirs = filecoin_proofs::UnpaddedBytesAmount::from(
            filecoin_proofs::PaddedBytesAmount(padded),
        );
        assert_eq!(piece_size(padded), Some(theirs.0));
    }
}

#[test]
fn generated_piece_fills_the_sector() {
    let piece = generate_piece_bytes(32768).unwrap();
    assert_eq!(piece.len(), 32512);
    let small = generate_piece_bytes(2048).unwrap();
    assert_eq!(small.len(), 2032);
    assert!(generate_piece_bytes(u64::MAX).is_none());
}

#[test]
fn generated_pieces_differ() {
    let first = generate_piece_bytes(2048).unwrap();
    let second = generate_piece_bytes(2048).unwrap();
    assert_ne!(first, second);
}

#[test]
fn random_bytes_have_the_length_asked_for() {
    assert_eq!(random_bytes(0).len(), 0);
    assert_eq!(random_bytes(1).len(), 1);
    assert_eq!(random_bytes(508).len(), 508);
}

#[test]
fn digests_are_compared_in_every_byte() {
    let a = [7u8; 32];
    let mut b = [7u8; 32];
    assert!(digest_eq(&a, &b));
    b[31] = 8;
    assert!(!digest_eq(&a, &b));
    b[31] = 7;
    b[0] = 0;
    assert!(!digest_eq(&a, &b));
}

#[test]
fn zero_digest_is_told_apart() {
    assert!(digest_is_zero(&[0u8; 32]));
    let mut d = [0u8; 32];
    d[31] = 1;
    assert!(!digest_is_zero(&d));
    d[31] = 0;
    d[0] = 255;
    assert!(!digest_is_zero(&d));
}

#[test]
fn range_matches_the_bytes_it_covers() {
    let piece = counting(2032);
    let range = ByteRange { offset: 508, length: 508 };
    let contents = piece[508..1016].to_vec();
    assert!(range_matches(&piece, range, &contents));
}

#[test]
fn range_does_not_match_other_bytes() {
    let piece = counting(2032);
    let range = ByteRange { offset: 508, length: 508 };
    let mut contents = piece[508..1016].to_vec();
    contents[507] ^= 1;
    assert!(!range_matches(&piece, range, &contents));
    let shifted = piece[507..1015].to_vec();
    assert!(!range_matches(&piece, range, &shifted));
    let short = piece[508..1015].to_vec();
    assert!(!range_matches(&piece, range, &short));
    let long = piece[508..1017].to_vec();
    assert!(!range_matches(&piece, range, &long));
}

#[test]
fn range_beyond_the_piece_matches_nothing() {
    let piece = counting(1000);
    let contents = vec![0u8; 508];
    assert!(!range_matches(&piece, ByteRange { offset: 508, length: 508 }, &contents));
    assert!(!range_matches(&piece, ByteRange { offset: 1001, length: 0 }, &Vec::new()));
    assert!(!range_matches(&piece, ByteRange { offset: u64::MAX, length: u64::MAX }, &contents));
    assert!(!range_matches(&piece, ByteRange { offset: 1, length: u64::MAX }, &contents));
}

#[test]
fn empty_range_matches_empty_contents() {
    let piece = counting(1000);
    assert!(range_matches(&piece, ByteRange { offset: 0, length: 0 }, &Vec::new()));
    assert!(range_matches(&piece, ByteRange { offset: 1000, length: 0 }, &Vec::new()));
    assert!(range_matches(&piece, ByteRange { offset: 0, length: 1000 }, &piece.clone()));
}

#[test]
fn copy_of_a_buffer_is_the_buffer() {
    let bytes = counting(300);
    assert_eq!(copy_of(&bytes), bytes);
    let none: Vec<u8> = Vec::new();
    assert_eq!(copy_of(&none), none);
}

#[test]
fn data_commitment_of_one_full_piece_is_its_commitment() {
    let piece = PieceInfo { commitment: [3u8; 32], size: 32512 };
    assert_eq!(recompute_data_commitment(32768, &vec![piece]), Some([3u8; 32]));
}

#[test]
fn data_commitment_of_two_half_pieces_is_their_hash() {
    let left = PieceInfo { commitment: [1u8; 32], size: 16256 };
    let right = PieceInfo { commitment: [2u8; 32], size: 16256 };
    let joined = filecoin_proofs::pieces::piece_hash(&[1u8; 32], &[2u8; 32]);
    let mut expected = [0u8; 32];
    expected.copy_from_slice(joined.as_ref());
    assert_eq!(recompute_data_commitment(32768, &vec![left, right]), Some(expected));
    assert_ne!(expected, [1u8; 32]);
}

#[test]
fn data_commitment_of_a_lone_half_piece_is_the_proving_librarys() {
    let only = PieceInfo { commitment: [1u8; 32], size: 16256 };
    let theirs = filecoin_proofs::compute_comm_d(
        filecoin_proofs::SectorSize(32768),
        &[filecoin_proofs::PieceInfo {
            commitment: [1u8; 32],
            size: filecoin_proofs::UnpaddedBytesAmount(16256),
        }],
    )
    .unwrap();
    assert_eq!(recompute_data_commitment(32768, &vec![only]), Some(theirs));
}

#[test]
fn data_commitment_of_ill_sized_pieces_is_none() {
    let odd = PieceInfo { commitment: [1u8; 32], size: 1000 };
    assert_eq!(recompute_data_commitment(32768, &vec![odd]), None);
    let large = PieceInfo { commitment: [1u8; 32], size: 65024 };
    assert_eq!(recompute_data_commitment(32768, &vec![large]), None);
}
