use rand::{Rng, SeedableRng};
use rand_xorshift::XorShiftRng;
use seal_lifecycle::session::{draw_session, seeded_prover, SessionIds, TEST_SEED};

#[test]
fn seed_of_the_harness() {
    assert_eq!(
        TEST_SEED,
        [
            0x59, 0x62, 0xbe, 0x5d, 0x76, 0x3d, 0x31, 0x8d, 0x17, 0xdb, 0x37, 0x32, 0x54, 0x06,
            0xbc, 0xe5
        ]
    );
}

#[test]
fn prover_is_the_first_field_element_of_the_seeded_generator() {
    let (_, prover_id) = seeded_prover();
    let mut rng = XorShiftRng::from_seed(TEST_SEED);
    let element = <blstrs::Scalar as ff::Field>::random(&mut rng);
    let expected = <blstrs::Scalar as ff::PrimeField>::to_repr(&element);
    assert_eq!(prover_id, expected);
    assert_ne!(prover_id, [0u8; 32]);
}

#[test]
fn prover_is_the_same_every_time() {
    let (_, first) = seeded_prover();
    let (_, second) = seeded_prover();
    assert_eq!(first, second);
}

#[test]
fn session_is_drawn_as_ticket_then_seed_then_sector() {
    let mut ours = XorShiftRng::from_seed([9u8; 16]);
    let mut theirs = XorShiftRng::from_seed([9u8; 16]);
    let ids = draw_session(&mut ours, [4u8; 32]);
    let ticket: [u8; 32] = theirs.gen();
    let seed: [u8; 32] = theirs.gen();
    let sector_id: u64 = theirs.gen();
    assert_eq!(ids.prover_id, [4u8; 32]);
    assert_eq!(ids.ticket, ticket);
    assert_eq!(ids.seed, seed);
    assert_eq!(ids.sector_id, sector_id);
    assert_ne!(ids.ticket, ids.seed);
}

#[test]
fn session_follows_the_prover_in_the_generator() {
    let (mut rng, prover_id) = seeded_prover();
    let ids = draw_session(&mut rng, prover_id);
    let mut theirs = XorShiftRng::from_seed(TEST_SEED);
    let _ = <blstrs::Scalar as ff::Field>::random(&mut theirs);
    let ticket: [u8; 32] = theirs.gen();
    assert_eq!(ids.ticket, ticket);
    let next = draw_session(&mut rng, prover_id);
    assert_ne!(next.ticket, ids.ticket);
    assert_ne!(next.sector_id, ids.sector_id);
}

#[test]
fn run_number_moves_the_sector_number_on() {
    let ids = SessionIds { sector_id: 10, prover_id: [1u8; 32], ticket: [2u8; 32], seed: [3u8; 32] };
    assert_eq!(ids.for_run(0), ids);
    assert_eq!(ids.for_run(5).sector_id, 15);
    assert_eq!(ids.for_run(5).prover_id, [1u8; 32]);
    assert_eq!(ids.for_run(5).ticket, [2u8; 32]);
    assert_eq!(ids.for_run(5).seed, [3u8; 32]);
}

#[test]
fn run_number_wraps_round_the_end_of_the_sector_numbers() {
    let ids = SessionIds {
        sector_id: u64::MAX - 1,
        prover_id: [1u8; 32],
        ticket: [2u8; 32],
        seed: [3u8; 32],
    };
    assert_eq!(ids.for_run(1).sector_id, u64::MAX);
    assert_eq!(ids.for_run(2).sector_id, 0);
    assert_eq!(ids.for_run(3).sector_id, 1);
    assert_eq!(ids.for_run(u64::MAX).sector_id, u64::MAX - 2);
    let top = SessionIds { sector_id: u64::MAX, ..ids };
    assert_eq!(top.for_run(u64::MAX).sector_id, u64::MAX - 1);
    assert_eq!(top.for_run(0).sector_id, u64::MAX);
}

#[test]
fn session_draws_are_decided_by_the_generator() {
    let mut first = XorShiftRng::from_seed([1u8; 16]);
    let mut second = XorShiftRng::from_seed([1u8; 16]);
    assert_eq!(draw_session(&mut first, [0u8; 32]), draw_session(&mut second, [0u8; 32]));
    assert_eq!(draw_session(&mut first, [0u8; 32]), draw_session(&mut second, [0u8; 32]));
    let mut other = XorShiftRng::from_seed([2u8; 16]);
    assert_ne!(draw_session(&mut other, [0u8; 32]), draw_session(&mut first, [0u8; 32]));
}
