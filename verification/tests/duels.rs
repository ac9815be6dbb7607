use sha2::Digest;
use stellar_duels::codec::calculate_commitment;
use stellar_duels::codec::digest_eq;
use stellar_duels::codec::verify_commitment;
use stellar_duels::game::Error;
use stellar_duels::game::GameState;
use stellar_duels::machine::StellarDuelsContract;

#[test]
fn test_player_registration() {
    let mut contract = StellarDuelsContract::new();

    let player: u64 = 1;

    let registered = contract.register_player(player);
    assert_eq!(registered.wins, 0);
    assert_eq!(registered.losses, 0);
    assert_eq!(registered.draws, 0);
}

#[test]
fn test_commitment_calculation() {
    let move_id: u32 = 1; // Attack
    let salt = [42u8; 32];

    let commitment = calculate_commitment(move_id, &salt);

    // Same inputs should produce same hash
    let commitment2 = calculate_commitment(move_id, &salt);
    assert_eq!(commitment, commitment2);

    // Different move should produce different hash
    let commitment3 = calculate_commitment(2, &salt);
    assert_ne!(commitment, commitment3);
}

#[test]
fn registration_is_idempotent() {
    let mut contract = StellarDuelsContract::new();
    contract.register_player(7);
    let mut stats = contract.get_player(7).unwrap();
    stats.wins = 5; // a local copy only
    let again = contract.register_player(7);
    assert_eq!(again.wins, 0);
    assert_eq!(contract.get_player(8), None);
}

#[test]
fn commitment_matches_reference_sha256() {
    // The digest must be SHA-256 over the 4-byte big-endian move id
    // followed by the 32 salt bytes.
    let salt = [42u8; 32];
    let mut preimage: Vec<u8> = vec![0, 0, 0, 1];
    preimage.extend_from_slice(&salt);
    let mut hasher = sha2::Sha256::new();
    hasher.update(&preimage);
    let expected = hasher.finalize();
    let got = calculate_commitment(1, &salt);
    assert_eq!(&got[..], &expected[..]);
}

#[test]
fn commitment_roundtrip_and_sensitivity() {
    let salt = [5u8; 32];
    let digest = calculate_commitment(3, &salt);
    assert!(verify_commitment(3, &salt, &digest));
    // A different move fails to verify against the same digest.
    assert!(!verify_commitment(1, &salt, &digest));
    // A single flipped salt byte fails to verify too.
    let mut other_salt = salt;
    other_salt[0] ^= 1;
    assert!(!verify_commitment(3, &other_salt, &digest));
    assert!(digest_eq(&digest, &digest));
}

fn setup_committed_game(
    p1_move: u32,
    p1_salt: [u8; 32],
    p2_move: u32,
    p2_salt: [u8; 32],
) -> (StellarDuelsContract, u64) {
    let mut contract = StellarDuelsContract::new();
    contract.register_player(1);
    contract.register_player(2);
    let id = contract.create_game(1, 100, true).unwrap();
    contract.join_game(id, 2, true).unwrap();
    contract
        .commit_move(id, 1, calculate_commitment(p1_move, &p1_salt))
        .unwrap();
    let g = contract
        .commit_move(id, 2, calculate_commitment(p2_move, &p2_salt))
        .unwrap();
    assert_eq!(g.state, GameState::MovesCommitted);
    (contract, id)
}

#[test]
fn full_duel_winner_takes_pot() {
    // Two registered players stake 100 each; p1 commits Attack, p2
    // commits Defense; both reveal; finalize pays 200 to p1.
    let salt_a = [7u8; 32];
    let salt_b = [9u8; 32];
    let (mut contract, id) = setup_committed_game(1, salt_a, 2, salt_b);

    contract.reveal_move(id, 1, 1, salt_a).unwrap();
    contract.reveal_move(id, 2, 2, salt_b).unwrap();

    let plan = contract.settlement_plan(id).unwrap();
    assert_eq!(plan.winner, Some(1));
    assert_eq!(plan.transfers.len(), 1);
    assert_eq!(plan.transfers[0].to, 1);
    assert_eq!(plan.transfers[0].amount, 200);

    let game = contract.finalize_game(id, true).unwrap();
    assert_eq!(game.state, GameState::Completed);
    assert_eq!(game.winner, Some(1));

    let p1 = contract.get_player(1).unwrap();
    let p2 = contract.get_player(2).unwrap();
    assert_eq!(p1.wins, 1);
    assert_eq!(p1.losses, 0);
    assert_eq!(p2.losses, 1);
    assert_eq!(p2.wins, 0);
    assert_eq!(p1.draws, 0);
    assert_eq!(p2.draws, 0);
    assert!(!contract.get_active_games().contains(&id));
}

#[test]
fn full_duel_draw_refunds_both() {
    // Both players reveal Magic: each gets the 100 stake back, both
    // draws counters grow, and no winner is recorded.
    let salt_a = [1u8; 32];
    let salt_b = [2u8; 32];
    let (mut contract, id) = setup_committed_game(3, salt_a, 3, salt_b);

    contract.reveal_move(id, 1, 3, salt_a).unwrap();
    contract.reveal_move(id, 2, 3, salt_b).unwrap();

    let plan = contract.settlement_plan(id).unwrap();
    assert_eq!(plan.winner, None);
    assert_eq!(plan.transfers.len(), 2);
    assert_eq!(plan.transfers[0].to, 1);
    assert_eq!(plan.transfers[0].amount, 100);
    assert_eq!(plan.transfers[1].to, 2);
    assert_eq!(plan.transfers[1].amount, 100);

    let game = contract.finalize_game(id, true).unwrap();
    assert_eq!(game.state, GameState::Completed);
    assert_eq!(game.winner, None);

    let p1 = contract.get_player(1).unwrap();
    let p2 = contract.get_player(2).unwrap();
    assert_eq!(p1.draws, 1);
    assert_eq!(p2.draws, 1);
    assert_eq!(p1.wins, 0);
    assert_eq!(p2.wins, 0);
    assert!(!contract.get_active_games().contains(&id));
}

#[test]
fn finalize_before_both_reveal_fails() {
    // Only p1 revealed: finalize reports IncompleteReveal, the game
    // stays in MovesCommitted and no transfer is planned.
    let salt_a = [4u8; 32];
    let salt_b = [6u8; 32];
    let (mut contract, id) = setup_committed_game(1, salt_a, 3, salt_b);

    contract.reveal_move(id, 1, 1, salt_a).unwrap();

    assert_eq!(contract.settlement_plan(id), Err(Error::IncompleteReveal));
    assert_eq!(contract.finalize_game(id, true), Err(Error::IncompleteReveal));

    let game = contract.get_game(id).unwrap();
    assert_eq!(game.state, GameState::MovesCommitted);
    assert_eq!(game.p2_move, 0);
    assert!(contract.get_active_games().contains(&id));
}

#[test]
fn second_commit_is_rejected() {
    // A second commit from the same player fails with AlreadyCommitted
    // and leaves the original commitment unchanged.
    let mut contract = StellarDuelsContract::new();
    contract.register_player(1);
    contract.register_player(2);
    let id = contract.create_game(1, 100, true).unwrap();
    contract.join_game(id, 2, true).unwrap();

    let first = calculate_commitment(1, &[11u8; 32]);
    contract.commit_move(id, 1, first).unwrap();
    let second = calculate_commitment(2, &[12u8; 32]);
    assert_eq!(contract.commit_move(id, 1, second), Err(Error::AlreadyCommitted));

    let game = contract.get_game(id).unwrap();
    assert_eq!(game.p1_commitment, Some(first));
    assert_eq!(game.state, GameState::WaitingForPlayer);
}

#[test]
fn reveal_with_wrong_move_is_rejected() {
    // Committed to Attack with salt S; revealing (Defense, S) fails with
    // CommitmentMismatch and the move slot stays 0.
    let salt = [13u8; 32];
    let (mut contract, id) = setup_committed_game(1, salt, 3, [14u8; 32]);

    assert_eq!(contract.reveal_move(id, 1, 2, salt), Err(Error::CommitmentMismatch));

    let game = contract.get_game(id).unwrap();
    assert_eq!(game.p1_move, 0);
    assert_eq!(game.state, GameState::MovesCommitted);
}

#[test]
fn reveal_with_wrong_salt_is_rejected() {
    let salt = [21u8; 32];
    let (mut contract, id) = setup_committed_game(2, salt, 3, [22u8; 32]);

    let mut wrong_salt = salt;
    wrong_salt[31] ^= 0x80;
    assert_eq!(contract.reveal_move(id, 1, 2, wrong_salt), Err(Error::CommitmentMismatch));
    let game = contract.get_game(id).unwrap();
    assert_eq!(game.p1_move, 0);

    // The honest reveal still goes through afterwards.
    contract.reveal_move(id, 1, 2, salt).unwrap();
    assert_eq!(contract.get_game(id).unwrap().p1_move, 2);
}
