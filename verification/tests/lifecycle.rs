use stellar_duels::codec::calculate_commitment;
use stellar_duels::game::Error;
use stellar_duels::game::GameState;
use stellar_duels::game::Move;
use stellar_duels::game::Outcome;
use stellar_duels::game::move_from_id;
use stellar_duels::game::move_id;
use stellar_duels::machine::StellarDuelsContract;
use stellar_duels::resolve::resolve;

#[test]
fn resolution_covers_all_nine_pairs() {
    let all = [Move::Attack, Move::Defense, Move::Magic];
    for &a in &all {
        for &b in &all {
            let r = resolve(a, b);
            let swapped = resolve(b, a);
            if a == b {
                assert_eq!(r, Outcome::Draw);
            }
            // Role-swap symmetry on every pair.
            match r {
                Outcome::Player1Wins => assert_eq!(swapped, Outcome::Player2Wins),
                Outcome::Player2Wins => assert_eq!(swapped, Outcome::Player1Wins),
                Outcome::Draw => assert_eq!(swapped, Outcome::Draw),
            }
        }
    }
    assert_eq!(resolve(Move::Attack, Move::Defense), Outcome::Player1Wins);
    assert_eq!(resolve(Move::Defense, Move::Magic), Outcome::Player1Wins);
    assert_eq!(resolve(Move::Magic, Move::Attack), Outcome::Player1Wins);
    assert_eq!(resolve(Move::Defense, Move::Attack), Outcome::Player2Wins);
    assert_eq!(resolve(Move::Magic, Move::Defense), Outcome::Player2Wins);
    assert_eq!(resolve(Move::Attack, Move::Magic), Outcome::Player2Wins);
}

#[test]
fn move_wire_encoding_roundtrips() {
    assert_eq!(move_from_id(0), None);
    assert_eq!(move_from_id(4), None);
    for id in 1..=3u32 {
        let m = move_from_id(id).unwrap();
        assert_eq!(move_id(m), id);
    }
}

#[test]
fn winner_follows_the_beats_table() {
    let mut contract = StellarDuelsContract::new();
    contract.register_player(10);
    contract.register_player(20);
    let id = contract.create_game(10, 1, true).unwrap();
    let game = contract.join_game(id, 20, true).unwrap();
    // Magic (3) beats Attack (1): the first player wins.
    assert_eq!(StellarDuelsContract::determine_winner(&game, 3, 1), Some(10));
    // Attack (1) loses to Magic (3): the second player wins.
    assert_eq!(StellarDuelsContract::determine_winner(&game, 1, 3), Some(20));
    assert_eq!(StellarDuelsContract::determine_winner(&game, 2, 2), None);
}

#[test]
fn game_ids_count_up_from_one() {
    let mut contract = StellarDuelsContract::new();
    contract.register_player(1);
    let a = contract.create_game(1, 50, true).unwrap();
    let b = contract.create_game(1, 75, true).unwrap();
    assert_eq!(a, 1);
    assert_eq!(b, 2);
    assert_eq!(contract.get_active_games(), vec![1, 2]);
    assert_eq!(contract.get_game(1).unwrap().stake_amount, 50);
    assert_eq!(contract.get_game(2).unwrap().stake_amount, 75);
    assert_eq!(contract.get_game(3), None);
}

#[test]
fn unregistered_players_are_rejected() {
    let mut contract = StellarDuelsContract::new();
    assert_eq!(contract.create_game(1, 100, true), Err(Error::NotRegistered));
    contract.register_player(1);
    let id = contract.create_game(1, 100, true).unwrap();
    assert_eq!(contract.join_game(id, 2, true), Err(Error::NotRegistered));
}

#[test]
fn operations_on_missing_games_fail_distinctly() {
    let mut contract = StellarDuelsContract::new();
    contract.register_player(1);
    assert_eq!(contract.join_game(9, 1, true), Err(Error::GameNotFound));
    assert_eq!(contract.commit_move(9, 1, [0u8; 32]), Err(Error::GameNotFound));
    assert_eq!(contract.reveal_move(9, 1, 1, [0u8; 32]), Err(Error::GameNotFound));
    assert_eq!(contract.finalize_game(9, true), Err(Error::GameNotFound));
    assert_eq!(contract.get_game(9), None);
}

#[test]
fn join_guards_hold() {
    let mut contract = StellarDuelsContract::new();
    contract.register_player(1);
    contract.register_player(2);
    contract.register_player(3);
    let id = contract.create_game(1, 100, true).unwrap();
    // The creator cannot take the second seat of their own game.
    assert_eq!(contract.join_game(id, 1, true), Err(Error::InvalidStateForOperation));
    contract.join_game(id, 2, true).unwrap();
    // A full game accepts no third player.
    assert_eq!(contract.join_game(id, 3, true), Err(Error::InvalidStateForOperation));
}

#[test]
fn commit_needs_an_opponent_and_a_seat() {
    let mut contract = StellarDuelsContract::new();
    contract.register_player(1);
    contract.register_player(2);
    contract.register_player(3);
    let id = contract.create_game(1, 100, true).unwrap();
    let c = calculate_commitment(1, &[3u8; 32]);
    // No second player yet.
    assert_eq!(contract.commit_move(id, 1, c), Err(Error::InvalidStateForOperation));
    contract.join_game(id, 2, true).unwrap();
    contract.commit_move(id, 1, c).unwrap();
    // An outsider holds no seat.
    assert_eq!(contract.commit_move(id, 3, c), Err(Error::NotAParticipant));
}

#[test]
fn reveal_guards_hold() {
    let mut contract = StellarDuelsContract::new();
    contract.register_player(1);
    contract.register_player(2);
    contract.register_player(3);
    let id = contract.create_game(1, 100, true).unwrap();
    contract.join_game(id, 2, true).unwrap();
    let salt = [8u8; 32];
    // Reveals are only accepted once both commitments are in.
    assert_eq!(contract.reveal_move(id, 1, 1, salt), Err(Error::InvalidStateForOperation));
    contract.commit_move(id, 1, calculate_commitment(1, &salt)).unwrap();
    contract.commit_move(id, 2, calculate_commitment(2, &salt)).unwrap();
    // The move id must be on the wire range 1..=3.
    assert_eq!(contract.reveal_move(id, 1, 0, salt), Err(Error::InvalidMoveValue));
    assert_eq!(contract.reveal_move(id, 1, 4, salt), Err(Error::InvalidMoveValue));
    // An outsider holds no seat.
    assert_eq!(contract.reveal_move(id, 3, 1, salt), Err(Error::NotAParticipant));
    contract.reveal_move(id, 1, 1, salt).unwrap();
}

#[test]
fn failed_deposits_leave_no_trace() {
    let mut contract = StellarDuelsContract::new();
    contract.register_player(1);
    contract.register_player(2);
    // A failed escrow transfer means no game record at all.
    assert_eq!(contract.create_game(1, 100, false), Err(Error::TransferFailed));
    assert_eq!(contract.get_game(1), None);
    assert!(contract.get_active_games().is_empty());
    let id = contract.create_game(1, 100, true).unwrap();
    // A failed joiner deposit means the seat stays open.
    assert_eq!(contract.join_game(id, 2, false), Err(Error::TransferFailed));
    assert_eq!(contract.get_game(id).unwrap().player_two, None);
}

#[test]
fn finalize_keeps_other_active_games_in_order() {
    let mut contract = StellarDuelsContract::new();
    contract.register_player(1);
    contract.register_player(2);
    for _ in 0..3 {
        let id = contract.create_game(1, 10, true).unwrap();
        contract.join_game(id, 2, true).unwrap();
    }
    assert_eq!(contract.get_active_games(), vec![1, 2, 3]);
    let salt = [17u8; 32];
    contract.commit_move(2, 1, calculate_commitment(1, &salt)).unwrap();
    contract.commit_move(2, 2, calculate_commitment(3, &salt)).unwrap();
    contract.reveal_move(2, 1, 1, salt).unwrap();
    contract.reveal_move(2, 2, 3, salt).unwrap();
    contract.finalize_game(2, true).unwrap();
    // The two remaining games keep their creation order.
    assert_eq!(contract.get_active_games(), vec![1, 3]);
}

#[test]
fn failed_settlement_transfer_blocks_finalize() {
    let mut contract = StellarDuelsContract::new();
    contract.register_player(1);
    contract.register_player(2);
    let id = contract.create_game(1, 100, true).unwrap();
    contract.join_game(id, 2, true).unwrap();
    let sa = [1u8; 32];
    let sb = [2u8; 32];
    contract.commit_move(id, 1, calculate_commitment(1, &sa)).unwrap();
    contract.commit_move(id, 2, calculate_commitment(2, &sb)).unwrap();
    contract.reveal_move(id, 1, 1, sa).unwrap();
    contract.reveal_move(id, 2, 2, sb).unwrap();
    assert_eq!(contract.finalize_game(id, false), Err(Error::TransferFailed));
    let game = contract.get_game(id).unwrap();
    assert_eq!(game.state, GameState::MovesCommitted);
    assert_eq!(game.winner, None);
    assert_eq!(contract.get_player(1).unwrap().wins, 0);
    assert!(contract.get_active_games().contains(&id));
    // The same finalize succeeds once the transfers went through.
    let game = contract.finalize_game(id, true).unwrap();
    assert_eq!(game.state, GameState::Completed);
    // A completed game cannot be settled twice.
    assert_eq!(contract.finalize_game(id, true), Err(Error::InvalidStateForOperation));
}
