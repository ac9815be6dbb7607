//! Core data model: moves, game states, game and player records, and the
//! error kinds every operation can report.

use vstd::prelude::*;

verus! {

/// A combat move. The cyclic beats-relation is: Attack beats Defense,
/// Defense beats Magic, Magic beats Attack.
#[derive(Clone, Copy, Debug, PartialEq, Eq, Structural)]
pub enum Move {
    Attack,
    Defense,
    Magic,
}

/// Lifecycle state of a game. Transitions are forward-only:
/// `WaitingForPlayer -> MovesCommitted -> Completed`.
#[derive(Clone, Copy, Debug, PartialEq, Eq, Structural)]
pub enum GameState {
    WaitingForPlayer,
    MovesCommitted,
    Completed,
}

/// Outcome of resolving two revealed moves.
#[derive(Clone, Copy, Debug, PartialEq, Eq, Structural)]
pub enum Outcome {
    Player1Wins,
    Player2Wins,
    Draw,
}

/// Why an operation was rejected. Every failure leaves all state unchanged.
#[derive(Clone, Copy, Debug, PartialEq, Eq, Structural)]
pub enum Error {
    /// The acting player has no profile yet.
    NotRegistered,
    /// No game exists under the given id.
    GameNotFound,
    /// The game's current state does not admit the requested transition.
    InvalidStateForOperation,
    /// The caller's commitment slot is already filled.
    AlreadyCommitted,
    /// The caller is neither player of the game.
    NotAParticipant,
    /// The revealed move id is not one of 1, 2, 3.
    InvalidMoveValue,
    /// The recomputed commitment does not equal the stored one.
    CommitmentMismatch,
    /// The caller has no stored commitment to check a reveal against.
    MissingCommitment,
    /// Finalize was attempted before both players revealed.
    IncompleteReveal,
    /// The external token transfer did not succeed.
    TransferFailed,
}

/// The wire encoding of a move: 1 = Attack, 2 = Defense, 3 = Magic.
/// 0 is reserved to mean "not yet revealed".
pub open spec fn move_id_spec(m: Move) -> u32 {
    match m {
        Move::Attack => 1,
        Move::Defense => 2,
        Move::Magic => 3,
    }
}

/// The move a valid wire value (1..=3) stands for.
pub open spec fn move_of_id(id: u32) -> Move
    recommends
        1 <= id <= 3,
{
    if id == 1 {
        Move::Attack
    } else if id == 2 {
        Move::Defense
    } else {
        Move::Magic
    }
}

/// Decode a wire value into a move; values outside 1..=3 have no decoding.
pub fn move_from_id(id: u32) -> (r: Option<Move>)
    ensures
        r == if 1 <= id && id <= 3 {
            Some(move_of_id(id))
        } else {
            None::<Move>
        },
{
    if id == 1 {
        Some(Move::Attack)
    } else if id == 2 {
        Some(Move::Defense)
    } else if id == 3 {
        Some(Move::Magic)
    } else {
        None
    }
}

/// The wire value of a move.
pub fn move_id(m: Move) -> (r: u32)
    ensures
        r == move_id_spec(m),
        1 <= r <= 3,
{
    match m {
        Move::Attack => 1,
        Move::Defense => 2,
        Move::Magic => 3,
    }
}

/// A per-identity profile. Counters only ever grow, and only when a game
/// the player took part in is finalized.
#[derive(Clone, Copy, Debug, PartialEq, Eq, Structural)]
pub struct Player {
    pub address: u64,
    pub wins: u32,
    pub losses: u32,
    pub draws: u32,
}

/// One game record. Commitments are 32-byte digests; an absent commitment
/// is represented explicitly as `None` rather than by an all-zero sentinel.
/// Moves are stored in wire encoding: 0 = not revealed, 1..=3 = revealed.
#[derive(Clone, Copy, Debug, PartialEq, Eq)]
pub struct Game {
    pub game_id: u64,
    pub player_one: u64,
    pub player_two: Option<u64>,
    pub stake_amount: i128,
    pub state: GameState,
    pub p1_commitment: Option<[u8; 32]>,
    pub p2_commitment: Option<[u8; 32]>,
    pub p1_move: u32,
    pub p2_move: u32,
    pub winner: Option<u64>,
}

/// Structural validity of a single game record.
pub open spec fn game_wf(g: Game) -> bool {
    &&& g.game_id >= 1
    // Stakes are non-negative and the pot fits the transfer amount type.
    &&& 0 <= g.stake_amount
    &&& g.stake_amount * 2 <= i128::MAX
    // Moves are either the "not revealed" 0 or a valid wire value.
    &&& g.p1_move <= 3
    &&& g.p2_move <= 3
    // A move can only be revealed once the matching commitment is present.
    &&& (g.p1_move != 0 ==> g.p1_commitment is Some)
    &&& (g.p2_move != 0 ==> g.p2_commitment is Some)
    // The two seats are held by different players.
    &&& (g.player_two matches Some(p) ==> p != g.player_one)
    // Before anyone joins, no second-seat data exists at all.
    &&& (g.player_two is None ==> g.p2_commitment is None && g.state is WaitingForPlayer)
    // The state only advances to MovesCommitted once both commitments exist.
    &&& (g.state is WaitingForPlayer ==> !(g.p1_commitment is Some && g.p2_commitment is Some))
    &&& (g.state is MovesCommitted || g.state is Completed ==> g.player_two is Some
        && g.p1_commitment is Some && g.p2_commitment is Some)
    // Reveals only happen in MovesCommitted, and completion needs both.
    &&& (g.state is WaitingForPlayer ==> g.p1_move == 0 && g.p2_move == 0)
    &&& (g.state is Completed ==> 1 <= g.p1_move && 1 <= g.p2_move)
    // A winner is only ever recorded by finalization.
    &&& (!(g.state is Completed) ==> g.winner is None)
    &&& (g.winner matches Some(w) ==> w == g.player_one || Some(w) == g.player_two)
}

} // verus!
