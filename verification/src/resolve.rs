//! The resolution engine: the deterministic rule turning two revealed
//! moves into an outcome.

use vstd::prelude::*;

use crate::game::Move;
use crate::game::Outcome;

verus! {

/// The cyclic beats-relation: Attack beats Defense, Defense beats Magic,
/// Magic beats Attack.
pub open spec fn beats(a: Move, b: Move) -> bool {
    ||| (a is Attack && b is Defense)
    ||| (a is Defense && b is Magic)
    ||| (a is Magic && b is Attack)
}

/// What resolving two moves yields: equal moves draw, otherwise whoever
/// played the beating move wins.
pub open spec fn resolve_spec(a: Move, b: Move) -> Outcome {
    if a == b {
        Outcome::Draw
    } else if beats(a, b) {
        Outcome::Player1Wins
    } else {
        Outcome::Player2Wins
    }
}

/// Resolve player one's move against player two's. Total over all nine
/// move pairs: three draws on the diagonal, three wins for each player.
pub fn resolve(a: Move, b: Move) -> (r: Outcome)
    ensures
        r == resolve_spec(a, b),
{
    match (a, b) {
        (Move::Attack, Move::Attack) => Outcome::Draw,
        (Move::Defense, Move::Defense) => Outcome::Draw,
        (Move::Magic, Move::Magic) => Outcome::Draw,
        (Move::Attack, Move::Defense) => Outcome::Player1Wins,
        (Move::Defense, Move::Magic) => Outcome::Player1Wins,
        (Move::Magic, Move::Attack) => Outcome::Player1Wins,
        (Move::Attack, Move::Magic) => Outcome::Player2Wins,
        (Move::Defense, Move::Attack) => Outcome::Player2Wins,
        (Move::Magic, Move::Defense) => Outcome::Player2Wins,
    }
}

/// Resolution is symmetric under swapping the two roles: player one wins
/// the pair `(a, b)` exactly when player two wins the pair `(b, a)`, and
/// equal moves always draw.
pub proof fn lemma_resolve_symmetric(a: Move, b: Move)
    ensures
        resolve_spec(a, b) is Player1Wins <==> resolve_spec(b, a) is Player2Wins,
        resolve_spec(a, b) is Draw <==> resolve_spec(b, a) is Draw,
        a == b ==> resolve_spec(a, b) is Draw,
{
}

} // verus!
