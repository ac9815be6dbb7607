//! The settlement engine: given a game whose two moves are revealed, the
//! pot of twice the stake is either paid whole to the winner or refunded
//! stake-for-stake to both players on a draw.

use vstd::prelude::*;

use crate::game::Game;
use crate::game::Outcome;
use crate::game::game_wf;
use crate::game::move_of_id;
use crate::resolve::resolve_spec;

verus! {

/// One fund movement out of the escrow: `amount` goes to player `to`.
#[derive(Clone, Copy, Debug, PartialEq, Eq, Structural)]
pub struct Transfer {
    pub to: u64,
    pub amount: i128,
}

/// The exact fund movements a finalized game requires, together with the
/// winner they settle for (`None` for a draw).
#[derive(Debug, PartialEq, Eq)]
pub struct Settlement {
    pub winner: Option<u64>,
    pub transfers: Vec<Transfer>,
}

/// The winner of a game whose revealed moves are `m1` and `m2` (in wire
/// encoding): the player whose move beats the other's, or `None` on a draw.
pub open spec fn winner_for(g: Game, m1: u32, m2: u32) -> Option<u64>
    recommends
        1 <= m1 <= 3,
        1 <= m2 <= 3,
{
    match resolve_spec(move_of_id(m1), move_of_id(m2)) {
        Outcome::Player1Wins => Some(g.player_one),
        Outcome::Player2Wins => g.player_two,
        Outcome::Draw => None,
    }
}

/// The winner a game's own revealed moves determine.
pub open spec fn winner_of(g: Game) -> Option<u64>
    recommends
        1 <= g.p1_move <= 3,
        1 <= g.p2_move <= 3,
{
    winner_for(g, g.p1_move, g.p2_move)
}

/// The transfers settlement performs: the whole pot to the winner in one
/// transfer, or on a draw each player's own stake back, in two.
pub open spec fn settlement_transfers(g: Game) -> Seq<Transfer>
    recommends
        1 <= g.p1_move <= 3,
        1 <= g.p2_move <= 3,
        g.player_two is Some,
        0 <= g.stake_amount,
        g.stake_amount * 2 <= i128::MAX,
{
    let second = match g.player_two {
        Some(p) => p,
        None => g.player_one,
    };
    match resolve_spec(move_of_id(g.p1_move), move_of_id(g.p2_move)) {
        Outcome::Player1Wins => seq![
            Transfer { to: g.player_one, amount: (g.stake_amount * 2) as i128 },
        ],
        Outcome::Player2Wins => seq![
            Transfer { to: second, amount: (g.stake_amount * 2) as i128 },
        ],
        Outcome::Draw => seq![
            Transfer { to: g.player_one, amount: g.stake_amount },
            Transfer { to: second, amount: g.stake_amount },
        ],
    }
}

/// The total amount a list of transfers moves.
pub open spec fn sum_amounts(ts: Seq<Transfer>) -> int
    decreases ts.len(),
{
    if ts.len() == 0 {
        0
    } else {
        sum_amounts(ts.drop_last()) + ts.last().amount
    }
}

/// Escrow conservation: whatever the outcome, settlement moves out exactly
/// the pot, twice the stake both players escrowed.
pub proof fn lemma_settlement_conserves_pot(g: Game)
    requires
        game_wf(g),
        1 <= g.p1_move <= 3,
        1 <= g.p2_move <= 3,
        g.player_two is Some,
    ensures
        sum_amounts(settlement_transfers(g)) == g.stake_amount * 2,
{
    reveal_with_fuel(sum_amounts, 4);
    let ts = settlement_transfers(g);
    assert(sum_amounts(Seq::<Transfer>::empty()) == 0);
    match resolve_spec(move_of_id(g.p1_move), move_of_id(g.p2_move)) {
        Outcome::Player1Wins | Outcome::Player2Wins => {
            assert(ts.drop_last() =~= Seq::<Transfer>::empty());
            assert(sum_amounts(ts) == sum_amounts(ts.drop_last()) + ts.last().amount);
        },
        Outcome::Draw => {
            assert(ts.drop_last().drop_last() =~= Seq::<Transfer>::empty());
            assert(sum_amounts(ts.drop_last()) == sum_amounts(ts.drop_last().drop_last())
                + ts.drop_last().last().amount);
            assert(sum_amounts(ts) == sum_amounts(ts.drop_last()) + ts.last().amount);
        },
    }
}

} // verus!
