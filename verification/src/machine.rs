//! The game lifecycle state machine: one record store holding the game
//! counter, every game ever created, every player profile, and the set of
//! active (not yet completed) game ids. Each operation validates the
//! current state, performs at most one transition, and leaves everything
//! unchanged when it fails.

use vstd::prelude::*;

use std::collections::HashMap;

use crate::codec::commitment_matches;
use crate::codec::verify_commitment;
use crate::game::Error;
use crate::game::Game;
use crate::game::GameState;
use crate::game::Player;
use crate::game::game_wf;
use crate::game::move_from_id;
use crate::game::Outcome;
use crate::resolve::resolve;
use crate::settle::Settlement;
use crate::settle::Transfer;
use crate::settle::lemma_settlement_conserves_pot;
use crate::settle::settlement_transfers;
use crate::settle::sum_amounts;
use crate::settle::winner_for;
use crate::settle::winner_of;
use vstd::pervasive::unreached;

verus! {

broadcast use vstd::std_specs::hash::group_hash_axioms;

/// The whole contract state. The games vector is keyed by game id: the
/// game with id `i` sits at index `i - 1`, ids are assigned by a strictly
/// increasing counter starting at 1 and are never reused.
pub struct StellarDuelsContract {
    pub next_game_id: u64,
    pub games: Vec<Game>,
    pub players: HashMap<u64, Player>,
    pub active_games: Vec<u64>,
}

impl StellarDuelsContract {
    /// Whether a game with this id exists.
    pub open spec fn has_game(self, game_id: u64) -> bool {
        1 <= game_id <= self.games@.len()
    }

    /// The game stored under an existing id.
    pub open spec fn game_at(self, game_id: u64) -> Game
        recommends
            self.has_game(game_id),
    {
        self.games@[game_id - 1]
    }

    /// Every stored game is well formed, sits at the index its id names,
    /// and only registered players hold its seats.
    pub open spec fn games_ok(self) -> bool {
        forall|i: int|
            0 <= i < self.games@.len() ==> {
                &&& (#[trigger] self.games@[i]).game_id == i + 1
                &&& game_wf(self.games@[i])
                &&& self.players@.contains_key(self.games@[i].player_one)
                &&& (self.games@[i].player_two matches Some(p) ==> self.players@.contains_key(p))
            }
    }

    /// Every profile is stored under its own address.
    pub open spec fn players_ok(self) -> bool {
        forall|a: u64| #[trigger]
            self.players@.contains_key(a) ==> self.players@[a].address == a
    }

    /// The active list holds exactly the ids of games that are not yet
    /// completed, each at most once.
    pub open spec fn active_ok(self) -> bool {
        &&& forall|j: int|
            0 <= j < self.active_games@.len() ==> {
                &&& 1 <= #[trigger] self.active_games@[j] <= self.games@.len()
                &&& !(self.games@[self.active_games@[j] - 1].state is Completed)
            }
        &&& forall|i: int|
            0 <= i < self.games@.len() && !((#[trigger] self.games@[i]).state is Completed)
                ==> self.active_games@.contains((i + 1) as u64)
        &&& forall|j: int, k: int|
            0 <= j < k < self.active_games@.len() ==> self.active_games@[j]
                != self.active_games@[k]
    }

    /// The invariant every operation preserves.
    pub open spec fn wf(self) -> bool {
        &&& 1 <= self.next_game_id
        &&& self.games@.len() == self.next_game_id - 1
        &&& self.games_ok()
        &&& self.players_ok()
        &&& self.active_ok()
    }

    /// A fresh store: no games, no players, the counter at its start.
    pub fn new() -> (r: Self)
        ensures
            r.wf(),
            r.next_game_id == 1,
            r.games@ =~= Seq::<Game>::empty(),
            r.players@ =~= Map::<u64, Player>::empty(),
            r.active_games@ =~= Seq::<u64>::empty(),
    {
        StellarDuelsContract {
            next_game_id: 1,
            games: Vec::new(),
            players: HashMap::new(),
            active_games: Vec::new(),
        }
    }

    /// Register a player, or return the existing profile unchanged. The
    /// call is idempotent; a fresh profile starts with all counters at 0.
    pub fn register_player(&mut self, player: u64) -> (r: Player)
        requires
            old(self).wf(),
        ensures
            final(self).wf(),
            final(self).players@.contains_key(player),
            r == final(self).players@[player],
            old(self).players@.contains_key(player) ==> {
                &&& r == old(self).players@[player]
                &&& final(self).players@ == old(self).players@
            },
            !old(self).players@.contains_key(player) ==> {
                &&& r == (Player { address: player, wins: 0, losses: 0, draws: 0 })
                &&& final(self).players@ == old(self).players@.insert(player, r)
            },
            final(self).games@ == old(self).games@,
            final(self).active_games@ == old(self).active_games@,
            final(self).next_game_id == old(self).next_game_id,
    {
        let existing: Option<Player> = match self.players.get(&player) {
            Some(p) => Some(*p),
            None => None,
        };
        match existing {
            Some(p) => p,
            None => {
                let new_player = Player { address: player, wins: 0, losses: 0, draws: 0 };
                self.players.insert(player, new_player);
                new_player
            },
        }
    }

    /// Look up a player profile.
    pub fn get_player(&self, player: u64) -> (r: Option<Player>)
        ensures
            r == if self.players@.contains_key(player) {
                Some(self.players@[player])
            } else {
                None::<Player>
            },
    {
        match self.players.get(&player) {
            Some(p) => Some(*p),
            None => None,
        }
    }

    /// Look up a game record by id.
    pub fn get_game(&self, game_id: u64) -> (r: Option<Game>)
        ensures
            r == if self.has_game(game_id) {
                Some(self.game_at(game_id))
            } else {
                None::<Game>
            },
    {
        if 1 <= game_id && game_id <= self.games.len() as u64 {
            Some(self.games[(game_id - 1) as usize])
        } else {
            None
        }
    }

    /// How a game record starts out: one seat taken, nothing committed,
    /// nothing revealed, waiting for an opponent.
    pub open spec fn fresh_game(game_id: u64, creator: u64, stake_amount: i128) -> Game {
        Game {
            game_id,
            player_one: creator,
            player_two: None,
            stake_amount,
            state: GameState::WaitingForPlayer,
            p1_commitment: None,
            p2_commitment: None,
            p1_move: 0,
            p2_move: 0,
            winner: None,
        }
    }

    /// Allocate the next game id, escrow the creator's stake, and store a
    /// fresh game under the new id. `token_deposit_ok` reports whether the
    /// external escrow transfer of `stake_amount` from the creator
    /// succeeded; without it, nothing is recorded.
    pub fn create_game(
        &mut self,
        creator: u64,
        stake_amount: i128,
        token_deposit_ok: bool,
    ) -> (r: Result<u64, Error>)
        requires
            old(self).wf(),
            0 <= stake_amount,
            stake_amount * 2 <= i128::MAX,
            old(self).next_game_id < u64::MAX,
        ensures
            final(self).wf(),
            r is Err ==> *final(self) == *old(self),
            !old(self).players@.contains_key(creator) ==> r == Err::<u64, Error>(
                Error::NotRegistered,
            ),
            old(self).players@.contains_key(creator) && !token_deposit_ok ==> r == Err::<
                u64,
                Error,
            >(Error::TransferFailed),
            old(self).players@.contains_key(creator) && token_deposit_ok ==> {
                let id = old(self).next_game_id;
                &&& r == Ok::<u64, Error>(id)
                &&& final(self).next_game_id == id + 1
                &&& final(self).games@ == old(self).games@.push(
                    Self::fresh_game(id, creator, stake_amount),
                )
                &&& final(self).active_games@ == old(self).active_games@.push(id)
                &&& final(self).players@ == old(self).players@
            },
    {
        if !self.players.contains_key(&creator) {
            return Err(Error::NotRegistered);
        }
        if !token_deposit_ok {
            return Err(Error::TransferFailed);
        }
        let game_id = self.get_and_increment_counter();
        let game = Game {
            game_id,
            player_one: creator,
            player_two: None,
            stake_amount,
            state: GameState::WaitingForPlayer,
            p1_commitment: None,
            p2_commitment: None,
            p1_move: 0,
            p2_move: 0,
            winner: None,
        };
        self.games.push(game);
        self.add_to_active_games(game_id);
        proof {
            let olda = old(self).active_games@;
            let newa = self.active_games@;
            assert forall|i: int|
                0 <= i < self.games@.len() && !((#[trigger] self.games@[i]).state is Completed)
                implies self.active_games@.contains((i + 1) as u64) by {
                if i < old(self).games@.len() {
                    assert(old(self).active_games@.contains((i + 1) as u64));
                    let j = choose|j: int|
                        0 <= j < olda.len() && olda[j] == (i + 1) as u64;
                    assert(newa[j] == (i + 1) as u64);
                } else {
                    assert(newa[olda.len() as int] == game_id);
                }
            }
        }
        Ok(game_id)
    }

    /// Whether, and why not, `player` may take the second seat of a game.
    pub open spec fn join_validation(self, game_id: u64, player: u64) -> Result<(), Error> {
        if !self.has_game(game_id) {
            Err(Error::GameNotFound)
        } else if !(self.game_at(game_id).state is WaitingForPlayer) {
            Err(Error::InvalidStateForOperation)
        } else if self.game_at(game_id).player_two is Some {
            Err(Error::InvalidStateForOperation)
        } else if player == self.game_at(game_id).player_one {
            Err(Error::InvalidStateForOperation)
        } else if !self.players@.contains_key(player) {
            Err(Error::NotRegistered)
        } else {
            Ok(())
        }
    }

    /// Take the second seat of a waiting game. The joiner escrows the same
    /// stake as the creator; `token_deposit_ok` reports whether that
    /// external transfer succeeded. Joining does not advance the state:
    /// only committing does.
    pub fn join_game(&mut self, game_id: u64, player: u64, token_deposit_ok: bool) -> (r: Result<
        Game,
        Error,
    >)
        requires
            old(self).wf(),
        ensures
            final(self).wf(),
            r is Err ==> *final(self) == *old(self),
            old(self).join_validation(game_id, player) matches Err(e) ==> r == Err::<Game, Error>(
                e,
            ),
            old(self).join_validation(game_id, player) is Ok && !token_deposit_ok ==> r == Err::<
                Game,
                Error,
            >(Error::TransferFailed),
            old(self).join_validation(game_id, player) is Ok && token_deposit_ok ==> {
                let g = Game { player_two: Some(player), ..old(self).game_at(game_id) };
                &&& r == Ok::<Game, Error>(g)
                &&& final(self).games@ == old(self).games@.update(game_id - 1, g)
                &&& final(self).players@ == old(self).players@
                &&& final(self).active_games@ == old(self).active_games@
                &&& final(self).next_game_id == old(self).next_game_id
            },
    {
        if !(1 <= game_id && game_id <= self.games.len() as u64) {
            return Err(Error::GameNotFound);
        }
        let idx = (game_id - 1) as usize;
        let game = self.games[idx];
        if game.state != GameState::WaitingForPlayer {
            return Err(Error::InvalidStateForOperation);
        }
        if game.player_two.is_some() {
            return Err(Error::InvalidStateForOperation);
        }
        if player == game.player_one {
            return Err(Error::InvalidStateForOperation);
        }
        if !self.players.contains_key(&player) {
            return Err(Error::NotRegistered);
        }
        if !token_deposit_ok {
            return Err(Error::TransferFailed);
        }
        let mut g = game;
        g.player_two = Some(player);
        self.games[idx] = g;
        Ok(g)
    }

    /// Whether, and why not, `player` may commit a move in a game. A
    /// commitment can land only once a second player is present, only from
    /// one of the two participants, and at most once per participant.
    pub open spec fn commit_validation(self, game_id: u64, player: u64) -> Result<(), Error> {
        if !self.has_game(game_id) {
            Err(Error::GameNotFound)
        } else if self.game_at(game_id).player_two is None {
            Err(Error::InvalidStateForOperation)
        } else if player == self.game_at(game_id).player_one {
            if self.game_at(game_id).p1_commitment is Some {
                Err(Error::AlreadyCommitted)
            } else {
                Ok(())
            }
        } else if Some(player) == self.game_at(game_id).player_two {
            if self.game_at(game_id).p2_commitment is Some {
                Err(Error::AlreadyCommitted)
            } else {
                Ok(())
            }
        } else {
            Err(Error::NotAParticipant)
        }
    }

    /// The record after `player` commits `commitment`: the caller's slot is
    /// filled, and once both slots are filled the state advances to
    /// `MovesCommitted`.
    pub open spec fn committed_game(g: Game, player: u64, commitment: [u8; 32]) -> Game {
        let g1 = if player == g.player_one {
            Game { p1_commitment: Some(commitment), ..g }
        } else {
            Game { p2_commitment: Some(commitment), ..g }
        };
        if g1.p1_commitment is Some && g1.p2_commitment is Some {
            Game { state: GameState::MovesCommitted, ..g1 }
        } else {
            g1
        }
    }

    /// Store a player's hidden move commitment. At most one commitment per
    /// participant; when the second one lands, the game advances to
    /// `MovesCommitted`.
    pub fn commit_move(&mut self, game_id: u64, player: u64, commitment: [u8; 32]) -> (r: Result<
        Game,
        Error,
    >)
        requires
            old(self).wf(),
        ensures
            final(self).wf(),
            r is Err ==> *final(self) == *old(self),
            old(self).commit_validation(game_id, player) matches Err(e) ==> r == Err::<Game, Error>(
                e,
            ),
            old(self).commit_validation(game_id, player) is Ok ==> {
                let g = Self::committed_game(old(self).game_at(game_id), player, commitment);
                &&& r == Ok::<Game, Error>(g)
                &&& final(self).games@ == old(self).games@.update(game_id - 1, g)
                &&& final(self).players@ == old(self).players@
                &&& final(self).active_games@ == old(self).active_games@
                &&& final(self).next_game_id == old(self).next_game_id
            },
    {
        if !(1 <= game_id && game_id <= self.games.len() as u64) {
            return Err(Error::GameNotFound);
        }
        let idx = (game_id - 1) as usize;
        let game = self.games[idx];
        if game.player_two.is_none() {
            return Err(Error::InvalidStateForOperation);
        }
        let mut g = game;
        if player == game.player_one {
            if game.p1_commitment.is_some() {
                return Err(Error::AlreadyCommitted);
            }
            g.p1_commitment = Some(commitment);
        } else if Some(player) == game.player_two {
            if game.p2_commitment.is_some() {
                return Err(Error::AlreadyCommitted);
            }
            g.p2_commitment = Some(commitment);
        } else {
            return Err(Error::NotAParticipant);
        }
        if g.p1_commitment.is_some() && g.p2_commitment.is_some() {
            g.state = GameState::MovesCommitted;
        }
        self.games[idx] = g;
        Ok(g)
    }

    /// Whether, and why not, `player` may reveal `(move_choice, salt)` in a
    /// game. The recomputed commitment must equal the stored one exactly:
    /// a player cannot reveal a move other than the one committed to.
    pub open spec fn reveal_validation(
        self,
        game_id: u64,
        player: u64,
        move_choice: u32,
        salt: [u8; 32],
    ) -> Result<(), Error> {
        if !self.has_game(game_id) {
            Err(Error::GameNotFound)
        } else if !(self.game_at(game_id).state is MovesCommitted) {
            Err(Error::InvalidStateForOperation)
        } else if !(1 <= move_choice <= 3) {
            Err(Error::InvalidMoveValue)
        } else if player == self.game_at(game_id).player_one {
            match self.game_at(game_id).p1_commitment {
                None => Err(Error::MissingCommitment),
                Some(c) => if commitment_matches(move_choice, salt@, c@) {
                    Ok(())
                } else {
                    Err(Error::CommitmentMismatch)
                },
            }
        } else if Some(player) == self.game_at(game_id).player_two {
            match self.game_at(game_id).p2_commitment {
                None => Err(Error::MissingCommitment),
                Some(c) => if commitment_matches(move_choice, salt@, c@) {
                    Ok(())
                } else {
                    Err(Error::CommitmentMismatch)
                },
            }
        } else {
            Err(Error::NotAParticipant)
        }
    }

    /// The record after `player` reveals `move_choice`: only the caller's
    /// revealed-move slot changes; the state stays `MovesCommitted` so the
    /// two reveals can land in either order.
    pub open spec fn revealed_game(g: Game, player: u64, move_choice: u32) -> Game {
        if player == g.player_one {
            Game { p1_move: move_choice, ..g }
        } else {
            Game { p2_move: move_choice, ..g }
        }
    }

    /// Reveal a move together with the salt it was committed under. The
    /// commitment is recomputed and must equal the stored one exactly.
    pub fn reveal_move(
        &mut self,
        game_id: u64,
        player: u64,
        move_choice: u32,
        salt: [u8; 32],
    ) -> (r: Result<Game, Error>)
        requires
            old(self).wf(),
        ensures
            final(self).wf(),
            r is Err ==> *final(self) == *old(self),
            old(self).reveal_validation(game_id, player, move_choice, salt) matches Err(e) ==> r
                == Err::<Game, Error>(e),
            old(self).reveal_validation(game_id, player, move_choice, salt) is Ok ==> {
                let g = Self::revealed_game(old(self).game_at(game_id), player, move_choice);
                &&& r == Ok::<Game, Error>(g)
                &&& final(self).games@ == old(self).games@.update(game_id - 1, g)
                &&& final(self).players@ == old(self).players@
                &&& final(self).active_games@ == old(self).active_games@
                &&& final(self).next_game_id == old(self).next_game_id
            },
    {
        if !(1 <= game_id && game_id <= self.games.len() as u64) {
            return Err(Error::GameNotFound);
        }
        let idx = (game_id - 1) as usize;
        let game = self.games[idx];
        if game.state != GameState::MovesCommitted {
            return Err(Error::InvalidStateForOperation);
        }
        if !(1 <= move_choice && move_choice <= 3) {
            return Err(Error::InvalidMoveValue);
        }
        let mut g = game;
        if player == game.player_one {
            let stored = match game.p1_commitment {
                None => {
                    return Err(Error::MissingCommitment);
                },
                Some(c) => c,
            };
            if !verify_commitment(move_choice, &salt, &stored) {
                return Err(Error::CommitmentMismatch);
            }
            g.p1_move = move_choice;
        } else if Some(player) == game.player_two {
            let stored = match game.p2_commitment {
                None => {
                    return Err(Error::MissingCommitment);
                },
                Some(c) => c,
            };
            if !verify_commitment(move_choice, &salt, &stored) {
                return Err(Error::CommitmentMismatch);
            }
            g.p2_move = move_choice;
        } else {
            return Err(Error::NotAParticipant);
        }
        self.games[idx] = g;
        Ok(g)
    }

    /// The winning address for a pair of revealed moves, or `None` on a
    /// draw: the resolution rule applied to the two seats of a game.
    pub fn determine_winner(game: &Game, p1_move: u32, p2_move: u32) -> (r: Option<u64>)
        requires
            1 <= p1_move <= 3,
            1 <= p2_move <= 3,
        ensures
            r == winner_for(*game, p1_move, p2_move),
    {
        let m1 = match move_from_id(p1_move) {
            Some(m) => m,
            None => unreached(),
        };
        let m2 = match move_from_id(p2_move) {
            Some(m) => m,
            None => unreached(),
        };
        match resolve(m1, m2) {
            Outcome::Player1Wins => Some(game.player_one),
            Outcome::Player2Wins => game.player_two,
            Outcome::Draw => None,
        }
    }

    /// Whether, and why not, a game can be finalized: it must exist, sit in
    /// `MovesCommitted`, and have both moves revealed.
    pub open spec fn finalize_validation(self, game_id: u64) -> Result<(), Error> {
        if !self.has_game(game_id) {
            Err(Error::GameNotFound)
        } else if !(self.game_at(game_id).state is MovesCommitted) {
            Err(Error::InvalidStateForOperation)
        } else if self.game_at(game_id).p1_move == 0 || self.game_at(game_id).p2_move == 0 {
            Err(Error::IncompleteReveal)
        } else {
            Ok(())
        }
    }

    /// Compute, without changing anything, the fund movements finalizing a
    /// game requires: the whole pot to the winner, or both stakes refunded
    /// on a draw. The caller performs these transfers before applying
    /// `finalize_game`.
    pub fn settlement_plan(&self, game_id: u64) -> (r: Result<Settlement, Error>)
        requires
            self.wf(),
        ensures
            self.finalize_validation(game_id) matches Err(e) ==> r == Err::<Settlement, Error>(e),
            self.finalize_validation(game_id) is Ok ==> (r matches Ok(s) && s.winner == winner_of(
                self.game_at(game_id),
            ) && s.transfers@ == settlement_transfers(self.game_at(game_id))),
    {
        if !(1 <= game_id && game_id <= self.games.len() as u64) {
            return Err(Error::GameNotFound);
        }
        let idx = (game_id - 1) as usize;
        let game = self.games[idx];
        if game.state != GameState::MovesCommitted {
            return Err(Error::InvalidStateForOperation);
        }
        if game.p1_move == 0 || game.p2_move == 0 {
            return Err(Error::IncompleteReveal);
        }
        let winner = Self::determine_winner(&game, game.p1_move, game.p2_move);
        let second = match game.player_two {
            Some(p) => p,
            None => unreached(),
        };
        let mut transfers: Vec<Transfer> = Vec::new();
        match winner {
            Some(w) => {
                transfers.push(Transfer { to: w, amount: game.stake_amount * 2 });
            },
            None => {
                transfers.push(Transfer { to: game.player_one, amount: game.stake_amount });
                transfers.push(Transfer { to: second, amount: game.stake_amount });
            },
        }
        proof {
            assert(transfers@ =~= settlement_transfers(self.game_at(game_id)));
        }
        Ok(Settlement { winner, transfers })
    }

    /// A counter bumped by one, held at its ceiling instead of wrapping.
    pub open spec fn bump(c: u32) -> u32 {
        if c < u32::MAX {
            (c + 1) as u32
        } else {
            c
        }
    }

    /// A profile after a decided game: one more win or one more loss.
    pub open spec fn after_result(p: Player, won: bool) -> Player {
        if won {
            Player { wins: Self::bump(p.wins), ..p }
        } else {
            Player { losses: Self::bump(p.losses), ..p }
        }
    }

    /// A profile after a drawn game: one more draw.
    pub open spec fn after_draw(p: Player) -> Player {
        Player { draws: Self::bump(p.draws), ..p }
    }

    /// Both profiles after settling a finalized game `g`: on a decided
    /// game the winner gains a win and the loser a loss; on a draw both
    /// gain a draw.
    pub open spec fn settled_players(players: Map<u64, Player>, g: Game) -> Map<u64, Player>
        recommends
            g.player_two is Some,
            players.contains_key(g.player_one),
            1 <= g.p1_move <= 3,
            1 <= g.p2_move <= 3,
    {
        let p1 = g.player_one;
        let p2 = match g.player_two {
            Some(p) => p,
            None => g.player_one,
        };
        match winner_of(g) {
            Some(w) => players.insert(p1, Self::after_result(players[p1], w == p1)).insert(
                p2,
                Self::after_result(players[p2], w == p2),
            ),
            None => players.insert(p1, Self::after_draw(players[p1])).insert(
                p2,
                Self::after_draw(players[p2]),
            ),
        }
    }

    fn bump_counter(c: u32) -> (r: u32)
        ensures
            r == Self::bump(c),
    {
        if c < u32::MAX {
            c + 1
        } else {
            c
        }
    }

    /// Record a decided game on one profile: a win for the winner, a loss
    /// for the other player.
    fn update_player_stats(&mut self, player_addr: u64, won: bool)
        requires
            old(self).players_ok(),
            old(self).players@.contains_key(player_addr),
        ensures
            final(self).players_ok(),
            final(self).players@ == old(self).players@.insert(
                player_addr,
                Self::after_result(old(self).players@[player_addr], won),
            ),
            final(self).games@ == old(self).games@,
            final(self).active_games@ == old(self).active_games@,
            final(self).next_game_id == old(self).next_game_id,
    {
        let p = match self.players.get(&player_addr) {
            Some(p) => *p,
            None => unreached(),
        };
        let np = if won {
            Player { wins: Self::bump_counter(p.wins), ..p }
        } else {
            Player { losses: Self::bump_counter(p.losses), ..p }
        };
        self.players.insert(player_addr, np);
    }

    /// Record a drawn game on one profile.
    fn increment_draws(&mut self, player_addr: u64)
        requires
            old(self).players_ok(),
            old(self).players@.contains_key(player_addr),
        ensures
            final(self).players_ok(),
            final(self).players@ == old(self).players@.insert(
                player_addr,
                Self::after_draw(old(self).players@[player_addr]),
            ),
            final(self).games@ == old(self).games@,
            final(self).active_games@ == old(self).active_games@,
            final(self).next_game_id == old(self).next_game_id,
    {
        let p = match self.players.get(&player_addr) {
            Some(p) => *p,
            None => unreached(),
        };
        let np = Player { draws: Self::bump_counter(p.draws), ..p };
        self.players.insert(player_addr, np);
    }

    /// Hand out the next game id and advance the counter by one. Ids are
    /// strictly increasing and never reused.
    fn get_and_increment_counter(&mut self) -> (r: u64)
        requires
            old(self).next_game_id < u64::MAX,
        ensures
            r == old(self).next_game_id,
            final(self).next_game_id == old(self).next_game_id + 1,
            final(self).games@ == old(self).games@,
            final(self).players@ == old(self).players@,
            final(self).active_games@ == old(self).active_games@,
    {
        let counter = self.next_game_id;
        self.next_game_id = self.next_game_id + 1;
        counter
    }

    /// Append a freshly created game's id to the active list.
    fn add_to_active_games(&mut self, game_id: u64)
        ensures
            final(self).active_games@ == old(self).active_games@.push(game_id),
            final(self).games@ == old(self).games@,
            final(self).players@ == old(self).players@,
            final(self).next_game_id == old(self).next_game_id,
    {
        self.active_games.push(game_id);
    }

    /// Drop one id from the active list, keeping every other id once and
    /// in order.
    /// A sequence of ids with every occurrence of `v` dropped and all
    /// other ids kept in their original relative order.
    pub open spec fn without_id(s: Seq<u64>, v: u64) -> Seq<u64> {
        s.filter(|x: u64| x != v)
    }

    fn remove_from_active_games(&mut self, game_id: u64)
        requires
            forall|j: int, k: int|
                0 <= j < k < old(self).active_games@.len() ==> old(self).active_games@[j] != old(
                    self,
                ).active_games@[k],
        ensures
            final(self).active_games@ == Self::without_id(old(self).active_games@, game_id),
            forall|x: u64|
                #[trigger] final(self).active_games@.contains(x) <==> (old(
                    self,
                ).active_games@.contains(x) && x != game_id),
            forall|j: int, k: int|
                0 <= j < k < final(self).active_games@.len() ==> final(self).active_games@[j]
                    != final(self).active_games@[k],
            final(self).games@ == old(self).games@,
            final(self).players@ == old(self).players@,
            final(self).next_game_id == old(self).next_game_id,
    {
        let ghost orig = self.active_games@;
        let mut filtered: Vec<u64> = Vec::new();
        let mut i: usize = 0;
        proof {
            assert(filtered@ == Self::without_id(orig.take(0), game_id)) by {
                reveal(Seq::filter);
                assert(orig.take(0) =~= filtered@);
            }
        }
        while i < self.active_games.len()
            invariant
                self.active_games@ == orig,
                i <= orig.len(),
                filtered@ == Self::without_id(orig.take(i as int), game_id),
                forall|j: int, k: int| 0 <= j < k < orig.len() ==> orig[j] != orig[k],
                forall|x: u64| #[trigger]
                    filtered@.contains(x) ==> orig.take(i as int).contains(x) && x != game_id,
                forall|j: int|
                    0 <= j < i && orig[j] != game_id ==> filtered@.contains(#[trigger] orig[j]),
                forall|j: int, k: int|
                    0 <= j < k < filtered@.len() ==> filtered@[j] != filtered@[k],
            decreases orig.len() - i,
        {
            let ghost pre = filtered@;
            let id = self.active_games[i];
            if id != game_id {
                proof {
                    if filtered@.contains(id) {
                        let k = choose|k: int|
                            0 <= k < orig.take(i as int).len() && orig.take(i as int)[k] == id;
                        assert(orig[k] == id && orig[i as int] == id && k < i);
                        assert(false);
                    }
                }
                filtered.push(id);
            }
            i = i + 1;
            proof {
                assert(filtered@ == Self::without_id(orig.take(i as int), game_id)) by {
                    reveal(Seq::filter);
                    assert(orig.take(i as int).drop_last() =~= orig.take(i as int - 1));
                    assert(orig.take(i as int).last() == orig[i as int - 1]);
                }
                assert forall|x: u64| #[trigger] filtered@.contains(x) implies orig.take(
                    i as int,
                ).contains(x) && x != game_id by {
                    let k = choose|k: int| 0 <= k < filtered@.len() && filtered@[k] == x;
                    if k < pre.len() {
                        assert(pre[k] == x);
                        assert(pre.contains(x));
                        let j = choose|j: int|
                            0 <= j < orig.take(i as int - 1).len() && #[trigger] orig.take(
                                i as int - 1,
                            )[j] == x;
                        assert(orig.take(i as int)[j] == x);
                        assert(orig.take(i as int).contains(x));
                    } else {
                        assert(filtered@[k] == orig[i as int - 1]);
                        assert(orig.take(i as int)[i as int - 1] == x);
                        assert(orig.take(i as int).contains(x));
                    }
                }
                assert forall|j: int|
                    0 <= j < i && orig[j] != game_id implies filtered@.contains(
                    #[trigger] orig[j],
                ) by {
                    if j < i - 1 {
                        assert(pre.contains(orig[j]));
                        let k = choose|k: int| 0 <= k < pre.len() && pre[k] == orig[j];
                        assert(filtered@[k] == orig[j]);
                    } else {
                        assert(filtered@[filtered@.len() - 1] == orig[j]);
                    }
                }
            }
        }
        self.active_games = filtered;
        proof {
            assert(orig.take(orig.len() as int) =~= orig);
            assert forall|x: u64|
                orig.contains(x) && x != game_id implies #[trigger] self.active_games@.contains(
                x,
            ) by {
                let j = choose|j: int| 0 <= j < orig.len() && orig[j] == x;
                assert(self.active_games@.contains(orig[j]));
            }
        }
    }

    /// Finalize a game whose two moves are both revealed: fix the winner,
    /// mark the game completed, record the result on both profiles and
    /// drop the game from the active list. `token_transfers_ok` reports
    /// whether the settlement transfers of `settlement_plan` were
    /// performed; without them, nothing changes. Any caller may drive
    /// this: the outcome is already fixed by the reveals.
    pub fn finalize_game(&mut self, game_id: u64, token_transfers_ok: bool) -> (r: Result<
        Game,
        Error,
    >)
        requires
            old(self).wf(),
        ensures
            final(self).wf(),
            r is Err ==> *final(self) == *old(self),
            old(self).finalize_validation(game_id) matches Err(e) ==> r == Err::<Game, Error>(e),
            old(self).finalize_validation(game_id) is Ok && !token_transfers_ok ==> r == Err::<
                Game,
                Error,
            >(Error::TransferFailed),
            old(self).finalize_validation(game_id) is Ok && token_transfers_ok ==> {
                let g0 = old(self).game_at(game_id);
                let g = Game { state: GameState::Completed, winner: winner_of(g0), ..g0 };
                &&& r == Ok::<Game, Error>(g)
                &&& final(self).games@ == old(self).games@.update(game_id - 1, g)
                &&& final(self).players@ == Self::settled_players(old(self).players@, g0)
                &&& final(self).next_game_id == old(self).next_game_id
                &&& final(self).active_games@ == Self::without_id(
                    old(self).active_games@,
                    game_id,
                )
                &&& forall|x: u64|
                    #[trigger] final(self).active_games@.contains(x) <==> (old(
                        self,
                    ).active_games@.contains(x) && x != game_id)
            },
    {
        if !(1 <= game_id && game_id <= self.games.len() as u64) {
            return Err(Error::GameNotFound);
        }
        let idx = (game_id - 1) as usize;
        let game = self.games[idx];
        if game.state != GameState::MovesCommitted {
            return Err(Error::InvalidStateForOperation);
        }
        if game.p1_move == 0 || game.p2_move == 0 {
            return Err(Error::IncompleteReveal);
        }
        if !token_transfers_ok {
            return Err(Error::TransferFailed);
        }
        let winner = Self::determine_winner(&game, game.p1_move, game.p2_move);
        let mut g = game;
        g.winner = winner;
        g.state = GameState::Completed;
        self.games[idx] = g;
        let p1 = game.player_one;
        let p2 = match game.player_two {
            Some(p) => p,
            None => unreached(),
        };
        match winner {
            Some(w) => {
                self.update_player_stats(p1, w == p1);
                self.update_player_stats(p2, w == p2);
            },
            None => {
                self.increment_draws(p1);
                self.increment_draws(p2);
            },
        }
        self.remove_from_active_games(game_id);
        proof {
            let oldc = *old(self);
            let newg = self.games@;
            assert forall|i: int|
                0 <= i < newg.len() && !((#[trigger] newg[i]).state is Completed)
                implies self.active_games@.contains((i + 1) as u64) by {
                assert(i != game_id - 1);
                assert(oldc.games@[i] == newg[i]);
                assert(oldc.active_games@.contains((i + 1) as u64));
                assert((i + 1) as u64 != game_id);
            }
            assert forall|j: int|
                0 <= j < self.active_games@.len() implies {
                &&& 1 <= #[trigger] self.active_games@[j] <= self.games@.len()
                &&& !(self.games@[self.active_games@[j] - 1].state is Completed)
            } by {
                let x = self.active_games@[j];
                assert(self.active_games@.contains(x));
                assert(oldc.active_games@.contains(x) && x != game_id);
                let k = choose|k: int|
                    0 <= k < oldc.active_games@.len() && oldc.active_games@[k] == x;
            }
        }
        Ok(g)
    }

    /// Escrow conservation at the settlement boundary: whenever a game is
    /// ready to finalize, the transfers its settlement performs move out
    /// exactly twice its stake — the two deposits made at create and join
    /// — whatever the outcome.
    pub proof fn lemma_finalize_conserves_pot(self, game_id: u64)
        requires
            self.wf(),
            self.finalize_validation(game_id) is Ok,
        ensures
            sum_amounts(settlement_transfers(self.game_at(game_id))) == self.game_at(
                game_id,
            ).stake_amount * 2,
    {
        lemma_settlement_conserves_pot(self.game_at(game_id));
    }

    /// Settlement happens at most once per game: once a game is completed,
    /// no state admits a second finalize, so no second payout can be
    /// planned or applied.
    pub proof fn lemma_settle_at_most_once(self, game_id: u64)
        requires
            self.has_game(game_id),
            self.game_at(game_id).state is Completed,
        ensures
            self.finalize_validation(game_id) == Err::<(), Error>(
                Error::InvalidStateForOperation,
            ),
    {
    }

    /// The ids of all games not yet completed, in creation order.
    pub fn get_active_games(&self) -> (r: Vec<u64>)
        ensures
            r@ == self.active_games@,
    {
        let mut out: Vec<u64> = Vec::new();
        let mut i: usize = 0;
        while i < self.active_games.len()
            invariant
                i <= self.active_games@.len(),
                out@ == self.active_games@.take(i as int),
            decreases self.active_games@.len() - i,
        {
            out.push(self.active_games[i]);
            i = i + 1;
            proof {
                assert(out@ =~= self.active_games@.take(i as int));
            }
        }
        proof {
            assert(out@ =~= self.active_games@);
        }
        out
    }
}

} // verus!
