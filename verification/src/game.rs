//! The game record and its well-formedness invariant, together with the
//! counting functions (pieces at home, active seats) that the invariant and
//! the operation contracts are stated over.

use vstd::prelude::*;
use crate::board::{spec_start_offsets, spec_home_entries, spec_safe_zones};

verus! {

/// An account identity: 32 bytes held as two machine words. The all-zero
/// value is the null identity, the sentinel marking an eliminated seat.
#[derive(Clone, Copy, PartialEq, Eq, Structural, Debug)]
pub struct PlayerId {
    pub hi: u128,
    pub lo: u128,
}

impl PlayerId {
    pub open spec fn spec_is_null(self) -> bool {
        self.hi == 0 && self.lo == 0
    }

    pub fn is_null(&self) -> (r: bool)
        ensures
            r == self.spec_is_null(),
    {
        self.hi == 0 && self.lo == 0
    }

    pub fn null() -> (r: Self)
        ensures
            r.spec_is_null(),
            r == (PlayerId { hi: 0, lo: 0 }),
    {
        PlayerId { hi: 0, lo: 0 }
    }
}

#[derive(Clone, Copy, PartialEq, Eq, Structural, Debug)]
pub enum GameStatus {
    WaitingForPlayers,
    Active,
    Completed,
    Finalized,
    Cancelled,
}

#[derive(Clone, Copy, PartialEq, Eq, Structural, Debug)]
pub enum ErrorCode {
    InvalidPlayerCount,
    InvalidBetAmount,
    NotYourTurn,
    GameNotActive,
    GameOver,
    InvalidPiece,
    DiceNotRolled,
    TurnSkipped,
    CannotStart,
    InvalidMove,
    GameNotCompleted,
    NoWinner,
    NoSecondPlace,
    GameAlreadyStarted,
    GameFull,
    AlreadyJoined,
    NotGameCreator,
    RandomnessNotRequested,
    InsufficientRandomness,
    NoValidMoves,
}

/// An instruction to move value out of the game's custodial balance.
#[derive(Clone, Copy, PartialEq, Eq, Structural, Debug)]
pub struct Transfer {
    pub to: PlayerId,
    pub amount: u64,
}

/// Largest stake for which four escrowed stakes, scaled by the 65-percent
/// winner share, still fit in a 64-bit ledger amount.
pub const MAX_BET_AMOUNT: u64 = u64::MAX / 260;

/// Number of pieces standing on the home square.
pub open spec fn count_at_home(row: Seq<u8>) -> int
    decreases row.len(),
{
    if row.len() == 0 {
        0int
    } else {
        count_at_home(row.drop_last()) + if row.last() == 56 {
            1int
        } else {
            0int
        }
    }
}

/// Number of seats whose identity is not the null identity.
pub open spec fn count_active(players: Seq<PlayerId>) -> int
    decreases players.len(),
{
    if players.len() == 0 {
        0int
    } else {
        count_active(players.drop_last()) + if players.last().spec_is_null() {
            0int
        } else {
            1int
        }
    }
}

pub proof fn lemma_count_at_home_bounds(row: Seq<u8>)
    ensures
        0 <= count_at_home(row) <= row.len(),
    decreases row.len(),
{
    if row.len() > 0 {
        lemma_count_at_home_bounds(row.drop_last());
    }
}

pub proof fn lemma_count_at_home_update(row: Seq<u8>, j: int, v: u8)
    requires
        0 <= j < row.len(),
    ensures
        count_at_home(row.update(j, v)) == count_at_home(row) - (if row[j] == 56 {
            1int
        } else {
            0int
        }) + (if v == 56 {
            1int
        } else {
            0int
        }),
    decreases row.len(),
{
    let updated = row.update(j, v);
    if j == row.len() - 1 {
        assert(updated.drop_last() =~= row.drop_last());
    } else {
        assert(updated.drop_last() =~= row.drop_last().update(j, v));
        lemma_count_at_home_update(row.drop_last(), j, v);
        assert(updated.last() == row.last());
    }
}

/// Two rows with home squares in the same places have the same home count.
pub proof fn lemma_count_at_home_same(row1: Seq<u8>, row2: Seq<u8>)
    requires
        row1.len() == row2.len(),
        forall|j: int| 0 <= j < row1.len() ==> ((row1[j] == 56) <==> (row2[j] == 56)),
    ensures
        count_at_home(row1) == count_at_home(row2),
    decreases row1.len(),
{
    if row1.len() > 0 {
        lemma_count_at_home_same(row1.drop_last(), row2.drop_last());
    }
}

pub proof fn lemma_count_at_home_none(row: Seq<u8>)
    requires
        forall|j: int| 0 <= j < row.len() ==> row[j] != 56,
    ensures
        count_at_home(row) == 0,
    decreases row.len(),
{
    if row.len() > 0 {
        lemma_count_at_home_none(row.drop_last());
    }
}

pub proof fn lemma_count_active_update(players: Seq<PlayerId>, j: int, v: PlayerId)
    requires
        0 <= j < players.len(),
    ensures
        count_active(players.update(j, v)) == count_active(players) - (if players[j].spec_is_null() {
            0int
        } else {
            1int
        }) + (if v.spec_is_null() {
            0int
        } else {
            1int
        }),
    decreases players.len(),
{
    let updated = players.update(j, v);
    if j == players.len() - 1 {
        assert(updated.drop_last() =~= players.drop_last());
    } else {
        assert(updated.drop_last() =~= players.drop_last().update(j, v));
        lemma_count_active_update(players.drop_last(), j, v);
        assert(updated.last() == players.last());
    }
}

/// A roster without null identities has every seat active.
pub proof fn lemma_count_active_all(players: Seq<PlayerId>)
    requires
        forall|i: int| 0 <= i < players.len() ==> !(#[trigger] players[i]).spec_is_null(),
    ensures
        count_active(players) == players.len(),
    decreases players.len(),
{
    if players.len() > 0 {
        lemma_count_active_all(players.drop_last());
    }
}

/// At least one active seat means some index holds a non-null identity.
pub proof fn lemma_count_active_pos(players: Seq<PlayerId>)
    requires
        count_active(players) >= 1,
    ensures
        exists|i: int| 0 <= i < players.len() && !(#[trigger] players[i]).spec_is_null(),
    decreases players.len(),
{
    if players.last().spec_is_null() {
        lemma_count_active_pos(players.drop_last());
        let i = choose|i: int|
            0 <= i < players.drop_last().len() && !(#[trigger] players.drop_last()[i]).spec_is_null();
        assert(!players[i].spec_is_null());
    } else {
        assert(!players[players.len() - 1].spec_is_null());
    }
}

/// The one mutable aggregate: every operation of the engine is a transition
/// on a value of this type.
#[derive(Debug)]
pub struct GameState {
    pub creator: PlayerId,
    pub players: Vec<PlayerId>,
    pub deposited_players: Vec<PlayerId>,
    pub max_players: u8,
    pub bet_amount: u64,
    pub total_bet: u64,
    pub platform_fee: u64,
    pub prize_pool: u64,
    pub track_length: u8,
    pub positions: Vec<Vec<u8>>,
    pub home_counts: Vec<u8>,
    pub start_offsets: Vec<u8>,
    pub home_entry_positions: Vec<u8>,
    pub safe_zones: Vec<u8>,
    pub turn: u8,
    pub last_move_time: i64,
    pub winner: Option<PlayerId>,
    pub second_place: Option<PlayerId>,
    pub game_state: GameStatus,
    pub dice_roll: Option<u8>,
    pub consecutive_sixes: u8,
    pub missed_turns: Vec<u8>,
}

impl GameState {
    /// Number of seats ever filled (join order, stable for the whole game).
    pub open spec fn seats(self) -> int {
        self.players@.len() as int
    }

    pub open spec fn wf_lengths(self) -> bool {
        &&& self.deposited_players@.len() == self.players@.len()
        &&& self.positions@.len() == self.players@.len()
        &&& self.home_counts@.len() == self.players@.len()
        &&& self.missed_turns@.len() == self.players@.len()
        &&& forall|i: int| 0 <= i < self.seats() ==> (#[trigger] self.positions@[i])@.len() == 4
    }

    pub open spec fn wf_board(self) -> bool {
        &&& self.max_players == 2 || self.max_players == 4
        &&& self.track_length == 56
        &&& self.start_offsets@ == spec_start_offsets(self.max_players)
        &&& self.home_entry_positions@ == spec_home_entries(self.max_players)
        &&& self.safe_zones@ == spec_safe_zones()
    }

    /// The ledger never splits a single escrowed pot into more than the pot:
    /// the fee is a tenth of the pot, the prize pool exactly the rest.
    pub open spec fn wf_funds(self) -> bool {
        &&& 0 < self.bet_amount
        &&& self.bet_amount <= MAX_BET_AMOUNT
        &&& self.total_bet == self.bet_amount * self.seats()
        &&& self.platform_fee == self.total_bet / 10
        &&& self.prize_pool + self.platform_fee == self.total_bet
    }

    pub open spec fn wf_pieces(self) -> bool {
        &&& forall|i: int, j: int|
            0 <= i < self.seats() && 0 <= j < 4 ==> (#[trigger] self.positions@[i]@[j]) <= 56
        &&& forall|i: int|
            0 <= i < self.seats() ==> (#[trigger] self.home_counts@[i]) as int == count_at_home(
                self.positions@[i]@,
            )
    }

    pub open spec fn wf_turn(self) -> bool {
        &&& 1 <= self.seats() <= self.max_players
        &&& (self.turn as int) < self.seats()
        &&& self.consecutive_sixes < 3
        &&& (self.game_state == GameStatus::Active ==> !self.players@[self.turn as int].spec_is_null()
            && count_active(self.players@) >= 2)
        &&& forall|i: int|
            0 <= i < self.seats() && (#[trigger] self.missed_turns@[i]) >= 3
                ==> self.players@[i].spec_is_null()
        &&& (self.game_state == GameStatus::WaitingForPlayers ==> forall|i: int|
            0 <= i < self.seats() ==> !(#[trigger] self.players@[i]).spec_is_null())
    }

    pub open spec fn wf_misc(self) -> bool {
        &&& !self.creator.spec_is_null()
        &&& forall|i: int|
            0 <= i < self.seats() ==> !(#[trigger] self.deposited_players@[i]).spec_is_null()
        &&& self.last_move_time >= 0
        &&& (match self.dice_roll {
            Some(d) => 1 <= d && d <= 6 && self.game_state == GameStatus::Active,
            None => true,
        })
        &&& ((self.game_state == GameStatus::Completed || self.game_state == GameStatus::Finalized)
            ==> self.winner is Some)
    }

    /// Well-formedness: holds after creation and is preserved by every
    /// operation of the engine.
    pub open spec fn wf(self) -> bool {
        &&& self.wf_lengths()
        &&& self.wf_board()
        &&& self.wf_funds()
        &&& self.wf_pieces()
        &&& self.wf_turn()
        &&& self.wf_misc()
    }
}

} // verus!
