//! Move resolver: validating and applying a single piece movement — leaving
//! the yard, main-track advance, home-path entry with overshoot rejection,
//! capture of opposing pieces, and finish/placement detection.

use vstd::prelude::*;
use crate::board::{
    spec_piece_step, resolve_piece_step, spec_absolute_square, absolute_square, spec_safe_zones,
    vec_contains_u8,
};
use crate::game::{
    GameState, GameStatus, ErrorCode, PlayerId, count_at_home, lemma_count_at_home_bounds,
    lemma_count_at_home_update, lemma_count_at_home_same,
};
use crate::rotation::{spec_next_active, next_active_player};

verus! {

/// Whether one piece can legally consume the die value: a six frees a piece
/// from the yard, and an on-board piece must have a legal step.
pub open spec fn spec_can_move(cur: u8, die: u8, home_entry: u8) -> bool {
    ||| (die == 6 && cur == 0)
    ||| (0 < cur && cur < 56 && spec_piece_step(cur, die, home_entry) is Some)
}

/// Whether any piece of the row can legally consume the die value.
pub open spec fn spec_has_valid_move(row: Seq<u8>, die: u8, home_entry: u8) -> bool {
    exists|j: int| 0 <= j < row.len() && spec_can_move(row[j], die, home_entry)
}

/// A row after an opposing piece lands on absolute square `landing`: every
/// main-track piece (1..=50) of the row standing on that square goes back to
/// the yard; yard and home-path pieces are never captured.
pub open spec fn spec_captured_row(row: Seq<u8>, offset: u8, landing: u8) -> Seq<u8> {
    Seq::new(
        row.len(),
        |j: int|
            if 1 <= row[j] <= 50 && spec_absolute_square(offset, row[j]) == landing {
                0u8
            } else {
                row[j]
            },
    )
}

/// Whether the seat whose turn it is has any legal use of the die value.
pub fn check_for_valid_moves(game: &GameState, player_idx: usize, dice_value: u8) -> (r: bool)
    requires
        game.wf(),
        (player_idx as int) < game.seats(),
    ensures
        r == spec_has_valid_move(
            game.positions@[player_idx as int]@,
            dice_value,
            game.home_entry_positions@[player_idx as int],
        ),
{
    assert(game.home_entry_positions@.len() == game.max_players);
    let he = game.home_entry_positions[player_idx];
    let mut j: usize = 0;
    while j < 4
        invariant
            game.wf(),
            (player_idx as int) < game.seats(),
            he == game.home_entry_positions@[player_idx as int],
            j <= 4,
            forall|k: int|
                0 <= k < j ==> !spec_can_move(game.positions@[player_idx as int]@[k], dice_value, he),
        decreases 4 - j,
    {
        let pos = game.positions[player_idx][j];
        if dice_value == 6 && pos == 0 {
            return true;
        }
        if pos > 0 && pos < 56 {
            if resolve_piece_step(pos, dice_value, he).is_some() {
                return true;
            }
        }
        j += 1;
    }
    assert(!spec_has_valid_move(
        game.positions@[player_idx as int]@,
        dice_value,
        game.home_entry_positions@[player_idx as int],
    ));
    false
}

/// Sends every opposing main-track piece standing on `landing` back to the
/// yard. The mover's own row and eliminated seats' rows are untouched, and
/// no row's home count changes.
fn apply_captures(game: &mut GameState, mover: usize, landing: u8)
    requires
        old(game).wf(),
        (mover as int) < old(game).seats(),
    ensures
        final(game).positions@.len() == old(game).positions@.len(),
        final(game).positions@[mover as int] == old(game).positions@[mover as int],
        forall|i: int|
            0 <= i < old(game).seats() && i != mover as int
                ==> (#[trigger] final(game).positions@[i])@ == (if old(game).players@[i].spec_is_null() {
                old(game).positions@[i]@
            } else {
                spec_captured_row(old(game).positions@[i]@, old(game).start_offsets@[i], landing)
            }),
        forall|i: int|
            0 <= i < old(game).seats() ==> count_at_home((#[trigger] final(game).positions@[i])@)
                == count_at_home(old(game).positions@[i]@),
        forall|i: int|
            0 <= i < old(game).seats() ==> (#[trigger] final(game).positions@[i])@.len() == 4,
        forall|i: int, j: int|
            0 <= i < old(game).seats() && 0 <= j < 4 ==> (#[trigger] final(game).positions@[i]@[j])
                <= 56,
        *final(game) == (GameState { positions: final(game).positions, ..*old(game) }),
{
    assert(game.start_offsets@.len() == game.max_players);
    let n = game.players.len();
    let mut i: usize = 0;
    while i < n
        invariant
            old(game).wf(),
            (mover as int) < old(game).seats(),
            n == old(game).seats(),
            i <= n,
            game.positions@.len() == old(game).positions@.len(),
            game.players@ == old(game).players@,
            game.start_offsets@ == old(game).start_offsets@,
            *game == (GameState { positions: game.positions, ..*old(game) }),
            forall|k: int| i <= k < n ==> (#[trigger] game.positions@[k]) == old(game).positions@[k],
            game.positions@[mover as int] == old(game).positions@[mover as int],
            forall|k: int|
                0 <= k < i && k != mover as int ==> (#[trigger] game.positions@[k])@ == (if old(
                    game,
                ).players@[k].spec_is_null() {
                    old(game).positions@[k]@
                } else {
                    spec_captured_row(old(game).positions@[k]@, old(game).start_offsets@[k], landing)
                }),
            forall|k: int|
                0 <= k < n ==> count_at_home((#[trigger] game.positions@[k])@) == count_at_home(
                    old(game).positions@[k]@,
                ),
            forall|k: int| 0 <= k < n ==> (#[trigger] game.positions@[k])@.len() == 4,
            forall|k: int, j: int|
                0 <= k < n && 0 <= j < 4 ==> (#[trigger] game.positions@[k]@[j]) <= 56,
        decreases n - i,
    {
        if i != mover && !game.players[i].is_null() {
            let offset = game.start_offsets[i];
            let ghost row0 = game.positions@[i as int]@;
            let ghost snap = *game;
            let mut j: usize = 0;
            while j < 4
                invariant
                    0 <= i < n,
                    n == game.positions@.len(),
                    snap.positions@.len() == n,
                    row0 == snap.positions@[i as int]@,
                    row0.len() == 4,
                    j <= 4,
                    game.positions@[i as int]@.len() == 4,
                    *game == (GameState { positions: game.positions, ..snap }),
                    forall|k: int|
                        0 <= k < n && k != i as int ==> (#[trigger] game.positions@[k])
                            == snap.positions@[k],
                    forall|m: int|
                        0 <= m < j ==> (#[trigger] game.positions@[i as int]@[m])
                            == spec_captured_row(row0, offset, landing)[m],
                    forall|m: int|
                        j <= m < 4 ==> (#[trigger] game.positions@[i as int]@[m]) == row0[m],
                decreases 4 - j,
            {
                let p = game.positions[i][j];
                if p >= 1 && p <= 50 && absolute_square(offset, p) == landing {
                    game.positions[i][j] = 0;
                }
                j += 1;
            }
            proof {
                assert(game.positions@[i as int]@ =~= spec_captured_row(row0, offset, landing));
                lemma_count_at_home_same(row0, game.positions@[i as int]@);
            }
        }
        i += 1;
    }
}

/// Validates and applies one piece movement by the player whose turn it is,
/// consuming the pending die value.
///
/// A six frees a piece from the yard onto square 1; an on-board piece
/// advances by the die value, entering the home path when it passes its
/// seat's home-entry square (rejected unchanged when it would overshoot the
/// six home steps, or pass square 50 without entering). A piece arriving
/// home raises the seat's home count; the fourth records the winner (ending
/// a 2-player game at once, a 4-player game once a distinct second finisher
/// exists). A main-track landing outside the safe zones sends every opposing
/// main-track piece on the same absolute square back to its yard. Unless the
/// die was a six or the game just completed, the turn passes to the next
/// active seat; the pending roll is always consumed.
pub fn move_piece(game: &mut GameState, player: PlayerId, piece_index: u8, now: i64) -> (r: Result<
    (),
    ErrorCode,
>)
    requires
        old(game).wf(),
        0 <= now,
    ensures
        final(game).wf(),
        ({
            let og = *old(game);
            let fg = *final(game);
            let t = og.turn as int;
            let pi = piece_index as int;
            let in_turn = og.game_state == GameStatus::Active && player == og.players@[t];
            &&& (og.game_state != GameStatus::Active ==> r == Err::<(), ErrorCode>(
                ErrorCode::GameNotActive,
            ) && fg == og)
            &&& (og.game_state == GameStatus::Active && player != og.players@[t] ==> r == Err::<
                (),
                ErrorCode,
            >(ErrorCode::NotYourTurn) && fg == og)
            &&& (in_turn && piece_index >= 4 ==> r == Err::<(), ErrorCode>(ErrorCode::InvalidPiece)
                && fg == og)
            &&& (in_turn && piece_index < 4 && og.dice_roll is None ==> r == Err::<(), ErrorCode>(
                ErrorCode::DiceNotRolled,
            ) && fg == og)
            &&& (in_turn && piece_index < 4 ==> (og.dice_roll matches Some(die) ==> {
                let he = og.home_entry_positions@[t];
                let row = og.positions@[t]@;
                let cur = row[pi];
                let valid = spec_has_valid_move(row, die, he);
                &&& (!valid ==> r == Err::<(), ErrorCode>(ErrorCode::NoValidMoves) && fg == og)
                &&& (valid && cur == 0 && die != 6 ==> r == Err::<(), ErrorCode>(
                    ErrorCode::CannotStart,
                ) && fg == og)
                // A home-path entry overshooting the six home steps is
                // always rejected, and the position is unchanged.
                &&& (valid && cur > 0 && cur <= he && cur + die > he + 6 ==> r == Err::<
                    (),
                    ErrorCode,
                >(ErrorCode::InvalidMove) && fg == og)
                // A main-track step past square 50 that does not enter the
                // home path is always rejected, and the position is
                // unchanged.
                &&& (valid && cur > 0 && !(cur <= he && cur + die > he) && cur + die > 50 ==> r
                    == Err::<(), ErrorCode>(ErrorCode::InvalidMove) && fg == og)
                &&& (valid && cur > 0 && spec_piece_step(cur, die, he) is None ==> r == Err::<
                    (),
                    ErrorCode,
                >(ErrorCode::InvalidMove) && fg == og)
                &&& (valid && cur == 0 && die == 6 ==> {
                    &&& r == Ok::<(), ErrorCode>(())
                    &&& fg.positions@.len() == og.positions@.len()
                    &&& fg.positions@[t]@ == row.update(pi, 1u8)
                    &&& (forall|i: int|
                        0 <= i < og.seats() && i != t ==> (#[trigger] fg.positions@[i])
                            == og.positions@[i])
                    &&& fg.home_counts@ == og.home_counts@
                    &&& fg.winner == og.winner
                    &&& fg.second_place == og.second_place
                    &&& fg.game_state == GameStatus::Active
                })
                &&& (valid && cur > 0 ==> (spec_piece_step(cur, die, he) matches Some(np) ==> {
                    &&& r == Ok::<(), ErrorCode>(())
                    &&& fg.positions@.len() == og.positions@.len()
                    &&& fg.positions@[t]@ == row.update(pi, np)
                    &&& (cur <= he && cur + die > he ==> {
                        &&& (forall|i: int|
                            0 <= i < og.seats() && i != t ==> (#[trigger] fg.positions@[i])
                                == og.positions@[i])
                        &&& (np != 56 ==> fg.home_counts@ == og.home_counts@ && fg.winner
                            == og.winner && fg.second_place == og.second_place && fg.game_state
                            == GameStatus::Active)
                        &&& (np == 56 ==> {
                            let hc = og.home_counts@[t] + 1;
                            &&& fg.home_counts@ == og.home_counts@.update(t, (hc as u8))
                            &&& (hc < 4 ==> fg.winner == og.winner && fg.second_place
                                == og.second_place && fg.game_state == GameStatus::Active)
                            &&& (hc == 4 && og.max_players == 2 ==> fg.winner == Some(player)
                                && fg.game_state == GameStatus::Completed && fg.second_place
                                == og.second_place)
                            &&& (hc == 4 && og.max_players == 4 && og.winner is None ==> fg.winner
                                == Some(player) && fg.game_state == GameStatus::Active
                                && fg.second_place == og.second_place)
                            &&& (hc == 4 && og.max_players == 4 ==> (og.winner matches Some(w)
                                ==> {
                                &&& (w != player && og.second_place is None ==> fg.second_place
                                    == Some(player) && fg.game_state == GameStatus::Completed
                                    && fg.winner == og.winner)
                                &&& ((w == player || og.second_place is Some) ==> fg.winner
                                    == og.winner && fg.second_place == og.second_place
                                    && fg.game_state == GameStatus::Active)
                            }))
                        })
                    })
                    &&& (!(cur <= he && cur + die > he) ==> {
                        let landing = spec_absolute_square(og.start_offsets@[t], np);
                        &&& fg.home_counts@ == og.home_counts@
                        &&& fg.winner == og.winner
                        &&& fg.second_place == og.second_place
                        &&& fg.game_state == GameStatus::Active
                        // Landing on a safe zone captures nothing.
                        &&& (spec_safe_zones().contains(landing) ==> (forall|i: int|
                            0 <= i < og.seats() && i != t ==> (#[trigger] fg.positions@[i])
                                == og.positions@[i]))
                        // Otherwise every opposing main-track piece on the
                        // landing square goes back to its yard.
                        &&& (!spec_safe_zones().contains(landing) ==> (forall|i: int|
                            0 <= i < og.seats() && i != t ==> (#[trigger] fg.positions@[i])@ == (
                            if og.players@[i].spec_is_null() {
                                og.positions@[i]@
                            } else {
                                spec_captured_row(
                                    og.positions@[i]@,
                                    og.start_offsets@[i],
                                    landing,
                                )
                            })))
                    })
                }))
            }))
            // Effects common to every successful move: funds, roster and
            // counters untouched, the pending roll consumed, the action
            // timestamped, and the turn passed on unless the die was a six
            // or the game just completed.
            &&& (r is Ok ==> {
                &&& fg.players@ == og.players@
                &&& fg.deposited_players@ == og.deposited_players@
                &&& fg.missed_turns@ == og.missed_turns@
                &&& fg.consecutive_sixes == og.consecutive_sixes
                &&& fg.total_bet == og.total_bet
                &&& fg.platform_fee == og.platform_fee
                &&& fg.prize_pool == og.prize_pool
                &&& fg.bet_amount == og.bet_amount
                &&& fg.creator == og.creator
                &&& fg.max_players == og.max_players
                &&& fg.dice_roll is None
                &&& fg.last_move_time == now
                &&& ((og.dice_roll == Some(6u8) || fg.game_state != GameStatus::Active)
                    ==> fg.turn == og.turn)
                &&& ((og.dice_roll != Some(6u8) && fg.game_state == GameStatus::Active)
                    ==> fg.turn as int == spec_next_active(og.players@, t))
            })
            // A piece in the yard reaches a nonzero position only as the
            // chosen piece of the mover, and only on a six.
            &&& (forall|i: int, j: int|
                0 <= i < og.seats() && 0 <= j < 4 && og.positions@[i]@[j] == 0 && (#[trigger] fg
                    .positions@[i]@[j]) != 0 ==> i == t && j == pi && og.dice_roll == Some(6u8))
        }),
{
    if game.game_state != GameStatus::Active {
        return Err(ErrorCode::GameNotActive);
    }
    let t = game.turn as usize;
    if player != game.players[t] {
        return Err(ErrorCode::NotYourTurn);
    }
    if piece_index >= 4 {
        return Err(ErrorCode::InvalidPiece);
    }
    let die = match game.dice_roll {
        Some(d) => d,
        None => {
            return Err(ErrorCode::DiceNotRolled);
        },
    };
    if !check_for_valid_moves(game, t, die) {
        return Err(ErrorCode::NoValidMoves);
    }
    let pi = piece_index as usize;
    let cur = game.positions[t][pi];
    if cur == 0 {
        if die != 6 {
            return Err(ErrorCode::CannotStart);
        }
        let ghost row = game.positions@[t as int]@;
        game.positions[t][pi] = 1;
        proof {
            lemma_count_at_home_update(row, pi as int, 1u8);
        }
        game.dice_roll = None;
        game.last_move_time = now;
        assert(game.wf());
        return Ok(());
    }
    assert(game.home_entry_positions@.len() == game.max_players);
    let he = game.home_entry_positions[t];
    let step = resolve_piece_step(cur, die, he);
    let np = match step {
        Some(v) => v,
        None => {
            return Err(ErrorCode::InvalidMove);
        },
    };
    assert(cur != 56);
    let crossing = cur <= he && (cur as u16 + die as u16) > he as u16;
    let ghost row = game.positions@[t as int]@;
    game.positions[t][pi] = np;
    proof {
        lemma_count_at_home_update(row, pi as int, np);
        lemma_count_at_home_bounds(game.positions@[t as int]@);
    }
    if crossing {
        if np == 56 {
            let hc = game.home_counts[t];
            assert(hc < 4);
            game.home_counts[t] = hc + 1;
            if hc + 1 == 4 {
                if game.max_players == 2 {
                    game.winner = Some(player);
                    game.game_state = GameStatus::Completed;
                } else {
                    let cur_winner = game.winner;
                    match cur_winner {
                        None => {
                            game.winner = Some(player);
                        },
                        Some(w) => {
                            if game.second_place.is_none() && w != player {
                                game.second_place = Some(player);
                                game.game_state = GameStatus::Completed;
                            }
                        },
                    }
                }
            }
        }
    } else {
        let landing = absolute_square(game.start_offsets[t], np);
        if !vec_contains_u8(&game.safe_zones, landing) {
            apply_captures(game, t, landing);
        }
    }
    if die != 6 && game.game_state == GameStatus::Active {
        let nt = next_active_player(game, game.turn);
        game.turn = nt;
    }
    game.dice_roll = None;
    game.last_move_time = now;
    assert(game.wf());
    Ok(())
}

} // verus!
