//! Turn engine: consuming host-supplied entropy to produce a die value,
//! the inactivity timeout with elimination, and the three-consecutive-sixes
//! forfeiture rule.

use vstd::prelude::*;
use crate::game::{
    GameState, GameStatus, ErrorCode, PlayerId, count_active, lemma_count_active_update,
};
use crate::rotation::{spec_next_active, next_active_player, survey_active};

verus! {

/// Die value derived from a slot counter and a timestamp: their product,
/// folded to 64 bits, reduced modulo 6 and offset by 1. Deterministic in its
/// two arguments; the host chooses how the entropy is sourced.
pub open spec fn spec_die(slot: u64, now: i64) -> u8 {
    ((((slot * now) % 0x1_0000_0000_0000_0000) % 6) + 1) as u8
}

pub fn derive_die_value(slot: u64, now: i64) -> (r: u8)
    requires
        0 <= now,
    ensures
        r == spec_die(slot, now),
        1 <= r <= 6,
{
    proof {
        assert((slot as u128) * (now as u128) <= u128::MAX) by (nonlinear_arith)
            requires
                slot <= u64::MAX,
                0 <= now <= i64::MAX,
        ;
    }
    let prod: u128 = (slot as u128) * (now as u128);
    let folded: u128 = prod % 0x1_0000_0000_0000_0000u128;
    ((folded % 6) as u8) + 1
}

/// The call is checked in turn order and answered in time: whether the call
/// is a timeout rather than a roll.
pub open spec fn spec_timed_out(g: GameState, now: i64) -> bool {
    now - g.last_move_time > 60
}

/// The roster after eliminating the seat whose turn it is.
pub open spec fn spec_eliminated(g: GameState) -> Seq<PlayerId> {
    g.players@.update(g.turn as int, (PlayerId { hi: 0, lo: 0 }))
}

/// One call of the turn engine by the player whose turn it is.
///
/// More than 60 seconds after the last accepted action the call is a
/// timeout, not a roll: the seat's missed-turn counter rises; at three the
/// seat is eliminated (set to the null identity), and if a single active
/// seat remains that identity wins and the game completes (`Ok`, no roll).
/// Any other timeout advances the turn to the next active seat and fails
/// with `TurnSkipped` — the one error that commits a state change.
///
/// Otherwise a die value is derived. A third consecutive six forfeits the
/// extra turn: the turn passes on with no pending roll (`Ok`). Any other
/// value is stored as the pending roll.
pub fn request_randomness(game: &mut GameState, player: PlayerId, now: i64, slot: u64) -> (r:
    Result<(), ErrorCode>)
    requires
        old(game).wf(),
        0 <= now,
    ensures
        final(game).wf(),
        ({
            let og = *old(game);
            let fg = *final(game);
            let t = og.turn as int;
            let in_turn = og.game_state == GameStatus::Active && player == og.players@[t];
            &&& (og.game_state != GameStatus::Active ==> r == Err::<(), ErrorCode>(
                ErrorCode::GameNotActive,
            ) && fg == og)
            &&& (og.game_state == GameStatus::Active && player != og.players@[t] ==> r == Err::<
                (),
                ErrorCode,
            >(ErrorCode::NotYourTurn) && fg == og)
            // Timeout: effects common to every timeout outcome.
            &&& (in_turn && spec_timed_out(og, now) ==> {
                &&& fg.missed_turns@ == og.missed_turns@.update(
                    t,
                    ((og.missed_turns@[t] + 1) as u8),
                )
                &&& fg.positions@ == og.positions@
                &&& fg.home_counts@ == og.home_counts@
                &&& fg.dice_roll is None
                &&& fg.last_move_time == og.last_move_time
                &&& fg.total_bet == og.total_bet
                &&& fg.platform_fee == og.platform_fee
                &&& fg.prize_pool == og.prize_pool
                &&& fg.second_place == og.second_place
                &&& fg.deposited_players@ == og.deposited_players@
                &&& fg.creator == og.creator
                &&& fg.bet_amount == og.bet_amount
                &&& fg.max_players == og.max_players
            })
            // Timeout, third miss, one active seat left: the game completes.
            &&& (in_turn && spec_timed_out(og, now) && og.missed_turns@[t] + 1 >= 3
                && count_active(spec_eliminated(og)) == 1 ==> {
                &&& r == Ok::<(), ErrorCode>(())
                &&& fg.players@ == spec_eliminated(og)
                &&& fg.game_state == GameStatus::Completed
                &&& fg.turn == og.turn
                &&& fg.consecutive_sixes == og.consecutive_sixes
                &&& (fg.winner matches Some(w) && !w.spec_is_null() && (forall|k: int|
                    0 <= k < fg.players@.len() && !(#[trigger] fg.players@[k]).spec_is_null()
                        ==> fg.players@[k] == w))
            })
            // Timeout, third miss, several active seats left: eliminate, skip.
            &&& (in_turn && spec_timed_out(og, now) && og.missed_turns@[t] + 1 >= 3
                && count_active(spec_eliminated(og)) != 1 ==> {
                &&& r == Err::<(), ErrorCode>(ErrorCode::TurnSkipped)
                &&& fg.players@ == spec_eliminated(og)
                &&& fg.game_state == GameStatus::Active
                &&& fg.consecutive_sixes == 0
                &&& fg.turn as int == spec_next_active(spec_eliminated(og), t)
                &&& fg.winner == og.winner
            })
            // Timeout, fewer than three misses: keep the seat, skip the turn.
            &&& (in_turn && spec_timed_out(og, now) && og.missed_turns@[t] + 1 < 3 ==> {
                &&& r == Err::<(), ErrorCode>(ErrorCode::TurnSkipped)
                &&& fg.players@ == og.players@
                &&& fg.game_state == GameStatus::Active
                &&& fg.consecutive_sixes == 0
                &&& fg.turn as int == spec_next_active(og.players@, t)
                &&& fg.winner == og.winner
            })
            // A roll in time: effects common to every roll outcome.
            &&& (in_turn && !spec_timed_out(og, now) ==> {
                &&& fg.players@ == og.players@
                &&& fg.positions@ == og.positions@
                &&& fg.home_counts@ == og.home_counts@
                &&& fg.missed_turns@ == og.missed_turns@
                &&& fg.game_state == GameStatus::Active
                &&& fg.winner == og.winner
                &&& fg.second_place == og.second_place
                &&& fg.last_move_time == now
                &&& fg.total_bet == og.total_bet
                &&& fg.platform_fee == og.platform_fee
                &&& fg.prize_pool == og.prize_pool
                &&& fg.creator == og.creator
                &&& fg.bet_amount == og.bet_amount
                &&& fg.max_players == og.max_players
                &&& fg.deposited_players@ == og.deposited_players@
            })
            // Third consecutive six: forfeit the turn, no pending roll.
            &&& (in_turn && !spec_timed_out(og, now) && spec_die(slot, now) == 6
                && og.consecutive_sixes == 2 ==> {
                &&& r == Ok::<(), ErrorCode>(())
                &&& fg.consecutive_sixes == 0
                &&& fg.dice_roll is None
                &&& fg.turn as int == spec_next_active(og.players@, t)
            })
            // A six with fewer than two sixes before it: extra turn kept.
            &&& (in_turn && !spec_timed_out(og, now) && spec_die(slot, now) == 6
                && og.consecutive_sixes < 2 ==> {
                &&& r == Ok::<(), ErrorCode>(())
                &&& fg.consecutive_sixes == og.consecutive_sixes + 1
                &&& fg.dice_roll == Some(6u8)
                &&& fg.turn == og.turn
            })
            // Any other value: pending roll stored, the sixes streak ends.
            &&& (in_turn && !spec_timed_out(og, now) && spec_die(slot, now) != 6 ==> {
                &&& r == Ok::<(), ErrorCode>(())
                &&& fg.consecutive_sixes == 0
                &&& fg.dice_roll == Some(spec_die(slot, now))
                &&& fg.turn == og.turn
            })
        }),
{
    if game.game_state != GameStatus::Active {
        return Err(ErrorCode::GameNotActive);
    }
    let t = game.turn as usize;
    if player != game.players[t] {
        return Err(ErrorCode::NotYourTurn);
    }
    if now - game.last_move_time > 60 {
        let mt = game.missed_turns[t];
        assert(mt < 3);
        game.missed_turns[t] = mt + 1;
        if mt + 1 >= 3 {
            game.players[t] = PlayerId::null();
            proof {
                lemma_count_active_update(old(game).players@, t as int, (PlayerId { hi: 0, lo: 0 }));
            }
            let (cnt, last_active) = survey_active(&game.players);
            if cnt == 1 {
                game.winner = Some(last_active);
                game.game_state = GameStatus::Completed;
                game.dice_roll = None;
                return Ok(());
            }
            game.consecutive_sixes = 0;
            let nt = next_active_player(game, game.turn);
            game.turn = nt;
            game.dice_roll = None;
            return Err(ErrorCode::TurnSkipped);
        }
        game.consecutive_sixes = 0;
        let nt = next_active_player(game, game.turn);
        game.turn = nt;
        game.dice_roll = None;
        return Err(ErrorCode::TurnSkipped);
    }
    let die = derive_die_value(slot, now);
    if die == 6 {
        let cs = game.consecutive_sixes;
        game.consecutive_sixes = cs + 1;
        if cs + 1 >= 3 {
            game.consecutive_sixes = 0;
            let nt = next_active_player(game, game.turn);
            game.turn = nt;
            game.last_move_time = now;
            game.dice_roll = None;
            return Ok(());
        }
    } else {
        game.consecutive_sixes = 0;
    }
    game.dice_roll = Some(die);
    game.last_move_time = now;
    Ok(())
}

} // verus!
