//! Lifecycle: creating a game, admitting joining players, and cancelling a
//! game that has not started. Escrow deposits are made by the host when the
//! call succeeds; cancellation returns the exact refund instructions.

use vstd::prelude::*;
use crate::board::{start_offsets_for, home_entries_for, safe_zones_vec};
use crate::game::{
    GameState, GameStatus, ErrorCode, PlayerId, Transfer, MAX_BET_AMOUNT, count_at_home,
    count_active, lemma_count_at_home_none, lemma_count_active_all,
};

verus! {

pub fn players_contain(v: &Vec<PlayerId>, x: PlayerId) -> (r: bool)
    ensures
        r == v@.contains(x),
{
    let mut i: usize = 0;
    while i < v.len()
        invariant
            i <= v@.len(),
            forall|k: int| 0 <= k < i ==> v@[k] != x,
        decreases v@.len() - i,
    {
        if v[i] == x {
            assert(v@.contains(x));
            return true;
        }
        i += 1;
    }
    assert(!v@.contains(x));
    false
}

/// Creates a game: one seat filled by the creator, the creator's stake
/// escrowed, the board laid out for the requested seat count. A seat count
/// other than 2 or 4 and a zero stake are rejected, in that order.
///
/// The stake is bounded so that four escrowed stakes, and the settlement
/// shares scaled from their sum, fit a 64-bit ledger amount; timestamps are
/// seconds since the epoch and so non-negative.
pub fn initialize_game(creator: PlayerId, max_players: u8, bet_amount: u64, now: i64) -> (r:
    Result<GameState, ErrorCode>)
    requires
        !creator.spec_is_null(),
        bet_amount <= MAX_BET_AMOUNT,
        0 <= now,
    ensures
        !(max_players == 2 || max_players == 4) ==> r == Err::<GameState, ErrorCode>(
            ErrorCode::InvalidPlayerCount,
        ),
        (max_players == 2 || max_players == 4) && bet_amount == 0 ==> r == Err::<
            GameState,
            ErrorCode,
        >(ErrorCode::InvalidBetAmount),
        (max_players == 2 || max_players == 4) && bet_amount > 0 ==> (r matches Ok(g)
            && g.wf()
            && g.creator == creator
            && g.players@ == seq![creator]
            && g.deposited_players@ == seq![creator]
            && g.max_players == max_players
            && g.bet_amount == bet_amount
            && g.total_bet == bet_amount
            && g.platform_fee == bet_amount / 10
            && g.prize_pool == bet_amount - bet_amount / 10
            && g.positions@.len() == 1
            && g.positions@[0]@ == seq![0u8, 0u8, 0u8, 0u8]
            && g.home_counts@ == seq![0u8]
            && g.missed_turns@ == seq![0u8]
            && g.turn == 0
            && g.last_move_time == now
            && g.winner is None
            && g.second_place is None
            && g.game_state == GameStatus::WaitingForPlayers
            && g.dice_roll is None
            && g.consecutive_sixes == 0),
{
    if !(max_players == 2 || max_players == 4) {
        return Err(ErrorCode::InvalidPlayerCount);
    }
    if bet_amount == 0 {
        return Err(ErrorCode::InvalidBetAmount);
    }
    let platform_fee = bet_amount / 10;
    let mut players: Vec<PlayerId> = Vec::new();
    players.push(creator);
    let mut deposited: Vec<PlayerId> = Vec::new();
    deposited.push(creator);
    let mut row: Vec<u8> = Vec::new();
    row.push(0);
    row.push(0);
    row.push(0);
    row.push(0);
    let mut positions: Vec<Vec<u8>> = Vec::new();
    positions.push(row);
    let mut home_counts: Vec<u8> = Vec::new();
    home_counts.push(0);
    let mut missed: Vec<u8> = Vec::new();
    missed.push(0);
    let g = GameState {
        creator,
        players,
        deposited_players: deposited,
        max_players,
        bet_amount,
        total_bet: bet_amount,
        platform_fee,
        prize_pool: bet_amount - platform_fee,
        track_length: 56,
        positions,
        home_counts,
        start_offsets: start_offsets_for(max_players),
        home_entry_positions: home_entries_for(max_players),
        safe_zones: safe_zones_vec(),
        turn: 0,
        last_move_time: now,
        winner: None,
        second_place: None,
        game_state: GameStatus::WaitingForPlayers,
        dice_roll: None,
        consecutive_sixes: 0,
        missed_turns: missed,
    };
    proof {
        assert(g.players@ =~= seq![creator]);
        assert(g.deposited_players@ =~= seq![creator]);
        assert(g.home_counts@ =~= seq![0u8]);
        assert(g.missed_turns@ =~= seq![0u8]);
        assert(g.positions@[0]@ =~= seq![0u8, 0u8, 0u8, 0u8]);
        lemma_count_at_home_none(g.positions@[0]@);
        assert(g.total_bet == g.bet_amount * g.seats()) by (nonlinear_arith)
            requires
                g.total_bet == bet_amount,
                g.bet_amount == bet_amount,
                g.seats() == 1,
        ;
        assert(g.wf());
    }
    Ok(g)
}

/// Admits one more player while the game is waiting: appends the seat,
/// escrows the stake, and recomputes the pot, the fee (a tenth of the pot)
/// and the prize pool. Filling the last seat starts the game.
pub fn join_game(game: &mut GameState, player: PlayerId, now: i64) -> (r: Result<(), ErrorCode>)
    requires
        old(game).wf(),
        !player.spec_is_null(),
        0 <= now,
    ensures
        final(game).wf(),
        old(game).game_state != GameStatus::WaitingForPlayers ==> (r == Err::<(), ErrorCode>(
            ErrorCode::GameAlreadyStarted,
        ) && *final(game) == *old(game)),
        (old(game).game_state == GameStatus::WaitingForPlayers && old(game).seats() >= old(
            game,
        ).max_players) ==> (r == Err::<(), ErrorCode>(ErrorCode::GameFull) && *final(game) == *old(
            game,
        )),
        (old(game).game_state == GameStatus::WaitingForPlayers && old(game).seats() < old(
            game,
        ).max_players && old(game).players@.contains(player)) ==> (r == Err::<(), ErrorCode>(
            ErrorCode::AlreadyJoined,
        ) && *final(game) == *old(game)),
        (old(game).game_state == GameStatus::WaitingForPlayers && old(game).seats() < old(
            game,
        ).max_players && !old(game).players@.contains(player)) ==> (r == Ok::<(), ErrorCode>(())
            && final(game).players@ == old(game).players@.push(player)
            && final(game).deposited_players@ == old(game).deposited_players@.push(player)
            && final(game).positions@.len() == old(game).seats() + 1
            && (forall|i: int|
                0 <= i < old(game).seats() ==> (#[trigger] final(game).positions@[i]) == old(
                    game,
                ).positions@[i])
            && final(game).positions@[old(game).seats()]@ == seq![0u8, 0u8, 0u8, 0u8]
            && final(game).home_counts@ == old(game).home_counts@.push(0u8)
            && final(game).missed_turns@ == old(game).missed_turns@.push(0u8)
            && final(game).total_bet == old(game).total_bet + old(game).bet_amount
            && final(game).platform_fee == final(game).total_bet / 10
            && final(game).prize_pool == final(game).total_bet - final(game).total_bet / 10
            && final(game).bet_amount == old(game).bet_amount
            && final(game).creator == old(game).creator
            && final(game).max_players == old(game).max_players
            && final(game).turn == old(game).turn
            && final(game).winner == old(game).winner
            && final(game).second_place == old(game).second_place
            && final(game).dice_roll == old(game).dice_roll
            && final(game).consecutive_sixes == old(game).consecutive_sixes
            && (old(game).seats() + 1 == old(game).max_players ==> (final(game).game_state
                == GameStatus::Active && final(game).last_move_time == now))
            && (old(game).seats() + 1 < old(game).max_players ==> (final(game).game_state
                == GameStatus::WaitingForPlayers && final(game).last_move_time == old(
                game,
            ).last_move_time))),
{
    if game.game_state != GameStatus::WaitingForPlayers {
        return Err(ErrorCode::GameAlreadyStarted);
    }
    if game.players.len() >= game.max_players as usize {
        return Err(ErrorCode::GameFull);
    }
    if players_contain(&game.players, player) {
        return Err(ErrorCode::AlreadyJoined);
    }
    let ghost old_len = game.players@.len() as int;
    proof {
        assert(game.total_bet + game.bet_amount <= u64::MAX) by (nonlinear_arith)
            requires
                game.total_bet == game.bet_amount * old_len,
                0 <= old_len <= 3,
                game.bet_amount <= MAX_BET_AMOUNT,
                MAX_BET_AMOUNT == u64::MAX / 260,
        ;
    }
    game.players.push(player);
    game.deposited_players.push(player);
    let mut row: Vec<u8> = Vec::new();
    row.push(0);
    row.push(0);
    row.push(0);
    row.push(0);
    proof {
        assert(row@ =~= seq![0u8, 0u8, 0u8, 0u8]);
        lemma_count_at_home_none(row@);
    }
    game.positions.push(row);
    game.home_counts.push(0);
    game.missed_turns.push(0);
    let ghost prior_total = game.total_bet as int;
    game.total_bet = game.total_bet + game.bet_amount;
    game.platform_fee = game.total_bet / 10;
    game.prize_pool = game.total_bet - game.platform_fee;
    proof {
        assert(game.total_bet == game.bet_amount * game.seats()) by (nonlinear_arith)
            requires
                game.total_bet == prior_total + game.bet_amount,
                prior_total == game.bet_amount * old_len,
                game.seats() == old_len + 1,
        ;
    }
    if game.players.len() == game.max_players as usize {
        game.game_state = GameStatus::Active;
        game.last_move_time = now;
        proof {
            lemma_count_active_all(game.players@);
        }
    }
    proof {
        assert(game.wf());
    }
    Ok(())
}

/// Cancels a game that has not started, on the creator's request: returns
/// one refund instruction of exactly the stake for every identity that
/// deposited, in join order, and marks the game cancelled.
pub fn cancel_game(game: &mut GameState, requester: PlayerId) -> (r: Result<
    Vec<Transfer>,
    ErrorCode,
>)
    requires
        old(game).wf(),
    ensures
        final(game).wf(),
        old(game).game_state != GameStatus::WaitingForPlayers ==> (r == Err::<
            Vec<Transfer>,
            ErrorCode,
        >(ErrorCode::GameAlreadyStarted) && *final(game) == *old(game)),
        (old(game).game_state == GameStatus::WaitingForPlayers && requester != old(game).creator)
            ==> (r == Err::<Vec<Transfer>, ErrorCode>(ErrorCode::NotGameCreator) && *final(game)
            == *old(game)),
        (old(game).game_state == GameStatus::WaitingForPlayers && requester == old(game).creator)
            ==> (r matches Ok(ts) && ts@.len() == old(game).deposited_players@.len() && (forall|i: int|
            0 <= i < ts@.len() ==> (#[trigger] ts@[i]) == (Transfer {
                to: old(game).deposited_players@[i],
                amount: old(game).bet_amount,
            })) && *final(game) == (GameState {
            game_state: GameStatus::Cancelled,
            ..*old(game)
        })),
{
    if game.game_state != GameStatus::WaitingForPlayers {
        return Err(ErrorCode::GameAlreadyStarted);
    }
    if requester != game.creator {
        return Err(ErrorCode::NotGameCreator);
    }
    let mut refunds: Vec<Transfer> = Vec::new();
    let mut i: usize = 0;
    while i < game.deposited_players.len()
        invariant
            i <= game.deposited_players@.len(),
            refunds@.len() == i,
            forall|k: int|
                0 <= k < i ==> (#[trigger] refunds@[k]) == (Transfer {
                    to: game.deposited_players@[k],
                    amount: game.bet_amount,
                }),
        decreases game.deposited_players@.len() - i,
    {
        refunds.push(Transfer { to: game.deposited_players[i], amount: game.bet_amount });
        i += 1;
    }
    game.game_state = GameStatus::Cancelled;
    Ok(refunds)
}

} // verus!
