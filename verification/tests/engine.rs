//! End-to-end tests of the game engine: lifecycle, turn engine, move
//! resolver and settlement, driven through the public operations.

use ludo_game::board::resolve_piece_step;
use ludo_game::dice::request_randomness;
use ludo_game::game::{ErrorCode, GameState, GameStatus, PlayerId, Transfer};
use ludo_game::lifecycle::{cancel_game, initialize_game, join_game};
use ludo_game::moves::move_piece;
use ludo_game::rotation::next_active_player;
use ludo_game::settlement::distribute_prizes;

fn pid(n: u128) -> PlayerId {
    PlayerId { hi: 0, lo: n }
}

/// An active 2-player game: creator pid(1), joiner pid(2), bet 1000,
/// last_move_time 601 (601 % 6 == 1, so any die value can be forced).
fn active_2p() -> GameState {
    let mut g = initialize_game(pid(1), 2, 1000, 1).unwrap();
    join_game(&mut g, pid(2), 601).unwrap();
    assert_eq!(g.game_state, GameStatus::Active);
    g
}

/// An active 4-player game with players pid(1)..pid(4), bet 1000.
fn active_4p() -> GameState {
    let mut g = initialize_game(pid(1), 4, 1000, 1).unwrap();
    join_game(&mut g, pid(2), 10).unwrap();
    join_game(&mut g, pid(3), 20).unwrap();
    join_game(&mut g, pid(4), 601).unwrap();
    assert_eq!(g.game_state, GameStatus::Active);
    g
}

/// Rolls for the player whose turn it is, choosing a slot value that makes
/// the derived die come out as `want`. Requires last_move_time % 6 == 1.
fn force_roll(g: &mut GameState, want: u8) {
    let now = g.last_move_time;
    let player = g.players[g.turn as usize];
    for slot in 0..6u64 {
        let die = ((slot.wrapping_mul(now as u64)) % 6) as u8 + 1;
        if die == want {
            request_randomness(g, player, now, slot).unwrap();
            return;
        }
    }
    panic!("no slot produces the wanted die value");
}

/// The player whose turn it is lets the 60-second window lapse.
fn timeout_current(g: &mut GameState) -> Result<(), ErrorCode> {
    let now = g.last_move_time + 61;
    let player = g.players[g.turn as usize];
    request_randomness(g, player, now, 0)
}

#[test]
fn create_game_splits_pot() {
    let g = initialize_game(pid(1), 2, 1000, 5).unwrap();
    assert_eq!(g.total_bet, 1000);
    assert_eq!(g.platform_fee, 100);
    assert_eq!(g.prize_pool, 900);
    assert_eq!(g.prize_pool + g.platform_fee, g.total_bet);
    assert_eq!(g.game_state, GameStatus::WaitingForPlayers);
    assert_eq!(g.players, vec![pid(1)]);
    assert_eq!(g.positions, vec![vec![0u8; 4]]);
}

#[test]
fn second_join_activates_and_recomputes_pot() {
    let mut g = initialize_game(pid(1), 2, 1000, 5).unwrap();
    join_game(&mut g, pid(2), 700).unwrap();
    assert_eq!(g.game_state, GameStatus::Active);
    assert_eq!(g.total_bet, 2000);
    assert_eq!(g.platform_fee, 200);
    assert_eq!(g.prize_pool, 1800);
    assert_eq!(g.prize_pool + g.platform_fee, g.total_bet);
    assert_eq!(g.last_move_time, 700);
    assert_eq!(g.players, vec![pid(1), pid(2)]);
}

#[test]
fn create_rejects_bad_player_count() {
    assert_eq!(initialize_game(pid(1), 3, 1000, 5).unwrap_err(), ErrorCode::InvalidPlayerCount);
    assert_eq!(initialize_game(pid(1), 0, 1000, 5).unwrap_err(), ErrorCode::InvalidPlayerCount);
    assert_eq!(initialize_game(pid(1), 5, 1000, 5).unwrap_err(), ErrorCode::InvalidPlayerCount);
}

#[test]
fn create_rejects_zero_bet() {
    assert_eq!(initialize_game(pid(1), 2, 0, 5).unwrap_err(), ErrorCode::InvalidBetAmount);
}

#[test]
fn join_rejects_started_game() {
    let mut g = active_2p();
    assert_eq!(join_game(&mut g, pid(3), 700).unwrap_err(), ErrorCode::GameAlreadyStarted);
}

#[test]
fn join_rejects_duplicate_player() {
    let mut g = initialize_game(pid(1), 4, 1000, 5).unwrap();
    join_game(&mut g, pid(2), 10).unwrap();
    assert_eq!(join_game(&mut g, pid(2), 20).unwrap_err(), ErrorCode::AlreadyJoined);
    assert_eq!(join_game(&mut g, pid(1), 20).unwrap_err(), ErrorCode::AlreadyJoined);
}

#[test]
fn cancel_refunds_every_depositor() {
    let mut g = initialize_game(pid(1), 4, 1000, 5).unwrap();
    join_game(&mut g, pid(2), 10).unwrap();
    join_game(&mut g, pid(3), 20).unwrap();
    let refunds = cancel_game(&mut g, pid(1)).unwrap();
    assert_eq!(
        refunds,
        vec![
            Transfer { to: pid(1), amount: 1000 },
            Transfer { to: pid(2), amount: 1000 },
            Transfer { to: pid(3), amount: 1000 },
        ]
    );
    assert_eq!(g.game_state, GameStatus::Cancelled);
}

#[test]
fn cancel_requires_creator() {
    let mut g = initialize_game(pid(1), 4, 1000, 5).unwrap();
    join_game(&mut g, pid(2), 10).unwrap();
    assert_eq!(cancel_game(&mut g, pid(2)).unwrap_err(), ErrorCode::NotGameCreator);
    assert_eq!(g.game_state, GameStatus::WaitingForPlayers);
}

#[test]
fn cancel_rejects_started_game() {
    let mut g = active_2p();
    assert_eq!(cancel_game(&mut g, pid(1)).unwrap_err(), ErrorCode::GameAlreadyStarted);
}

#[test]
fn roll_requires_active_game() {
    let mut g = initialize_game(pid(1), 2, 1000, 5).unwrap();
    assert_eq!(request_randomness(&mut g, pid(1), 5, 0).unwrap_err(), ErrorCode::GameNotActive);
}

#[test]
fn roll_requires_turn() {
    let mut g = active_2p();
    assert_eq!(request_randomness(&mut g, pid(2), 601, 0).unwrap_err(), ErrorCode::NotYourTurn);
}

#[test]
fn roll_stores_die_and_timestamp() {
    let mut g = active_2p();
    force_roll(&mut g, 3);
    assert_eq!(g.dice_roll, Some(3));
    assert_eq!(g.turn, 0);
    assert_eq!(g.consecutive_sixes, 0);
    assert_eq!(g.last_move_time, 601);
}

#[test]
fn third_six_forfeits_turn() {
    let mut g = active_2p();
    let before = g.positions.clone();
    // First six: freed piece 0; second six: freed piece 1; each keeps the turn.
    force_roll(&mut g, 6);
    assert_eq!(g.consecutive_sixes, 1);
    move_piece(&mut g, pid(1), 0, 601).unwrap();
    assert_eq!(g.turn, 0);
    force_roll(&mut g, 6);
    assert_eq!(g.consecutive_sixes, 2);
    move_piece(&mut g, pid(1), 1, 601).unwrap();
    assert_eq!(g.turn, 0);
    let positions_before_third = g.positions.clone();
    // Third consecutive six forfeits: no pending roll, streak reset,
    // turn passed, no position change.
    force_roll(&mut g, 6);
    assert_eq!(g.consecutive_sixes, 0);
    assert_eq!(g.dice_roll, None);
    assert_eq!(g.turn, 1);
    assert_eq!(g.positions, positions_before_third);
    assert_ne!(g.positions, before);
}

#[test]
fn timeout_skips_turn_and_clears_pending_roll() {
    let mut g = active_2p();
    force_roll(&mut g, 3);
    assert_eq!(g.dice_roll, Some(3));
    // The same player stalls past the 60-second window.
    let r = timeout_current(&mut g);
    assert_eq!(r.unwrap_err(), ErrorCode::TurnSkipped);
    assert_eq!(g.missed_turns[0], 1);
    assert_eq!(g.turn, 1);
    assert_eq!(g.dice_roll, None);
    // The timestamp of the last accepted action is unchanged.
    assert_eq!(g.last_move_time, 601);
    assert_eq!(g.players, vec![pid(1), pid(2)]);
}

#[test]
fn three_missed_turns_eliminate_seat_without_ending_game() {
    let mut g = active_4p();
    // Every seat stalls in rotation; seat 0 reaches three misses first.
    for _ in 0..8 {
        assert_eq!(timeout_current(&mut g).unwrap_err(), ErrorCode::TurnSkipped);
    }
    assert_eq!(g.missed_turns, vec![2, 2, 2, 2]);
    assert_eq!(g.turn, 0);
    assert_eq!(timeout_current(&mut g).unwrap_err(), ErrorCode::TurnSkipped);
    // Seat 0 is eliminated: null identity, game still running.
    assert_eq!(g.players[0], PlayerId { hi: 0, lo: 0 });
    assert_eq!(g.game_state, GameStatus::Active);
    assert_eq!(g.turn, 1);
    // Rotation skips the eliminated seat forever after.
    assert_eq!(next_active_player(&g, 3), 1);
    assert_eq!(next_active_player(&g, 1), 2);
}

#[test]
fn elimination_of_last_opponent_completes_game() {
    let mut g = active_2p();
    assert_eq!(timeout_current(&mut g).unwrap_err(), ErrorCode::TurnSkipped);
    assert_eq!(timeout_current(&mut g).unwrap_err(), ErrorCode::TurnSkipped);
    assert_eq!(timeout_current(&mut g).unwrap_err(), ErrorCode::TurnSkipped);
    assert_eq!(timeout_current(&mut g).unwrap_err(), ErrorCode::TurnSkipped);
    // Fifth stall is seat 0's third miss: elimination ends the game.
    let r = timeout_current(&mut g);
    assert!(r.is_ok());
    assert_eq!(g.players[0], PlayerId { hi: 0, lo: 0 });
    assert_eq!(g.winner, Some(pid(2)));
    assert_eq!(g.game_state, GameStatus::Completed);
}

#[test]
fn settle_two_player_game() {
    let mut g = active_2p();
    for _ in 0..4 {
        let _ = timeout_current(&mut g);
    }
    timeout_current(&mut g).unwrap();
    assert_eq!(g.game_state, GameStatus::Completed);
    let transfers = distribute_prizes(&mut g, pid(99)).unwrap();
    assert_eq!(
        transfers,
        vec![Transfer { to: pid(99), amount: 200 }, Transfer { to: pid(2), amount: 1800 }]
    );
    assert_eq!(g.game_state, GameStatus::Finalized);
    // Settlement is not idempotent: the game has left Completed.
    assert_eq!(distribute_prizes(&mut g, pid(99)).unwrap_err(), ErrorCode::GameNotCompleted);
}

#[test]
fn settle_four_player_game_shares() {
    let g0 = active_4p();
    let mut g = GameState {
        positions: vec![vec![56; 4], vec![56; 4], vec![0; 4], vec![0; 4]],
        home_counts: vec![4, 4, 0, 0],
        winner: Some(pid(1)),
        second_place: Some(pid(2)),
        game_state: GameStatus::Completed,
        ..g0
    };
    let transfers = distribute_prizes(&mut g, pid(99)).unwrap();
    assert_eq!(
        transfers,
        vec![
            Transfer { to: pid(99), amount: 400 },
            Transfer { to: pid(1), amount: 2600 },
            Transfer { to: pid(2), amount: 1000 },
        ]
    );
    assert_eq!(g.game_state, GameStatus::Finalized);
}

#[test]
fn settle_requires_completion() {
    let mut g = active_2p();
    assert_eq!(distribute_prizes(&mut g, pid(99)).unwrap_err(), ErrorCode::GameNotCompleted);
}

#[test]
fn settle_four_player_without_second_place() {
    let mut g = active_4p();
    // Stalling eliminates three seats; the survivor wins with no second
    // place recorded, so the pot can never be distributed.
    while g.game_state == GameStatus::Active {
        let _ = timeout_current(&mut g);
    }
    assert_eq!(g.game_state, GameStatus::Completed);
    assert!(g.winner.is_some());
    assert_eq!(g.second_place, None);
    assert_eq!(distribute_prizes(&mut g, pid(99)).unwrap_err(), ErrorCode::NoSecondPlace);
}

#[test]
fn move_requires_dice() {
    let mut g = active_2p();
    assert_eq!(move_piece(&mut g, pid(1), 0, 601).unwrap_err(), ErrorCode::DiceNotRolled);
}

#[test]
fn move_rejects_wrong_piece_index() {
    let mut g = active_2p();
    force_roll(&mut g, 6);
    assert_eq!(move_piece(&mut g, pid(1), 4, 601).unwrap_err(), ErrorCode::InvalidPiece);
}

#[test]
fn move_requires_active_game() {
    let mut g = initialize_game(pid(1), 2, 1000, 5).unwrap();
    assert_eq!(move_piece(&mut g, pid(1), 0, 5).unwrap_err(), ErrorCode::GameNotActive);
}

#[test]
fn move_requires_turn() {
    let mut g = active_2p();
    force_roll(&mut g, 6);
    assert_eq!(move_piece(&mut g, pid(2), 0, 601).unwrap_err(), ErrorCode::NotYourTurn);
}

#[test]
fn no_valid_moves_leaves_state_unchanged() {
    let mut g = active_2p();
    // All pieces in the yard and no six: nothing can move.
    force_roll(&mut g, 3);
    assert_eq!(move_piece(&mut g, pid(1), 0, 601).unwrap_err(), ErrorCode::NoValidMoves);
    assert_eq!(g.positions[0], vec![0, 0, 0, 0]);
    assert_eq!(g.dice_roll, Some(3));
    assert_eq!(g.turn, 0);
}

#[test]
fn yard_piece_needs_six() {
    let mut g = active_2p();
    // One piece on the board makes the roll usable, but a yard piece still
    // cannot start without a six.
    g.positions[0][0] = 5;
    force_roll(&mut g, 2);
    assert_eq!(move_piece(&mut g, pid(1), 1, 601).unwrap_err(), ErrorCode::CannotStart);
    assert_eq!(g.positions[0][1], 0);
}

#[test]
fn six_frees_piece_from_yard() {
    let mut g = active_2p();
    force_roll(&mut g, 6);
    move_piece(&mut g, pid(1), 2, 601).unwrap();
    assert_eq!(g.positions[0][2], 1);
    // A six earns an extra turn, and the roll is consumed.
    assert_eq!(g.turn, 0);
    assert_eq!(g.dice_roll, None);
}

#[test]
fn main_track_advance_passes_turn() {
    let mut g = active_2p();
    g.positions[0][0] = 1;
    force_roll(&mut g, 3);
    move_piece(&mut g, pid(1), 0, 601).unwrap();
    assert_eq!(g.positions[0][0], 4);
    assert_eq!(g.turn, 1);
    assert_eq!(g.dice_roll, None);
}

#[test]
fn home_entry_on_exact_crossing() {
    let mut g = active_2p();
    // At 48 with home entry 50, a 4 crosses into the home path: two home
    // steps, square 52.
    g.positions[0][0] = 48;
    force_roll(&mut g, 4);
    move_piece(&mut g, pid(1), 0, 601).unwrap();
    assert_eq!(g.positions[0][0], 52);
    assert_eq!(g.home_counts[0], 0);
}

#[test]
fn home_path_piece_cannot_pass_track_end() {
    let mut g = active_2p();
    // Piece 0 sits in the home path; piece 1 keeps the roll usable.
    g.positions[0][0] = 52;
    g.positions[0][1] = 1;
    force_roll(&mut g, 3);
    assert_eq!(move_piece(&mut g, pid(1), 0, 601).unwrap_err(), ErrorCode::InvalidMove);
    assert_eq!(g.positions[0][0], 52);
    assert_eq!(g.dice_roll, Some(3));
}

#[test]
fn capture_sends_opposing_pieces_to_yard() {
    let mut g = active_2p();
    // Seat 0 (offset 0) lands on relative 36 = absolute 36, not a safe
    // zone. Seat 1 (offset 26) has a piece on relative 10 = absolute 36.
    g.positions[0][0] = 30;
    g.positions[1][0] = 10;
    g.positions[1][1] = 11;
    force_roll(&mut g, 6);
    move_piece(&mut g, pid(1), 0, 601).unwrap();
    assert_eq!(g.positions[0][0], 36);
    assert_eq!(g.positions[1][0], 0);
    assert_eq!(g.positions[1][1], 11);
    assert_eq!(g.positions[1][3], 0);
}

#[test]
fn safe_zone_blocks_capture() {
    let mut g = active_2p();
    // Seat 0 lands on absolute 34, a safe zone; seat 1's piece on
    // relative 8 = absolute 34 survives.
    g.positions[0][0] = 28;
    g.positions[1][0] = 8;
    force_roll(&mut g, 6);
    move_piece(&mut g, pid(1), 0, 601).unwrap();
    assert_eq!(g.positions[0][0], 34);
    assert_eq!(g.positions[1][0], 8);
}

#[test]
fn fourth_piece_home_wins_two_player_game() {
    let mut g = active_2p();
    g.positions[0] = vec![56, 56, 56, 50];
    g.home_counts[0] = 3;
    force_roll(&mut g, 6);
    move_piece(&mut g, pid(1), 3, 601).unwrap();
    assert_eq!(g.positions[0][3], 56);
    assert_eq!(g.home_counts[0], 4);
    assert_eq!(g.winner, Some(pid(1)));
    assert_eq!(g.game_state, GameStatus::Completed);
}

#[test]
fn four_player_game_ends_on_second_finisher() {
    let mut g = active_4p();
    g.positions[0] = vec![56, 56, 56, 50];
    g.home_counts[0] = 3;
    force_roll(&mut g, 6);
    move_piece(&mut g, pid(1), 3, 601).unwrap();
    // First finisher is recorded but the game keeps running.
    assert_eq!(g.winner, Some(pid(1)));
    assert_eq!(g.second_place, None);
    assert_eq!(g.game_state, GameStatus::Active);
    assert_eq!(g.turn, 0);
    // The finished seat can only stall; the turn passes on.
    assert_eq!(timeout_current(&mut g).unwrap_err(), ErrorCode::TurnSkipped);
    assert_eq!(g.turn, 1);
    // Seat 1 (home entry 11) brings its last piece home from 11 with a six.
    g.positions[1] = vec![56, 56, 56, 11];
    g.home_counts[1] = 3;
    force_roll(&mut g, 6);
    move_piece(&mut g, pid(2), 3, 601).unwrap();
    assert_eq!(g.home_counts[1], 4);
    assert_eq!(g.winner, Some(pid(1)));
    assert_eq!(g.second_place, Some(pid(2)));
    assert_eq!(g.game_state, GameStatus::Completed);
}

#[test]
fn yard_pieces_survive_capture_square() {
    let mut g = active_2p();
    // Seat 1's yard piece and home-path piece are never captured even when
    // seat 0 lands where they would stand.
    g.positions[0][0] = 36;
    g.positions[1][0] = 0;
    g.positions[1][1] = 52;
    force_roll(&mut g, 2);
    move_piece(&mut g, pid(1), 0, 601).unwrap();
    assert_eq!(g.positions[0][0], 38);
    assert_eq!(g.positions[1][0], 0);
    assert_eq!(g.positions[1][1], 52);
}

#[test]
fn step_rule_matches_engine_on_overshoot() {
    // The step rule itself rejects a seven-step home entry, the engine
    // surface that rejection as InvalidMove with die values 1..=6 being
    // unable to overshoot a home entry at 50.
    assert_eq!(resolve_piece_step(49, 4, 50), Some(53));
    assert_eq!(resolve_piece_step(50, 7, 50), None);
}

#[test]
fn every_join_keeps_pot_partitioned() {
    let mut g = initialize_game(pid(1), 4, 777, 5).unwrap();
    assert_eq!(g.prize_pool + g.platform_fee, g.total_bet);
    for n in 2..=4u128 {
        join_game(&mut g, pid(n), 10 * n as i64 + 601).unwrap();
        assert_eq!(g.total_bet, 777 * n as u64);
        assert_eq!(g.platform_fee, g.total_bet / 10);
        assert_eq!(g.prize_pool + g.platform_fee, g.total_bet);
        if n < 4 {
            assert_eq!(g.game_state, GameStatus::WaitingForPlayers);
        } else {
            assert_eq!(g.game_state, GameStatus::Active);
        }
    }
}

#[test]
fn non_six_roll_ends_six_streak() {
    let mut g = active_2p();
    force_roll(&mut g, 6);
    assert_eq!(g.consecutive_sixes, 1);
    move_piece(&mut g, pid(1), 0, 601).unwrap();
    force_roll(&mut g, 2);
    assert_eq!(g.consecutive_sixes, 0);
    assert_eq!(g.dice_roll, Some(2));
}
