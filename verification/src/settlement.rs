//! Settlement: once a game is completed, the exact payout instructions —
//! platform fee, then the winner's share (2-player) or the 65%/25% winner
//! and second-place shares (4-player) — and the transition to Finalized.

use vstd::prelude::*;
use crate::game::{GameState, GameStatus, ErrorCode, PlayerId, Transfer, MAX_BET_AMOUNT};

verus! {

/// Computes the payout instructions for a completed game and finalizes it.
///
/// The platform fee is a tenth of the pot (floor). In a 2-player game the
/// winner receives the rest of the pot. In a 4-player game the winner
/// receives 65% and second place 25% of the pot (floor); the residual stays
/// with the fee. The call fails, changing nothing, unless the game is
/// Completed with the required placements recorded; afterwards the game is
/// Finalized, so a second call fails.
pub fn distribute_prizes(game: &mut GameState, platform: PlayerId) -> (r: Result<
    Vec<Transfer>,
    ErrorCode,
>)
    requires
        old(game).wf(),
    ensures
        final(game).wf(),
        ({
            let og = *old(game);
            let fg = *final(game);
            let fee = og.total_bet / 10;
            &&& (og.game_state != GameStatus::Completed ==> r == Err::<Vec<Transfer>, ErrorCode>(
                ErrorCode::GameNotCompleted,
            ) && fg == og)
            &&& (og.game_state == GameStatus::Completed && og.winner is None ==> r == Err::<
                Vec<Transfer>,
                ErrorCode,
            >(ErrorCode::NoWinner) && fg == og)
            &&& (og.game_state == GameStatus::Completed && og.max_players == 2 ==> (og.winner
                matches Some(w) ==> {
                &&& r matches Ok(ts)
                &&& ts@ == seq![
                    (Transfer { to: platform, amount: fee }),
                    (Transfer { to: w, amount: ((og.total_bet - fee) as u64) }),
                ]
                &&& fg == (GameState { game_state: GameStatus::Finalized, ..og })
            }))
            &&& (og.game_state == GameStatus::Completed && og.max_players == 4 && og.winner
                is Some && og.second_place is None ==> r == Err::<Vec<Transfer>, ErrorCode>(
                ErrorCode::NoSecondPlace,
            ) && fg == og)
            &&& (og.game_state == GameStatus::Completed && og.max_players == 4 ==> (og.winner
                matches Some(w) ==> (og.second_place matches Some(s) ==> {
                &&& r matches Ok(ts)
                &&& ts@ == seq![
                    (Transfer { to: platform, amount: fee }),
                    (Transfer { to: w, amount: ((og.total_bet * 65 / 100) as u64) }),
                    (Transfer { to: s, amount: ((og.total_bet * 25 / 100) as u64) }),
                ]
                &&& fg == (GameState { game_state: GameStatus::Finalized, ..og })
            })))
        }),
{
    if game.game_state != GameStatus::Completed {
        return Err(ErrorCode::GameNotCompleted);
    }
    let total_bet = game.total_bet;
    let platform_fee = total_bet / 10;
    proof {
        assert(total_bet * 65 <= u64::MAX && total_bet * 25 <= u64::MAX) by (nonlinear_arith)
            requires
                total_bet == game.bet_amount * game.seats(),
                0 <= game.seats() <= 4,
                game.bet_amount <= MAX_BET_AMOUNT,
                MAX_BET_AMOUNT == u64::MAX / 260,
        ;
    }
    let winner = match game.winner {
        Some(w) => w,
        None => {
            return Err(ErrorCode::NoWinner);
        },
    };
    let mut transfers: Vec<Transfer> = Vec::new();
    transfers.push(Transfer { to: platform, amount: platform_fee });
    if game.max_players == 2 {
        transfers.push(Transfer { to: winner, amount: total_bet - platform_fee });
        game.game_state = GameStatus::Finalized;
        proof {
            assert(transfers@ =~= seq![
                (Transfer { to: platform, amount: platform_fee }),
                (Transfer { to: winner, amount: ((total_bet - platform_fee) as u64) }),
            ]);
        }
        Ok(transfers)
    } else {
        let second = match game.second_place {
            Some(s) => s,
            None => {
                return Err(ErrorCode::NoSecondPlace);
            },
        };
        let first_amount = total_bet * 65 / 100;
        let second_amount = total_bet * 25 / 100;
        transfers.push(Transfer { to: winner, amount: first_amount });
        transfers.push(Transfer { to: second, amount: second_amount });
        game.game_state = GameStatus::Finalized;
        proof {
            assert(transfers@ =~= seq![
                (Transfer { to: platform, amount: platform_fee }),
                (Transfer { to: winner, amount: first_amount }),
                (Transfer { to: second, amount: second_amount }),
            ]);
        }
        Ok(transfers)
    }
}

} // verus!
