//! Laws of the ledger and the board that hold in every reachable state:
//! every operation of the engine requires and ensures well-formedness, so
//! these facts hold after every call.

use vstd::prelude::*;
use crate::game::{GameState, count_at_home};

verus! {

/// The escrowed pot is never split into more than itself: in every
/// well-formed state the prize pool and the platform fee sum exactly to the
/// total bet.
pub proof fn lemma_pool_and_fee_partition_pot(g: GameState)
    requires
        g.wf(),
    ensures
        g.prize_pool + g.platform_fee == g.total_bet,
        g.platform_fee == g.total_bet / 10,
{
}

/// The piece ledger and the score ledger agree: in every well-formed state
/// each seat's home count equals the number of its pieces standing on the
/// home square.
pub proof fn lemma_home_count_matches_positions(g: GameState, p: int)
    requires
        g.wf(),
        0 <= p < g.seats(),
    ensures
        g.home_counts@[p] as int == count_at_home(g.positions@[p]@),
{
}

} // verus!
