//! Turn rotation: the next seat in cyclic join order whose identity is not
//! the null identity. An eliminated seat is never selected.

use vstd::prelude::*;
use crate::game::{GameState, PlayerId, count_active, lemma_count_active_pos};

verus! {

/// The seat after `i` in cyclic order over `len` seats.
pub open spec fn step_seat(len: int, i: int) -> int {
    if i + 1 == len {
        0int
    } else {
        i + 1
    }
}

pub open spec fn next_active_search(players: Seq<PlayerId>, i: int, fuel: nat) -> int
    decreases fuel,
{
    if fuel == 0 {
        i
    } else {
        let nxt = step_seat(players.len() as int, i);
        if !players[nxt].spec_is_null() {
            nxt
        } else {
            next_active_search(players, nxt, (fuel - 1) as nat)
        }
    }
}

/// Seat that takes the turn after seat `cur`: the first seat strictly after
/// `cur` in cyclic order whose identity is not null (wrapping back to `cur`
/// itself when it is the only active seat).
pub open spec fn spec_next_active(players: Seq<PlayerId>, cur: int) -> int {
    next_active_search(players, cur, players.len())
}

/// Cyclic distance from seat `i` strictly forward to seat `j`, in 1..=len.
pub open spec fn cyc_dist(len: int, i: int, j: int) -> int {
    if j > i {
        j - i
    } else {
        j - i + len
    }
}

proof fn lemma_search_hits(players: Seq<PlayerId>, i: int, j: int, fuel: nat)
    requires
        0 <= i < players.len(),
        0 <= j < players.len(),
        !players[j].spec_is_null(),
        cyc_dist(players.len() as int, i, j) <= fuel,
    ensures
        ({
            let r = next_active_search(players, i, fuel);
            0 <= r < players.len() && !players[r].spec_is_null()
        }),
    decreases fuel,
{
    let len = players.len() as int;
    let nxt = step_seat(len, i);
    assert(cyc_dist(len, i, j) >= 1);
    if players[nxt].spec_is_null() {
        assert(j != nxt);
        assert(cyc_dist(len, nxt, j) == cyc_dist(len, i, j) - 1);
        lemma_search_hits(players, nxt, j, (fuel - 1) as nat);
    }
}

/// Turn rotation never selects a seat whose identity equals the null
/// identity, as long as any active seat remains.
pub proof fn lemma_next_active_good(players: Seq<PlayerId>, cur: int)
    requires
        0 <= cur < players.len(),
        count_active(players) >= 1,
    ensures
        0 <= spec_next_active(players, cur) < players.len(),
        !players[spec_next_active(players, cur)].spec_is_null(),
{
    lemma_count_active_pos(players);
    let j = choose|j: int| 0 <= j < players.len() && !(#[trigger] players[j]).spec_is_null();
    assert(cyc_dist(players.len() as int, cur, j) <= players.len());
    lemma_search_hits(players, cur, j, players.len());
}

/// Index of the next seat, cyclically after `current_turn`, still occupied
/// by an active (non-null) identity.
pub fn next_active_player(game: &GameState, current_turn: u8) -> (r: u8)
    requires
        (current_turn as int) < game.players@.len(),
        game.players@.len() <= 255,
        count_active(game.players@) >= 1,
    ensures
        r as int == spec_next_active(game.players@, current_turn as int),
        (r as int) < game.players@.len(),
        !game.players@[r as int].spec_is_null(),
{
    let ghost players = game.players@;
    let len = game.players.len();
    proof {
        lemma_next_active_good(players, current_turn as int);
        lemma_count_active_pos(players);
    }
    let mut i: usize = current_turn as usize;
    let mut fuel: usize = len;
    loop
        invariant
            players == game.players@,
            len == players.len(),
            len <= 255,
            0 <= i < len,
            1 <= fuel <= len,
            spec_next_active(players, current_turn as int) == next_active_search(
                players,
                i as int,
                fuel as nat,
            ),
            exists|j: int|
                0 <= j < len && !(#[trigger] players[j]).spec_is_null() && cyc_dist(
                    len as int,
                    i as int,
                    j,
                ) <= fuel,
            !players[spec_next_active(players, current_turn as int)].spec_is_null(),
            0 <= spec_next_active(players, current_turn as int) < len,
        decreases fuel,
    {
        let nxt: usize = if i + 1 == len {
            0
        } else {
            i + 1
        };
        assert(nxt as int == step_seat(len as int, i as int));
        if !game.players[nxt].is_null() {
            assert(next_active_search(players, i as int, fuel as nat) == nxt as int);
            return nxt as u8;
        }
        proof {
            let j = choose|j: int|
                0 <= j < len && !(#[trigger] players[j]).spec_is_null() && cyc_dist(
                    len as int,
                    i as int,
                    j,
                ) <= fuel;
            assert(j != nxt as int);
            assert(cyc_dist(len as int, nxt as int, j) == cyc_dist(len as int, i as int, j) - 1);
            assert(next_active_search(players, i as int, fuel as nat) == next_active_search(
                players,
                nxt as int,
                (fuel - 1) as nat,
            ));
        }
        i = nxt;
        fuel = fuel - 1;
    }
}

/// Active-seat census: how many seats hold a non-null identity, and a
/// witness identity. When exactly one seat is active, the witness is the
/// identity of that seat.
pub fn survey_active(players: &Vec<PlayerId>) -> (r: (usize, PlayerId))
    ensures
        r.0 as int == count_active(players@),
        count_active(players@) >= 1 ==> (!r.1.spec_is_null() && (exists|j: int|
            0 <= j < players@.len() && players@[j] == r.1)),
        count_active(players@) == 1 ==> (forall|k: int|
            0 <= k < players@.len() && !(#[trigger] players@[k]).spec_is_null() ==> players@[k]
                == r.1),
{
    let mut cnt: usize = 0;
    let mut witness = PlayerId::null();
    let mut i: usize = 0;
    while i < players.len()
        invariant
            i <= players@.len(),
            cnt <= i,
            cnt as int == count_active(players@.take(i as int)),
            cnt >= 1 ==> (!witness.spec_is_null() && (exists|j: int|
                0 <= j < i && players@[j] == witness)),
            cnt == 0 ==> (forall|k: int| 0 <= k < i ==> (#[trigger] players@[k]).spec_is_null()),
            cnt == 1 ==> (forall|k: int|
                0 <= k < i && !(#[trigger] players@[k]).spec_is_null() ==> players@[k] == witness),
        decreases players@.len() - i,
    {
        proof {
            assert(players@.take(i + 1).drop_last() =~= players@.take(i as int));
            assert(players@.take(i + 1).last() == players@[i as int]);
        }
        if !players[i].is_null() {
            cnt = cnt + 1;
            witness = players[i];
        }
        i = i + 1;
    }
    proof {
        assert(players@.take(players@.len() as int) =~= players@);
    }
    (cnt, witness)
}

} // verus!
