//! Board geometry. A piece position is player-relative: 0 is the yard,
//! 1..=50 the shared main track, 51..=55 the private home path, 56 home.
//! The shared circular track has 52 absolute squares; a seat's relative
//! square maps to an absolute square through its start offset.

use vstd::prelude::*;

verus! {

/// Per-seat starting squares on the absolute track.
pub open spec fn spec_start_offsets(max_players: u8) -> Seq<u8> {
    if max_players == 4 {
        seq![0u8, 13u8, 26u8, 39u8]
    } else {
        seq![0u8, 26u8]
    }
}

/// Per-seat last main-track square before the home path begins.
pub open spec fn spec_home_entries(max_players: u8) -> Seq<u8> {
    if max_players == 4 {
        seq![50u8, 11u8, 24u8, 37u8]
    } else {
        seq![50u8, 24u8]
    }
}

/// Absolute squares on which no piece can be captured.
pub open spec fn spec_safe_zones() -> Seq<u8> {
    seq![8u8, 13u8, 21u8, 26u8, 34u8, 39u8, 47u8]
}

/// Absolute square reached by a seat with the given start offset whose piece
/// stands on main-track relative square `pos`.
pub open spec fn spec_absolute_square(offset: u8, pos: u8) -> u8 {
    (((offset + pos) % 52) as u8)
}

pub fn start_offsets_for(max_players: u8) -> (v: Vec<u8>)
    requires
        max_players == 2 || max_players == 4,
    ensures
        v@ == spec_start_offsets(max_players),
{
    let mut v: Vec<u8> = Vec::new();
    if max_players == 4 {
        v.push(0);
        v.push(13);
        v.push(26);
        v.push(39);
        assert(v@ =~= spec_start_offsets(max_players));
    } else {
        v.push(0);
        v.push(26);
        assert(v@ =~= spec_start_offsets(max_players));
    }
    v
}

pub fn home_entries_for(max_players: u8) -> (v: Vec<u8>)
    requires
        max_players == 2 || max_players == 4,
    ensures
        v@ == spec_home_entries(max_players),
{
    let mut v: Vec<u8> = Vec::new();
    if max_players == 4 {
        v.push(50);
        v.push(11);
        v.push(24);
        v.push(37);
        assert(v@ =~= spec_home_entries(max_players));
    } else {
        v.push(50);
        v.push(24);
        assert(v@ =~= spec_home_entries(max_players));
    }
    v
}

pub fn safe_zones_vec() -> (v: Vec<u8>)
    ensures
        v@ == spec_safe_zones(),
{
    let mut v: Vec<u8> = Vec::new();
    v.push(8);
    v.push(13);
    v.push(21);
    v.push(26);
    v.push(34);
    v.push(39);
    v.push(47);
    assert(v@ =~= spec_safe_zones());
    v
}

pub fn absolute_square(offset: u8, pos: u8) -> (r: u8)
    ensures
        r == spec_absolute_square(offset, pos),
{
    ((offset as u16 + pos as u16) % 52) as u8
}

pub fn vec_contains_u8(v: &Vec<u8>, x: u8) -> (r: bool)
    ensures
        r == v@.contains(x),
{
    let mut i: usize = 0;
    while i < v.len()
        invariant
            i <= v@.len(),
            forall|k: int| 0 <= k < i ==> v@[k] != x,
        decreases v@.len() - i,
    {
        if v[i] == x {
            assert(v@.contains(x));
            return true;
        }
        i += 1;
    }
    assert(!v@.contains(x));
    false
}

/// Outcome of applying a die value to a piece already on the board
/// (`Some` carries the new relative position, `None` is an illegal move).
/// A piece on square `cur` crosses into the home path when the step takes it
/// strictly past the seat's home-entry square; it must then land within the
/// six home-path steps. A step that stays out of the home path must not pass
/// main-track square 50.
pub open spec fn spec_piece_step(cur: u8, die: u8, home_entry: u8) -> Option<u8> {
    if cur <= home_entry && cur + die > home_entry {
        if cur + die - home_entry <= 6 {
            Some(((50 + cur + die - home_entry) as u8))
        } else {
            None
        }
    } else if cur + die > 50 {
        None
    } else {
        Some(((cur + die) as u8))
    }
}

/// Applies a die value to an on-board piece.
///
/// A home-path entry overshooting the six home steps is always rejected, and
/// a main-track step past square 50 that does not cross into the home path
/// is always rejected; every accepted step lands on the exact square the
/// board rules dictate.
pub fn resolve_piece_step(cur: u8, die: u8, home_entry: u8) -> (r: Option<u8>)
    ensures
        r == spec_piece_step(cur, die, home_entry),
        (cur <= home_entry && cur + die > home_entry + 6) ==> r is None,
        (!(cur <= home_entry && cur + die > home_entry) && cur + die > 50) ==> r is None,
{
    let cur16 = cur as u16;
    let die16 = die as u16;
    let he16 = home_entry as u16;
    let new_pos = cur16 + die16;
    if cur16 <= he16 && new_pos > he16 {
        let home_steps = new_pos - he16;
        if home_steps > 6 {
            None
        } else {
            Some((50 + home_steps) as u8)
        }
    } else if new_pos > 50 {
        None
    } else {
        Some(new_pos as u8)
    }
}

} // verus!
