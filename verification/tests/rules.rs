//! Board-rule unit tests: the piece-step function on concrete squares.

use ludo_game::board::resolve_piece_step;

#[test]
fn step_enters_home_path_on_exact_crossing() {
    // From 48 with a 4 past home entry 50: two home steps, square 52.
    assert_eq!(resolve_piece_step(48, 4, 50), Some(52));
    // Entering exactly on the home square.
    assert_eq!(resolve_piece_step(50, 6, 50), Some(56));
    assert_eq!(resolve_piece_step(11, 6, 11), Some(56));
}

#[test]
fn step_rejects_home_path_overshoot() {
    // Crossing home entry 11 from 5 by 13 would take seven home steps.
    assert_eq!(resolve_piece_step(5, 13, 11), None);
    assert_eq!(resolve_piece_step(44, 13, 50), None);
    // Six home steps are still accepted.
    assert_eq!(resolve_piece_step(5, 12, 11), Some(56));
}

#[test]
fn step_rejects_main_track_past_fifty() {
    // A home-path piece cannot advance past the track without crossing.
    assert_eq!(resolve_piece_step(52, 3, 50), None);
    // Past square 50 without crossing home entry 11.
    assert_eq!(resolve_piece_step(46, 6, 11), None);
    assert_eq!(resolve_piece_step(46, 4, 11), Some(50));
}

#[test]
fn step_advances_on_main_track() {
    assert_eq!(resolve_piece_step(10, 5, 50), Some(15));
    assert_eq!(resolve_piece_step(1, 6, 50), Some(7));
    // Crossing home entry 11 from below stays a home-path entry.
    assert_eq!(resolve_piece_step(10, 3, 11), Some(52));
}
