//! Directional input: which requested headings are accepted, in a fixed
//! scan order, and how an accepted one leaves the paused state.
use vstd::prelude::*;

use crate::game::GameState;
use crate::snake::Direction;

verus! {

/// The heading after one requested key is considered: the request is taken
/// unless it is the exact reverse of the heading in effect at that point.
pub open spec fn dir_after_key(d: Direction, requested: Direction, pressed: bool) -> Direction {
    if pressed && d != requested.spec_opposite() {
        requested
    } else {
        d
    }
}

/// The heading after one input pass, scanning the four keys in the fixed
/// order Up, Down, Left, Right; each request is checked against the heading
/// as already updated by the earlier keys.
pub open spec fn keyboard_spec(
    up: bool,
    down: bool,
    left: bool,
    right: bool,
    d: Direction,
) -> Direction {
    dir_after_key(
        dir_after_key(
            dir_after_key(dir_after_key(d, Direction::Up, up), Direction::Down, down),
            Direction::Left,
            left,
        ),
        Direction::Right,
        right,
    )
}

/// Whether at least one requested heading is accepted during the scan.
pub open spec fn any_accept(up: bool, down: bool, left: bool, right: bool, d: Direction) -> bool {
    let d1 = dir_after_key(d, Direction::Up, up);
    let d2 = dir_after_key(d1, Direction::Down, down);
    let d3 = dir_after_key(d2, Direction::Left, left);
    (up && d != Direction::Up.spec_opposite()) || (down && d1 != Direction::Down.spec_opposite())
        || (left && d2 != Direction::Left.spec_opposite()) || (right && d3
        != Direction::Right.spec_opposite())
}

/// Whether at most one of the four direction keys is held.
pub open spec fn at_most_one_key(up: bool, down: bool, left: bool, right: bool) -> bool {
    (if up { 1int } else { 0int }) + (if down { 1int } else { 0int }) + (if left {
        1int
    } else {
        0int
    }) + (if right { 1int } else { 0int }) <= 1
}

/// Law: under single-key input the heading after the pass is never the exact
/// reverse of the heading in effect at its start, for all four heading pairs;
/// a blocked or absent request leaves the heading unchanged, and no heading
/// is its own reverse.
pub proof fn lemma_no_instant_reversal(up: bool, down: bool, left: bool, right: bool, d: Direction)
    requires
        at_most_one_key(up, down, left, right),
    ensures
        keyboard_spec(up, down, left, right, d) != d.spec_opposite(),
{
}

/// One input pass over the four direction keys, in the fixed scan order Up,
/// Down, Left, Right: each held key whose heading is not the reverse of the
/// heading in effect at that point of the scan is taken, and while paused an
/// accepted heading asks for a return to `Playing`.
pub fn keyboard(
    up: bool,
    down: bool,
    left: bool,
    right: bool,
    direction: &mut Direction,
    game_state: GameState,
) -> (next: Option<GameState>)
    ensures
        *final(direction) == keyboard_spec(up, down, left, right, *old(direction)),
        next == (if game_state == GameState::Paused && any_accept(
            up,
            down,
            left,
            right,
            *old(direction),
        ) {
            Some(GameState::Playing)
        } else {
            None::<GameState>
        }),
{
    let mut next: Option<GameState> = None;
    if up && *direction != Direction::Up.opposite() {
        *direction = Direction::Up;
        if game_state == GameState::Paused {
            next = Some(GameState::Playing);
        }
    }
    if down && *direction != Direction::Down.opposite() {
        *direction = Direction::Down;
        if game_state == GameState::Paused {
            next = Some(GameState::Playing);
        }
    }
    if left && *direction != Direction::Left.opposite() {
        *direction = Direction::Left;
        if game_state == GameState::Paused {
            next = Some(GameState::Playing);
        }
    }
    if right && *direction != Direction::Right.opposite() {
        *direction = Direction::Right;
        if game_state == GameState::Paused {
            next = Some(GameState::Playing);
        }
    }
    next
}

} // verus!
