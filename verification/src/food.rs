//! Food: a single grid cell kept off the snake's body, regenerated by
//! rejection sampling with a deterministic fallback scan.
use rand::Rng;
use vstd::prelude::*;

use crate::snake::{body_contains, Cell, Snake};
use crate::CELL_COUNT;

verus! {

/// The food: one grid cell.
#[derive(Clone, Copy, Debug, PartialEq, Eq, Structural)]
pub struct Food {
    pub position: Cell,
}

impl Default for Food {
    /// Food at the grid origin.
    fn default() -> (f: Food)
        ensures
            f.position == (Cell { x: 0, y: 0 }),
    {
        Food { position: Cell { x: 0, y: 0 } }
    }
}

/// Whether a cell lies inside the playable grid.
pub open spec fn in_grid(c: Cell) -> bool {
    0 <= c.x < CELL_COUNT && 0 <= c.y < CELL_COUNT
}

/// How many random draws are tried before the deterministic fallback scan.
const SAMPLE_TRIES: usize = 32;

/// Relies on `rand::Rng::gen_range` over a `rand::thread_rng()` generator on
/// the integer range `0..bound`: it returns a value inside that range, and
/// panics only when the range is empty, which `bound > 0` rules out. Nothing
/// is assumed about which value comes back.
#[verifier::external_body]
fn random_coord(bound: i32) -> (r: i32)
    requires
        bound > 0,
    ensures
        0 <= r < bound,
{
    rand::thread_rng().gen_range(0..bound)
}

/// Draws a random cell of the playable grid.
pub fn random_cell() -> (c: Cell)
    ensures
        in_grid(c),
{
    Cell { x: random_coord(CELL_COUNT), y: random_coord(CELL_COUNT) }
}

/// Whether some grid cell is free of the given body.
pub open spec fn grid_has_free_cell(body: Seq<Cell>) -> bool {
    exists|c: Cell| #[trigger] in_grid(c) && !body.contains(c)
}

/// What replacing the food against a body guarantees: while any grid cell is
/// free the new food lies in the grid and off the body; once the body covers
/// the whole grid the food is left where it was.
pub open spec fn replaced_ok(body: Seq<Cell>, old_food: Cell, new_food: Cell) -> bool {
    if grid_has_free_cell(body) {
        in_grid(new_food) && !body.contains(new_food)
    } else {
        new_food == old_food
    }
}

/// What food placement guarantees: a returned cell lies in the grid and off
/// the given body; no cell is returned only when the body covers the grid.
pub open spec fn placement_ok(body: Seq<Cell>, r: Option<Cell>) -> bool {
    match r {
        Some(c) => in_grid(c) && !body.contains(c),
        None => forall|c: Cell| in_grid(c) ==> body.contains(c),
    }
}

/// Picks a grid cell that the snake does not occupy: first by a bounded
/// number of random draws, then, should they all land on the body, by a
/// deterministic scan of the grid; `None` only when no free cell exists.
pub fn generate_random_pos(snake: &Snake) -> (r: Option<Cell>)
    ensures
        placement_ok(snake@, r),
{
    let mut tries: usize = 0;
    while tries < SAMPLE_TRIES
        invariant
            tries <= SAMPLE_TRIES,
        decreases SAMPLE_TRIES - tries,
    {
        let c = random_cell();
        if !body_contains(snake.body(), c) {
            return Some(c);
        }
        tries = tries + 1;
    }
    let mut x: i32 = 0;
    while x < CELL_COUNT
        invariant
            0 <= x <= CELL_COUNT,
            forall|c: Cell| in_grid(c) && c.x < x ==> snake@.contains(c),
        decreases CELL_COUNT - x,
    {
        let mut y: i32 = 0;
        while y < CELL_COUNT
            invariant
                0 <= x < CELL_COUNT,
                0 <= y <= CELL_COUNT,
                forall|c: Cell| in_grid(c) && c.x < x ==> snake@.contains(c),
                forall|c: Cell| in_grid(c) && c.x == x && c.y < y ==> snake@.contains(c),
            decreases CELL_COUNT - y,
        {
            let c = Cell { x, y };
            if !body_contains(snake.body(), c) {
                return Some(c);
            }
            y = y + 1;
        }
        x = x + 1;
    }
    None
}

/// Law: when exactly one grid cell is free of the body, any placement that
/// meets `placement_ok` returns that cell — whatever the random draws did.
pub proof fn lemma_single_free_cell(body: Seq<Cell>, free: Cell, r: Option<Cell>)
    requires
        in_grid(free),
        !body.contains(free),
        forall|c: Cell| in_grid(c) && c != free ==> body.contains(c),
        placement_ok(body, r),
    ensures
        r == Some(free),
{
    match r {
        Some(c) => {
            if c != free {
                assert(body.contains(c));
            }
        },
        None => {
            assert(body.contains(free));
        },
    }
}

} // verus!
