//! The snake itself: grid cells, headings, the deque-shaped body, and the
//! per-tick movement rule (push a new head; pop the tail unless growing).
use std::collections::VecDeque;

use vstd::prelude::*;

use crate::game::GameState;

verus! {

/// One cell of the playable grid, as a pair of integer coordinates.
#[derive(Clone, Copy, Debug, PartialEq, Eq, Structural)]
pub struct Cell {
    pub x: i32,
    pub y: i32,
}

/// The heading the snake moves in; `y` grows downwards, as on screen.
#[derive(Clone, Copy, Debug, PartialEq, Eq, Structural)]
pub enum Direction {
    Up,
    Down,
    Right,
    Left,
}

impl Direction {
    /// The unit displacement a heading stands for.
    pub open spec fn spec_to_vec2(self) -> Cell {
        match self {
            Direction::Up => Cell { x: 0i32, y: -1i32 },
            Direction::Down => Cell { x: 0i32, y: 1i32 },
            Direction::Right => Cell { x: 1i32, y: 0i32 },
            Direction::Left => Cell { x: -1i32, y: 0i32 },
        }
    }

    /// Maps a heading to the unit displacement a movement tick applies.
    #[verifier::when_used_as_spec(spec_to_vec2)]
    pub fn to_vec2(self) -> (r: Cell)
        ensures
            r == self.spec_to_vec2(),
    {
        match self {
            Direction::Up => Cell { x: 0, y: -1 },
            Direction::Down => Cell { x: 0, y: 1 },
            Direction::Right => Cell { x: 1, y: 0 },
            Direction::Left => Cell { x: -1, y: 0 },
        }
    }

    /// The reverse of a heading.
    pub open spec fn spec_opposite(self) -> Direction {
        match self {
            Direction::Up => Direction::Down,
            Direction::Down => Direction::Up,
            Direction::Right => Direction::Left,
            Direction::Left => Direction::Right,
        }
    }

    /// Maps a heading to its exact reverse.
    #[verifier::when_used_as_spec(spec_opposite)]
    pub fn opposite(self) -> (r: Direction)
        ensures
            r == self.spec_opposite(),
    {
        match self {
            Direction::Up => Direction::Down,
            Direction::Down => Direction::Up,
            Direction::Right => Direction::Left,
            Direction::Left => Direction::Right,
        }
    }
}

/// Law: `opposite` is an involution — reversing a heading twice gives the
/// heading back, for each of the four headings.
pub proof fn lemma_opposite_involutive(d: Direction)
    ensures
        d.spec_opposite().spec_opposite() == d,
{
}

/// Law: no heading is its own reverse, for each of the four headings.
pub proof fn lemma_opposite_is_not_identity(d: Direction)
    ensures
        d.spec_opposite() != d,
{
}

/// The three cells every new game starts from, head first.
pub open spec fn seed_body() -> Seq<Cell> {
    seq![Cell { x: 6, y: 9 }, Cell { x: 5, y: 9 }, Cell { x: 4, y: 9 }]
}

/// The snake: an ordered sequence of grid cells, front = head, back = tail,
/// plus the one-shot growth flag that makes the next tick keep the tail.
#[derive(Clone, Debug)]
pub struct Snake {
    pub body: VecDeque<Cell>,
    pub is_growing: bool,
}

impl View for Snake {
    type V = Seq<Cell>;

    open spec fn view(&self) -> Seq<Cell> {
        self.body@
    }
}

impl Snake {
    /// The cell the snake's head occupies, if the body is non-empty.
    pub fn head(&self) -> (r: Option<&Cell>)
        ensures
            match r {
                Some(c) => self@.len() > 0 && *c == self@[0],
                None => self@.len() == 0,
            },
    {
        if self.body.len() == 0 {
            None
        } else {
            Some(&self.body[0])
        }
    }

    /// The whole body, head first.
    pub fn body(&self) -> (r: &VecDeque<Cell>)
        ensures
            r@ == self@,
    {
        &self.body
    }

    /// Builds a snake from an explicit list of cells, head first.
    pub fn from_cells(cells: &Vec<Cell>, is_growing: bool) -> (s: Snake)
        ensures
            s@ == cells@,
            s.is_growing == is_growing,
    {
        let mut body: VecDeque<Cell> = VecDeque::new();
        for i in 0..cells.len()
            invariant
                body@ == cells@.subrange(0, i as int),
        {
            body.push_back(cells[i]);
            proof {
                assert(body@ =~= cells@.subrange(0, i + 1 as int));
            }
        }
        proof {
            assert(body@ =~= cells@);
        }
        Snake { body, is_growing }
    }
}

impl Default for Snake {
    /// A snake of the three seed cells, not growing.
    fn default() -> (s: Snake)
        ensures
            s@ == seed_body(),
            !s.is_growing,
    {
        Snake { body: seed_deque(), is_growing: false }
    }
}

/// Builds the deque of the three seed cells.
fn seed_deque() -> (b: VecDeque<Cell>)
    ensures
        b@ == seed_body(),
{
    let mut b: VecDeque<Cell> = VecDeque::new();
    b.push_back(Cell { x: 6, y: 9 });
    b.push_back(Cell { x: 5, y: 9 });
    b.push_back(Cell { x: 4, y: 9 });
    proof {
        assert(b@ =~= seed_body());
    }
    b
}

/// Whether a body lists a given cell.
pub fn body_contains(body: &VecDeque<Cell>, c: Cell) -> (r: bool)
    ensures
        r == body@.contains(c),
{
    let n = body.len();
    for i in 0..n
        invariant
            n == body@.len(),
            forall|j: int| 0 <= j < i ==> body@[j] != c,
    {
        if body[i] == c {
            return true;
        }
    }
    false
}

/// Whether stepping the head one cell cannot overflow the coordinates.
pub open spec fn can_step(c: Cell) -> bool {
    i32::MIN < c.x < i32::MAX && i32::MIN < c.y < i32::MAX
}

/// The cell one step from `c` along heading `d`.
pub open spec fn step_cell(c: Cell, d: Direction) -> Cell {
    Cell { x: (c.x + d.spec_to_vec2().x) as i32, y: (c.y + d.spec_to_vec2().y) as i32 }
}

/// The body after one movement tick: a new head is pushed in front, and the
/// tail is kept exactly when the growth flag was set. An empty body stays
/// empty.
pub open spec fn body_after_move(body: Seq<Cell>, growing: bool, d: Direction) -> Seq<Cell> {
    if body.len() == 0 {
        body
    } else {
        let pushed = seq![step_cell(body[0], d)] + body;
        if growing {
            pushed
        } else {
            pushed.drop_last()
        }
    }
}

/// Law: a movement tick with the growth flag set lengthens the body by
/// exactly one cell; without it the length is unchanged.
pub proof fn lemma_tick_length(body: Seq<Cell>, growing: bool, d: Direction)
    requires
        body.len() > 0,
    ensures
        growing ==> body_after_move(body, growing, d).len() == body.len() + 1,
        !growing ==> body_after_move(body, growing, d).len() == body.len(),
{
}

/// One movement tick: while paused, or on an empty body, nothing changes;
/// otherwise the head advances along `direction`, the tail is kept exactly
/// when the growth flag was set, and the growth flag is cleared.
pub fn update(snake: &mut Snake, direction: Direction, game_state: GameState)
    requires
        game_state != GameState::Paused && old(snake)@.len() > 0 ==> can_step(old(snake)@[0]),
    ensures
        game_state == GameState::Paused || old(snake)@.len() == 0 ==> *final(snake) == *old(snake),
        game_state != GameState::Paused && old(snake)@.len() > 0 ==> {
            &&& final(snake)@ == body_after_move(old(snake)@, old(snake).is_growing, direction)
            &&& !final(snake).is_growing
        },
{
    if game_state == GameState::Paused {
        return ;
    }
    if snake.body.len() == 0 {
        return ;
    }
    let head = snake.body[0];
    let v = direction.to_vec2();
    snake.body.push_front(Cell { x: head.x + v.x, y: head.y + v.y });
    proof {
        assert(snake.body@ =~= seq![step_cell(old(snake)@[0], direction)] + old(snake)@);
    }
    if snake.is_growing {
        snake.is_growing = false;
    } else {
        snake.body.pop_back();
        proof {
            assert(snake.body@ =~= (seq![step_cell(old(snake)@[0], direction)]
                + old(snake)@).drop_last());
        }
    }
}

/// Resets the body to the three seed cells and the heading to the initial
/// one; the growth flag is left as it was.
pub fn reset_snake(snake: &mut Snake, direction: &mut Direction)
    ensures
        final(snake)@ == seed_body(),
        final(snake).is_growing == old(snake).is_growing,
        *final(direction) == Direction::Right,
{
    snake.body = seed_deque();
    *direction = Direction::Right;
}

} // verus!
