//! The game-state machine: the per-frame collision checks, the event queue
//! they feed, the state transitions those events trigger, and the composed
//! per-frame step a host drives.
use vstd::prelude::*;

use crate::food::{generate_random_pos, grid_has_free_cell, in_grid, replaced_ok, Food};
use crate::input::{any_accept, keyboard, keyboard_spec};
use crate::score::{increase_score, reset_score, Score};
use crate::snake::{body_after_move, can_step, reset_snake, seed_body, update, Cell, Direction,
    Snake};
use crate::CELL_COUNT;

verus! {

/// The mode the game is in; `FoodEaten` and `GameOver` are transient and
/// resolve back to `Playing` once their entry effects have run.
#[derive(Clone, Copy, Debug, Hash, PartialEq, Eq, Structural)]
pub enum GameState {
    Playing,
    FoodEaten,
    GameOver,
    Paused,
}

impl Default for GameState {
    /// A game starts out playing.
    fn default() -> (s: GameState)
        ensures
            s == GameState::Playing,
    {
        GameState::Playing
    }
}

/// One detected collision, queued for the state machine.
#[derive(Clone, Copy, Debug, PartialEq, Eq, Structural)]
pub enum CollisionEvent {
    Food,
    Edges,
    Tail,
}

/// Whether the head sits on the food.
pub open spec fn food_hit(body: Seq<Cell>, food: Cell) -> bool {
    body.len() > 0 && body[0] == food
}

/// Whether a coordinate sits on a wall: the cell just past either side of
/// the playable range.
pub open spec fn on_edge(v: i32) -> bool {
    v == CELL_COUNT || v == -1
}

/// Whether the head's `x` coordinate sits on a wall.
pub open spec fn edge_hit_x(body: Seq<Cell>) -> bool {
    body.len() > 0 && on_edge(body[0].x)
}

/// Whether the head's `y` coordinate sits on a wall.
pub open spec fn edge_hit_y(body: Seq<Cell>) -> bool {
    body.len() > 0 && on_edge(body[0].y)
}

/// Law: a coordinate inside the playable range never counts as a wall hit.
pub proof fn lemma_interior_not_edge(v: i32)
    requires
        0 <= v < CELL_COUNT,
    ensures
        !on_edge(v),
{
}

/// Whether the head's cell appears again anywhere in the rest of the body.
pub open spec fn self_collides(body: Seq<Cell>) -> bool {
    exists|i: int| 1 <= i < body.len() && #[trigger] body[i] == body[0]
}

/// Law: a body whose cells are pairwise distinct never collides with itself.
pub proof fn lemma_unique_body_no_tail(body: Seq<Cell>)
    requires
        forall|i: int, j: int| 0 <= i < j < body.len() ==> body[i] != body[j],
    ensures
        !self_collides(body),
{
}

/// Queues a `Food` event exactly when the head sits on the food.
pub fn check_collision_with_food(snake: &Snake, food: &Food, events: &mut Vec<CollisionEvent>)
    ensures
        final(events)@ == (if food_hit(snake@, food.position) {
            old(events)@.push(CollisionEvent::Food)
        } else {
            old(events)@
        }),
{
    let food_collided = match snake.head() {
        Some(head) => *head == food.position,
        None => false,
    };
    if food_collided {
        events.push(CollisionEvent::Food);
    }
}

/// Queues an `Edges` event for each of the head's coordinates that sits on a
/// wall — one event per axis, so both at once queue two.
pub fn check_collision_with_edges(snake: &Snake, events: &mut Vec<CollisionEvent>)
    ensures
        final(events)@ == old(events)@ + (if edge_hit_x(snake@) {
            seq![CollisionEvent::Edges]
        } else {
            Seq::<CollisionEvent>::empty()
        }) + (if edge_hit_y(snake@) {
            seq![CollisionEvent::Edges]
        } else {
            Seq::<CollisionEvent>::empty()
        }),
{
    let ghost pre = events@;
    let head = match snake.head() {
        Some(head) => *head,
        None => {
            proof {
                assert(events@ =~= pre + Seq::<CollisionEvent>::empty()
                    + Seq::<CollisionEvent>::empty());
            }
            return ;
        },
    };
    if head.x == CELL_COUNT || head.x == -1 {
        events.push(CollisionEvent::Edges);
    }
    if head.y == CELL_COUNT || head.y == -1 {
        events.push(CollisionEvent::Edges);
    }
    proof {
        assert(events@ =~= pre + (if edge_hit_x(snake@) {
            seq![CollisionEvent::Edges]
        } else {
            Seq::<CollisionEvent>::empty()
        }) + (if edge_hit_y(snake@) {
            seq![CollisionEvent::Edges]
        } else {
            Seq::<CollisionEvent>::empty()
        }));
    }
}

/// Queues a `Tail` event exactly when the head's cell appears again in the
/// rest of the body.
pub fn check_collision_with_tail(snake: &Snake, events: &mut Vec<CollisionEvent>)
    ensures
        final(events)@ == (if self_collides(snake@) {
            old(events)@.push(CollisionEvent::Tail)
        } else {
            old(events)@
        }),
{
    let n = snake.body.len();
    if n == 0 {
        return ;
    }
    let head = snake.body[0];
    let mut i: usize = 1;
    while i < n
        invariant
            1 <= i <= n,
            n == snake@.len(),
            head == snake@[0],
            events@ == old(events)@,
            forall|j: int| 1 <= j < i ==> #[trigger] snake@[j] != snake@[0],
        decreases n - i,
    {
        if snake.body[i] == head {
            events.push(CollisionEvent::Tail);
            assert(self_collides(snake@));
            return ;
        }
        i = i + 1;
    }
}

/// The state a single collision event asks for.
pub open spec fn event_state(e: CollisionEvent) -> GameState {
    match e {
        CollisionEvent::Food => GameState::FoodEaten,
        CollisionEvent::Edges => GameState::GameOver,
        CollisionEvent::Tail => GameState::GameOver,
    }
}

/// The state a whole event queue asks for: events are applied in order, so
/// the last one wins; an empty queue asks for nothing.
pub open spec fn next_state_of(events: Seq<CollisionEvent>) -> Option<GameState> {
    if events.len() == 0 {
        None
    } else {
        Some(event_state(events.last()))
    }
}

/// Applies a frame's event queue: any `Food` event sets the growth flag, and
/// the last event decides which state is requested next; the body itself is
/// untouched.
pub fn handle_collision_event(snake: &mut Snake, events: &Vec<CollisionEvent>) -> (next: Option<
    GameState,
>)
    ensures
        final(snake)@ == old(snake)@,
        final(snake).is_growing == (old(snake).is_growing || events@.contains(
            CollisionEvent::Food,
        )),
        next == next_state_of(events@),
{
    let mut next: Option<GameState> = None;
    let n = events.len();
    let mut i: usize = 0;
    while i < n
        invariant
            0 <= i <= n,
            n == events@.len(),
            snake@ == old(snake)@,
            snake.is_growing == (old(snake).is_growing || events@.subrange(0, i as int).contains(
                CollisionEvent::Food,
            )),
            next == next_state_of(events@.subrange(0, i as int)),
        decreases n - i,
    {
        let ghost prefix = events@.subrange(0, i as int);
        match events[i] {
            CollisionEvent::Food => {
                next = Some(GameState::FoodEaten);
                snake.is_growing = true;
            },
            CollisionEvent::Edges => {
                next = Some(GameState::GameOver);
            },
            CollisionEvent::Tail => {
                next = Some(GameState::GameOver);
            },
        }
        proof {
            assert(events@.subrange(0, i + 1 as int) =~= prefix.push(events@[i as int]));
        }
        i = i + 1;
    }
    proof {
        assert(events@.subrange(0, n as int) =~= events@);
    }
    next
}

/// Law: an event queue only ever asks for nothing, for `FoodEaten`, or for
/// `GameOver`.
pub proof fn lemma_next_state_cases(events: Seq<CollisionEvent>)
    ensures
        next_state_of(events) == None::<GameState> || next_state_of(events) == Some(
            GameState::FoodEaten,
        ) || next_state_of(events) == Some(GameState::GameOver),
{
}

/// The two sounds the core asks a host to play.
#[derive(Clone, Copy, Debug, PartialEq, Eq, Structural)]
pub enum SfxEvent {
    Eat,
    Wall,
}

/// Which collision class wins when a food collision and a lethal collision
/// are detected in the same frame: events are queued so that the winner is
/// applied last.
#[derive(Clone, Copy, Debug, PartialEq, Eq, Structural)]
pub enum TieBreak {
    LethalOverFood,
    FoodOverLethal,
}

/// The whole game state a host drives frame by frame.
#[derive(Clone, Debug)]
pub struct Game {
    pub snake: Snake,
    pub direction: Direction,
    pub food: Food,
    pub score: Score,
    pub state: GameState,
}

impl Game {
    /// A fresh game: the seed snake heading right, food placed on the grid
    /// and off the seed body, no score, playing.
    pub fn new() -> (g: Game)
        ensures
            g.snake@ == seed_body(),
            !g.snake.is_growing,
            g.direction == Direction::Right,
            in_grid(g.food.position),
            !seed_body().contains(g.food.position),
            g.score.0 == 0,
            g.state == GameState::Playing,
    {
        let snake = Snake::default();
        let placed = generate_random_pos(&snake);
        let food_cell = match placed {
            Some(c) => c,
            None => {
                proof {
                    let c0 = Cell { x: 0, y: 0 };
                    assert(in_grid(c0));
                    assert(snake@.contains(c0));
                    let i = choose|i: int| 0 <= i < snake@.len() && snake@[i] == c0;
                    assert(false);
                }
                Cell { x: 0, y: 0 }
            },
        };
        Game {
            snake,
            direction: Direction::Right,
            food: Food { position: food_cell },
            score: Score(0),
            state: GameState::Playing,
        }
    }
}

/// Runs the entry effects of a state the event handler asked for, and lets
/// the transient states resolve back to `Playing`: `FoodEaten` scores a
/// point and replaces the food; `GameOver` clears the score, reseeds the
/// snake and heading, and replaces the food off the seed body; `Playing` and
/// `Paused` just become the state. Returns the sound the transition asks
/// for.
pub fn enter_state(game: &mut Game, next: GameState) -> (sfx: Option<SfxEvent>)
    requires
        next == GameState::FoodEaten ==> old(game).score.0 < usize::MAX,
    ensures
        next == GameState::FoodEaten ==> ({
            &&& final(game).snake == old(game).snake
            &&& final(game).direction == old(game).direction
            &&& replaced_ok(old(game).snake@, old(game).food.position, final(game).food.position)
            &&& final(game).score.0 == old(game).score.0 + 1
            &&& final(game).state == GameState::Playing
            &&& sfx == Some(SfxEvent::Eat)
        }),
        next == GameState::GameOver ==> ({
            &&& final(game).snake@ == seed_body()
            &&& final(game).snake.is_growing == old(game).snake.is_growing
            &&& final(game).direction == Direction::Right
            &&& in_grid(final(game).food.position)
            &&& !seed_body().contains(final(game).food.position)
            &&& final(game).score.0 == 0
            &&& final(game).state == GameState::Playing
            &&& sfx == Some(SfxEvent::Wall)
        }),
        next == GameState::Playing || next == GameState::Paused ==> ({
            &&& final(game).snake == old(game).snake
            &&& final(game).direction == old(game).direction
            &&& final(game).food == old(game).food
            &&& final(game).score == old(game).score
            &&& final(game).state == next
            &&& sfx == None::<SfxEvent>
        }),
{
    match next {
        GameState::FoodEaten => {
            increase_score(&mut game.score);
            let placed = generate_random_pos(&game.snake);
            match placed {
                Some(c) => {
                    game.food.position = c;
                    proof {
                        assert(in_grid(c) && !game.snake@.contains(c));
                        assert(grid_has_free_cell(game.snake@));
                    }
                },
                None => {},
            }
            game.state = GameState::Playing;
            Some(SfxEvent::Eat)
        },
        GameState::GameOver => {
            reset_score(&mut game.score);
            reset_snake(&mut game.snake, &mut game.direction);
            let placed = generate_random_pos(&game.snake);
            match placed {
                Some(c) => {
                    game.food.position = c;
                },
                None => {
                    proof {
                        let c0 = Cell { x: 0, y: 0 };
                        assert(in_grid(c0));
                        assert(game.snake@.contains(c0));
                        let i = choose|i: int|
                            0 <= i < game.snake@.len() && game.snake@[i] == c0;
                        assert(false);
                    }
                },
            }
            game.state = GameState::Playing;
            Some(SfxEvent::Wall)
        },
        GameState::Playing => {
            game.state = GameState::Playing;
            None
        },
        GameState::Paused => {
            game.state = GameState::Paused;
            None
        },
    }
}

/// The frame's event queue: what the three collision checks emit against a
/// body and a food cell, in the order the tie-break asks for.
pub open spec fn frame_events(body: Seq<Cell>, food: Cell, tie: TieBreak) -> Seq<CollisionEvent> {
    let fe = if food_hit(body, food) {
        seq![CollisionEvent::Food]
    } else {
        Seq::<CollisionEvent>::empty()
    };
    let ee = (if edge_hit_x(body) {
        seq![CollisionEvent::Edges]
    } else {
        Seq::<CollisionEvent>::empty()
    }) + (if edge_hit_y(body) {
        seq![CollisionEvent::Edges]
    } else {
        Seq::<CollisionEvent>::empty()
    });
    let te = if self_collides(body) {
        seq![CollisionEvent::Tail]
    } else {
        Seq::<CollisionEvent>::empty()
    };
    match tie {
        TieBreak::LethalOverFood => fe + ee + te,
        TieBreak::FoodOverLethal => ee + te + fe,
    }
}

/// The intermediate values of one frame, as the pipeline computes them:
/// heading and state after the input pass, body and growth flag after the
/// rate-limited movement pass, then the event queue and the state it asks
/// for. While paused, movement and collision detection are suspended.
pub ghost struct FrameModel {
    pub direction: Direction,
    pub state: GameState,
    pub body: Seq<Cell>,
    pub growing: bool,
    pub events: Seq<CollisionEvent>,
    pub next: Option<GameState>,
}

/// Computes the frame model for a game and one frame's inputs.
pub open spec fn frame_model(
    g: Game,
    up: bool,
    down: bool,
    left: bool,
    right: bool,
    movement_due: bool,
    tie: TieBreak,
) -> FrameModel {
    let direction = keyboard_spec(up, down, left, right, g.direction);
    let state = if g.state == GameState::Paused && any_accept(up, down, left, right, g.direction) {
        GameState::Playing
    } else {
        g.state
    };
    if state == GameState::Paused {
        FrameModel {
            direction,
            state,
            body: g.snake@,
            growing: g.snake.is_growing,
            events: Seq::<CollisionEvent>::empty(),
            next: None,
        }
    } else {
        let body = if movement_due {
            body_after_move(g.snake@, g.snake.is_growing, direction)
        } else {
            g.snake@
        };
        let growing0 = if movement_due && g.snake@.len() > 0 {
            false
        } else {
            g.snake.is_growing
        };
        let events = frame_events(body, g.food.position, tie);
        FrameModel {
            direction,
            state,
            body,
            growing: growing0 || events.contains(CollisionEvent::Food),
            events,
            next: next_state_of(events),
        }
    }
}

/// Law: a frame never shrinks the body — it keeps its length or grows by
/// one — so a game whose body holds at least the three seed cells keeps at
/// least three cells through every frame (a game-over reseeds exactly
/// three).
pub proof fn lemma_frame_keeps_min_length(
    g: Game,
    up: bool,
    down: bool,
    left: bool,
    right: bool,
    movement_due: bool,
    tie: TieBreak,
)
    requires
        g.snake@.len() >= 3,
    ensures
        frame_model(g, up, down, left, right, movement_due, tie).body.len() >= g.snake@.len(),
{
}

/// Law: a frame that starts paused and is not unpaused by an accepted
/// heading leaves the body, the growth flag and the heading unchanged, and
/// asks for no transition.
pub proof fn lemma_paused_frame(
    g: Game,
    up: bool,
    down: bool,
    left: bool,
    right: bool,
    movement_due: bool,
    tie: TieBreak,
)
    requires
        g.state == GameState::Paused,
        frame_model(g, up, down, left, right, movement_due, tie).state == GameState::Paused,
    ensures
        frame_model(g, up, down, left, right, movement_due, tie).body == g.snake@,
        frame_model(g, up, down, left, right, movement_due, tie).growing == g.snake.is_growing,
        frame_model(g, up, down, left, right, movement_due, tie).direction == g.direction,
        frame_model(g, up, down, left, right, movement_due, tie).next == None::<GameState>,
{
}

/// The movement, collision and event-handler passes of one unpaused frame;
/// the heading and state are already settled by the input pass.
fn run_active_passes(game: &mut Game, movement_due: bool, tie: TieBreak) -> (next: Option<
    GameState,
>)
    requires
        old(game).state != GameState::Paused,
        movement_due && old(game).snake@.len() > 0 ==> can_step(old(game).snake@[0]),
    ensures
        ({
            let body = if movement_due {
                body_after_move(old(game).snake@, old(game).snake.is_growing, old(game).direction)
            } else {
                old(game).snake@
            };
            let growing0 = if movement_due && old(game).snake@.len() > 0 {
                false
            } else {
                old(game).snake.is_growing
            };
            let events = frame_events(body, old(game).food.position, tie);
            &&& final(game).snake@ == body
            &&& final(game).snake.is_growing == (growing0 || events.contains(CollisionEvent::Food))
            &&& final(game).direction == old(game).direction
            &&& final(game).state == old(game).state
            &&& final(game).food == old(game).food
            &&& final(game).score == old(game).score
            &&& next == next_state_of(events)
        }),
{
    if movement_due {
        update(&mut game.snake, game.direction, game.state);
    }
    let mut events: Vec<CollisionEvent> = Vec::new();
    match tie {
        TieBreak::LethalOverFood => {
            check_collision_with_food(&game.snake, &game.food, &mut events);
            check_collision_with_edges(&game.snake, &mut events);
            check_collision_with_tail(&game.snake, &mut events);
        },
        TieBreak::FoodOverLethal => {
            check_collision_with_edges(&game.snake, &mut events);
            check_collision_with_tail(&game.snake, &mut events);
            check_collision_with_food(&game.snake, &game.food, &mut events);
        },
    }
    proof {
        assert(events@ =~= frame_events(game.snake@, game.food.position, tie));
    }
    handle_collision_event(&mut game.snake, &events)
}

/// The frame's first four passes: input, rate-limited movement, collision
/// detection, and the event handler — everything but the entry effects of
/// the state the events ask for. Leaves the game exactly as the frame model
/// describes and returns the state the event queue asks for.
fn run_frame_passes(
    game: &mut Game,
    up: bool,
    down: bool,
    left: bool,
    right: bool,
    movement_due: bool,
    tie: TieBreak,
) -> (next: Option<GameState>)
    requires
        ({
            let m = frame_model(*old(game), up, down, left, right, movement_due, tie);
            m.state != GameState::Paused && movement_due && old(game).snake@.len() > 0
                ==> can_step(old(game).snake@[0])
        }),
    ensures
        ({
            let m = frame_model(*old(game), up, down, left, right, movement_due, tie);
            &&& final(game).snake@ == m.body
            &&& final(game).snake.is_growing == m.growing
            &&& final(game).direction == m.direction
            &&& final(game).state == m.state
            &&& final(game).food == old(game).food
            &&& final(game).score == old(game).score
            &&& next == m.next
        }),
{
    let ghost m = frame_model(*old(game), up, down, left, right, movement_due, tie);
    let next_input = keyboard(up, down, left, right, &mut game.direction, game.state);
    match next_input {
        Some(s) => {
            game.state = s;
        },
        None => {},
    }
    proof {
        assert(game.direction == m.direction);
        assert(game.state == m.state);
    }
    if game.state == GameState::Paused {
        return None;
    }
    run_active_passes(game, movement_due, tie)
}

/// One frame of the game, in the fixed pass order: input, rate-limited
/// movement, collision detection, event handling with its entry effects.
/// While paused (and not unpaused by an accepted heading this frame) nothing
/// but the heading moves. Returns the sound this frame asks for.
pub fn step_frame(
    game: &mut Game,
    up: bool,
    down: bool,
    left: bool,
    right: bool,
    movement_due: bool,
    tie: TieBreak,
) -> (sfx: Option<SfxEvent>)
    requires
        ({
            let m = frame_model(*old(game), up, down, left, right, movement_due, tie);
            &&& (m.state != GameState::Paused && movement_due && old(game).snake@.len() > 0
                ==> can_step(old(game).snake@[0]))
            &&& (m.next == Some(GameState::FoodEaten) ==> old(game).score.0 < usize::MAX)
        }),
    ensures
        ({
            let m = frame_model(*old(game), up, down, left, right, movement_due, tie);
            &&& (m.next == None::<GameState> ==> {
                &&& final(game).snake@ == m.body
                &&& final(game).snake.is_growing == m.growing
                &&& final(game).direction == m.direction
                &&& final(game).food == old(game).food
                &&& final(game).score == old(game).score
                &&& final(game).state == m.state
                &&& sfx == None::<SfxEvent>
            })
            &&& (m.next == Some(GameState::FoodEaten) ==> {
                &&& final(game).snake@ == m.body
                &&& final(game).snake.is_growing == m.growing
                &&& final(game).direction == m.direction
                &&& replaced_ok(m.body, old(game).food.position, final(game).food.position)
                &&& final(game).score.0 == old(game).score.0 + 1
                &&& final(game).state == GameState::Playing
                &&& sfx == Some(SfxEvent::Eat)
            })
            &&& (m.next == Some(GameState::GameOver) ==> {
                &&& final(game).snake@ == seed_body()
                &&& final(game).snake.is_growing == m.growing
                &&& final(game).direction == Direction::Right
                &&& in_grid(final(game).food.position)
                &&& !seed_body().contains(final(game).food.position)
                &&& final(game).score.0 == 0
                &&& final(game).state == GameState::Playing
                &&& sfx == Some(SfxEvent::Wall)
            })
        }),
{
    let next = run_frame_passes(game, up, down, left, right, movement_due, tie);
    match next {
        None => None,
        Some(s) => enter_state(game, s),
    }
}

} // verus!
