use retro_snake::game::GameState;
use retro_snake::snake::{body_contains, reset_snake, update, Cell, Direction, Snake};

fn cell(x: i32, y: i32) -> Cell {
    Cell { x, y }
}

fn body_of(snake: &Snake) -> Vec<Cell> {
    snake.body().iter().copied().collect()
}

#[test]
fn to_vec2_maps_each_heading_to_its_unit_step() {
    assert_eq!(Direction::Up.to_vec2(), cell(0, -1));
    assert_eq!(Direction::Down.to_vec2(), cell(0, 1));
    assert_eq!(Direction::Right.to_vec2(), cell(1, 0));
    assert_eq!(Direction::Left.to_vec2(), cell(-1, 0));
}

#[test]
fn opposite_swaps_the_four_headings() {
    assert_eq!(Direction::Up.opposite(), Direction::Down);
    assert_eq!(Direction::Down.opposite(), Direction::Up);
    assert_eq!(Direction::Left.opposite(), Direction::Right);
    assert_eq!(Direction::Right.opposite(), Direction::Left);
}

#[test]
fn opposite_is_an_involution() {
    for d in [Direction::Up, Direction::Down, Direction::Left, Direction::Right] {
        assert_eq!(d.opposite().opposite(), d);
        assert_ne!(d.opposite(), d);
    }
}

#[test]
fn default_snake_is_the_three_seed_cells() {
    let snake = Snake::default();
    assert_eq!(body_of(&snake), vec![cell(6, 9), cell(5, 9), cell(4, 9)]);
    assert!(!snake.is_growing);
    assert_eq!(snake.head(), Some(&cell(6, 9)));
}

#[test]
fn from_cells_builds_the_given_body() {
    let cells = vec![cell(1, 2), cell(3, 4)];
    let snake = Snake::from_cells(&cells, true);
    assert_eq!(body_of(&snake), cells);
    assert!(snake.is_growing);
}

#[test]
fn head_of_empty_body_is_none() {
    let snake = Snake::from_cells(&vec![], false);
    assert_eq!(snake.head(), None);
}

#[test]
fn body_contains_finds_only_listed_cells() {
    let snake = Snake::default();
    assert!(body_contains(snake.body(), cell(5, 9)));
    assert!(!body_contains(snake.body(), cell(7, 9)));
}

#[test]
fn non_growing_tick_advances_the_head_and_drops_the_tail() {
    let mut snake = Snake::default();
    update(&mut snake, Direction::Right, GameState::Playing);
    assert_eq!(body_of(&snake), vec![cell(7, 9), cell(6, 9), cell(5, 9)]);
    assert!(!snake.is_growing);
}

#[test]
fn growing_tick_keeps_the_tail_and_clears_the_flag() {
    let mut snake = Snake::default();
    snake.is_growing = true;
    update(&mut snake, Direction::Right, GameState::Playing);
    assert_eq!(
        body_of(&snake),
        vec![cell(7, 9), cell(6, 9), cell(5, 9), cell(4, 9)]
    );
    assert!(!snake.is_growing);
}

#[test]
fn tick_length_is_invariant_without_growth() {
    let mut snake = Snake::default();
    let before = body_of(&snake).len();
    update(&mut snake, Direction::Down, GameState::Playing);
    assert_eq!(body_of(&snake).len(), before);
}

#[test]
fn paused_tick_changes_nothing() {
    let mut snake = Snake::default();
    snake.is_growing = true;
    update(&mut snake, Direction::Right, GameState::Paused);
    assert_eq!(body_of(&snake), vec![cell(6, 9), cell(5, 9), cell(4, 9)]);
    assert!(snake.is_growing);
}

#[test]
fn tick_on_empty_body_is_a_no_op() {
    let mut snake = Snake::from_cells(&vec![], true);
    update(&mut snake, Direction::Up, GameState::Playing);
    assert_eq!(body_of(&snake), vec![]);
    assert!(snake.is_growing);
}

#[test]
fn tick_moves_along_each_heading() {
    for (d, expected) in [
        (Direction::Up, cell(6, 8)),
        (Direction::Down, cell(6, 10)),
        (Direction::Left, cell(5, 9)),
        (Direction::Right, cell(7, 9)),
    ] {
        let mut snake = Snake::default();
        update(&mut snake, d, GameState::Playing);
        assert_eq!(snake.head(), Some(&expected));
    }
}

#[test]
fn reset_restores_the_seed_body_and_initial_heading() {
    let mut snake = Snake::default();
    let mut direction = Direction::Up;
    update(&mut snake, Direction::Up, GameState::Playing);
    update(&mut snake, Direction::Left, GameState::Playing);
    reset_snake(&mut snake, &mut direction);
    assert_eq!(body_of(&snake), vec![cell(6, 9), cell(5, 9), cell(4, 9)]);
    assert_eq!(direction, Direction::Right);
}
