use retro_snake::food::Food;
use retro_snake::game::{
    check_collision_with_edges, check_collision_with_food, check_collision_with_tail,
    handle_collision_event, CollisionEvent, GameState,
};
use retro_snake::snake::{Cell, Snake};

fn cell(x: i32, y: i32) -> Cell {
    Cell { x, y }
}

fn snake_at(cells: Vec<Cell>) -> Snake {
    Snake::from_cells(&cells, false)
}

#[test]
fn food_collision_fires_when_head_is_on_the_food() {
    let snake = Snake::default();
    let food = Food { position: cell(6, 9) };
    let mut events = Vec::new();
    check_collision_with_food(&snake, &food, &mut events);
    assert_eq!(events, vec![CollisionEvent::Food]);
}

#[test]
fn food_collision_is_silent_elsewhere() {
    let snake = Snake::default();
    let food = Food { position: cell(5, 9) };
    let mut events = Vec::new();
    check_collision_with_food(&snake, &food, &mut events);
    assert_eq!(events, vec![]);
}

#[test]
fn edge_collision_fires_on_each_wall_coordinate() {
    for head in [cell(-1, 5), cell(25, 5), cell(5, -1), cell(5, 25)] {
        let snake = snake_at(vec![head]);
        let mut events = Vec::new();
        check_collision_with_edges(&snake, &mut events);
        assert_eq!(events, vec![CollisionEvent::Edges], "head {:?}", head);
    }
}

#[test]
fn edge_collision_fires_twice_in_a_corner() {
    let snake = snake_at(vec![cell(-1, 25)]);
    let mut events = Vec::new();
    check_collision_with_edges(&snake, &mut events);
    assert_eq!(events, vec![CollisionEvent::Edges, CollisionEvent::Edges]);
}

#[test]
fn edge_collision_is_silent_for_interior_cells() {
    for head in [cell(0, 0), cell(24, 24), cell(12, 7)] {
        let snake = snake_at(vec![head]);
        let mut events = Vec::new();
        check_collision_with_edges(&snake, &mut events);
        assert_eq!(events, vec![], "head {:?}", head);
    }
}

#[test]
fn tail_collision_fires_when_the_head_cell_repeats() {
    let snake = snake_at(vec![cell(3, 3), cell(4, 3), cell(4, 4), cell(3, 4), cell(3, 3)]);
    let mut events = Vec::new();
    check_collision_with_tail(&snake, &mut events);
    assert_eq!(events, vec![CollisionEvent::Tail]);
}

#[test]
fn tail_collision_is_silent_for_a_body_of_unique_cells() {
    let snake = Snake::default();
    let mut events = Vec::new();
    check_collision_with_tail(&snake, &mut events);
    assert_eq!(events, vec![]);
}

#[test]
fn handler_with_no_events_asks_for_nothing() {
    let mut snake = Snake::default();
    let next = handle_collision_event(&mut snake, &vec![]);
    assert_eq!(next, None);
    assert!(!snake.is_growing);
}

#[test]
fn handler_turns_food_into_growth_and_food_eaten() {
    let mut snake = Snake::default();
    let next = handle_collision_event(&mut snake, &vec![CollisionEvent::Food]);
    assert_eq!(next, Some(GameState::FoodEaten));
    assert!(snake.is_growing);
}

#[test]
fn handler_turns_each_lethal_event_into_game_over() {
    for e in [CollisionEvent::Edges, CollisionEvent::Tail] {
        let mut snake = Snake::default();
        let next = handle_collision_event(&mut snake, &vec![e]);
        assert_eq!(next, Some(GameState::GameOver));
        assert!(!snake.is_growing);
    }
}

#[test]
fn handler_lets_the_last_event_win_but_keeps_the_growth_flag() {
    let mut snake = Snake::default();
    let next =
        handle_collision_event(&mut snake, &vec![CollisionEvent::Food, CollisionEvent::Edges]);
    assert_eq!(next, Some(GameState::GameOver));
    assert!(snake.is_growing);

    let mut snake = Snake::default();
    let next =
        handle_collision_event(&mut snake, &vec![CollisionEvent::Edges, CollisionEvent::Food]);
    assert_eq!(next, Some(GameState::FoodEaten));
    assert!(snake.is_growing);
}
