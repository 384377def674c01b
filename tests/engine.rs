use snake::board::{Board, Point, BOARD_HEIGHT, BOARD_WIDTH};
use snake::fruit::Fruit;
use snake::game::{Game, Status};
use snake::input::{key_intent, Intent, IntentQueue};
use snake::snake::{Direction, Snake};

fn game_of(w: u16, h: u16, body: Vec<Point>, dir: Direction, fruit: Point) -> Game {
    Game::from_parts(Board::with_size(w, h), Snake { body, direction: dir }, Fruit { coord: fruit })
}

#[test]
fn board_edges_are_walls() {
    let b = Board::new();
    assert_eq!(b.width, BOARD_WIDTH);
    assert_eq!(b.height, BOARD_HEIGHT);
    assert_eq!(b.right(), 39);
    assert_eq!(b.bottom(), 39);
    assert!(b.is_wall(0, 7));
    assert!(b.is_wall(39, 7));
    assert!(b.is_wall(7, 0));
    assert!(b.is_wall(7, 39));
    assert!(!b.is_wall(1, 1));
    assert!(!b.is_wall(38, 38));
}

#[test]
fn wall_cells_form_the_ring() {
    let b = Board::with_size(10, 10);
    let cells = b.wall_cells();
    assert_eq!(cells.len(), 36);
    assert!(cells.contains(&Point(0, 0)));
    assert!(cells.contains(&Point(9, 4)));
    assert!(!cells.contains(&Point(4, 4)));
    let small = Board::with_size(3, 3);
    assert_eq!(small.wall_cells().len(), 8);
}

#[test]
fn new_snake_heads_east() {
    let s = Snake::new();
    assert_eq!(s.body, vec![Point(5, 5), Point(6, 5)]);
    assert_eq!(s.direction, Direction::East);
}

#[test]
fn turn_ignores_exact_opposite() {
    let mut s = Snake::new();
    s.turn(Direction::West);
    assert_eq!(s.direction, Direction::East);
    s.turn(Direction::North);
    assert_eq!(s.direction, Direction::North);
    s.turn(Direction::South);
    assert_eq!(s.direction, Direction::North);
    s.turn(Direction::East);
    assert_eq!(s.direction, Direction::East);
    s.turn(Direction::East);
    assert_eq!(s.direction, Direction::East);
}

#[test]
fn next_head_does_not_wrap() {
    let s = Snake { body: vec![Point(0, 3)], direction: Direction::West };
    assert_eq!(s.next_head(), None);
    let s = Snake { body: vec![Point(3, 0)], direction: Direction::North };
    assert_eq!(s.next_head(), None);
    let s = Snake { body: vec![Point(u16::MAX, 3)], direction: Direction::East };
    assert_eq!(s.next_head(), None);
    let s = Snake { body: vec![Point(3, 3)], direction: Direction::South };
    assert_eq!(s.next_head(), Some(Point(3, 4)));
    let s = Snake { body: vec![Point(3, 3)], direction: Direction::West };
    assert_eq!(s.next_head(), Some(Point(2, 3)));
}

#[test]
fn chop_and_plug_head() {
    let mut s = Snake::new();
    let h = s.chop_head();
    assert_eq!(h, Point(5, 5));
    assert_eq!(s.body, vec![Point(6, 5)]);
    s.plug_head(Point(1, 2));
    assert_eq!(s.body, vec![Point(1, 2), Point(6, 5)]);
}

#[test]
fn advance_grows_or_drops_tail() {
    let mut s = Snake::new();
    s.advance(Point(6, 5), false);
    assert_eq!(s.body, vec![Point(6, 5), Point(5, 5)]);
    s.advance(Point(7, 5), true);
    assert_eq!(s.body, vec![Point(7, 5), Point(6, 5), Point(5, 5)]);
    assert!(s.occupies(Point(5, 5), 3));
    assert!(!s.occupies(Point(5, 5), 2));
}

#[test]
fn keys_map_to_intents() {
    assert_eq!(key_intent('w', false), Some(Intent::TurnTo(Direction::North)));
    assert_eq!(key_intent('s', false), Some(Intent::TurnTo(Direction::South)));
    assert_eq!(key_intent('a', false), Some(Intent::TurnTo(Direction::West)));
    assert_eq!(key_intent('d', false), Some(Intent::TurnTo(Direction::East)));
    assert_eq!(key_intent('q', false), Some(Intent::Quit));
    assert_eq!(key_intent('c', true), Some(Intent::Quit));
    assert_eq!(key_intent('q', true), Some(Intent::Quit));
    assert_eq!(key_intent('c', false), None);
    assert_eq!(key_intent('w', true), None);
    assert_eq!(key_intent('x', false), None);
}

#[test]
fn fruit_spawns_inside_walls() {
    let small = Board::with_size(3, 3);
    assert_eq!(Fruit::new(&small).coord, Point(1, 1));
    let b = Board::with_size(4, 5);
    for _ in 0..200 {
        let Point(x, y) = Fruit::new(&b).coord;
        assert!(1 <= x && x <= 2);
        assert!(1 <= y && y <= 3);
    }
}

#[test]
fn new_game_is_running() {
    let g = Game::new();
    assert!(g.is_running());
    assert_eq!(g.score(), 2);
    assert!(!g.board.is_wall(g.fruit.coord.0, g.fruit.coord.1));
}

#[test]
fn tick_moves_into_vacated_tail() {
    let mut g = game_of(10, 10, vec![Point(5, 5), Point(6, 5)], Direction::East, Point(5, 5));
    g.tick(None);
    assert_eq!(g.status, Status::Running);
    assert_eq!(g.snake.body, vec![Point(6, 5), Point(5, 5)]);
    assert_eq!(g.score(), 2);
    assert_eq!(g.fruit.coord, Point(5, 5));
}

#[test]
fn tick_into_wall_ends_game() {
    let mut g = game_of(10, 10, vec![Point(1, 4), Point(2, 4), Point(3, 4)], Direction::West, Point(7, 7));
    g.tick(None);
    assert_eq!(g.status, Status::Terminated);
    assert_eq!(g.snake.body, vec![Point(1, 4), Point(2, 4), Point(3, 4)]);
    let mut g = game_of(10, 10, vec![Point(1, 4)], Direction::West, Point(7, 7));
    g.tick(None);
    assert!(!g.is_running());
    g.tick(Some(Intent::TurnTo(Direction::South)));
    assert_eq!(g.snake.body, vec![Point(1, 4)]);
    assert_eq!(g.snake.direction, Direction::West);
}

#[test]
fn tick_into_bottom_wall_ends_game() {
    let mut g = game_of(6, 6, vec![Point(2, 4)], Direction::South, Point(1, 1));
    g.tick(None);
    assert_eq!(g.status, Status::Terminated);
}

#[test]
fn tick_on_fruit_grows_and_respawns() {
    let mut g = game_of(10, 10, vec![Point(3, 3), Point(2, 3)], Direction::East, Point(4, 3));
    g.tick_with(None, Point(8, 8));
    assert_eq!(g.status, Status::Running);
    assert_eq!(g.snake.body, vec![Point(4, 3), Point(3, 3), Point(2, 3)]);
    assert_eq!(g.score(), 3);
    assert_eq!(g.fruit.coord, Point(8, 8));

    let mut g = game_of(10, 10, vec![Point(3, 3), Point(2, 3)], Direction::East, Point(4, 3));
    g.tick(None);
    assert_eq!(g.score(), 3);
    let Point(x, y) = g.fruit.coord;
    assert!(1 <= x && x <= 8 && 1 <= y && y <= 8);
}

#[test]
fn tick_without_fruit_keeps_length() {
    let mut g = game_of(10, 10, vec![Point(3, 3), Point(2, 3), Point(1, 3)], Direction::South, Point(8, 8));
    g.tick_with(None, Point(1, 1));
    assert_eq!(g.snake.body, vec![Point(3, 4), Point(3, 3), Point(2, 3)]);
    assert_eq!(g.score(), 3);
    assert_eq!(g.fruit.coord, Point(8, 8));
}

#[test]
fn tick_into_body_ends_game() {
    let body = vec![Point(4, 4), Point(4, 5), Point(5, 5), Point(5, 4), Point(6, 4)];
    let mut g = game_of(10, 10, body.clone(), Direction::North, Point(8, 8));
    g.tick(Some(Intent::TurnTo(Direction::East)));
    assert_eq!(g.status, Status::Terminated);
    assert_eq!(g.snake.body, body);
}

#[test]
fn tick_may_follow_own_tail() {
    let body = vec![Point(4, 4), Point(4, 5), Point(5, 5), Point(5, 4)];
    let mut g = game_of(10, 10, body, Direction::North, Point(8, 8));
    g.tick(Some(Intent::TurnTo(Direction::East)));
    assert_eq!(g.status, Status::Running);
    assert_eq!(g.snake.body, vec![Point(5, 4), Point(4, 4), Point(4, 5), Point(5, 5)]);
}

#[test]
fn growing_into_tail_ends_game() {
    let body = vec![Point(4, 4), Point(4, 5), Point(5, 5), Point(5, 4)];
    let mut g = game_of(10, 10, body, Direction::East, Point(5, 4));
    g.tick_with(None, Point(1, 1));
    assert_eq!(g.status, Status::Terminated);
    assert_eq!(g.score(), 4);
}

#[test]
fn quit_intent_ends_game_before_moving() {
    let mut g = game_of(10, 10, vec![Point(5, 5), Point(6, 5)], Direction::East, Point(8, 8));
    g.tick(Some(Intent::Quit));
    assert_eq!(g.status, Status::Terminated);
    assert_eq!(g.snake.body, vec![Point(5, 5), Point(6, 5)]);
}

#[test]
fn turn_applies_before_movement() {
    let mut g = game_of(10, 10, vec![Point(5, 5)], Direction::East, Point(8, 8));
    g.tick(Some(Intent::TurnTo(Direction::North)));
    assert_eq!(g.snake.body, vec![Point(5, 4)]);
    g.tick(Some(Intent::TurnTo(Direction::South)));
    assert_eq!(g.snake.direction, Direction::North);
    assert_eq!(g.snake.body, vec![Point(5, 3)]);
}

#[test]
fn one_intent_drained_per_tick() {
    let mut g = game_of(20, 20, vec![Point(5, 5), Point(4, 5)], Direction::East, Point(18, 18));
    let mut q = IntentQueue::new();
    q.push(Intent::TurnTo(Direction::North));
    q.push(Intent::TurnTo(Direction::West));
    g.tick_queued(&mut q);
    assert_eq!(g.snake.direction, Direction::North);
    assert_eq!(g.snake.body, vec![Point(5, 4), Point(5, 5)]);
    assert_eq!(q.pending, vec![Intent::TurnTo(Direction::West)]);
    g.tick_queued(&mut q);
    assert_eq!(g.snake.direction, Direction::West);
    assert_eq!(g.snake.body, vec![Point(4, 4), Point(5, 4)]);
    assert!(q.pending.is_empty());
    g.tick_queued(&mut q);
    assert_eq!(g.snake.body, vec![Point(3, 4), Point(4, 4)]);
}

#[test]
fn queue_is_first_in_first_out() {
    let mut q = IntentQueue::new();
    assert_eq!(q.pop_oldest(), None);
    q.push(Intent::Quit);
    q.push(Intent::TurnTo(Direction::South));
    assert_eq!(q.pop_oldest(), Some(Intent::Quit));
    assert_eq!(q.pop_oldest(), Some(Intent::TurnTo(Direction::South)));
    assert_eq!(q.pop_oldest(), None);
}
