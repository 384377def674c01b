use vstd::prelude::*;
use crate::board::{Board, Point};
use crate::fruit::Fruit;
use crate::input::{Intent, IntentQueue};
use crate::snake::{advanced, moved, turned, Direction, Snake};

verus! {

#[derive(Clone, Copy, PartialEq, Eq, Structural, Debug)]
pub enum Status {
    Running,
    Terminated,
}

/// The game as a mathematical value.
pub ghost struct GameState {
    pub board: Board,
    pub body: Seq<Point>,
    pub direction: Direction,
    pub fruit: Point,
    pub status: Status,
}

impl GameState {
    pub open spec fn wf(&self) -> bool {
        &&& self.board.wf()
        &&& self.body.len() >= 1
        &&& self.board.is_interior(self.fruit)
    }

    /// Whether the move into `h` eats the fruit.
    pub open spec fn grows(&self, h: Point) -> bool {
        h == self.fruit
    }

    /// The cells that stay occupied while the head moves into `h`: all of them
    /// when the snake grows, all but the vacated tail otherwise.
    pub open spec fn kept(&self, h: Point) -> Seq<Point> {
        if self.grows(h) {
            self.body
        } else {
            self.body.drop_last()
        }
    }

    /// Moving the head into `h` runs into the body or into a wall.
    pub open spec fn collides(&self, h: Point) -> bool {
        self.kept(h).contains(h) || self.board.is_wall_spec(h.0 as int, h.1 as int)
    }

    pub open spec fn terminated(self) -> GameState {
        GameState { status: Status::Terminated, ..self }
    }
}

/// One movement step: the head moves one cell along the direction; a step past
/// the range of coordinates, into the body or into a wall ends the game and
/// leaves the rest as it was; otherwise the snake advances, growing when it
/// reaches the fruit, which then moves to `respawn`.
pub open spec fn step_state(s: GameState, respawn: Point) -> GameState {
    match moved(s.body[0], s.direction) {
        None => s.terminated(),
        Some(h) => if s.collides(h) {
            s.terminated()
        } else {
            GameState {
                body: advanced(s.body, h, s.grows(h)),
                fruit: if s.grows(h) { respawn } else { s.fruit },
                ..s
            }
        },
    }
}

/// The state after `intent` is applied: a quit ends the game, a turn goes to the snake.
pub open spec fn intent_state(s: GameState, intent: Intent) -> GameState {
    match intent {
        Intent::Quit => s.terminated(),
        Intent::TurnTo(d) => GameState { direction: turned(s.direction, d), ..s },
    }
}

/// The state once the intent drained in a tick, if any, is applied.
pub open spec fn after_intent(s: GameState, intent: Option<Intent>) -> GameState {
    match intent {
        Some(i) => intent_state(s, i),
        None => s,
    }
}

/// The snake steps in this tick: the game runs and the intent does not end it.
pub open spec fn steps(s: GameState, intent: Option<Intent>) -> bool {
    s.status == Status::Running && after_intent(s, intent).status == Status::Running
}

/// The cell the head moves towards in this tick, if it steps and the step
/// stays in the range of coordinates.
pub open spec fn tick_target(s: GameState, intent: Option<Intent>) -> Option<Point> {
    if steps(s, intent) {
        moved(after_intent(s, intent).body[0], after_intent(s, intent).direction)
    } else {
        None
    }
}

/// One tick: nothing happens once the game has ended; otherwise the intent, if
/// any, is applied first, and then, unless it ended the game, the snake steps.
pub open spec fn tick_state(s: GameState, intent: Option<Intent>, respawn: Point) -> GameState {
    if s.status == Status::Terminated {
        s
    } else if after_intent(s, intent).status == Status::Terminated {
        after_intent(s, intent)
    } else {
        step_state(after_intent(s, intent), respawn)
    }
}

pub struct Game {
    pub board: Board,
    pub snake: Snake,
    pub fruit: Fruit,
    pub status: Status,
}

impl View for Game {
    type V = GameState;

    open spec fn view(&self) -> GameState {
        GameState {
            board: self.board,
            body: self.snake.body@,
            direction: self.snake.direction,
            fruit: self.fruit.coord,
            status: self.status,
        }
    }
}

impl Game {
    pub open spec fn wf(&self) -> bool {
        self@.wf()
    }

    /// A new running game on the standard board, with the initial snake and a
    /// fruit at a random interior cell.
    pub fn new() -> (r: Game)
        ensures
            r.wf(),
            r.board.width == crate::board::BOARD_WIDTH,
            r.board.height == crate::board::BOARD_HEIGHT,
            r.snake.body@ == seq![Point(5, 5), Point(6, 5)],
            r.snake.direction == Direction::East,
            r.board.is_interior(r.fruit.coord),
            r.status == Status::Running,
    {
        let board = Board::new();
        Game { fruit: Fruit::new(&board), board, snake: Snake::new(), status: Status::Running }
    }

    /// A running game made of the given parts.
    pub fn from_parts(board: Board, snake: Snake, fruit: Fruit) -> (r: Game)
        requires
            board.wf(),
            snake.wf(),
            board.is_interior(fruit.coord),
        ensures
            r.wf(),
            r@ == (GameState {
                board,
                body: snake.body@,
                direction: snake.direction,
                fruit: fruit.coord,
                status: Status::Running,
            }),
    {
        Game { board, snake, fruit, status: Status::Running }
    }

    /// The score: the length of the body.
    pub fn score(&self) -> (r: usize)
        ensures
            r == self@.body.len(),
    {
        self.snake.body.len()
    }

    pub fn is_running(&self) -> (r: bool)
        ensures
            r == (self.status == Status::Running),
    {
        self.status == Status::Running
    }

    /// Applies `intent`: a quit ends the game, a turn goes to the snake.
    pub fn apply_intent(&mut self, intent: Intent)
        ensures
            final(self)@ == intent_state(old(self)@, intent),
    {
        match intent {
            Intent::Quit => self.status = Status::Terminated,
            Intent::TurnTo(d) => self.snake.turn(d),
        }
    }

    /// One movement step, with `respawn` as the fruit's next cell if it is eaten.
    fn step(&mut self, respawn: Point)
        requires
            old(self).wf(),
            old(self).board.is_interior(respawn),
        ensures
            final(self).wf(),
            final(self)@ == step_state(old(self)@, respawn),
    {
        match self.snake.next_head() {
            None => self.status = Status::Terminated,
            Some(h) => {
                let grow = h == self.fruit.coord;
                let n = if grow {
                    self.snake.body.len()
                } else {
                    self.snake.body.len() - 1
                };
                assert(self@.kept(h) =~= self.snake.body@.subrange(0, n as int));
                if self.snake.occupies(h, n) || self.board.is_wall(h.0, h.1) {
                    self.status = Status::Terminated;
                } else {
                    self.snake.advance(h, grow);
                    if grow {
                        self.fruit = Fruit { coord: respawn };
                    }
                }
            },
        }
    }

    /// One tick with `intent` drained from the input, and `respawn` as the
    /// fruit's next cell if it is eaten.
    pub fn tick_with(&mut self, intent: Option<Intent>, respawn: Point)
        requires
            old(self).wf(),
            old(self).board.is_interior(respawn),
        ensures
            final(self).wf(),
            final(self)@ == tick_state(old(self)@, intent, respawn),
    {
        if self.status == Status::Terminated {
            return;
        }
        match intent {
            Some(i) => self.apply_intent(i),
            None => {},
        }
        if self.status == Status::Running {
            self.step(respawn);
        }
    }

    /// One tick with `intent` drained from the input; an eaten fruit moves to a
    /// random interior cell.
    pub fn tick(&mut self, intent: Option<Intent>)
        requires
            old(self).wf(),
        ensures
            final(self).wf(),
            exists|p: Point|
                #[trigger] old(self).board.is_interior(p) && final(self)@ == tick_state(
                    old(self)@,
                    intent,
                    p,
                ),
    {
        let fresh = Fruit::new(&self.board);
        self.tick_with(intent, fresh.coord);
    }

    /// One tick that drains at most one intent, the oldest, from `queue`.
    pub fn tick_queued(&mut self, queue: &mut IntentQueue)
        requires
            old(self).wf(),
        ensures
            final(self).wf(),
            old(queue).pending@.len() == 0 ==> final(queue).pending@ == old(queue).pending@,
            old(queue).pending@.len() > 0 ==> final(queue).pending@ == old(queue).pending@.subrange(
                1,
                old(queue).pending@.len() as int,
            ),
            exists|p: Point|
                #[trigger] old(self).board.is_interior(p) && final(self)@ == tick_state(
                    old(self)@,
                    if old(queue).pending@.len() == 0 {
                        None
                    } else {
                        Some(old(queue).pending@[0])
                    },
                    p,
                ),
    {
        let intent = queue.pop_oldest();
        self.tick(intent);
    }
}

} // verus!
