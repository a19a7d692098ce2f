//! A play session: the snake, the apple and the per-tick update.

use vstd::prelude::*;
use crate::apple::{board_full, spawn};
use crate::clock::{accumulate_spec, step_due_spec};
use crate::grid::{Coordinate, Direction, Grid};
use crate::snake::{turn, Snake, SnakeModel, MAX_HISTORY};

verus! {

/// Mathematical state of a session.
pub struct GameModel {
    pub snake: SnakeModel,
    /// The apple's cell; `None` only once the snake covers the whole board.
    pub apple: Option<Coordinate>,
    /// Whether the session has ended in a self-collision.
    pub over: bool,
    /// Number of apples eaten so far.
    pub apples_eaten: nat,
}

impl GameModel {
    pub open spec fn wf(self) -> bool {
        &&& self.snake.wf()
        &&& self.snake.length == 1 + self.apples_eaten
        &&& self.apple matches Some(a) ==> {
            &&& self.snake.grid.contains_spec(a)
            &&& a == self.snake.head() ==> self.snake.length < self.snake.history.len()
        }
    }
}

/// Whether `apple` is a valid placement for `s`: a free cell of the board, or no
/// apple when the board is full.
pub open spec fn valid_apple(s: SnakeModel, apple: Option<Coordinate>) -> bool {
    &&& apple is None <==> board_full(s)
    &&& apple matches Some(c) ==> s.grid.contains_spec(c) && !s.visible().contains(c)
}

/// The direction requested by the pressed keys: the first of Left, Right, Up, Down
/// that is pressed and does not reverse `current`.
pub open spec fn requested_direction_spec(
    current: Direction,
    left: bool,
    right: bool,
    up: bool,
    down: bool,
) -> Option<Direction> {
    let back = current.opposite_spec();
    if left && back != Direction::Left {
        Some(Direction::Left)
    } else if right && back != Direction::Right {
        Some(Direction::Right)
    } else if up && back != Direction::Up {
        Some(Direction::Up)
    } else if down && back != Direction::Down {
        Some(Direction::Down)
    } else {
        None
    }
}

/// Maps the set of pressed direction keys to at most one direction request.
pub fn requested_direction(current: Direction, left: bool, right: bool, up: bool, down: bool)
    -> (r: Option<Direction>)
    ensures
        r == requested_direction_spec(current, left, right, up, down),
{
    let back = current.opposite();
    if left && back != Direction::Left {
        Some(Direction::Left)
    } else if right && back != Direction::Right {
        Some(Direction::Right)
    } else if up && back != Direction::Up {
        Some(Direction::Up)
    } else if down && back != Direction::Down {
        Some(Direction::Down)
    } else {
        None
    }
}

/// The snake after the direction request and the movement clock of one tick,
/// including the step if one is due.
pub open spec fn moved(s: SnakeModel, requested: Option<Direction>, delta: u64, elapsed: u64) -> SnakeModel {
    let turned = SnakeModel {
        direction: match requested {
            Some(d) => turn(s.direction, d),
            None => s.direction,
        },
        ..s
    };
    let total = accumulate_spec(s.time_since_last_step, delta);
    if step_due_spec(total, elapsed) {
        SnakeModel {
            history: turned.history.push(turned.next_head()),
            time_since_last_step: 0,
            ..turned
        }
    } else {
        SnakeModel { time_since_last_step: total, ..turned }
    }
}

/// A play session.
pub struct Game {
    snake: Snake,
    apple: Option<Coordinate>,
    over: bool,
    apples_eaten: usize,
}

impl View for Game {
    type V = GameModel;

    closed spec fn view(&self) -> GameModel {
        GameModel {
            snake: self.snake@,
            apple: self.apple,
            over: self.over,
            apples_eaten: self.apples_eaten as nat,
        }
    }
}

impl Game {
    /// A session on `grid`: a snake of length 1 in the middle cell heading Right, and
    /// a first apple already placed.
    pub fn new(grid: Grid) -> (r: Game)
        requires
            grid.wf(),
        ensures
            r@.wf(),
            r@.snake.grid == grid,
            r@.snake.history == seq![Coordinate { x: (grid.width / 2) as i32, y: (grid.height / 2) as i32 }],
            r@.snake.length == 1,
            r@.snake.time_since_last_step == 0,
            r@.snake.direction == Direction::Right,
            valid_apple(r@.snake, r@.apple),
            !r@.over,
            r@.apples_eaten == 0,
    {
        let snake = Snake::centered(grid);
        let apple = spawn(&snake);
        proof {
            assert(snake@.visible()[0] == snake@.head());
        }
        Game { snake, apple, over: false, apples_eaten: 0 }
    }

    pub fn snake(&self) -> (r: &Snake)
        ensures
            r@ == self@.snake,
    {
        &self.snake
    }

    pub fn apple(&self) -> (r: Option<Coordinate>)
        ensures
            r == self@.apple,
    {
        self.apple
    }

    /// Whether the session has ended in a self-collision.
    pub fn is_over(&self) -> (r: bool)
        ensures
            r == self@.over,
    {
        self.over
    }

    pub fn apples_eaten(&self) -> (r: usize)
        ensures
            r == self@.apples_eaten,
    {
        self.apples_eaten
    }

    /// Puts the apple on `c` if that is a cell of the board that no visible segment
    /// covers; tells whether it did.
    pub fn place_apple(&mut self, c: Coordinate) -> (r: bool)
        requires
            old(self)@.wf(),
        ensures
            final(self)@.wf(),
            r == (old(self)@.snake.grid.contains_spec(c) && !old(self)@.snake.visible().contains(c)),
            final(self)@ == (if r {
                GameModel { apple: Some(c), ..old(self)@ }
            } else {
                old(self)@
            }),
    {
        if self.snake.grid().contains(c) && !self.snake.occupies(c) {
            proof {
                let s = self@.snake;
                assert(s.visible()[0] == s.head());
            }
            self.apple = Some(c);
            true
        } else {
            false
        }
    }

    /// One tick of play: applies the direction request, advances the movement clock
    /// by `delta` milliseconds at `elapsed` milliseconds of play and takes at most one
    /// step; a step that brings the head onto another visible segment ends the
    /// session; a head on the apple grows the snake and places a new apple. Returns
    /// whether a step was taken. A session that is over stays as it is.
    pub fn update(&mut self, requested: Option<Direction>, delta: u64, elapsed: u64) -> (r: bool)
        requires
            old(self)@.wf(),
            old(self)@.snake.history.len() < MAX_HISTORY,
        ensures
            final(self)@.wf(),
            old(self)@.over ==> final(self)@ == old(self)@ && !r,
            !old(self)@.over ==> {
                let m = moved(old(self)@.snake, requested, delta, elapsed);
                let eaten = !final(self)@.over && old(self)@.apple == Some(m.head());
                &&& r == step_due_spec(accumulate_spec(old(self)@.snake.time_since_last_step, delta), elapsed)
                &&& final(self)@.over == (r && m.collides())
                &&& eaten ==> {
                    &&& final(self)@.snake == (SnakeModel { length: m.length + 1, ..m })
                    &&& final(self)@.apples_eaten == old(self)@.apples_eaten + 1
                    &&& valid_apple(final(self)@.snake, final(self)@.apple)
                }
                &&& !eaten ==> {
                    &&& final(self)@.snake == m
                    &&& final(self)@.apples_eaten == old(self)@.apples_eaten
                    &&& final(self)@.apple == old(self)@.apple
                }
            },
    {
        if self.over {
            return false;
        }
        if let Some(d) = requested {
            self.snake.set_direction(d);
        }
        let stepped = self.snake.tick_clock(delta, elapsed);
        if stepped {
            self.snake.step();
            if self.snake.detect_self_collision() {
                self.over = true;
                return true;
            }
        }
        let head = self.snake.head();
        if self.apple == Some(head) {
            self.snake.grow();
            self.apples_eaten = self.apples_eaten + 1;
            let apple = spawn(&self.snake);
            proof {
                let s = self@.snake;
                if apple matches Some(a) {
                    assert(s.visible()[0] == s.head());
                }
            }
            self.apple = apple;
        }
        stepped
    }
}

/// After any number of apples eaten the snake's length is one more than that
/// number, and the history is never shorter than the length.
pub proof fn lemma_growth(g: GameModel)
    requires
        g.wf(),
    ensures
        g.snake.length == 1 + g.apples_eaten,
        g.snake.history.len() >= g.snake.length,
{
}

/// A tick never leaves the snake heading opposite to where it headed when the tick
/// began.
pub proof fn lemma_no_reverse(s: SnakeModel, requested: Option<Direction>, delta: u64, elapsed: u64)
    ensures
        moved(s, requested, delta, elapsed).direction != s.direction.opposite_spec(),
{
}

/// However long a frame is, a tick takes at most one step, and after a step the time
/// since the last step is 0, not the overshoot.
pub proof fn lemma_single_step(s: SnakeModel, requested: Option<Direction>, delta: u64, elapsed: u64)
    ensures
        moved(s, requested, delta, elapsed).history.len() <= s.history.len() + 1,
        moved(s, requested, delta, elapsed).history.len() == s.history.len() + 1
            ==> moved(s, requested, delta, elapsed).time_since_last_step == 0,
{
}

} // verus!
