//! The snake state machine: position history, direction, growth and self-collision.

use vstd::prelude::*;
use crate::clock::{accumulate_spec, advance, step_due_spec};
use crate::grid::{Coordinate, Direction, Grid};

verus! {

/// Largest length a snake may reach.
pub const MAX_LENGTH: usize = 1_000_000_000;

/// Largest size of the position history.
pub const MAX_HISTORY: usize = 1_000_000_000;

/// Size of a segment near the head, in tenths of a cell.
pub const SIZE_MAX: u64 = 9;

/// Size the tail tapers to, in tenths of a cell.
pub const SIZE_MIN: u64 = 4;

/// Denominator of `SIZE_MAX` and `SIZE_MIN`.
pub const SIZE_SCALE: u64 = 10;

/// Shortest length used to spread the taper over; keeps short snakes from
/// tapering too sharply.
pub const MIN_LENGTH_FOR_SIZE_DIFF: usize = 5;

/// Mathematical state of a snake.
pub struct SnakeModel {
    pub grid: Grid,
    /// Every cell the head has occupied, oldest first.
    pub history: Seq<Coordinate>,
    /// Number of visible segments.
    pub length: nat,
    /// Milliseconds since the last step.
    pub time_since_last_step: u64,
    pub direction: Direction,
}

impl SnakeModel {
    pub open spec fn wf(self) -> bool {
        &&& self.grid.wf()
        &&& 1 <= self.length <= self.history.len()
        &&& self.length <= MAX_LENGTH
        &&& self.history.len() <= MAX_HISTORY
        &&& forall|i: int| 0 <= i < self.history.len() ==> self.grid.contains_spec(#[trigger] self.history[i])
    }

    pub open spec fn head(self) -> Coordinate {
        self.history.last()
    }

    /// Segment `i`, counted from the head.
    pub open spec fn segment(self, i: int) -> Coordinate {
        self.history[self.history.len() - 1 - i]
    }

    /// The `length` most recent cells of the history, head first.
    pub open spec fn visible(self) -> Seq<Coordinate> {
        Seq::new(self.length, |i: int| self.segment(i))
    }

    /// Whether the head shares its cell with another visible segment.
    pub open spec fn collides(self) -> bool {
        exists|i: int| 1 <= i < self.length && #[trigger] self.segment(i) == self.head()
    }

    /// The cell the head moves to on the next step.
    pub open spec fn next_head(self) -> Coordinate {
        self.grid.wrap_spec(self.head().x + self.direction.dx(), self.head().y + self.direction.dy())
    }
}

/// The direction after a request: a request for the exact opposite of the current
/// direction is ignored.
pub open spec fn turn(current: Direction, requested: Direction) -> Direction {
    if requested == current.opposite_spec() {
        current
    } else {
        requested
    }
}

/// The snake: where it has been, how long it is and where it is heading.
pub struct Snake {
    grid: Grid,
    history: Vec<Coordinate>,
    length: usize,
    time_since_last_step: u64,
    direction: Direction,
}

impl View for Snake {
    type V = SnakeModel;

    closed spec fn view(&self) -> SnakeModel {
        SnakeModel {
            grid: self.grid,
            history: self.history@,
            length: self.length as nat,
            time_since_last_step: self.time_since_last_step,
            direction: self.direction,
        }
    }
}

impl Snake {
    /// A snake of length 1 at `start`, heading Right.
    pub fn new(grid: Grid, start: Coordinate) -> (r: Snake)
        requires
            grid.wf(),
            grid.contains_spec(start),
        ensures
            r@.wf(),
            r@.grid == grid,
            r@.history == seq![start],
            r@.length == 1,
            r@.time_since_last_step == 0,
            r@.direction == Direction::Right,
    {
        let r = Snake {
            grid,
            history: vec![start],
            length: 1,
            time_since_last_step: 0,
            direction: Direction::Right,
        };
        assert(r@.history == seq![start]);
        r
    }

    /// A snake of length 1 in the middle cell `(W / 2, H / 2)`, heading Right.
    pub fn centered(grid: Grid) -> (r: Snake)
        requires
            grid.wf(),
        ensures
            r@.wf(),
            r@.grid == grid,
            r@.history == seq![Coordinate { x: (grid.width / 2) as i32, y: (grid.height / 2) as i32 }],
            r@.length == 1,
            r@.time_since_last_step == 0,
            r@.direction == Direction::Right,
    {
        Snake::new(grid, Coordinate::new(grid.width / 2, grid.height / 2))
    }

    /// A snake with the given history (oldest first), length and direction; `None`
    /// when the history is empty or leaves the board, or the length is 0 or longer
    /// than the history.
    pub fn from_history(grid: Grid, history: Vec<Coordinate>, length: usize, direction: Direction)
        -> (r: Option<Snake>)
        requires
            grid.wf(),
        ensures
            r is Some <==> (1 <= length <= history@.len() && length <= MAX_LENGTH
                && history@.len() <= MAX_HISTORY && forall|i: int|
                0 <= i < history@.len() ==> grid.contains_spec(#[trigger] history@[i])),
            r matches Some(s) ==> s@.wf() && s@ == (SnakeModel {
                grid,
                history: history@,
                length: length as nat,
                time_since_last_step: 0,
                direction,
            }),
    {
        if length < 1 || length > history.len() || length > MAX_LENGTH || history.len()
            > MAX_HISTORY {
            return None;
        }
        let mut i: usize = 0;
        while i < history.len()
            invariant
                grid.wf(),
                i <= history@.len(),
                forall|j: int| 0 <= j < i ==> grid.contains_spec(#[trigger] history@[j]),
            decreases history@.len() - i,
        {
            if !grid.contains(history[i]) {
                return None;
            }
            i += 1;
        }
        Some(Snake { grid, history, length, time_since_last_step: 0, direction })
    }

    pub fn grid(&self) -> (r: Grid)
        ensures
            r == self@.grid,
    {
        self.grid
    }

    pub fn length(&self) -> (r: usize)
        ensures
            r == self@.length,
    {
        self.length
    }

    pub fn direction(&self) -> (r: Direction)
        ensures
            r == self@.direction,
    {
        self.direction
    }

    pub fn time_since_last_step(&self) -> (r: u64)
        ensures
            r == self@.time_since_last_step,
    {
        self.time_since_last_step
    }

    /// Every cell the head has occupied, oldest first.
    pub fn history(&self) -> (r: &Vec<Coordinate>)
        ensures
            r@ == self@.history,
    {
        &self.history
    }

    /// The head's cell.
    pub fn head(&self) -> (r: Coordinate)
        requires
            self@.wf(),
        ensures
            r == self@.head(),
    {
        self.history[self.history.len() - 1]
    }

    /// Segment `index` counted from the head (0 is the head), read from the history.
    pub fn get_body_part_coordinate(&self, index: usize) -> (r: Coordinate)
        requires
            index < self@.history.len(),
        ensures
            r == self@.segment(index as int),
    {
        self.history[self.history.len() - 1 - index]
    }

    /// Turns towards `requested` unless it is the exact opposite of the current direction.
    pub fn set_direction(&mut self, requested: Direction)
        ensures
            final(self)@ == (SnakeModel { direction: turn(old(self)@.direction, requested), ..old(self)@ }),
            final(self)@.direction != old(self)@.direction.opposite_spec(),
    {
        if requested != self.direction.opposite() {
            self.direction = requested;
        }
    }

    /// Adds a frame of `delta` milliseconds to the time since the last step, at
    /// `elapsed` milliseconds of play, and tells whether a step is now due; if so the
    /// time since the last step goes back to 0, overshoot included.
    pub fn tick_clock(&mut self, delta: u64, elapsed: u64) -> (r: bool)
        ensures
            r == step_due_spec(accumulate_spec(old(self)@.time_since_last_step, delta), elapsed),
            final(self)@ == (SnakeModel {
                time_since_last_step: if r {
                    0
                } else {
                    accumulate_spec(old(self)@.time_since_last_step, delta)
                },
                ..old(self)@
            }),
    {
        let tick = advance(self.time_since_last_step, delta, elapsed);
        self.time_since_last_step = tick.since_last_step;
        tick.step
    }

    /// Moves the head one cell in the current direction, wrapping around the board,
    /// and records the new cell in the history.
    pub fn step(&mut self)
        requires
            old(self)@.wf(),
            old(self)@.history.len() < MAX_HISTORY,
        ensures
            final(self)@.wf(),
            final(self)@ == (SnakeModel {
                history: old(self)@.history.push(old(self)@.next_head()),
                ..old(self)@
            }),
    {
        let head = self.history[self.history.len() - 1];
        let next = self.grid.neighbour(head, self.direction);
        self.history.push(next);
        assert(forall|i: int|
            0 <= i < self@.history.len() ==> self.grid.contains_spec(#[trigger] self@.history[i])) by {
            assert(forall|i: int| 0 <= i < old(self)@.history.len() ==> self@.history[i] == old(self)@.history[i]);
        }
    }

    /// Lengthens the visible body by one segment; the history is left as it is.
    pub fn grow(&mut self)
        requires
            old(self)@.wf(),
            old(self)@.length < old(self)@.history.len(),
            old(self)@.length < MAX_LENGTH,
        ensures
            final(self)@.wf(),
            final(self)@ == (SnakeModel { length: old(self)@.length + 1, ..old(self)@ }),
    {
        self.length = self.length + 1;
    }

    /// The visible segments, head first: the `length` most recent cells of the history.
    pub fn visible_segments(&self) -> (r: Vec<Coordinate>)
        requires
            self@.wf(),
        ensures
            r@ == self@.visible(),
    {
        let mut r: Vec<Coordinate> = Vec::new();
        let mut i: usize = 0;
        while i < self.length
            invariant
                self@.wf(),
                i <= self@.length,
                r@.len() == i,
                forall|j: int| 0 <= j < i ==> r@[j] == self@.segment(j),
            decreases self@.length - i,
        {
            r.push(self.history[self.history.len() - 1 - i]);
            i += 1;
        }
        assert(r@ == self@.visible());
        r
    }

    /// Whether `c` is one of the visible segments.
    pub fn occupies(&self, c: Coordinate) -> (r: bool)
        requires
            self@.wf(),
        ensures
            r == self@.visible().contains(c),
    {
        let mut i: usize = 0;
        while i < self.length
            invariant
                self@.wf(),
                i <= self@.length,
                forall|j: int| 0 <= j < i ==> self@.segment(j) != c,
            decreases self@.length - i,
        {
            if self.history[self.history.len() - 1 - i] == c {
                assert(self@.visible()[i as int] == c);
                return true;
            }
            i += 1;
        }
        assert(!self@.visible().contains(c)) by {
            if self@.visible().contains(c) {
                let k = choose|k: int| 0 <= k < self@.visible().len() && self@.visible()[k] == c;
                assert(self@.segment(k) == c);
            }
        }
        false
    }

    /// Whether the head shares its cell with any other visible segment.
    pub fn detect_self_collision(&self) -> (r: bool)
        requires
            self@.wf(),
        ensures
            r == self@.collides(),
    {
        let head = self.history[self.history.len() - 1];
        let mut i: usize = 1;
        while i < self.length
            invariant
                self@.wf(),
                1 <= i <= self@.length,
                head == self@.head(),
                forall|j: int| 1 <= j < i ==> #[trigger] self@.segment(j) != head,
            decreases self@.length - i,
        {
            if self.history[self.history.len() - 1 - i] == head {
                assert(self@.segment(i as int) == self@.head());
                return true;
            }
            i += 1;
        }
        false
    }
}

/// Rendered size of a segment, as the fraction `numerator / denominator` of a cell.
#[derive(Clone, Copy, Debug, PartialEq, Eq, Structural)]
pub struct SegmentSize {
    pub numerator: u64,
    pub denominator: u64,
}

/// `max(length, MIN_LENGTH_FOR_SIZE_DIFF)`, the length the taper is spread over.
pub open spec fn taper_length(length: nat) -> nat {
    if length > MIN_LENGTH_FOR_SIZE_DIFF {
        length
    } else {
        MIN_LENGTH_FOR_SIZE_DIFF as nat
    }
}

/// Size of segment `index` (0 is the head) of a snake of `length` segments:
/// `SIZE_MAX - index / max(length, MIN_LENGTH_FOR_SIZE_DIFF) * (SIZE_MAX - SIZE_MIN)`,
/// in units of `1 / SIZE_SCALE`, given exactly as a fraction.
pub open spec fn segment_size_spec(index: nat, length: nat) -> SegmentSize {
    SegmentSize {
        numerator: (SIZE_MAX * taper_length(length) - index * (SIZE_MAX - SIZE_MIN)) as u64,
        denominator: (SIZE_SCALE * taper_length(length)) as u64,
    }
}

/// Rendered size of segment `index` (0 is the head) of a snake of `length` segments.
pub fn segment_size(index: usize, length: usize) -> (r: SegmentSize)
    requires
        index <= length,
        length <= MAX_LENGTH,
    ensures
        r == segment_size_spec(index as nat, length as nat),
        r.denominator == SIZE_SCALE * taper_length(length as nat),
        r.numerator == SIZE_MAX * taper_length(length as nat) - index * (SIZE_MAX - SIZE_MIN),
{
    let d: u64 = if length > MIN_LENGTH_FOR_SIZE_DIFF {
        length as u64
    } else {
        MIN_LENGTH_FOR_SIZE_DIFF as u64
    };
    let i = index as u64;
    SegmentSize { numerator: SIZE_MAX * d - i * (SIZE_MAX - SIZE_MIN), denominator: SIZE_SCALE * d }
}

impl Snake {
    /// What a renderer draws: each visible segment, head first, with its size.
    pub fn segments_with_sizes(&self) -> (r: Vec<(Coordinate, SegmentSize)>)
        requires
            self@.wf(),
        ensures
            r@.len() == self@.length,
            forall|i: int| 0 <= i < self@.length ==> #[trigger] r@[i] == (self@.segment(i),
                segment_size_spec(i as nat, self@.length)),
    {
        let mut r: Vec<(Coordinate, SegmentSize)> = Vec::new();
        let mut i: usize = 0;
        while i < self.length
            invariant
                self@.wf(),
                i <= self@.length,
                r@.len() == i,
                forall|j: int| 0 <= j < i ==> #[trigger] r@[j] == (self@.segment(j),
                    segment_size_spec(j as nat, self@.length)),
            decreases self@.length - i,
        {
            let c = self.history[self.history.len() - 1 - i];
            r.push((c, segment_size(i, self.length)));
            i += 1;
        }
        r
    }
}

} // verus!
