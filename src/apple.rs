//! Apple placement: a random free cell, with a deterministic scan as fallback.

use vstd::prelude::*;
use rand::Rng;
use crate::grid::{Coordinate, Grid};
use crate::snake::{Snake, SnakeModel};

verus! {

/// Random draws tried before falling back to a scan of the board.
pub const SPAWN_ATTEMPTS: u32 = 64;

/// Whether every cell of the board is under a visible segment.
pub open spec fn board_full(s: SnakeModel) -> bool {
    forall|c: Coordinate| s.grid.contains_spec(c) ==> #[trigger] s.visible().contains(c)
}

/// Whether `e` comes before `c` when the board is read row by row from `(0, 0)`.
pub open spec fn scanned_before(e: Coordinate, c: Coordinate) -> bool {
    e.y < c.y || (e.y == c.y && e.x < c.x)
}

/// Relies on rand::thread_rng and Rng::gen_range: a value drawn uniformly from
/// `0..bound` (gen_range panics on an empty range, hence the bound).
#[verifier::external_body]
fn random_below(bound: i32) -> (r: i32)
    requires
        bound > 0,
    ensures
        0 <= r < bound,
{
    rand::thread_rng().gen_range(0..bound)
}

/// The first cell, row by row from `(0, 0)`, that no visible segment covers.
pub fn first_free_cell(snake: &Snake) -> (r: Option<Coordinate>)
    requires
        snake@.wf(),
    ensures
        r is None <==> board_full(snake@),
        r matches Some(c) ==> {
            &&& snake@.grid.contains_spec(c)
            &&& !snake@.visible().contains(c)
            &&& forall|e: Coordinate|
                snake@.grid.contains_spec(e) && #[trigger] scanned_before(e, c)
                    ==> snake@.visible().contains(e)
        },
{
    let grid: Grid = snake.grid();
    let mut y: i32 = 0;
    while y < grid.height
        invariant
            snake@.wf(),
            grid == snake@.grid,
            0 <= y <= grid.height,
            forall|e: Coordinate|
                grid.contains_spec(e) && e.y < y ==> #[trigger] snake@.visible().contains(e),
        decreases grid.height - y,
    {
        let mut x: i32 = 0;
        while x < grid.width
            invariant
                snake@.wf(),
                grid == snake@.grid,
                0 <= y < grid.height,
                0 <= x <= grid.width,
                forall|e: Coordinate|
                    grid.contains_spec(e) && (e.y < y || (e.y == y && e.x < x))
                        ==> #[trigger] snake@.visible().contains(e),
            decreases grid.width - x,
        {
            let c = Coordinate::new(x, y);
            if !snake.occupies(c) {
                return Some(c);
            }
            x += 1;
        }
        y += 1;
    }
    None
}

/// A cell for a new apple that no visible segment covers: random draws first, then
/// the first free cell of a scan; `None` only when the snake covers the whole board.
pub fn spawn(snake: &Snake) -> (r: Option<Coordinate>)
    requires
        snake@.wf(),
    ensures
        r is None <==> board_full(snake@),
        r matches Some(c) ==> snake@.grid.contains_spec(c) && !snake@.visible().contains(c),
{
    let grid: Grid = snake.grid();
    let mut attempt: u32 = 0;
    while attempt < SPAWN_ATTEMPTS
        invariant
            snake@.wf(),
            grid == snake@.grid,
        decreases SPAWN_ATTEMPTS - attempt,
    {
        let c = Coordinate::new(random_below(grid.width), random_below(grid.height));
        if !snake.occupies(c) {
            return Some(c);
        }
        attempt += 1;
    }
    first_free_cell(snake)
}

} // verus!
