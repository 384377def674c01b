use vstd::prelude::*;
use rand::Rng;
use crate::board::{Board, Point};

verus! {

/// Relies on rand's `thread_rng` and `Rng::gen_range` over the half-open range
/// `low..high`: a value in that range; it panics only on an empty range.
#[verifier::external_body]
fn random_in(low: u16, high: u16) -> (r: u16)
    requires
        low < high,
    ensures
        low <= r < high,
{
    rand::thread_rng().gen_range(low..high)
}

/// The one fruit on the board.
pub struct Fruit {
    pub coord: Point,
}

impl Fruit {
    /// A fruit at a random cell strictly inside the walls of `board`.
    pub fn new(board: &Board) -> (r: Fruit)
        requires
            board.wf(),
        ensures
            board.is_interior(r.coord),
    {
        let x: u16 = random_in(1, board.right());
        let y: u16 = random_in(1, board.bottom());
        Fruit { coord: Point(x, y) }
    }
}

} // verus!
