use vstd::prelude::*;

verus! {

/// Width and height of the board a new game is played on.
pub const BOARD_WIDTH: u16 = 40;

pub const BOARD_HEIGHT: u16 = 40;

/// A grid cell `(x, y)`.
#[derive(Clone, Copy, PartialEq, Eq, Structural, Debug)]
pub struct Point(pub u16, pub u16);

/// The play-field: a `width` by `height` grid whose outer ring is wall.
pub struct Board {
    pub width: u16,
    pub height: u16,
    pub top: u16,
    pub left: u16,
}

impl Board {
    /// A board has an interior, and its top-left corner is the origin.
    pub open spec fn wf(&self) -> bool {
        &&& self.width >= 3
        &&& self.height >= 3
        &&& self.top == 0
        &&& self.left == 0
    }

    pub open spec fn right_spec(&self) -> int {
        self.width - 1
    }

    pub open spec fn bottom_spec(&self) -> int {
        self.height - 1
    }

    /// The cell is on the outer ring of the board.
    pub open spec fn is_wall_spec(&self, x: int, y: int) -> bool {
        x == self.left || x == self.right_spec() || y == self.top || y == self.bottom_spec()
    }

    /// The cell is on the board.
    pub open spec fn in_grid(&self, p: Point) -> bool {
        p.0 < self.width && p.1 < self.height
    }

    /// The cell lies strictly inside the walls.
    pub open spec fn is_interior(&self, p: Point) -> bool {
        &&& 1 <= p.0 <= self.right_spec() - 1
        &&& 1 <= p.1 <= self.bottom_spec() - 1
    }

    /// The board a new game is played on.
    pub fn new() -> (r: Board)
        ensures
            r.wf(),
            r.width == BOARD_WIDTH,
            r.height == BOARD_HEIGHT,
    {
        Board { top: 0, left: 0, width: BOARD_WIDTH, height: BOARD_HEIGHT }
    }

    /// A board of the given size, its top-left corner at the origin.
    pub fn with_size(width: u16, height: u16) -> (r: Board)
        requires
            width >= 3,
            height >= 3,
        ensures
            r.wf(),
            r.width == width,
            r.height == height,
    {
        Board { top: 0, left: 0, width, height }
    }

    pub fn right(&self) -> (r: u16)
        requires
            self.wf(),
        ensures
            r == self.right_spec(),
    {
        self.width - 1
    }

    pub fn bottom(&self) -> (r: u16)
        requires
            self.wf(),
        ensures
            r == self.bottom_spec(),
    {
        self.height - 1
    }

    pub fn is_wall(&self, x: u16, y: u16) -> (r: bool)
        requires
            self.wf(),
        ensures
            r == self.is_wall_spec(x as int, y as int),
    {
        (x == self.left || x == self.right()) || (y == self.top || y == self.bottom())
    }

    /// The wall cells of the board.
    pub fn wall_cells(&self) -> (r: Vec<Point>)
        requires
            self.wf(),
        ensures
            forall|p: Point|
                #[trigger] r@.contains(p) <==> (self.in_grid(p) && self.is_wall_spec(
                    p.0 as int,
                    p.1 as int,
                )),
    {
        let mut r: Vec<Point> = Vec::new();
        let mut y: u16 = 0;
        while y < self.height
            invariant
                self.wf(),
                y <= self.height,
                forall|p: Point|
                    #[trigger] r@.contains(p) <==> (p.0 < self.width && p.1 < y
                        && self.is_wall_spec(p.0 as int, p.1 as int)),
            decreases self.height - y,
        {
            let mut x: u16 = 0;
            while x < self.width
                invariant
                    self.wf(),
                    y < self.height,
                    x <= self.width,
                    forall|p: Point|
                        #[trigger] r@.contains(p) <==> (p.0 < self.width && (p.1 < y || (p.1
                            == y && p.0 < x)) && self.is_wall_spec(p.0 as int, p.1 as int)),
                decreases self.width - x,
            {
                if self.is_wall(x, y) {
                    let ghost before = r@;
                    r.push(Point(x, y));
                    assert forall|p: Point| #[trigger] r@.contains(p) <==> (before.contains(p) || p
                        == Point(x, y)) by {
                        if p == Point(x, y) {
                            assert(r@[before.len() as int] == p);
                        }
                        if before.contains(p) {
                            let k = choose|k: int| 0 <= k < before.len() && before[k] == p;
                            assert(r@[k] == p);
                        }
                        if r@.contains(p) && p != Point(x, y) {
                            let k = choose|k: int| 0 <= k < r@.len() && r@[k] == p;
                            assert(before[k] == p);
                        }
                    }
                }
                x += 1;
            }
            y += 1;
        }
        r
    }
}

} // verus!
