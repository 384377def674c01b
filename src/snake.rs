use vstd::prelude::*;
use crate::board::Point;

verus! {

#[derive(Clone, Copy, PartialEq, Eq, Structural, Debug)]
pub enum Direction {
    North,
    South,
    East,
    West,
}

/// The direction that points the other way.
pub open spec fn opposite(d: Direction) -> Direction {
    match d {
        Direction::North => Direction::South,
        Direction::South => Direction::North,
        Direction::East => Direction::West,
        Direction::West => Direction::East,
    }
}

/// The cell one step from `p` along `d`, in unbounded coordinates: North
/// decrements y, South increments it, East increments x, West decrements it.
pub open spec fn shifted(p: Point, d: Direction) -> (int, int) {
    match d {
        Direction::North => (p.0 as int, p.1 - 1),
        Direction::South => (p.0 as int, p.1 + 1),
        Direction::East => (p.0 + 1, p.1 as int),
        Direction::West => (p.0 - 1, p.1 as int),
    }
}

/// The cell one step from `p` along `d`, or `None` where that step leaves the
/// range of coordinates (it never wraps around).
pub open spec fn moved(p: Point, d: Direction) -> Option<Point> {
    let (x, y) = shifted(p, d);
    if 0 <= x <= u16::MAX && 0 <= y <= u16::MAX {
        Some(Point(x as u16, y as u16))
    } else {
        None
    }
}

/// The direction a snake heads in after asking to turn from `cur` to `req`:
/// a request for the exact opposite is ignored.
pub open spec fn turned(cur: Direction, req: Direction) -> Direction {
    if req == opposite(cur) {
        cur
    } else {
        req
    }
}

/// The body once the new head `h` is in front and, unless it grows, the tail is gone.
pub open spec fn advanced(body: Seq<Point>, h: Point, grow: bool) -> Seq<Point> {
    if grow {
        seq![h] + body
    } else {
        seq![h] + body.drop_last()
    }
}

/// The snake: its cells from head (index 0) to tail, and where it is heading.
pub struct Snake {
    pub body: Vec<Point>,
    pub direction: Direction,
}

impl Snake {
    /// The body is never empty.
    pub open spec fn wf(&self) -> bool {
        self.body@.len() >= 1
    }

    pub open spec fn head(&self) -> Point {
        self.body@[0]
    }

    /// The snake a new game starts with: two cells, heading East.
    pub fn new() -> (r: Snake)
        ensures
            r.wf(),
            r.body@ == seq![Point(5, 5), Point(6, 5)],
            r.direction == Direction::East,
    {
        Snake { body: vec![Point(5, 5), Point(6, 5)], direction: Direction::East }
    }

    /// Removes the head and returns it.
    pub fn chop_head(&mut self) -> (r: Point)
        requires
            old(self).wf(),
        ensures
            r == old(self).body@[0],
            final(self).body@ == old(self).body@.subrange(1, old(self).body@.len() as int),
            final(self).direction == old(self).direction,
    {
        self.body.remove(0)
    }

    /// Puts `new_head` in front of the body.
    pub fn plug_head(&mut self, new_head: Point)
        ensures
            final(self).body@ == seq![new_head] + old(self).body@,
            final(self).direction == old(self).direction,
    {
        self.body.insert(0, new_head);
        assert(final(self).body@ =~= seq![new_head] + old(self).body@);
    }

    /// Heads in `dir`, unless it is the exact opposite of the current direction.
    pub fn turn(&mut self, dir: Direction)
        ensures
            final(self).direction == turned(old(self).direction, dir),
            final(self).body@ == old(self).body@,
    {
        match (self.direction, dir) {
            (Direction::North, Direction::South)
            | (Direction::South, Direction::North)
            | (Direction::West, Direction::East)
            | (Direction::East, Direction::West) => {},
            _ => self.direction = dir,
        }
    }

    /// The cell the head moves into on the next step, or `None` where the step
    /// would leave the range of coordinates.
    pub fn next_head(&self) -> (r: Option<Point>)
        requires
            self.wf(),
        ensures
            r == moved(self.head(), self.direction),
    {
        let Point(x, y) = self.body[0];
        match self.direction {
            Direction::North => if y == 0 { None } else { Some(Point(x, y - 1)) },
            Direction::South => if y == u16::MAX { None } else { Some(Point(x, y + 1)) },
            Direction::East => if x == u16::MAX { None } else { Some(Point(x + 1, y)) },
            Direction::West => if x == 0 { None } else { Some(Point(x - 1, y)) },
        }
    }

    /// Moves to `new_head`: it goes in front, and the tail is dropped unless the
    /// snake grows.
    pub fn advance(&mut self, new_head: Point, grow: bool)
        requires
            old(self).wf(),
        ensures
            final(self).wf(),
            final(self).body@ == advanced(old(self).body@, new_head, grow),
            final(self).direction == old(self).direction,
    {
        self.plug_head(new_head);
        if !grow {
            self.body.pop();
        }
        assert(final(self).body@ =~= advanced(old(self).body@, new_head, grow));
    }

    /// Whether `p` is one of the first `n` cells of the body.
    pub fn occupies(&self, p: Point, n: usize) -> (r: bool)
        requires
            n <= self.body@.len(),
        ensures
            r == self.body@.subrange(0, n as int).contains(p),
    {
        let mut i: usize = 0;
        while i < n
            invariant
                n <= self.body@.len(),
                i <= n,
                forall|j: int| 0 <= j < i ==> self.body@[j] != p,
            decreases n - i,
        {
            if self.body[i] == p {
                assert(self.body@.subrange(0, n as int)[i as int] == p);
                return true;
            }
            i += 1;
        }
        assert(!self.body@.subrange(0, n as int).contains(p)) by {
            assert forall|k: int| 0 <= k < n implies self.body@.subrange(0, n as int)[k] != p by {
                assert(self.body@.subrange(0, n as int)[k] == self.body@[k]);
            }
        }
        false
    }
}

} // verus!
