use vstd::prelude::*;

verus! {

/// A cell position: display column `x` and row `y`.
#[derive(Debug, Clone, Copy, PartialEq, Eq, Structural)]
pub struct Loc {
    pub x: isize,
    pub y: isize,
}

impl Loc {
    pub fn new(x: isize, y: isize) -> (r: Loc)
        ensures
            r.x == x,
            r.y == y,
    {
        Loc { x, y }
    }

    /// The position shifted by `dx` columns and `dy` rows.
    pub open spec fn shifted(self, dx: int, dy: int) -> (int, int) {
        (self.x + dx, self.y + dy)
    }

    /// Whether every neighbour of the position is representable.
    pub open spec fn interior(self) -> bool {
        isize::MIN < self.x < isize::MAX && isize::MIN < self.y < isize::MAX
    }

    pub fn top(&self) -> (r: Loc)
        requires
            self.y > isize::MIN,
        ensures
            (r.x as int, r.y as int) == self.shifted(0, -1),
    {
        Loc { x: self.x, y: self.y - 1 }
    }

    pub fn left(&self) -> (r: Loc)
        requires
            self.x > isize::MIN,
        ensures
            (r.x as int, r.y as int) == self.shifted(-1, 0),
    {
        Loc { x: self.x - 1, y: self.y }
    }

    pub fn bottom(&self) -> (r: Loc)
        requires
            self.y < isize::MAX,
        ensures
            (r.x as int, r.y as int) == self.shifted(0, 1),
    {
        Loc { x: self.x, y: self.y + 1 }
    }

    pub fn right(&self) -> (r: Loc)
        requires
            self.x < isize::MAX,
        ensures
            (r.x as int, r.y as int) == self.shifted(1, 0),
    {
        Loc { x: self.x + 1, y: self.y }
    }

    pub fn top_left(&self) -> (r: Loc)
        requires
            self.x > isize::MIN,
            self.y > isize::MIN,
        ensures
            (r.x as int, r.y as int) == self.shifted(-1, -1),
    {
        Loc { x: self.x - 1, y: self.y - 1 }
    }

    pub fn top_right(&self) -> (r: Loc)
        requires
            self.x < isize::MAX,
            self.y > isize::MIN,
        ensures
            (r.x as int, r.y as int) == self.shifted(1, -1),
    {
        Loc { x: self.x + 1, y: self.y - 1 }
    }

    pub fn bottom_left(&self) -> (r: Loc)
        requires
            self.x > isize::MIN,
            self.y < isize::MAX,
        ensures
            (r.x as int, r.y as int) == self.shifted(-1, 1),
    {
        Loc { x: self.x - 1, y: self.y + 1 }
    }

    pub fn bottom_right(&self) -> (r: Loc)
        requires
            self.x < isize::MAX,
            self.y < isize::MAX,
        ensures
            (r.x as int, r.y as int) == self.shifted(1, 1),
    {
        Loc { x: self.x + 1, y: self.y + 1 }
    }

    /// The offsets of the eight neighbours, in the order `neighbors` lists them.
    pub open spec fn neighbor_offsets() -> Seq<(int, int)> {
        seq![(0, -1), (0, 1), (-1, 0), (1, 0), (-1, -1), (1, -1), (-1, 1), (1, 1)]
    }

    /// The eight neighbours: top, bottom, left, right, then the corners top
    /// left, top right, bottom left and bottom right.
    pub fn neighbors(&self) -> (r: Vec<Loc>)
        requires
            self.interior(),
        ensures
            r@.len() == 8,
            forall|i: int|
                0 <= i < 8 ==> {
                    let d = #[trigger] Self::neighbor_offsets()[i];
                    (r@[i].x as int, r@[i].y as int) == self.shifted(d.0, d.1)
                },
    {
        let r = vec![
            self.top(),
            self.bottom(),
            self.left(),
            self.right(),
            self.top_left(),
            self.top_right(),
            self.bottom_left(),
            self.bottom_right(),
        ];
        r
    }
}

} // verus!
