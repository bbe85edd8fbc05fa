//! Cells, herds and the arithmetic of where a herd stands.

use vstd::prelude::*;

verus! {

/// Side length of the square grid on which fleets are placed.
pub const GRID_SIZE: u8 = 10;

/// One cell of the grid, by column `x` and row `y`.
#[derive(Clone, Copy, Debug, PartialEq, Eq, Structural)]
pub struct Coords {
    pub x: u8,
    pub y: u8,
}

/// The axis along which a herd extends from its origin.
#[derive(Clone, Copy, Debug, PartialEq, Eq, Structural)]
pub enum Orientation {
    Horizontal,
    Vertical,
}

/// A fleet unit: `length` consecutive cells that start at `coords` and run
/// along `orientation`.
#[derive(Clone, Copy, Debug, PartialEq, Eq, Structural)]
pub struct Herd {
    pub coords: Coords,
    pub length: u8,
    pub orientation: Orientation,
}

impl Coords {
    /// The cell as a point of the unbounded integer plane.
    pub open spec fn cell(self) -> (int, int) {
        (self.x as int, self.y as int)
    }

    pub fn new(x: u8, y: u8) -> (c: Coords)
        ensures
            c == (Coords { x, y }),
    {
        Coords { x, y }
    }
}

/// Whether the point `p` lies on the square grid of side `grid`.
pub open spec fn on_grid(p: (int, int), grid: int) -> bool {
    0 <= p.0 < grid && 0 <= p.1 < grid
}

impl Herd {
    /// The `k`-th cell of the herd, counted from its origin.
    pub open spec fn cell_at(self, k: int) -> (int, int) {
        match self.orientation {
            Orientation::Horizontal => (self.coords.x + k, self.coords.y as int),
            Orientation::Vertical => (self.coords.x as int, self.coords.y + k),
        }
    }

    /// Whether the herd stands on the point `p`.
    pub open spec fn covers(self, p: (int, int)) -> bool {
        match self.orientation {
            Orientation::Horizontal => p.1 == self.coords.y && self.coords.x <= p.0
                < self.coords.x + self.length,
            Orientation::Vertical => p.0 == self.coords.x && self.coords.y <= p.1
                < self.coords.y + self.length,
        }
    }

    /// The set of points on which the herd stands.
    pub open spec fn cells(self) -> Set<(int, int)> {
        Set::new(|p: (int, int)| self.covers(p))
    }

    /// Whether every cell of the herd lies on the grid of side `grid`.
    pub open spec fn in_bounds(self, grid: int) -> bool {
        forall|p: (int, int)| self.covers(p) ==> on_grid(p, grid)
    }

    /// Whether the two herds share a cell.
    pub open spec fn overlaps(self, other: Herd) -> bool {
        exists|p: (int, int)| self.covers(p) && other.covers(p)
    }

    /// The cells of the herd in order from its origin, as `Coords`. This
    /// lists the herd's cells when the herd is representable.
    pub open spec fn cell_list(self) -> Seq<Coords> {
        Seq::new(
            self.length as nat,
            |k: int| Coords { x: self.cell_at(k).0 as u8, y: self.cell_at(k).1 as u8 },
        )
    }

    /// Whether every cell of the herd can be written as `Coords`.
    pub open spec fn representable(self) -> bool {
        forall|p: (int, int)| self.covers(p) ==> p.0 <= u8::MAX && p.1 <= u8::MAX
    }

    pub fn new(x: u8, y: u8, length: u8, orientation: Orientation) -> (h: Herd)
        ensures
            h == (Herd { coords: Coords { x, y }, length, orientation }),
    {
        Herd { coords: Coords { x, y }, length, orientation }
    }

    /// The coordinate of the origin along the herd's axis.
    pub open spec fn axis_start(self) -> int {
        match self.orientation {
            Orientation::Horizontal => self.coords.x as int,
            Orientation::Vertical => self.coords.y as int,
        }
    }

    /// The coordinate of the origin across the herd's axis.
    pub open spec fn axis_lane(self) -> int {
        match self.orientation {
            Orientation::Horizontal => self.coords.y as int,
            Orientation::Vertical => self.coords.x as int,
        }
    }

    fn start(&self) -> (s: u16)
        ensures
            s == self.axis_start(),
    {
        match self.orientation {
            Orientation::Horizontal => self.coords.x as u16,
            Orientation::Vertical => self.coords.y as u16,
        }
    }

    fn lane(&self) -> (s: u16)
        ensures
            s == self.axis_lane(),
    {
        match self.orientation {
            Orientation::Horizontal => self.coords.y as u16,
            Orientation::Vertical => self.coords.x as u16,
        }
    }

    /// Whether the herd stands on the cell `c`.
    pub fn stands_on(&self, c: Coords) -> (b: bool)
        ensures
            b == self.covers(c.cell()),
    {
        let end: u16 = self.start() + self.length as u16;
        match self.orientation {
            Orientation::Horizontal => c.y == self.coords.y && self.coords.x <= c.x && (c.x as u16)
                < end,
            Orientation::Vertical => c.x == self.coords.x && self.coords.y <= c.y && (c.y as u16)
                < end,
        }
    }
}

/// The cells of a herd are exactly its `length` cells counted from the origin.
pub proof fn cells_are_counted_from_the_origin(h: Herd, p: (int, int))
    ensures
        h.covers(p) <==> exists|k: int| 0 <= k < h.length && h.cell_at(k) == p,
{
    if h.covers(p) {
        let k = match h.orientation {
            Orientation::Horizontal => p.0 - h.coords.x,
            Orientation::Vertical => p.1 - h.coords.y,
        };
        assert(0 <= k < h.length && h.cell_at(k) == p);
    }
}

/// Whether `coords` lies on the square grid of side `grid_size`.
pub fn within_bounds(coords: Coords, grid_size: u8) -> (b: bool)
    ensures
        b == on_grid(coords.cell(), grid_size as int),
{
    coords.x < grid_size && coords.y < grid_size
}

/// Whether every cell of `herd` lies on the square grid of side `grid_size`.
pub fn herd_within_bounds(herd: &Herd, grid_size: u8) -> (b: bool)
    ensures
        b == herd.in_bounds(grid_size as int),
{
    if herd.length == 0 {
        return true;
    }
    let grid: u16 = grid_size as u16;
    let end: u16 = herd.start() + herd.length as u16;
    let b = herd.lane() < grid && end <= grid;
    proof {
        let first = herd.cell_at(0);
        let last = herd.cell_at(herd.length - 1);
        assert(herd.covers(first));
        assert(herd.covers(last));
    }
    b
}

/// The cells on which `herd` stands, in order from its origin, or `None`
/// when the herd runs past the largest coordinate that `Coords` can hold.
pub fn occupied_cells(herd: &Herd) -> (cells: Option<Vec<Coords>>)
    ensures
        cells is Some <==> herd.representable(),
        cells matches Some(v) ==> v@ == herd.cell_list() && forall|k: int|
            0 <= k < v.len() ==> (#[trigger] v[k]).cell() == herd.cell_at(k),
{
    let end: u16 = herd.start() + herd.length as u16;
    if herd.length > 0 && end > 256 {
        proof {
            let last = herd.cell_at(herd.length - 1);
            assert(herd.covers(last));
        }
        return None;
    }
    let mut v: Vec<Coords> = Vec::new();
    let mut k: u8 = 0;
    while k < herd.length
        invariant
            k <= herd.length,
            herd.length == 0 || herd.axis_start() + herd.length <= 256,
            v.len() == k,
            forall|j: int| 0 <= j < v.len() ==> (#[trigger] v[j]).cell() == herd.cell_at(j),
            forall|j: int| 0 <= j < v.len() ==> #[trigger] v[j] == herd.cell_list()[j],
        decreases herd.length - k,
    {
        let c = match herd.orientation {
            Orientation::Horizontal => Coords { x: herd.coords.x + k, y: herd.coords.y },
            Orientation::Vertical => Coords { x: herd.coords.x, y: herd.coords.y + k },
        };
        v.push(c);
        k = k + 1;
    }
    assert(v@ =~= herd.cell_list());
    Some(v)
}

/// Whether the two herds share a cell.
pub fn herds_overlap(a: &Herd, b: &Herd) -> (r: bool)
    ensures
        r == a.overlaps(*b),
{
    if a.length == 0 || b.length == 0 {
        return false;
    }
    let a_start: u16 = a.start();
    let a_end: u16 = a_start + a.length as u16;
    let b_start: u16 = b.start();
    let b_end: u16 = b_start + b.length as u16;
    match (a.orientation, b.orientation) {
        (Orientation::Horizontal, Orientation::Horizontal) | (
            Orientation::Vertical,
            Orientation::Vertical,
        ) => {
            let lo: u16 = if a_start < b_start { b_start } else { a_start };
            let r = a.lane() == b.lane() && lo < a_end && lo < b_end;
            proof {
                if r {
                    let p = a.cell_at(lo - a_start);
                    assert(a.covers(p) && b.covers(p));
                }
            }
            r
        },
        _ => {
            // The herds are at right angles: only the crossing of their two
            // lines can be shared.
            let r = a_start <= b.lane() && b.lane() < a_end && b_start <= a.lane() && a.lane()
                < b_end;
            proof {
                if r {
                    let p = a.cell_at(b.axis_lane() - a_start);
                    assert(a.covers(p) && b.covers(p));
                }
            }
            r
        },
    }
}

} // verus!
