//! The track layer of a level: which cells of its tile grid hold track.
use vstd::prelude::*;

verus! {

/// Mathematical model of a track layer: a `width` by `height` grid, stored
/// row by row, of cells that either hold a track tile or not.
pub ghost struct TrackGrid {
    pub width: nat,
    pub height: nat,
    pub cells: Seq<bool>,
}

impl TrackGrid {
    /// Index of cell (`x`, `y`) in `cells`.
    pub open spec fn index(self, x: int, y: int) -> int {
        y * self.width + x
    }

    /// Whether (`x`, `y`) is a cell of the grid that holds track; nothing
    /// outside the grid is track.
    pub open spec fn on_track(self, x: int, y: int) -> bool {
        0 <= x < self.width && 0 <= y < self.height && self.cells[self.index(x, y)]
    }
}

/// The track layer of a level.
pub struct TrackMask {
    width: u32,
    height: u32,
    cells: Vec<bool>,
}

impl View for TrackMask {
    type V = TrackGrid;

    closed spec fn view(&self) -> TrackGrid {
        TrackGrid { width: self.width as nat, height: self.height as nat, cells: self.cells@ }
    }
}

impl TrackMask {
    #[verifier::type_invariant]
    spec fn well_formed(self) -> bool {
        self.cells@.len() == self.width * self.height
    }

    /// The grid of `width` by `height` cells given row by row; `None` when
    /// `cells` does not hold exactly that many cells.
    pub fn new(width: u32, height: u32, cells: Vec<bool>) -> (r: Option<TrackMask>)
        ensures
            r is Some <==> cells@.len() == width * height,
            r matches Some(m) ==> m@ == (TrackGrid {
                width: width as nat,
                height: height as nat,
                cells: cells@,
            }),
    {
        proof {
            assert(width as u64 * height as u64 <= u64::MAX) by (nonlinear_arith)
                requires
                    width <= u32::MAX,
                    height <= u32::MAX,
            ;
        }
        let n = width as u64 * height as u64;
        if cells.len() as u64 == n {
            Some(TrackMask { width, height, cells })
        } else {
            None
        }
    }

    /// Width of the grid, in cells.
    pub fn width(&self) -> (r: u32)
        ensures
            r == self@.width,
    {
        self.width
    }

    /// Height of the grid, in cells.
    pub fn height(&self) -> (r: u32)
        ensures
            r == self@.height,
    {
        self.height
    }

    /// The cells, row by row.
    pub fn cells(&self) -> (r: &Vec<bool>)
        ensures
            r@ == self@.cells,
            r@.len() == self@.width * self@.height,
    {
        proof {
            use_type_invariant(self);
        }
        &self.cells
    }

    /// Whether cell (`x`, `y`) holds track. Coordinates outside the grid,
    /// negative ones included, are off track.
    pub fn is_on_track(&self, x: i32, y: i32) -> (r: bool)
        ensures
            r == self@.on_track(x as int, y as int),
    {
        proof {
            use_type_invariant(self);
        }
        if x < 0 || y < 0 || x as u32 >= self.width || y as u32 >= self.height {
            false
        } else {
            let (xu, yu, w) = (x as usize, y as usize, self.width as usize);
            let n = self.cells.len();
            proof {
                assert(yu * w + xu < n && yu * w <= yu * w + xu) by (nonlinear_arith)
                    requires
                        xu < w,
                        yu < self.height,
                        w == self.width,
                        n == self.width * self.height,
                ;
            }
            self.cells[yu * w + xu]
        }
    }
}

} // verus!
