//! The fixed partition of the grid into four quadrant windows.
use crate::pane::{HEIGHT, WIDTH};
use vstd::prelude::*;

verus! {

/// How many windows share the grid.
pub const NUM_WINDOWS: usize = 4;

/// First row of the lower two windows.
pub const MID_ROW: usize = HEIGHT / 2;

/// First column of the right two windows.
pub const MID_COL: usize = WIDTH / 2;

/// A rectangle of grid cells; all four bounds are inclusive.
#[derive(Clone, Copy, Debug, PartialEq, Eq, Structural)]
pub struct Rect {
    pub top: usize,
    pub left: usize,
    pub bottom: usize,
    pub right: usize,
}

impl Rect {
    /// Whether the cell at column `x`, row `y` lies in the rectangle.
    pub open spec fn contains(self, x: int, y: int) -> bool {
        self.left <= x <= self.right && self.top <= y <= self.bottom
    }

    /// Whether the two rectangles share no cell.
    pub open spec fn disjoint(self, other: Rect) -> bool {
        self.right < other.left || other.right < self.left || self.bottom < other.top
            || other.bottom < self.top
    }

    /// Bounds in order, and the rectangle inside the grid.
    pub open spec fn on_grid(self) -> bool {
        self.top <= self.bottom && self.left <= self.right && self.bottom < HEIGHT && self.right
            < WIDTH
    }
}

/// The rectangle of window `id`: top-left, top-right, bottom-left, bottom-right.
pub open spec fn quadrant(id: int) -> Rect {
    let upper = id == 0 || id == 1;
    let west = id == 0 || id == 2;
    Rect {
        top: if upper { 0 } else { MID_ROW },
        left: if west { 0 } else { MID_COL },
        bottom: if upper { (MID_ROW - 1) as usize } else { (HEIGHT - 1) as usize },
        right: if west { (MID_COL - 1) as usize } else { (WIDTH - 1) as usize },
    }
}

/// The four quadrant rectangles, indexed by window id.
pub fn quadrants() -> (r: Vec<Rect>)
    ensures
        r@.len() == NUM_WINDOWS,
        forall|i: int| 0 <= i < NUM_WINDOWS ==> r@[i] == quadrant(i),
{
    let mut r: Vec<Rect> = Vec::new();
    r.push(Rect { top: 0, left: 0, bottom: MID_ROW - 1, right: MID_COL - 1 });
    r.push(Rect { top: 0, left: MID_COL, bottom: MID_ROW - 1, right: WIDTH - 1 });
    r.push(Rect { top: MID_ROW, left: 0, bottom: HEIGHT - 1, right: MID_COL - 1 });
    r.push(Rect { top: MID_ROW, left: MID_COL, bottom: HEIGHT - 1, right: WIDTH - 1 });
    r
}

/// The quadrant windows are pairwise disjoint and each lies inside the grid.
pub proof fn lemma_quadrants_tile()
    ensures
        forall|i: int, j: int|
            0 <= i < NUM_WINDOWS && 0 <= j < NUM_WINDOWS && i != j ==> #[trigger] quadrant(
                i,
            ).disjoint(#[trigger] quadrant(j)),
        forall|i: int| 0 <= i < NUM_WINDOWS ==> #[trigger] quadrant(i).on_grid(),
{
}

} // verus!
