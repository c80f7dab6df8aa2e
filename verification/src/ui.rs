//! Where the exit prompt goes on the screen.
//!
//! The areas are worked out by the layout solver of `ratatui`. The verifier
//! does not look into that crate: it is told that the solver cuts an area into
//! as many pieces as it was given sizes, and that every piece lies inside the
//! area and spans it across the direction of the cut. A cut that the solver
//! makes for given sizes has the name [`splits_into`].

use vstd::prelude::*;

verus! {

/// A rectangle of terminal cells.
#[derive(Clone, Copy, Debug, PartialEq, Eq, Structural)]
pub struct Rect {
    /// The column of the left edge.
    pub x: u16,
    /// The row of the top edge.
    pub y: u16,
    pub width: u16,
    pub height: u16,
}

/// The direction in which the pieces of a cut follow one another.
#[derive(Clone, Copy, Debug, PartialEq, Eq, Structural)]
pub enum Direction {
    Horizontal,
    Vertical,
}

impl Rect {
    /// The column just right of the rectangle, or the last column that there
    /// is if the rectangle reaches beyond it.
    pub open spec fn right(self) -> int {
        if self.x + self.width > u16::MAX {
            u16::MAX as int
        } else {
            self.x + self.width
        }
    }

    /// The row just below the rectangle, or the last row that there is if the
    /// rectangle reaches beyond it.
    pub open spec fn bottom(self) -> int {
        if self.y + self.height > u16::MAX {
            u16::MAX as int
        } else {
            self.y + self.height
        }
    }

    /// True if `inner` lies inside the rectangle.
    pub open spec fn encloses(self, inner: Rect) -> bool {
        &&& self.x <= inner.x
        &&& inner.x + inner.width <= self.right()
        &&& self.y <= inner.y
        &&& inner.y + inner.height <= self.bottom()
    }

    /// True if `piece` can come out of a cut of the rectangle in `direction`:
    /// it lies inside the rectangle and spans it across the direction.
    pub open spec fn has_piece(self, direction: Direction, piece: Rect) -> bool {
        match direction {
            Direction::Vertical => {
                &&& piece.x == self.x
                &&& piece.width == self.width
                &&& self.y <= piece.y
                &&& piece.y + piece.height <= self.bottom()
            },
            Direction::Horizontal => {
                &&& piece.y == self.y
                &&& piece.height == self.height
                &&& self.x <= piece.x
                &&& piece.x + piece.width <= self.right()
            },
        }
    }
}

/// True if the layout solver of `ratatui` can cut `area` into `pieces` when it
/// is asked for three pieces in `direction` that take `first`, `second` and
/// `third` percent of the area.
///
/// This names the relation between a call of `Layout::split` and what comes
/// back, not the result as a function of the call: for some mixes of sizes
/// the solver may settle on one of several cuts.
pub uninterp spec fn splits_into(
    direction: Direction,
    first: u16,
    second: u16,
    third: u16,
    area: Rect,
    pieces: Seq<Rect>,
) -> bool;

/// Calls `Layout::split` of `ratatui` on `area`, with the default layout in
/// the given direction and the three sizes as percentages of the area.
///
/// What comes back is a cut that the solver makes of the area for these
/// sizes. The solver hands back one piece for each size. Each piece has the
/// place and the extent of the area across the direction of the cut, and
/// along the direction it lies between the edges of the area. Where along the
/// direction the solver puts a piece, and how long it makes it, is not stated
/// here.
#[verifier::external_body]
fn split_by_percentages(direction: Direction, first: u16, second: u16, third: u16, area: Rect) -> (pieces:
    Vec<Rect>)
    ensures
        splits_into(direction, first, second, third, area, pieces@),
        pieces@.len() == 3,
        forall|i: int| 0 <= i < 3 ==> area.has_piece(direction, #[trigger] pieces@[i]),
{
    let direction = match direction {
        Direction::Horizontal => ratatui::layout::Direction::Horizontal,
        Direction::Vertical => ratatui::layout::Direction::Vertical,
    };
    let sizes = [first, second, third].map(ratatui::layout::Constraint::Percentage);
    let area = ratatui::layout::Rect { x: area.x, y: area.y, width: area.width, height: area.height };
    let pieces = ratatui::layout::Layout::default().direction(direction).constraints(sizes).split(area);
    pieces.iter().map(|p| Rect { x: p.x, y: p.y, width: p.width, height: p.height }).collect()
}

/// The share that is left on either side of a centered piece that takes
/// `percent` of the whole: half of the rest, rounded down.
pub open spec fn side_share(percent: u16) -> int {
    (100 - percent) / 2
}

/// The percentage that is left on either side of a centered piece that takes
/// `percent` percent of the whole.
pub fn side_percentage(percent: u16) -> (side: u16)
    requires
        percent <= 100,
    ensures
        side == side_share(percent),
{
    (100 - percent) / 2
}

/// A rectangle in the middle of `r`, for a dialog laid over a screen.
///
/// `r` is cut into three rows, the middle one `percent_y` percent high with
/// half of the rest above it and below it, and that row is cut into three
/// columns, the middle one `percent_x` percent wide with half of the rest on
/// either side; the middle column is the result. The exact cells are the
/// layout solver's to choose; whatever it chooses, the result lies inside
/// `r`.
pub fn centered_rect(percent_x: u16, percent_y: u16, r: Rect) -> (popup: Rect)
    requires
        percent_x <= 100,
        percent_y <= 100,
    ensures
        r.encloses(popup),
        exists|rows: Seq<Rect>, columns: Seq<Rect>|
            rows.len() == 3 && columns.len() == 3 && #[trigger] splits_into(
                Direction::Vertical,
                side_share(percent_y) as u16,
                percent_y,
                side_share(percent_y) as u16,
                r,
                rows,
            ) && #[trigger] splits_into(
                Direction::Horizontal,
                side_share(percent_x) as u16,
                percent_x,
                side_share(percent_x) as u16,
                rows[1],
                columns,
            ) && popup == columns[1],
{
    let above = side_percentage(percent_y);
    let rows = split_by_percentages(Direction::Vertical, above, percent_y, above, r);
    let beside = side_percentage(percent_x);
    let columns = split_by_percentages(Direction::Horizontal, beside, percent_x, beside, rows[1]);
    assert(splits_into(
        Direction::Vertical,
        side_share(percent_y) as u16,
        percent_y,
        side_share(percent_y) as u16,
        r,
        rows@,
    ));
    assert(splits_into(
        Direction::Horizontal,
        side_share(percent_x) as u16,
        percent_x,
        side_share(percent_x) as u16,
        rows@[1],
        columns@,
    ));
    columns[1]
}

} // verus!
