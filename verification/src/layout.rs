//! Rectangles of terminal cells, and the split of the screen into body and
//! footer, which is left to ratatui's layout solver.

use ratatui::layout::{Constraint, Direction, Layout, Rect};
use vstd::prelude::*;

verus! {

/// A rectangle of terminal cells: its top left corner and its size.
#[derive(Debug, Clone, Copy, PartialEq, Eq, Structural)]
pub struct Area {
    pub x: u16,
    pub y: u16,
    pub width: u16,
    pub height: u16,
}

impl Area {
    /// This rectangle is a band of `area`: it has the left edge and the
    /// width of `area`, and its rows are rows of `area`.
    pub open spec fn is_band_of(self, area: Area) -> bool {
        &&& self.x == area.x
        &&& self.width == area.width
        &&& area.y <= self.y
        &&& self.y + self.height <= area.y + area.height
    }
}

/// The two regions that ratatui's constraint solver makes of `area` when it
/// is split top to bottom into an upper region of at least `upper_min` rows
/// and a lower region of `lower_len` rows: upper first, lower second.
pub uninterp spec fn vertical_split(area: Area, upper_min: u16, lower_len: u16) -> (Area, Area);

/// Calls `ratatui::layout::Layout::split` on a vertical layout with the two
/// constraints `Min(upper_min)` and `Length(lower_len)`.
///
/// Trusted: the result is a function of the arguments alone, named
/// `vertical_split`. A vertical split hands every region the left edge and
/// the width of the area it was given, and the solver is required to keep
/// every region's first and last row inside that area. How it shares the
/// rows out between the two regions is not stated.
#[verifier::external_body]
pub(crate) fn split_vertical(area: Area, upper_min: u16, lower_len: u16) -> (parts: (Area, Area))
    ensures
        parts == vertical_split(area, upper_min, lower_len),
        parts.0.is_band_of(area),
        parts.1.is_band_of(area),
{
    let rect = Rect { x: area.x, y: area.y, width: area.width, height: area.height };
    let parts = Layout::default()
        .direction(Direction::Vertical)
        .constraints([Constraint::Min(upper_min), Constraint::Length(lower_len)])
        .split(rect);
    let (a, b) = (parts[0], parts[1]);
    (
        Area { x: a.x, y: a.y, width: a.width, height: a.height },
        Area { x: b.x, y: b.y, width: b.width, height: b.height },
    )
}

} // verus!
