//! How the screen is divided between the entry in progress and the pane at the bottom.
use vstd::prelude::*;

verus! {

/// An area of the screen.
#[derive(Clone, Copy, Debug, PartialEq, Eq, Structural)]
pub struct Rect {
    pub x: u16,
    pub y: u16,
    pub width: u16,
    pub height: u16,
}

/// The number of rows of an area that lie on the screen: none lies below the largest row number.
pub open spec fn rows_on_screen(area: Rect) -> int {
    if area.y + area.height <= u16::MAX {
        area.height as int
    } else {
        u16::MAX - area.y
    }
}

/// The minimum that is kept for the lower part. One too large for a signed 16-bit number counts
/// as none.
pub open spec fn effective_minimum(min: u16) -> int {
    if min <= i16::MAX {
        min as int
    } else {
        0
    }
}

/// The rows of the upper part, where it gets at most `max` rows and the lower part at least `min`:
/// as many as the maximum and what the minimum leaves allow.
pub open spec fn upper_rows(area: Rect, max: u16, min: u16) -> int {
    let left = rows_on_screen(area) - effective_minimum(min);
    if left < 0 {
        0
    } else if left < max {
        left
    } else {
        max as int
    }
}

/// The two parts of an area, one above the other.
pub open spec fn stacked(area: Rect, max: u16, min: u16) -> (Rect, Rect) {
    let upper = upper_rows(area, max, min);
    (
        Rect { height: upper as u16, ..area },
        Rect {
            y: (area.y + upper) as u16,
            height: (rows_on_screen(area) - upper) as u16,
            ..area
        },
    )
}

/// `ratatui`'s `Layout::vertical` with a maximum for the first part and a minimum for the
/// second, and `Layout::areas`. The minimum goes before the maximum, the first part is as large
/// as both allow, and the second part takes all the rest.
#[verifier::external_body]
pub(crate) fn split_rows(area: Rect, max: u16, min: u16) -> (r: (Rect, Rect))
    ensures
        r == stacked(area, max, min),
{
    let constraints =
        [ratatui::layout::Constraint::Max(max), ratatui::layout::Constraint::Min(min)];
    let whole = ratatui::layout::Rect {
        x: area.x, y: area.y, width: area.width, height: area.height,
    };
    let [a, b]: [ratatui::layout::Rect; 2] =
        ratatui::layout::Layout::vertical(constraints).areas(whole);
    (
        Rect { x: a.x, y: a.y, width: a.width, height: a.height },
        Rect { x: b.x, y: b.y, width: b.width, height: b.height },
    )
}

} // verus!
