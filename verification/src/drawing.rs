//! Line-segment primitives for the receipt drawing. All coordinates are in
//! tenths of a millimetre from the page's bottom-left corner, so that every
//! position used by the fixed layout is an exact integer.

use vstd::prelude::*;

verus! {

/// Page width in tenths of a millimetre (A5 portrait).
pub const PAGE_WIDTH_TENTH_MM: i64 = 1480;

/// Page height in tenths of a millimetre (A5 portrait).
pub const PAGE_HEIGHT_TENTH_MM: i64 = 2100;

/// Height of the horizontal rule separating the two receipts of a page.
pub const SPLIT_LINE_Y_TENTH_MM: i64 = 1140;

/// A straight line segment from `(x1, y1)` to `(x2, y2)`, in tenths of a
/// millimetre.
pub struct LineSeg {
    pub x1: i64,
    pub y1: i64,
    pub x2: i64,
    pub y2: i64,
}

/// Mathematical view of a line segment.
pub struct LineSegView {
    pub x1: int,
    pub y1: int,
    pub x2: int,
    pub y2: int,
}

impl View for LineSeg {
    type V = LineSegView;

    open spec fn view(&self) -> LineSegView {
        LineSegView { x1: self.x1 as int, y1: self.y1 as int, x2: self.x2 as int, y2: self.y2 as int }
    }
}

/// The full-width rule that splits a page into a top and a bottom receipt.
pub fn draw_bill_split_line() -> (l: LineSeg)
    ensures
        l@ == (LineSegView { x1: 0, y1: SPLIT_LINE_Y_TENTH_MM as int, x2: PAGE_WIDTH_TENTH_MM as int, y2: SPLIT_LINE_Y_TENTH_MM as int }),
{
    LineSeg { x1: 0, y1: SPLIT_LINE_Y_TENTH_MM, x2: PAGE_WIDTH_TENTH_MM, y2: SPLIT_LINE_Y_TENTH_MM }
}

/// A horizontal line at height `y` running from `start` to `end`.
pub fn draw_line(y: i64, start: i64, end: i64) -> (l: LineSeg)
    ensures
        l@ == (LineSegView { x1: start as int, y1: y as int, x2: end as int, y2: y as int }),
{
    LineSeg { x1: start, y1: y, x2: end, y2: y }
}

/// A vertical line at abscissa `x` running from `start` to `end`.
pub fn draw_vetical_line(x: i64, start: i64, end: i64) -> (l: LineSeg)
    ensures
        l@ == (LineSegView { x1: x as int, y1: start as int, x2: x as int, y2: end as int }),
{
    LineSeg { x1: x, y1: start, x2: x, y2: end }
}

} // verus!
