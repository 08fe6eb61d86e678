//! Screen rectangles in terminal cells.
use vstd::prelude::*;

verus! {

/// A rectangle of terminal cells whose right and bottom edges fit in `u16`.
#[derive(Debug, Clone, Copy, PartialEq, Eq)]
pub struct Rect {
    x: u16,
    y: u16,
    width: u16,
    height: u16,
}

impl Rect {
    #[verifier::type_invariant]
    spec fn edges_fit(self) -> bool {
        self.x + self.width <= u16::MAX && self.y + self.height <= u16::MAX
    }

    /// The left column.
    pub closed spec fn spec_x(&self) -> u16 {
        self.x
    }

    /// The top row.
    pub closed spec fn spec_y(&self) -> u16 {
        self.y
    }

    /// The number of columns.
    pub closed spec fn spec_width(&self) -> u16 {
        self.width
    }

    /// The number of rows.
    pub closed spec fn spec_height(&self) -> u16 {
        self.height
    }

    /// A rectangle at `(x, y)`; a width or height that would carry the right
    /// or bottom edge past `u16::MAX` is clamped so that the edge stays there.
    pub fn new(x: u16, y: u16, width: u16, height: u16) -> (r: Rect)
        ensures
            r.spec_x() == x,
            r.spec_y() == y,
            r.spec_width() == (if width > u16::MAX - x { (u16::MAX - x) as u16 } else { width }),
            r.spec_height() == (if height > u16::MAX - y { (u16::MAX - y) as u16 } else { height }),
    {
        let max_width = u16::MAX - x;
        let max_height = u16::MAX - y;
        let width = if width > max_width { max_width } else { width };
        let height = if height > max_height { max_height } else { height };
        Rect { x, y, width, height }
    }

    /// The left column.
    #[verifier::when_used_as_spec(spec_x)]
    pub fn x(&self) -> (r: u16)
        ensures
            r == self.spec_x(),
    {
        self.x
    }

    /// The top row.
    #[verifier::when_used_as_spec(spec_y)]
    pub fn y(&self) -> (r: u16)
        ensures
            r == self.spec_y(),
    {
        self.y
    }

    /// The number of columns.
    #[verifier::when_used_as_spec(spec_width)]
    pub fn width(&self) -> (r: u16)
        ensures
            r == self.spec_width(),
            self.spec_x() + r <= u16::MAX,
    {
        proof { use_type_invariant(self); }
        self.width
    }

    /// The number of rows.
    #[verifier::when_used_as_spec(spec_height)]
    pub fn height(&self) -> (r: u16)
        ensures
            r == self.spec_height(),
            self.spec_y() + r <= u16::MAX,
    {
        proof { use_type_invariant(self); }
        self.height
    }

    /// Whether the cell `(col, row)` lies inside the rectangle.
    pub open spec fn contains(self, col: u16, row: u16) -> bool {
        &&& self.spec_x() <= col < self.spec_x() + self.spec_width()
        &&& self.spec_y() <= row < self.spec_y() + self.spec_height()
    }
}

/// Whether the cell `(col, row)` lies inside `rect`.
pub fn in_rect(rect: Rect, col: u16, row: u16) -> (inside: bool)
    ensures
        inside == rect.contains(col, row),
        inside == (rect.spec_x() <= col && col < rect.spec_x() + rect.spec_width() && rect.spec_y() <= row
            && row < rect.spec_y() + rect.spec_height()),
{
    let width = rect.width();
    let height = rect.height();
    col >= rect.x() && col < rect.x() + width && row >= rect.y() && row < rect.y() + height
}

} // verus!
