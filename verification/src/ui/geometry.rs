//! Rectangles of screen cells.

use vstd::prelude::*;
use ratatui::layout::Constraint;
use ratatui::layout::Layout;

verus! {

/// A rectangle of screen cells.
#[derive(Clone, Copy, Debug, PartialEq, Eq, Structural)]
pub struct Rect {
    pub x: u16,
    pub y: u16,
    pub width: u16,
    pub height: u16,
}

/// A length cut so that it ends at the last cell that can be addressed.
pub open spec fn cut(start: u16, length: u16) -> u16 {
    if start + length > u16::MAX {
        (u16::MAX - start) as u16
    } else {
        length
    }
}

/// The rectangle of the given place and size, cut at the last cells that can be
/// addressed.
pub open spec fn rect(x: u16, y: u16, width: u16, height: u16) -> Rect {
    Rect { x, y, width: cut(x, width), height: cut(y, height) }
}

/// The rectangle without cells at the origin, which stands for nothing to draw.
pub open spec fn nowhere() -> Rect {
    Rect { x: 0, y: 0, width: 0, height: 0 }
}

impl Default for Rect {
    fn default() -> (r: Self)
        ensures
            r == nowhere(),
    {
        Rect { x: 0, y: 0, width: 0, height: 0 }
    }
}

impl Rect {
    /// Whether every cell of the rectangle can be addressed.
    pub open spec fn wf(self) -> bool {
        self.x + self.width <= u16::MAX && self.y + self.height <= u16::MAX
    }

    /// The column behind the last one.
    pub open spec fn right(self) -> int {
        self.x + self.width
    }

    /// The row below the last one.
    pub open spec fn bottom(self) -> int {
        self.y + self.height
    }

    /// Whether a rectangle lies in another.
    pub open spec fn within(self, other: Rect) -> bool {
        other.x <= self.x && other.y <= self.y && self.right() <= other.right() && self.bottom()
            <= other.bottom()
    }

    /// The rectangle of the given place and size, cut at the last cells that can
    /// be addressed.
    pub fn new(x: u16, y: u16, width: u16, height: u16) -> (r: Self)
        ensures
            r == rect(x, y, width, height),
            r.wf(),
    {
        let max_width: u16 = u16::MAX - x;
        let max_height: u16 = u16::MAX - y;
        Rect {
            x,
            y,
            width: if width > max_width {
                max_width
            } else {
                width
            },
            height: if height > max_height {
                max_height
            } else {
                height
            },
        }
    }
}

/// What is left of a rectangle inside a border of one cell.
pub open spec fn inset(popup: Rect) -> Rect {
    rect(
        (popup.x + 1) as u16,
        (popup.y + 1) as u16,
        less(popup.width, 2),
        less(popup.height, 2),
    )
}

/// A difference that does not go below zero.
pub open spec fn less(a: u16, b: u16) -> u16 {
    if a >= b {
        (a - b) as u16
    } else {
        0
    }
}

/// What is left of a rectangle inside a border of one cell.
pub fn inside_border(popup: Rect) -> (r: Rect)
    requires
        popup.x < u16::MAX,
        popup.y < u16::MAX,
    ensures
        r == inset(popup),
        r.wf(),
{
    Rect::new(
        popup.x + 1,
        popup.y + 1,
        popup.width.saturating_sub(2),
        popup.height.saturating_sub(2),
    )
}

/// The lines that the first `n` of some lengths take together.
pub open spec fn lines_of(lengths: Seq<u16>, n: int) -> int
    decreases n,
{
    if n <= 0 {
        0
    } else {
        lines_of(lengths, n - 1) + lengths[n - 1]
    }
}

/// Whether rows of the given lengths fit into a rectangle.
pub open spec fn rows_fit(area: Rect, lengths: Seq<u16>) -> bool {
    lines_of(lengths, lengths.len() as int) <= area.height
}

/// The rows of the given lengths from the top of a rectangle down, with or without a
/// last one for what is left.
pub open spec fn stacked_rows(area: Rect, lengths: Seq<u16>, rest: bool) -> Seq<Rect> {
    Seq::new(
        lengths.len() + if rest {
            1nat
        } else {
            0
        },
        |i: int|
            Rect {
                x: area.x,
                y: (area.y + lines_of(lengths, i)) as u16,
                width: area.width,
                height: if i < lengths.len() {
                    lengths[i]
                } else {
                    (area.height - lines_of(lengths, i)) as u16
                },
            },
    )
}

/// Whether rows are a division of a rectangle into rows of the given lengths, with or
/// without a last one for what is left. Rows that fit are stacked. Of rows that do
/// not fit it is left open which ones are cut: each is as wide as the rectangle and
/// lies in it.
pub open spec fn divides(area: Rect, lengths: Seq<u16>, rest: bool, rows: Seq<Rect>) -> bool {
    &&& rows.len() == stacked_rows(area, lengths, rest).len()
    &&& forall|i: int|
        0 <= i < rows.len() ==> (#[trigger] rows[i]).x == area.x && rows[i].width == area.width
            && rows[i].within(area)
    &&& rows_fit(area, lengths) ==> rows == stacked_rows(area, lengths, rest)
}

/// `ratatui::layout::Layout::split`, for a vertical layout of a `Length` constraint
/// for each row and, for what is left, a `Min(0)` constraint. It gives one rectangle
/// for each constraint, each as wide as the area and inside it. Where all lengths can
/// be had, each row has its length and starts where the one before it ends, and the
/// last one takes what is left. Where they cannot, which ones are cut depends on the
/// order in which the solver walks its hash maps, and nothing more is said.
#[verifier::external_body]
pub(crate) fn vertical_rows(area: Rect, lengths: Vec<u16>, rest: bool) -> (r: Vec<Rect>)
    requires
        area.wf(),
    ensures
        divides(area, lengths@, rest, r@),
{
    let rows = lengths.into_iter().map(Constraint::Length);
    let last = rest.then_some(Constraint::Min(0));
    let area = ratatui::layout::Rect::new(area.x, area.y, area.width, area.height);
    let split = Layout::vertical(rows.chain(last)).split(area);
    split.iter().map(|r| Rect { x: r.x, y: r.y, width: r.width, height: r.height }).collect()
}

} // verus!
