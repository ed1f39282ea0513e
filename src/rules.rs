use vstd::prelude::*;
use crate::element::{CircleKind, Element, ElementView, Feature, Point, Stroke};
use crate::glyph::{Class, class_test, escape_char, escaped, glyph_is, in_class, is_glyph};
use crate::grid::{GChar, Grid, lemma_start_column_mono, start_column};
use crate::loc::Loc;
use crate::optimizer::views;

verus! {

/// The largest column or row magnitude that the rules accept; it keeps every
/// lattice coordinate well inside `i64`.
pub const MAX_CELL: i64 = 0x0100_0000_0000_0000;

/// Whether `cell` exists and its text is of the class.
pub fn cell_is(cell: Option<&GChar>, class: Class) -> (r: bool)
    ensures
        r == match cell {
            Some(g) => in_class(class, g.string@),
            None => false,
        },
{
    match cell {
        Some(g) => class_test(class, g.string.as_str()),
        None => false,
    }
}

/// Whether a lattice point lies in the neighbourhood that cell `(x, y)`
/// draws in: its own 5 x 5 points, extended by one cell to the left, two
/// to the right and half a cell above and below.
pub open spec fn in_window(p: Point, x: int, y: int) -> bool {
    4 * x - 4 <= p.x <= 4 * x + 8 && 4 * y - 2 <= p.y <= 4 * y + 6
}

/// Whether the primitive is a line, arc or circle drawn within the window
/// of cell `(x, y)`.
pub open spec fn drawn_near(e: ElementView, x: int, y: int) -> bool {
    match e {
        ElementView::Line(s, t, _, _) => in_window(s, x, y) && in_window(t, x, y),
        ElementView::Arc(s, t, _, _) => in_window(s, x, y) && in_window(t, x, y),
        ElementView::Circle(c, _, _) => in_window(c, x, y),
        _ => false,
    }
}

/// Whether every primitive of the sequence is drawn within the window of
/// cell `(x, y)`.
pub open spec fn all_drawn_near(v: Seq<Element>, x: int, y: int) -> bool {
    forall|i: int| 0 <= i < v.len() ==> drawn_near(#[trigger] v[i]@, x, y)
}

/// What cell `(x, y)` contributes: the primitives of its rule, else its
/// escaped text where it shows as text, else nothing.
pub open spec fn cell_spec(g: Grid, x: int, y: int) -> Option<Seq<ElementView>> {
    match rule_table(g, x, y) {
        Some(es) => Some(es),
        None => if shows_text(g, x, y) {
            Some(
                seq![
                    ElementView::Text(
                        Loc { x: x as isize, y: y as isize },
                        escaped(g.cell_at(x, y).unwrap().string@),
                    ),
                ],
            )
        } else {
            None
        },
    }
}

/// Whether the cell at `(x, y)`, when no rule draws it, shows as text: any
/// cell but a space, and a space only between two alphanumeric cells.
pub open spec fn shows_text(g: Grid, x: int, y: int) -> bool {
    match g.cell_at(x, y) {
        Some(c) => !is_glyph(c.string@, ' ') || (g.has_class_at(x - 1, y, Class::Alphanumeric)
            && g.has_class_at(x + 1, y, Class::Alphanumeric)),
        None => false,
    }
}

/// Whether the cell `dx` columns right and `dy` rows down of `(x, y)`
/// exists and is of the class.
pub open spec fn at(g: Grid, x: int, y: int, dx: int, dy: int, c: Class) -> bool {
    g.has_class_at(x + dx, y + dy, c)
}

/// The lattice point `dx` quarters right and `dy` quarters down of the
/// corner of cell `(x, y)`.
pub open spec fn pt(x: int, y: int, dx: int, dy: int) -> Point {
    Point { x: (4 * x + dx) as i64, y: (4 * y + dy) as i64 }
}

/// Whether a stroke meets the cell from any of its eight neighbours.
pub open spec fn connects_any(g: Grid, x: int, y: int) -> bool {
    at(g, x, y, -1, 0, Class::Horizontal) || at(g, x, y, 1, 0, Class::Horizontal) || at(
        g,
        x,
        y,
        0,
        -1,
        Class::Vertical,
    ) || at(g, x, y, 0, 1, Class::Vertical) || at(g, x, y, -1, -1, Class::SlantLeft) || at(
        g,
        x,
        y,
        1,
        -1,
        Class::SlantRight,
    ) || at(g, x, y, -1, 1, Class::SlantRight) || at(g, x, y, 1, 1, Class::SlantLeft)
}

/// The number of pattern rules.
pub const RULE_COUNT: usize = 160;

/// The column offset of the neighbourhood position `pos`: the cell, its
/// eight neighbours (top, bottom, left, right, top left, top right, bottom
/// left, bottom right), the cells two to the left and two to the right,
/// and the four cells two columns out on the rows above and below.
pub open spec fn pos_dx(pos: int) -> int {
    if pos == 0 {
        0
    } else if pos == 1 {
        0
    } else if pos == 2 {
        0
    } else if pos == 3 {
        -1
    } else if pos == 4 {
        1
    } else if pos == 5 {
        -1
    } else if pos == 6 {
        1
    } else if pos == 7 {
        -1
    } else if pos == 8 {
        1
    } else if pos == 9 {
        -2
    } else if pos == 10 {
        2
    } else if pos == 11 {
        -2
    } else if pos == 12 {
        -2
    } else if pos == 13 {
        2
    } else {
        2
    }
}

/// The row offset of the neighbourhood position `pos`.
pub open spec fn pos_dy(pos: int) -> int {
    if pos == 0 {
        0
    } else if pos == 1 {
        -1
    } else if pos == 2 {
        1
    } else if pos == 3 {
        0
    } else if pos == 4 {
        0
    } else if pos == 5 {
        -1
    } else if pos == 6 {
        -1
    } else if pos == 7 {
        1
    } else if pos == 8 {
        1
    } else if pos == 9 {
        0
    } else if pos == 10 {
        0
    } else if pos == 11 {
        -1
    } else if pos == 12 {
        1
    } else if pos == 13 {
        -1
    } else {
        1
    }
}

/// The class with index `c`.
pub open spec fn class_of(c: int) -> Class {
    if c == 0 {
        Class::Vertical
    } else if c == 1 {
        Class::Horizontal
    } else if c == 2 {
        Class::HorizontalDashed
    } else if c == 3 {
        Class::VerticalDashed
    } else if c == 4 {
        Class::LowHorizontal
    } else if c == 5 {
        Class::LowHorizontalDashed
    } else if c == 6 {
        Class::SlantLeft
    } else if c == 7 {
        Class::SlantRight
    } else if c == 8 {
        Class::LowRound
    } else if c == 9 {
        Class::Period
    } else if c == 10 {
        Class::Comma
    } else if c == 11 {
        Class::HighRound
    } else if c == 12 {
        Class::Backtick
    } else if c == 13 {
        Class::Round
    } else if c == 14 {
        Class::Intersection
    } else if c == 15 {
        Class::Marker
    } else if c == 16 {
        Class::Asterisk
    } else if c == 17 {
        Class::O
    } else if c == 18 {
        Class::ArrowUp
    } else if c == 19 {
        Class::ArrowDown
    } else if c == 20 {
        Class::ArrowLeft
    } else if c == 21 {
        Class::ArrowRight
    } else if c == 22 {
        Class::OpenCurve
    } else if c == 23 {
        Class::CloseCurve
    } else {
        Class::Alphanumeric
    }
}

/// Whether rule `k` holds at cell `(x, y)`.
pub open spec fn rule_guard(g: Grid, x: int, y: int, k: int) -> bool {
    if k == 0 {
        at(g, x, y, 0, 0, Class::Asterisk) && connects_any(g, x, y)
    } else if k == 1 {
        at(g, x, y, 0, 0, Class::O) && connects_any(g, x, y)
    } else if k == 2 {
        at(g, x, y, 0, 0, Class::Vertical)
    } else if k == 3 {
        at(g, x, y, 0, 0, Class::Horizontal)
    } else if k == 4 {
        at(g, x, y, 0, 0, Class::LowHorizontal)
    } else if k == 5 {
        at(g, x, y, 0, 0, Class::VerticalDashed) && (at(g, x, y, 0, -1, Class::VerticalDashed) || at(g, x, y, 0, 1, Class::VerticalDashed))
    } else if k == 6 {
        at(g, x, y, 0, 0, Class::HorizontalDashed) && ((at(g, x, y, -1, 0, Class::HorizontalDashed) && at(g, x, y, 1, 0, Class::HorizontalDashed)) || (at(g, x, y, -1, 0, Class::HorizontalDashed) && at(g, x, y, -2, 0, Class::HorizontalDashed)) || (at(g, x, y, 1, 0, Class::HorizontalDashed) && at(g, x, y, 2, 0, Class::HorizontalDashed)))
    } else if k == 7 {
        at(g, x, y, 0, 0, Class::LowHorizontalDashed) && ((at(g, x, y, -1, 0, Class::LowHorizontalDashed) && at(g, x, y, 1, 0, Class::LowHorizontalDashed)) || (at(g, x, y, -1, 0, Class::LowHorizontalDashed) && at(g, x, y, -2, 0, Class::LowHorizontalDashed)) || (at(g, x, y, 1, 0, Class::LowHorizontalDashed) && at(g, x, y, 2, 0, Class::LowHorizontalDashed)))
    } else if k == 8 {
        at(g, x, y, 0, 0, Class::SlantRight)
    } else if k == 9 {
        at(g, x, y, 0, 0, Class::SlantLeft)
    } else if k == 10 {
        at(g, x, y, 0, 0, Class::Backtick) && at(g, x, y, -1, -1, Class::LowHorizontal) && at(g, x, y, 1, 0, Class::Horizontal)
    } else if k == 11 {
        at(g, x, y, 0, 0, Class::HighRound) && at(g, x, y, 1, -1, Class::LowHorizontal) && at(g, x, y, -1, 0, Class::Horizontal)
    } else if k == 12 {
        at(g, x, y, 0, 0, Class::LowRound) && at(g, x, y, -1, 0, Class::Horizontal) && at(g, x, y, 1, 0, Class::LowHorizontal)
    } else if k == 13 {
        at(g, x, y, 0, 0, Class::LowRound) && at(g, x, y, 1, 0, Class::Horizontal) && at(g, x, y, -1, 0, Class::LowHorizontal)
    } else if k == 14 {
        at(g, x, y, 0, 0, Class::ArrowUp) && at(g, x, y, 0, 1, Class::Vertical)
    } else if k == 15 {
        at(g, x, y, 0, 0, Class::ArrowUp) && at(g, x, y, 0, 1, Class::VerticalDashed)
    } else if k == 16 {
        at(g, x, y, 0, 0, Class::ArrowDown) && at(g, x, y, 0, -1, Class::Vertical)
    } else if k == 17 {
        at(g, x, y, 0, 0, Class::ArrowDown) && at(g, x, y, 0, -1, Class::VerticalDashed)
    } else if k == 18 {
        at(g, x, y, 0, 0, Class::ArrowLeft) && at(g, x, y, 1, 0, Class::Horizontal)
    } else if k == 19 {
        at(g, x, y, 0, 0, Class::ArrowLeft) && at(g, x, y, 1, 0, Class::HorizontalDashed)
    } else if k == 20 {
        at(g, x, y, 0, 0, Class::ArrowRight) && at(g, x, y, -1, 0, Class::Horizontal)
    } else if k == 21 {
        at(g, x, y, 0, 0, Class::ArrowRight) && at(g, x, y, -1, 0, Class::HorizontalDashed)
    } else if k == 22 {
        at(g, x, y, 0, 0, Class::ArrowUp) && at(g, x, y, 1, 1, Class::SlantLeft)
    } else if k == 23 {
        at(g, x, y, 0, 0, Class::ArrowUp) && at(g, x, y, -1, 1, Class::SlantRight)
    } else if k == 24 {
        at(g, x, y, 0, 0, Class::ArrowDown) && at(g, x, y, 1, -1, Class::SlantRight)
    } else if k == 25 {
        at(g, x, y, 0, 0, Class::ArrowDown) && at(g, x, y, -1, -1, Class::SlantLeft)
    } else if k == 26 {
        at(g, x, y, 0, 0, Class::LowHorizontal) && (at(g, x, y, -1, 1, Class::Vertical) || at(g, x, y, -1, 0, Class::Vertical))
    } else if k == 27 {
        at(g, x, y, 0, 0, Class::LowHorizontal) && (at(g, x, y, 1, 1, Class::Vertical) || at(g, x, y, 1, 0, Class::Vertical))
    } else if k == 28 {
        at(g, x, y, 0, 0, Class::Horizontal) && at(g, x, y, 1, 0, Class::Vertical)
    } else if k == 29 {
        at(g, x, y, 0, 0, Class::Horizontal) && at(g, x, y, -1, 0, Class::Vertical)
    } else if k == 30 {
        at(g, x, y, 0, 0, Class::LowHorizontal) && at(g, x, y, -1, 0, Class::SlantRight)
    } else if k == 31 {
        at(g, x, y, 0, 0, Class::SlantRight) && at(g, x, y, 1, 0, Class::LowHorizontal)
    } else if k == 32 {
        at(g, x, y, 0, 0, Class::LowHorizontal) && at(g, x, y, 1, 0, Class::SlantLeft)
    } else if k == 33 {
        at(g, x, y, 0, 0, Class::SlantLeft) && at(g, x, y, 0, -1, Class::Vertical)
    } else if k == 34 {
        at(g, x, y, 0, 0, Class::Vertical) && at(g, x, y, 0, 1, Class::SlantLeft)
    } else if k == 35 {
        at(g, x, y, 0, 0, Class::SlantRight) && at(g, x, y, 0, -1, Class::Vertical)
    } else if k == 36 {
        at(g, x, y, 0, 0, Class::Vertical) && at(g, x, y, 0, 1, Class::SlantRight)
    } else if k == 37 {
        at(g, x, y, 0, 0, Class::SlantLeft) && at(g, x, y, -1, -1, Class::Vertical)
    } else if k == 38 {
        at(g, x, y, 0, 0, Class::Vertical) && at(g, x, y, 1, 1, Class::SlantLeft)
    } else if k == 39 {
        at(g, x, y, 0, 0, Class::SlantRight) && at(g, x, y, 1, -1, Class::Vertical)
    } else if k == 40 {
        at(g, x, y, 0, 0, Class::Vertical) && at(g, x, y, -1, 1, Class::SlantRight)
    } else if k == 41 {
        at(g, x, y, 0, 0, Class::SlantRight) && at(g, x, y, 0, 1, Class::Vertical)
    } else if k == 42 {
        at(g, x, y, 0, 0, Class::Vertical) && at(g, x, y, 0, -1, Class::SlantRight)
    } else if k == 43 {
        at(g, x, y, 0, 0, Class::SlantLeft) && at(g, x, y, 0, 1, Class::Vertical)
    } else if k == 44 {
        at(g, x, y, 0, 0, Class::Vertical) && at(g, x, y, 0, -1, Class::SlantLeft)
    } else if k == 45 {
        at(g, x, y, 0, 0, Class::SlantLeft) && at(g, x, y, 1, 1, Class::Vertical)
    } else if k == 46 {
        at(g, x, y, 0, 0, Class::Vertical) && at(g, x, y, -1, -1, Class::SlantLeft)
    } else if k == 47 {
        at(g, x, y, 0, 0, Class::SlantRight) && at(g, x, y, -1, 1, Class::Vertical)
    } else if k == 48 {
        at(g, x, y, 0, 0, Class::Vertical) && at(g, x, y, 1, -1, Class::SlantRight)
    } else if k == 49 {
        at(g, x, y, 0, 0, Class::HighRound) && ((at(g, x, y, -1, 0, Class::Comma) || at(g, x, y, -1, 0, Class::LowRound)) || (at(g, x, y, 1, -1, Class::Comma) || at(g, x, y, 1, -1, Class::LowRound)))
    } else if k == 50 {
        (at(g, x, y, 0, 0, Class::Comma) ||at(g, x, y, 0, 0, Class::LowRound)) && (at(g, x, y, 1, 0, Class::HighRound) ||at(g, x, y, -1, 1, Class::HighRound))
    } else if k == 51 {
        at(g, x, y, 0, 0, Class::Period) && (at(g, x, y, 1, 1, Class::Backtick) || at(g, x, y, -1, 0, Class::Backtick))
    } else if k == 52 {
        at(g, x, y, 0, 0, Class::Backtick) && (at(g, x, y, 1, 0, Class::Period) || at(g, x, y, -1, -1, Class::Period))
    } else if k == 53 {
        at(g, x, y, 0, 0, Class::HighRound) && (at(g, x, y, 1, -1, Class::Comma) || at(g, x, y, 1, -1, Class::LowRound)) && at(g, x, y, -1, 0, Class::SlantRight)
    } else if k == 54 {
        at(g, x, y, 0, 0, Class::Backtick) && at(g, x, y, -1, -1, Class::LowHorizontal) &&at(g, x, y, 1, 0, Class::LowRound)
    } else if k == 55 {
        at(g, x, y, 0, 0, Class::Backtick) && at(g, x, y, -1, -1, Class::LowRound) && at(g, x, y, 1, 0, Class::SlantLeft)
    } else if k == 56 {
        at(g, x, y, 0, 0, Class::Backtick) && at(g, x, y, -1, -1, Class::LowHorizontal) && at(g, x, y, 1, 0, Class::SlantLeft)
    } else if k == 57 {
        at(g, x, y, 0, 0, Class::LowRound) && at(g, x, y, -1, 0, Class::Backtick) && at(g, x, y, 1, 1, Class::SlantLeft)
    } else if k == 58 {
        at(g, x, y, 0, 0, Class::Backtick) && at(g, x, y, 1, 0, Class::LowRound) && at(g, x, y, 2, 1, Class::SlantLeft)
    } else if k == 59 {
        at(g, x, y, 0, 0, Class::SlantLeft) && at(g, x, y, -1, -1, Class::LowRound) && at(g, x, y, -2, -1, Class::Backtick)
    } else if k == 60 {
        at(g, x, y, 0, 0, Class::Comma) && at(g, x, y, 1, 0, Class::HighRound) && at(g, x, y, -1, 1, Class::SlantRight)
    } else if k == 61 {
        at(g, x, y, 0, 0, Class::HighRound) && at(g, x, y, -1, 0, Class::Comma) && at(g, x, y, -2, 1, Class::SlantRight)
    } else if k == 62 {
        at(g, x, y, 0, 0, Class::SlantRight) && at(g, x, y, 1, -1, Class::Comma) && at(g, x, y, 2, -1, Class::HighRound)
    } else if k == 63 {
        (at(g, x, y, 0, 0, Class::HighRound) || at(g, x, y, 0, 0, Class::Backtick)) && (at(g, x, y, 1, 0, Class::LowRound) || at(g, x, y, 1, 0, Class::Comma)) && at(g, x, y, -1, -1, Class::SlantLeft)
    } else if k == 64 {
        (at(g, x, y, -1, 0, Class::HighRound) || at(g, x, y, -1, 0, Class::Backtick)) && (at(g, x, y, 0, 0, Class::LowRound) || at(g, x, y, 0, 0, Class::Comma)) && at(g, x, y, -2, -1, Class::SlantLeft)
    } else if k == 65 {
        (at(g, x, y, 1, 1, Class::HighRound) || at(g, x, y, 1, 1, Class::Backtick)) && (at(g, x, y, 2, 1, Class::LowRound) || at(g, x, y, 2, 1, Class::Comma)) && at(g, x, y, 0, 0, Class::SlantLeft)
    } else if k == 66 {
        at(g, x, y, 0, 0, Class::HighRound) && (at(g, x, y, -1, 0, Class::LowRound) || at(g, x, y, -1, 0, Class::Comma)) && at(g, x, y, 1, -1, Class::SlantRight)
    } else if k == 67 {
        at(g, x, y, 0, 0, Class::SlantRight) && (at(g, x, y, -2, 1, Class::LowRound) || at(g, x, y, -2, 1, Class::Comma)) && at(g, x, y, -1, 1, Class::HighRound)
    } else if k == 68 {
        at(g, x, y, 2, -1, Class::SlantRight) && (at(g, x, y, 0, 0, Class::LowRound) || at(g, x, y, 0, 0, Class::Comma)) && at(g, x, y, 1, 0, Class::HighRound)
    } else if k == 69 {
        (at(g, x, y, 0, 0, Class::HighRound) ||at(g, x, y, 0, 0, Class::Backtick)) && at(g, x, y, 1, -1, Class::Comma) && at(g, x, y, -1, -1, Class::LowRound)
    } else if k == 70 {
        at(g, x, y, 0, 0, Class::LowRound) && (at(g, x, y, -1, 0, Class::HighRound) || at(g, x, y, -1, 0, Class::Backtick)) && at(g, x, y, 1, 0, Class::HighRound)
    } else if k == 71 {
        at(g, x, y, 0, 0, Class::LowRound) && at(g, x, y, 1, 0, Class::HighRound) && (at(g, x, y, 1, 1, Class::HighRound) ||at(g, x, y, 1, 1, Class::Backtick))
    } else if k == 72 {
        (at(g, x, y, 0, 0, Class::LowRound) || at(g, x, y, 0, 0, Class::Comma)) && (at(g, x, y, -1, 0, Class::HighRound) || at(g, x, y, -1, 0, Class::Backtick)) && at(g, x, y, -1, 1, Class::HighRound)
    } else if k == 73 {
        at(g, x, y, 0, 0, Class::LowRound) && at(g, x, y, -1, 1, Class::HighRound) && (at(g, x, y, 1, 1, Class::HighRound) || at(g, x, y, 1, 1, Class::Backtick))
    } else if k == 74 {
        (at(g, x, y, 0, 0, Class::HighRound) || at(g, x, y, 0, 0, Class::Backtick)) && at(g, x, y, 1, 0, Class::LowRound) && (at(g, x, y, -1, 0, Class::LowRound) || at(g, x, y, -1, 0, Class::Comma))
    } else if k == 75 {
        at(g, x, y, 0, 0, Class::Intersection) && at(g, x, y, 1, 0, Class::Horizontal) && at(g, x, y, 0, 1, Class::Vertical)
    } else if k == 76 {
        at(g, x, y, 0, 0, Class::Intersection) && at(g, x, y, -1, 0, Class::Horizontal) && at(g, x, y, 0, 1, Class::Vertical)
    } else if k == 77 {
        at(g, x, y, 0, 0, Class::Intersection) && at(g, x, y, 1, 0, Class::Horizontal) && at(g, x, y, 0, -1, Class::Vertical)
    } else if k == 78 {
        at(g, x, y, 0, 0, Class::Intersection) && at(g, x, y, -1, 0, Class::Horizontal) && at(g, x, y, 0, -1, Class::Vertical)
    } else if k == 79 {
        (at(g, x, y, 0, 0, Class::Round) || at(g, x, y, 0, 0, Class::Comma)) && at(g, x, y, 1, 0, Class::Horizontal) && at(g, x, y, 0, 1, Class::Vertical)
    } else if k == 80 {
        at(g, x, y, 0, 0, Class::Round) && at(g, x, y, -1, 0, Class::Horizontal) && at(g, x, y, 0, 1, Class::Vertical)
    } else if k == 81 {
        (at(g, x, y, 0, 0, Class::Round) || at(g, x, y, 0, 0, Class::Backtick)) && at(g, x, y, 1, 0, Class::Horizontal) && at(g, x, y, 0, -1, Class::Vertical)
    } else if k == 82 {
        at(g, x, y, 0, 0, Class::Round) && at(g, x, y, -1, 0, Class::Horizontal) && at(g, x, y, 0, -1, Class::Vertical)
    } else if k == 83 {
        at(g, x, y, 0, 0, Class::Round) && at(g, x, y, -1, 0, Class::LowHorizontal) && at(g, x, y, 0, -1, Class::Vertical)
    } else if k == 84 {
        at(g, x, y, 0, 0, Class::Round) && at(g, x, y, 1, 0, Class::LowHorizontal) && at(g, x, y, 0, -1, Class::Vertical)
    } else if k == 85 {
        at(g, x, y, 0, 0, Class::Round) && at(g, x, y, 1, 0, Class::Horizontal) && at(g, x, y, -1, 1, Class::SlantRight)
    } else if k == 86 {
        at(g, x, y, 0, 0, Class::Round) && at(g, x, y, -1, 0, Class::Horizontal) && at(g, x, y, 1, 1, Class::SlantLeft)
    } else if k == 87 {
        at(g, x, y, 0, 0, Class::Round) && at(g, x, y, -1, 0, Class::Horizontal) && at(g, x, y, -1, 1, Class::SlantRight)
    } else if k == 88 {
        at(g, x, y, 0, 0, Class::Round) && at(g, x, y, 1, 0, Class::Horizontal) && at(g, x, y, 1, 1, Class::SlantLeft)
    } else if k == 89 {
        at(g, x, y, 0, 0, Class::Round) && at(g, x, y, 1, 0, Class::Horizontal) && at(g, x, y, -1, -1, Class::SlantLeft)
    } else if k == 90 {
        at(g, x, y, 0, 0, Class::Round) && at(g, x, y, 1, 0, Class::Horizontal) && at(g, x, y, 1, -1, Class::SlantRight)
    } else if k == 91 {
        at(g, x, y, 0, 0, Class::Round) && at(g, x, y, -1, 0, Class::Horizontal) && at(g, x, y, -1, -1, Class::SlantLeft)
    } else if k == 92 {
        at(g, x, y, 0, 0, Class::Round) && at(g, x, y, -1, 0, Class::Horizontal) && at(g, x, y, 1, -1, Class::SlantRight)
    } else if k == 93 {
        (at(g, x, y, 0, 0, Class::Round) || at(g, x, y, 0, 0, Class::CloseCurve)) && at(g, x, y, -1, -1, Class::SlantLeft) && at(g, x, y, -1, 1, Class::SlantRight)
    } else if k == 94 {
        (at(g, x, y, 0, 0, Class::Round) || at(g, x, y, 0, 0, Class::OpenCurve)) && at(g, x, y, 1, -1, Class::SlantRight) && at(g, x, y, 1, 1, Class::SlantLeft)
    } else if k == 95 {
        at(g, x, y, 0, 0, Class::OpenCurve) && (at(g, x, y, 1, -1, Class::Round) || at(g, x, y, 1, -1, Class::Comma)) && (at(g, x, y, 1, 1, Class::HighRound) || at(g, x, y, 1, 1, Class::Backtick))
    } else if k == 96 {
        at(g, x, y, 0, 0, Class::CloseCurve) && at(g, x, y, -1, -1, Class::Round) && at(g, x, y, -1, 1, Class::Round)
    } else if k == 97 {
        (at(g, x, y, 0, 0, Class::LowRound) || at(g, x, y, 0, 0, Class::Comma)) && at(g, x, y, 1, 0, Class::Horizontal) && at(g, x, y, -1, 1, Class::OpenCurve)
    } else if k == 98 {
        at(g, x, y, 0, 0, Class::Round) && at(g, x, y, -1, 0, Class::Horizontal) && at(g, x, y, 1, 1, Class::CloseCurve)
    } else if k == 99 {
        (at(g, x, y, 0, 0, Class::HighRound) || at(g, x, y, 0, 0, Class::Backtick)) && at(g, x, y, 1, 0, Class::Horizontal) && at(g, x, y, -1, -1, Class::OpenCurve)
    } else if k == 100 {
        at(g, x, y, 0, 0, Class::Round) && at(g, x, y, -1, 0, Class::Horizontal) && at(g, x, y, 1, -1, Class::CloseCurve)
    } else if k == 101 {
        at(g, x, y, 0, 0, Class::LowRound) && at(g, x, y, 1, 0, Class::Horizontal) && at(g, x, y, 0, 1, Class::HighRound)
    } else if k == 102 {
        at(g, x, y, 0, 0, Class::LowRound) && at(g, x, y, -1, 0, Class::Horizontal) && at(g, x, y, 0, 1, Class::HighRound)
    } else if k == 103 {
        at(g, x, y, 0, 0, Class::HighRound) && at(g, x, y, 1, 0, Class::Horizontal) && at(g, x, y, 0, -1, Class::LowRound)
    } else if k == 104 {
        at(g, x, y, 0, 0, Class::HighRound) && at(g, x, y, -1, 0, Class::Horizontal) && at(g, x, y, 0, -1, Class::LowRound)
    } else if k == 105 {
        at(g, x, y, 0, 0, Class::Horizontal) && at(g, x, y, -1, 0, Class::LowRound) && at(g, x, y, 1, 0, Class::LowRound)
    } else if k == 106 {
        at(g, x, y, 0, 0, Class::LowHorizontal) && at(g, x, y, -1, 0, Class::LowRound) && at(g, x, y, 1, 0, Class::LowRound)
    } else if k == 107 {
        at(g, x, y, 0, 0, Class::HighRound) && at(g, x, y, -1, 0, Class::LowRound) && at(g, x, y, -1, -1, Class::LowRound)
    } else if k == 108 {
        at(g, x, y, 0, 0, Class::Horizontal) && at(g, x, y, -1, 0, Class::LowRound) && at(g, x, y, 1, 0, Class::LowRound) && at(g, x, y, -2, 1, Class::OpenCurve)
    } else if k == 109 {
        at(g, x, y, 0, 0, Class::Horizontal) && (at(g, x, y, -1, 0, Class::HighRound) || at(g, x, y, -1, 0, Class::Backtick)) && at(g, x, y, 1, 0, Class::HighRound) && at(g, x, y, -2, -1, Class::OpenCurve)
    } else if k == 110 {
        at(g, x, y, 0, 0, Class::Round) && at(g, x, y, 0, 1, Class::Vertical) && at(g, x, y, 1, -1, Class::SlantRight)
    } else if k == 111 {
        at(g, x, y, 0, 0, Class::Round) && at(g, x, y, 0, -1, Class::Vertical) && at(g, x, y, -1, 1, Class::SlantRight)
    } else if k == 112 {
        at(g, x, y, 0, 0, Class::Round) && at(g, x, y, 0, 1, Class::Vertical) && at(g, x, y, -1, -1, Class::SlantLeft)
    } else if k == 113 {
        at(g, x, y, 0, 0, Class::Round) && at(g, x, y, 0, -1, Class::Vertical) && at(g, x, y, 1, 1, Class::SlantLeft)
    } else if k == 114 {
        at(g, x, y, 0, 0, Class::LowRound) && at(g, x, y, -1, 1, Class::SlantRight) && at(g, x, y, 1, 1, Class::SlantLeft)
    } else if k == 115 {
        at(g, x, y, 0, 0, Class::HighRound) && at(g, x, y, -1, -1, Class::SlantLeft) && at(g, x, y, 1, -1, Class::SlantRight)
    } else if k == 116 {
        at(g, x, y, 0, 0, Class::Vertical) && at(g, x, y, -1, 1, Class::SlantRight) && at(g, x, y, 1, 1, Class::SlantLeft)
    } else if k == 117 {
        at(g, x, y, 0, 0, Class::Vertical) && at(g, x, y, -1, -1, Class::SlantLeft) && at(g, x, y, 1, -1, Class::SlantRight)
    } else if k == 118 {
        at(g, x, y, 0, 0, Class::Round) && at(g, x, y, 0, 1, Class::Vertical) && at(g, x, y, 1, 1, Class::SlantLeft)
    } else if k == 119 {
        at(g, x, y, 0, 0, Class::Round) && at(g, x, y, 0, 1, Class::Vertical) && at(g, x, y, -1, 1, Class::SlantRight)
    } else if k == 120 {
        at(g, x, y, 0, 0, Class::Round) && at(g, x, y, 0, -1, Class::Vertical) && at(g, x, y, -1, -1, Class::SlantLeft)
    } else if k == 121 {
        at(g, x, y, 0, 0, Class::Round) && at(g, x, y, 0, -1, Class::Vertical) && at(g, x, y, 1, -1, Class::SlantRight)
    } else if k == 122 {
        at(g, x, y, 0, 0, Class::LowRound) && at(g, x, y, -1, 0, Class::Horizontal) && at(g, x, y, 0, 1, Class::OpenCurve)
    } else if k == 123 {
        at(g, x, y, 0, 0, Class::HighRound) && at(g, x, y, 0, -1, Class::OpenCurve) && at(g, x, y, -1, 0, Class::Horizontal)
    } else if k == 124 {
        at(g, x, y, 0, 0, Class::LowRound) && at(g, x, y, 1, 0, Class::Horizontal) && at(g, x, y, 0, 1, Class::CloseCurve)
    } else if k == 125 {
        at(g, x, y, 0, 0, Class::HighRound) && at(g, x, y, 1, 0, Class::Horizontal) && at(g, x, y, 0, -1, Class::CloseCurve)
    } else if k == 126 {
        at(g, x, y, 0, 0, Class::OpenCurve) && at(g, x, y, 1, 1, Class::ArrowRight)
    } else if k == 127 {
        at(g, x, y, 0, 0, Class::OpenCurve) && at(g, x, y, 1, -1, Class::ArrowRight)
    } else if k == 128 {
        at(g, x, y, 0, 0, Class::ArrowRight) && at(g, x, y, -1, -1, Class::OpenCurve) && at(g, x, y, -1, 1, Class::OpenCurve)
    } else if k == 129 {
        at(g, x, y, 0, 0, Class::CloseCurve) && at(g, x, y, -1, 1, Class::ArrowLeft)
    } else if k == 130 {
        at(g, x, y, 0, 0, Class::CloseCurve) && at(g, x, y, -1, -1, Class::ArrowLeft)
    } else if k == 131 {
        at(g, x, y, 0, 0, Class::ArrowLeft) && at(g, x, y, 1, -1, Class::CloseCurve) && at(g, x, y, 1, 1, Class::CloseCurve)
    } else if k == 132 {
        at(g, x, y, 0, 0, Class::LowRound) && at(g, x, y, 1, 0, Class::Horizontal) && at(g, x, y, -1, 1, Class::ArrowLeft)
    } else if k == 133 {
        at(g, x, y, 0, 0, Class::ArrowLeft) && at(g, x, y, 1, -1, Class::LowRound) && at(g, x, y, 1, 1, Class::HighRound)
    } else if k == 134 {
        at(g, x, y, 0, 0, Class::HighRound) && at(g, x, y, 1, 0, Class::Horizontal) && at(g, x, y, -1, -1, Class::ArrowLeft)
    } else if k == 135 {
        at(g, x, y, 0, 0, Class::ArrowRight) && at(g, x, y, -1, -1, Class::LowRound) && at(g, x, y, -1, 1, Class::HighRound)
    } else if k == 136 {
        at(g, x, y, 0, 0, Class::HighRound) && at(g, x, y, -1, 0, Class::Horizontal) && at(g, x, y, 1, -1, Class::ArrowRight)
    } else if k == 137 {
        at(g, x, y, 0, 0, Class::LowRound) && at(g, x, y, -1, 0, Class::Horizontal) && at(g, x, y, 1, 1, Class::ArrowRight)
    } else if k == 138 {
        at(g, x, y, 0, 0, Class::LowHorizontal) && at(g, x, y, -1, 0, Class::Vertical) && at(g, x, y, 1, 0, Class::SlantLeft)
    } else if k == 139 {
        at(g, x, y, 0, 0, Class::Round) && at(g, x, y, 1, 0, Class::Horizontal) && at(g, x, y, 1, -1, Class::SlantRight) && at(g, x, y, -1, 1, Class::SlantRight)
    } else if k == 140 {
        at(g, x, y, 0, 0, Class::Round) && at(g, x, y, -1, 0, Class::Horizontal) && at(g, x, y, 1, -1, Class::SlantRight) && at(g, x, y, -1, 1, Class::SlantRight)
    } else if k == 141 {
        at(g, x, y, 0, 0, Class::Round) && at(g, x, y, -1, 0, Class::Horizontal) && at(g, x, y, -1, -1, Class::SlantLeft) && at(g, x, y, 1, 1, Class::SlantLeft)
    } else if k == 142 {
        at(g, x, y, 0, 0, Class::Round) && at(g, x, y, 1, 0, Class::Horizontal) && at(g, x, y, -1, -1, Class::SlantLeft) && at(g, x, y, 1, 1, Class::SlantLeft)
    } else if k == 143 {
        at(g, x, y, 0, 0, Class::Round) && at(g, x, y, 1, 0, Class::Horizontal) && at(g, x, y, -1, 0, Class::Horizontal) && at(g, x, y, -1, 1, Class::SlantRight)
    } else if k == 144 {
        at(g, x, y, 0, 0, Class::Round) && at(g, x, y, 1, 0, Class::Horizontal) && at(g, x, y, -1, 0, Class::Horizontal) && at(g, x, y, 1, 1, Class::SlantLeft)
    } else if k == 145 {
        at(g, x, y, 0, 0, Class::Round) && at(g, x, y, 1, 0, Class::Horizontal) && at(g, x, y, -1, 0, Class::Horizontal) && at(g, x, y, 1, -1, Class::SlantRight)
    } else if k == 146 {
        at(g, x, y, 0, 0, Class::Round) && at(g, x, y, 1, 0, Class::Horizontal) && at(g, x, y, -1, 0, Class::Horizontal) && at(g, x, y, -1, -1, Class::SlantLeft)
    } else if k == 147 {
        at(g, x, y, 0, 0, Class::Intersection) && at(g, x, y, -1, 0, Class::Horizontal) && at(g, x, y, 1, 0, Class::Horizontal) && at(g, x, y, 0, -1, Class::Vertical)
    } else if k == 148 {
        at(g, x, y, 0, 0, Class::Intersection) && at(g, x, y, -1, 0, Class::Horizontal) && at(g, x, y, 1, 0, Class::Horizontal) && at(g, x, y, 0, 1, Class::Vertical)
    } else if k == 149 {
        at(g, x, y, 0, 0, Class::Intersection) && at(g, x, y, -1, 0, Class::Horizontal) && at(g, x, y, 0, -1, Class::Vertical) && at(g, x, y, 0, 1, Class::Vertical)
    } else if k == 150 {
        at(g, x, y, 0, 0, Class::Intersection) && at(g, x, y, 1, 0, Class::Horizontal) && at(g, x, y, 0, -1, Class::Vertical) && at(g, x, y, 0, 1, Class::Vertical)
    } else if k == 151 {
        at(g, x, y, 0, 0, Class::Round) && at(g, x, y, 0, 1, Class::Vertical) && at(g, x, y, 0, -1, Class::Vertical) && at(g, x, y, -1, 1, Class::SlantRight)
    } else if k == 152 {
        at(g, x, y, 0, 0, Class::Round) && at(g, x, y, 0, 1, Class::Vertical) && at(g, x, y, 0, -1, Class::Vertical) && at(g, x, y, 1, 1, Class::SlantLeft)
    } else if k == 153 {
        at(g, x, y, 0, 0, Class::Round) && at(g, x, y, 0, -1, Class::Vertical) && at(g, x, y, -1, 1, Class::SlantRight) && at(g, x, y, 1, 1, Class::SlantLeft)
    } else if k == 154 {
        at(g, x, y, 0, 0, Class::Round) && at(g, x, y, 0, -1, Class::Vertical) && at(g, x, y, 0, 1, Class::Vertical) && at(g, x, y, 1, -1, Class::SlantRight)
    } else if k == 155 {
        at(g, x, y, 0, 0, Class::Round) && at(g, x, y, 0, -1, Class::Vertical) && at(g, x, y, 0, 1, Class::Vertical) && at(g, x, y, -1, -1, Class::SlantLeft)
    } else if k == 156 {
        (at(g, x, y, 0, 0, Class::Intersection) || at(g, x, y, 0, 0, Class::Round) || at(g, x, y, 0, 0, Class::Marker)) && at(g, x, y, 0, -1, Class::Vertical) && at(g, x, y, 0, 1, Class::Vertical) && at(g, x, y, -1, 0, Class::Horizontal) && at(g, x, y, 1, 0, Class::Horizontal)
    } else if k == 157 {
        (at(g, x, y, 0, 0, Class::Intersection) || at(g, x, y, 0, 0, Class::Round) || at(g, x, y, 0, 0, Class::Marker)) && at(g, x, y, 0, -1, Class::VerticalDashed) && at(g, x, y, 0, 1, Class::VerticalDashed) && at(g, x, y, -1, 0, Class::HorizontalDashed) && at(g, x, y, 1, 0, Class::HorizontalDashed)
    } else if k == 158 {
        (at(g, x, y, 0, 0, Class::Intersection) || at(g, x, y, 0, 0, Class::Round) || at(g, x, y, 0, 0, Class::Marker)) && at(g, x, y, 0, -1, Class::Vertical) && at(g, x, y, 0, 1, Class::Vertical) && at(g, x, y, -1, -1, Class::SlantLeft) && at(g, x, y, 1, -1, Class::SlantRight) && at(g, x, y, -1, 1, Class::SlantRight) && at(g, x, y, 1, 1, Class::SlantLeft)
    } else if k == 159 {
        (at(g, x, y, 0, 0, Class::Intersection) || at(g, x, y, 0, 0, Class::Round) || at(g, x, y, 0, 0, Class::Marker)) && at(g, x, y, 0, -1, Class::Vertical) && at(g, x, y, 0, 1, Class::Vertical) && at(g, x, y, -1, 0, Class::Horizontal) && at(g, x, y, 1, 0, Class::Horizontal) && at(g, x, y, -1, -1, Class::SlantLeft) && at(g, x, y, 1, -1, Class::SlantRight) && at(g, x, y, -1, 1, Class::SlantRight) && at(g, x, y, 1, 1, Class::SlantLeft)
    } else {
        false
    }
}

/// The primitives of rule `k` at cell `(x, y)`.
pub open spec fn rule_output(x: int, y: int, k: int) -> Seq<ElementView> {
    if k == 0 {
        seq![ElementView::Circle(pt(x, y, 2, 2), 2, CircleKind::Solid)]
    } else if k == 1 {
        seq![ElementView::Circle(pt(x, y, 2, 2), 2, CircleKind::Open)]
    } else if k == 2 {
        seq![ElementView::Line(pt(x, y, 2, 0), pt(x, y, 2, 4), Stroke::Solid, Feature::Nothing)]
    } else if k == 3 {
        seq![ElementView::Line(pt(x, y, 0, 2), pt(x, y, 4, 2), Stroke::Solid, Feature::Nothing)]
    } else if k == 4 {
        seq![ElementView::Line(pt(x, y, 0, 4), pt(x, y, 4, 4), Stroke::Solid, Feature::Nothing)]
    } else if k == 5 {
        seq![ElementView::Line(pt(x, y, 2, 0), pt(x, y, 2, 4), Stroke::Dashed, Feature::Nothing)]
    } else if k == 6 {
        seq![ElementView::Line(pt(x, y, 0, 2), pt(x, y, 4, 2), Stroke::Dashed, Feature::Nothing)]
    } else if k == 7 {
        seq![ElementView::Line(pt(x, y, 0, 4), pt(x, y, 4, 4), Stroke::Dashed, Feature::Nothing)]
    } else if k == 8 {
        seq![ElementView::Line(pt(x, y, 0, 4), pt(x, y, 4, 0), Stroke::Solid, Feature::Nothing)]
    } else if k == 9 {
        seq![ElementView::Line(pt(x, y, 0, 0), pt(x, y, 4, 4), Stroke::Solid, Feature::Nothing)]
    } else if k == 10 {
        seq![ElementView::Line(pt(x, y, 0, 0), pt(x, y, 4, 2), Stroke::Solid, Feature::Nothing)]
    } else if k == 11 {
        seq![ElementView::Line(pt(x, y, 0, 2), pt(x, y, 4, 0), Stroke::Solid, Feature::Nothing)]
    } else if k == 12 {
        seq![ElementView::Line(pt(x, y, 0, 2), pt(x, y, 4, 4), Stroke::Solid, Feature::Nothing)]
    } else if k == 13 {
        seq![ElementView::Line(pt(x, y, 0, 4), pt(x, y, 4, 2), Stroke::Solid, Feature::Nothing)]
    } else if k == 14 {
        seq![ElementView::Line(pt(x, y, 2, 4), pt(x, y, 2, 0), Stroke::Solid, Feature::Arrow)]
    } else if k == 15 {
        seq![ElementView::Line(pt(x, y, 2, 4), pt(x, y, 2, 0), Stroke::Dashed, Feature::Arrow)]
    } else if k == 16 {
        seq![ElementView::Line(pt(x, y, 2, 0), pt(x, y, 2, 4), Stroke::Solid, Feature::Arrow)]
    } else if k == 17 {
        seq![ElementView::Line(pt(x, y, 2, 0), pt(x, y, 2, 4), Stroke::Dashed, Feature::Arrow)]
    } else if k == 18 {
        seq![ElementView::Line(pt(x, y, 4, 2), pt(x, y, 0, 2), Stroke::Solid, Feature::Arrow)]
    } else if k == 19 {
        seq![ElementView::Line(pt(x, y, 4, 2), pt(x, y, 0, 2), Stroke::Dashed, Feature::Arrow)]
    } else if k == 20 {
        seq![ElementView::Line(pt(x, y, 0, 2), pt(x, y, 4, 2), Stroke::Solid, Feature::Arrow)]
    } else if k == 21 {
        seq![ElementView::Line(pt(x, y, 0, 2), pt(x, y, 4, 2), Stroke::Dashed, Feature::Arrow)]
    } else if k == 22 {
        seq![ElementView::Line(pt(x, y, 4, 4), pt(x, y, 0, 0), Stroke::Solid, Feature::Arrow)]
    } else if k == 23 {
        seq![ElementView::Line(pt(x, y, 0, 4), pt(x, y, 4, 0), Stroke::Solid, Feature::Arrow)]
    } else if k == 24 {
        seq![ElementView::Line(pt(x, y, 4, 0), pt(x, y, 0, 4), Stroke::Solid, Feature::Arrow)]
    } else if k == 25 {
        seq![ElementView::Line(pt(x, y, 0, 0), pt(x, y, 4, 4), Stroke::Solid, Feature::Arrow)]
    } else if k == 26 {
        seq![ElementView::Line(pt(x, y, 4, 4), pt(x, y, -2, 4), Stroke::Solid, Feature::Nothing)]
    } else if k == 27 {
        seq![ElementView::Line(pt(x, y, 0, 4), pt(x, y, 6, 4), Stroke::Solid, Feature::Nothing)]
    } else if k == 28 {
        seq![ElementView::Line(pt(x, y, 0, 2), pt(x, y, 6, 2), Stroke::Solid, Feature::Nothing)]
    } else if k == 29 {
        seq![ElementView::Line(pt(x, y, 4, 2), pt(x, y, -2, 2), Stroke::Solid, Feature::Nothing)]
    } else if k == 30 {
        seq![ElementView::Line(pt(x, y, 4, 4), pt(x, y, -4, 4), Stroke::Solid, Feature::Nothing)]
    } else if k == 31 {
        seq![ElementView::Line(pt(x, y, 0, 4), pt(x, y, 4, 0), Stroke::Solid, Feature::Nothing), ElementView::Line(pt(x, y, 0, 4), pt(x, y, 8, 4), Stroke::Solid, Feature::Nothing)]
    } else if k == 32 {
        seq![ElementView::Line(pt(x, y, 0, 4), pt(x, y, 8, 4), Stroke::Solid, Feature::Nothing)]
    } else if k == 33 {
        seq![ElementView::Line(pt(x, y, 2, 2), pt(x, y, 4, 4), Stroke::Solid, Feature::Nothing)]
    } else if k == 34 {
        seq![ElementView::Line(pt(x, y, 2, 0), pt(x, y, 2, 6), Stroke::Solid, Feature::Nothing)]
    } else if k == 35 {
        seq![ElementView::Line(pt(x, y, 2, 2), pt(x, y, 0, 4), Stroke::Solid, Feature::Nothing)]
    } else if k == 36 {
        seq![ElementView::Line(pt(x, y, 2, 0), pt(x, y, 2, 6), Stroke::Solid, Feature::Nothing)]
    } else if k == 37 {
        seq![ElementView::Line(pt(x, y, 4, 4), pt(x, y, -2, -2), Stroke::Solid, Feature::Nothing)]
    } else if k == 38 {
        seq![ElementView::Line(pt(x, y, 2, 0), pt(x, y, 2, 2), Stroke::Solid, Feature::Nothing)]
    } else if k == 39 {
        seq![ElementView::Line(pt(x, y, 0, 4), pt(x, y, 6, -2), Stroke::Solid, Feature::Nothing)]
    } else if k == 40 {
        seq![ElementView::Line(pt(x, y, 2, 0), pt(x, y, 2, 2), Stroke::Solid, Feature::Nothing)]
    } else if k == 41 {
        seq![ElementView::Line(pt(x, y, 2, 2), pt(x, y, 4, 0), Stroke::Solid, Feature::Nothing)]
    } else if k == 42 {
        seq![ElementView::Line(pt(x, y, 2, -2), pt(x, y, 2, 4), Stroke::Solid, Feature::Nothing)]
    } else if k == 43 {
        seq![ElementView::Line(pt(x, y, 0, 0), pt(x, y, 2, 2), Stroke::Solid, Feature::Nothing)]
    } else if k == 44 {
        seq![ElementView::Line(pt(x, y, 2, -2), pt(x, y, 2, 4), Stroke::Solid, Feature::Nothing)]
    } else if k == 45 {
        seq![ElementView::Line(pt(x, y, 0, 0), pt(x, y, 6, 6), Stroke::Solid, Feature::Nothing)]
    } else if k == 46 {
        seq![ElementView::Line(pt(x, y, 2, 2), pt(x, y, 2, 4), Stroke::Solid, Feature::Nothing)]
    } else if k == 47 {
        seq![ElementView::Line(pt(x, y, 4, 0), pt(x, y, -2, 6), Stroke::Solid, Feature::Nothing)]
    } else if k == 48 {
        seq![ElementView::Line(pt(x, y, 2, 2), pt(x, y, 2, 4), Stroke::Solid, Feature::Nothing)]
    } else if k == 49 {
        seq![ElementView::Line(pt(x, y, 4, 0), pt(x, y, 0, 2), Stroke::Solid, Feature::Nothing)]
    } else if k == 50 {
        seq![ElementView::Line(pt(x, y, 4, 2), pt(x, y, 0, 4), Stroke::Solid, Feature::Nothing)]
    } else if k == 51 {
        seq![ElementView::Line(pt(x, y, 0, 2), pt(x, y, 4, 4), Stroke::Solid, Feature::Nothing)]
    } else if k == 52 {
        seq![ElementView::Line(pt(x, y, 0, 0), pt(x, y, 4, 2), Stroke::Solid, Feature::Nothing)]
    } else if k == 53 {
        seq![ElementView::Line(pt(x, y, 4, 0), pt(x, y, -4, 4), Stroke::Solid, Feature::Nothing)]
    } else if k == 54 {
        seq![ElementView::Line(pt(x, y, 0, 0), pt(x, y, 4, 2), Stroke::Solid, Feature::Nothing)]
    } else if k == 55 {
        seq![ElementView::Line(pt(x, y, 0, 0), pt(x, y, 8, 4), Stroke::Solid, Feature::Nothing)]
    } else if k == 56 {
        seq![ElementView::Line(pt(x, y, 0, 0), pt(x, y, 8, 4), Stroke::Solid, Feature::Nothing)]
    } else if k == 57 {
        seq![ElementView::Arc(pt(x, y, 7, 4), pt(x, y, -4, 0), 20, false)]
    } else if k == 58 {
        seq![]
    } else if k == 59 {
        seq![ElementView::Arc(pt(x, y, 6, 4), pt(x, y, 3, 0), 20, false)]
    } else if k == 60 {
        seq![ElementView::Arc(pt(x, y, 8, 0), pt(x, y, -3, 4), 20, false)]
    } else if k == 61 {
        seq![]
    } else if k == 62 {
        seq![ElementView::Arc(pt(x, y, 1, 0), pt(x, y, -2, 4), 20, false)]
    } else if k == 63 {
        seq![ElementView::Arc(pt(x, y, -3, 0), pt(x, y, 8, 4), 20, false)]
    } else if k == 64 {
        seq![]
    } else if k == 65 {
        seq![ElementView::Arc(pt(x, y, -2, 0), pt(x, y, 1, 4), 20, false)]
    } else if k == 66 {
        seq![ElementView::Arc(pt(x, y, -4, 4), pt(x, y, 7, 0), 20, false)]
    } else if k == 67 {
        seq![ElementView::Arc(pt(x, y, 3, 4), pt(x, y, 6, 0), 20, false)]
    } else if k == 68 {
        seq![]
    } else if k == 69 {
        seq![ElementView::Line(pt(x, y, 0, 0), pt(x, y, 2, 1), Stroke::Solid, Feature::Nothing), ElementView::Line(pt(x, y, 2, 1), pt(x, y, 4, 0), Stroke::Solid, Feature::Nothing)]
    } else if k == 70 {
        seq![ElementView::Line(pt(x, y, 0, 2), pt(x, y, 2, 3), Stroke::Solid, Feature::Nothing), ElementView::Line(pt(x, y, 2, 3), pt(x, y, 4, 2), Stroke::Solid, Feature::Nothing)]
    } else if k == 71 {
        seq![ElementView::Line(pt(x, y, 2, 3), pt(x, y, 4, 2), Stroke::Solid, Feature::Nothing), ElementView::Line(pt(x, y, 2, 3), pt(x, y, 4, 4), Stroke::Solid, Feature::Nothing)]
    } else if k == 72 {
        seq![ElementView::Line(pt(x, y, 2, 3), pt(x, y, 0, 2), Stroke::Solid, Feature::Nothing), ElementView::Line(pt(x, y, 2, 3), pt(x, y, 0, 4), Stroke::Solid, Feature::Nothing)]
    } else if k == 73 {
        seq![ElementView::Line(pt(x, y, 2, 3), pt(x, y, 0, 4), Stroke::Solid, Feature::Nothing), ElementView::Line(pt(x, y, 2, 3), pt(x, y, 4, 4), Stroke::Solid, Feature::Nothing)]
    } else if k == 74 {
        seq![ElementView::Line(pt(x, y, 2, 1), pt(x, y, 0, 2), Stroke::Solid, Feature::Nothing), ElementView::Line(pt(x, y, 2, 1), pt(x, y, 4, 2), Stroke::Solid, Feature::Nothing)]
    } else if k == 75 {
        seq![ElementView::Line(pt(x, y, 2, 2), pt(x, y, 2, 4), Stroke::Solid, Feature::Nothing), ElementView::Line(pt(x, y, 2, 2), pt(x, y, 4, 2), Stroke::Solid, Feature::Nothing)]
    } else if k == 76 {
        seq![ElementView::Line(pt(x, y, 2, 2), pt(x, y, 2, 4), Stroke::Solid, Feature::Nothing), ElementView::Line(pt(x, y, 2, 2), pt(x, y, 0, 2), Stroke::Solid, Feature::Nothing)]
    } else if k == 77 {
        seq![ElementView::Line(pt(x, y, 2, 2), pt(x, y, 2, 0), Stroke::Solid, Feature::Nothing), ElementView::Line(pt(x, y, 2, 2), pt(x, y, 4, 2), Stroke::Solid, Feature::Nothing)]
    } else if k == 78 {
        seq![ElementView::Line(pt(x, y, 2, 2), pt(x, y, 2, 0), Stroke::Solid, Feature::Nothing), ElementView::Line(pt(x, y, 2, 2), pt(x, y, 0, 2), Stroke::Solid, Feature::Nothing)]
    } else if k == 79 {
        seq![ElementView::Line(pt(x, y, 2, 3), pt(x, y, 2, 4), Stroke::Solid, Feature::Nothing), ElementView::Arc(pt(x, y, 4, 2), pt(x, y, 2, 3), 2, false)]
    } else if k == 80 {
        seq![ElementView::Line(pt(x, y, 2, 3), pt(x, y, 2, 4), Stroke::Solid, Feature::Nothing), ElementView::Arc(pt(x, y, 2, 3), pt(x, y, 0, 2), 2, false)]
    } else if k == 81 {
        seq![ElementView::Line(pt(x, y, 2, 0), pt(x, y, 2, 1), Stroke::Solid, Feature::Nothing), ElementView::Arc(pt(x, y, 2, 1), pt(x, y, 4, 2), 2, false)]
    } else if k == 82 {
        seq![ElementView::Line(pt(x, y, 2, 0), pt(x, y, 2, 1), Stroke::Solid, Feature::Nothing), ElementView::Arc(pt(x, y, 0, 2), pt(x, y, 2, 1), 2, false)]
    } else if k == 83 {
        seq![ElementView::Arc(pt(x, y, 0, 4), pt(x, y, 2, 3), 2, false), ElementView::Line(pt(x, y, 2, 3), pt(x, y, 2, 0), Stroke::Solid, Feature::Nothing)]
    } else if k == 84 {
        seq![ElementView::Line(pt(x, y, 2, 3), pt(x, y, 2, 0), Stroke::Solid, Feature::Nothing), ElementView::Arc(pt(x, y, 2, 3), pt(x, y, 4, 4), 2, false)]
    } else if k == 85 {
        seq![ElementView::Line(pt(x, y, 0, 4), pt(x, y, 1, 3), Stroke::Solid, Feature::Nothing), ElementView::Arc(pt(x, y, 4, 2), pt(x, y, 1, 3), 4, false)]
    } else if k == 86 {
        seq![ElementView::Line(pt(x, y, 4, 4), pt(x, y, 3, 3), Stroke::Solid, Feature::Nothing), ElementView::Arc(pt(x, y, 3, 3), pt(x, y, 0, 2), 4, false)]
    } else if k == 87 {
        seq![ElementView::Line(pt(x, y, 0, 4), pt(x, y, 1, 3), Stroke::Solid, Feature::Nothing), ElementView::Arc(pt(x, y, 1, 3), pt(x, y, 0, 2), 2, false)]
    } else if k == 88 {
        seq![ElementView::Line(pt(x, y, 4, 4), pt(x, y, 3, 3), Stroke::Solid, Feature::Nothing), ElementView::Arc(pt(x, y, 4, 2), pt(x, y, 3, 3), 2, false)]
    } else if k == 89 {
        seq![ElementView::Line(pt(x, y, 0, 0), pt(x, y, 1, 1), Stroke::Solid, Feature::Nothing), ElementView::Arc(pt(x, y, 1, 1), pt(x, y, 4, 2), 4, false)]
    } else if k == 90 {
        seq![ElementView::Line(pt(x, y, 3, 1), pt(x, y, 4, 0), Stroke::Solid, Feature::Nothing), ElementView::Arc(pt(x, y, 3, 1), pt(x, y, 4, 2), 2, false)]
    } else if k == 91 {
        seq![ElementView::Line(pt(x, y, 0, 0), pt(x, y, 1, 1), Stroke::Solid, Feature::Nothing), ElementView::Arc(pt(x, y, 0, 2), pt(x, y, 1, 1), 2, false)]
    } else if k == 92 {
        seq![ElementView::Line(pt(x, y, 3, 1), pt(x, y, 4, 0), Stroke::Solid, Feature::Nothing), ElementView::Arc(pt(x, y, 0, 2), pt(x, y, 3, 1), 4, false)]
    } else if k == 93 {
        seq![ElementView::Line(pt(x, y, 0, 0), pt(x, y, 1, 1), Stroke::Solid, Feature::Nothing), ElementView::Line(pt(x, y, 0, 4), pt(x, y, 1, 3), Stroke::Solid, Feature::Nothing), ElementView::Arc(pt(x, y, 1, 3), pt(x, y, 1, 1), 4, false)]
    } else if k == 94 {
        seq![ElementView::Line(pt(x, y, 4, 0), pt(x, y, 3, 1), Stroke::Solid, Feature::Nothing), ElementView::Line(pt(x, y, 4, 4), pt(x, y, 3, 3), Stroke::Solid, Feature::Nothing), ElementView::Arc(pt(x, y, 3, 1), pt(x, y, 3, 3), 4, false)]
    } else if k == 95 {
        seq![ElementView::Arc(pt(x, y, 3, 0), pt(x, y, 3, 4), 8, false)]
    } else if k == 96 {
        seq![ElementView::Arc(pt(x, y, 1, 4), pt(x, y, 1, 0), 8, false)]
    } else if k == 97 {
        seq![ElementView::Arc(pt(x, y, 4, 2), pt(x, y, -1, 4), 8, false)]
    } else if k == 98 {
        seq![ElementView::Arc(pt(x, y, 5, 4), pt(x, y, 0, 2), 8, false)]
    } else if k == 99 {
        seq![ElementView::Arc(pt(x, y, -1, 0), pt(x, y, 4, 2), 8, false)]
    } else if k == 100 {
        seq![ElementView::Arc(pt(x, y, 0, 2), pt(x, y, 5, 0), 8, false)]
    } else if k == 101 {
        seq![ElementView::Arc(pt(x, y, 4, 2), pt(x, y, 2, 3), 2, false), ElementView::Line(pt(x, y, 2, 3), pt(x, y, 2, 4), Stroke::Solid, Feature::Nothing)]
    } else if k == 102 {
        seq![ElementView::Arc(pt(x, y, 2, 3), pt(x, y, 0, 2), 2, false), ElementView::Line(pt(x, y, 2, 3), pt(x, y, 2, 4), Stroke::Solid, Feature::Nothing)]
    } else if k == 103 {
        seq![ElementView::Arc(pt(x, y, 2, 1), pt(x, y, 4, 2), 2, false), ElementView::Line(pt(x, y, 2, 0), pt(x, y, 2, 1), Stroke::Solid, Feature::Nothing)]
    } else if k == 104 {
        seq![ElementView::Arc(pt(x, y, 0, 2), pt(x, y, 2, 1), 2, false), ElementView::Line(pt(x, y, 2, 0), pt(x, y, 2, 1), Stroke::Solid, Feature::Nothing)]
    } else if k == 105 {
        seq![ElementView::Arc(pt(x, y, 4, 2), pt(x, y, 0, 2), 8, false)]
    } else if k == 106 {
        seq![ElementView::Arc(pt(x, y, 0, 4), pt(x, y, 4, 4), 8, false)]
    } else if k == 107 {
        seq![ElementView::Arc(pt(x, y, 0, 2), pt(x, y, 0, 0), 8, false)]
    } else if k == 108 {
        seq![ElementView::Arc(pt(x, y, 4, 2), pt(x, y, 0, 2), 8, false)]
    } else if k == 109 {
        seq![ElementView::Arc(pt(x, y, 0, 2), pt(x, y, 4, 2), 8, false)]
    } else if k == 110 {
        seq![ElementView::Line(pt(x, y, 4, 0), pt(x, y, 3, 1), Stroke::Solid, Feature::Nothing), ElementView::Line(pt(x, y, 2, 4), pt(x, y, 2, 3), Stroke::Solid, Feature::Nothing), ElementView::Arc(pt(x, y, 3, 1), pt(x, y, 2, 3), 8, false)]
    } else if k == 111 {
        seq![ElementView::Line(pt(x, y, 2, 0), pt(x, y, 2, 1), Stroke::Solid, Feature::Nothing), ElementView::Line(pt(x, y, 0, 4), pt(x, y, 1, 3), Stroke::Solid, Feature::Nothing), ElementView::Arc(pt(x, y, 1, 3), pt(x, y, 2, 1), 8, false)]
    } else if k == 112 {
        seq![ElementView::Line(pt(x, y, 0, 0), pt(x, y, 1, 1), Stroke::Solid, Feature::Nothing), ElementView::Line(pt(x, y, 2, 3), pt(x, y, 2, 4), Stroke::Solid, Feature::Nothing), ElementView::Arc(pt(x, y, 2, 3), pt(x, y, 1, 1), 8, false)]
    } else if k == 113 {
        seq![ElementView::Line(pt(x, y, 2, 0), pt(x, y, 2, 1), Stroke::Solid, Feature::Nothing), ElementView::Line(pt(x, y, 3, 3), pt(x, y, 4, 4), Stroke::Solid, Feature::Nothing), ElementView::Arc(pt(x, y, 2, 1), pt(x, y, 3, 3), 8, false)]
    } else if k == 114 {
        seq![ElementView::Line(pt(x, y, 0, 4), pt(x, y, 2, 2), Stroke::Solid, Feature::Nothing), ElementView::Line(pt(x, y, 2, 2), pt(x, y, 4, 4), Stroke::Solid, Feature::Nothing)]
    } else if k == 115 {
        seq![ElementView::Line(pt(x, y, 0, 0), pt(x, y, 2, 2), Stroke::Solid, Feature::Nothing), ElementView::Line(pt(x, y, 2, 2), pt(x, y, 4, 0), Stroke::Solid, Feature::Nothing)]
    } else if k == 116 {
        seq![ElementView::Line(pt(x, y, 0, 4), pt(x, y, 2, 2), Stroke::Solid, Feature::Nothing), ElementView::Line(pt(x, y, 2, 2), pt(x, y, 4, 4), Stroke::Solid, Feature::Nothing), ElementView::Line(pt(x, y, 2, 0), pt(x, y, 2, 2), Stroke::Solid, Feature::Nothing)]
    } else if k == 117 {
        seq![ElementView::Line(pt(x, y, 0, 0), pt(x, y, 2, 2), Stroke::Solid, Feature::Nothing), ElementView::Line(pt(x, y, 2, 2), pt(x, y, 4, 0), Stroke::Solid, Feature::Nothing), ElementView::Line(pt(x, y, 2, 4), pt(x, y, 2, 2), Stroke::Solid, Feature::Nothing)]
    } else if k == 118 {
        seq![ElementView::Line(pt(x, y, 2, 2), pt(x, y, 2, 4), Stroke::Solid, Feature::Nothing), ElementView::Line(pt(x, y, 2, 2), pt(x, y, 4, 4), Stroke::Solid, Feature::Nothing)]
    } else if k == 119 {
        seq![ElementView::Line(pt(x, y, 2, 2), pt(x, y, 2, 4), Stroke::Solid, Feature::Nothing), ElementView::Line(pt(x, y, 2, 2), pt(x, y, 0, 4), Stroke::Solid, Feature::Nothing)]
    } else if k == 120 {
        seq![ElementView::Line(pt(x, y, 0, 0), pt(x, y, 2, 2), Stroke::Solid, Feature::Nothing), ElementView::Line(pt(x, y, 2, 2), pt(x, y, 2, 0), Stroke::Solid, Feature::Nothing)]
    } else if k == 121 {
        seq![ElementView::Line(pt(x, y, 2, 0), pt(x, y, 2, 2), Stroke::Solid, Feature::Nothing), ElementView::Line(pt(x, y, 2, 2), pt(x, y, 4, 0), Stroke::Solid, Feature::Nothing)]
    } else if k == 122 {
        seq![ElementView::Arc(pt(x, y, 2, 4), pt(x, y, 0, 2), 4, false)]
    } else if k == 123 {
        seq![ElementView::Arc(pt(x, y, 0, 2), pt(x, y, 2, 0), 4, false)]
    } else if k == 124 {
        seq![ElementView::Arc(pt(x, y, 4, 2), pt(x, y, 2, 4), 4, false)]
    } else if k == 125 {
        seq![ElementView::Arc(pt(x, y, 2, 0), pt(x, y, 4, 2), 4, false)]
    } else if k == 126 {
        seq![ElementView::Arc(pt(x, y, 2, 0), pt(x, y, 4, 4), 16, false)]
    } else if k == 127 {
        seq![ElementView::Arc(pt(x, y, 4, 0), pt(x, y, 2, 4), 16, false)]
    } else if k == 128 {
        seq![ElementView::Line(pt(x, y, 0, 0), pt(x, y, 4, 2), Stroke::Solid, Feature::Nothing), ElementView::Line(pt(x, y, 0, 4), pt(x, y, 4, 2), Stroke::Solid, Feature::Nothing)]
    } else if k == 129 {
        seq![ElementView::Arc(pt(x, y, 0, 4), pt(x, y, 2, 0), 16, false)]
    } else if k == 130 {
        seq![ElementView::Arc(pt(x, y, 2, 4), pt(x, y, 0, 0), 16, false)]
    } else if k == 131 {
        seq![ElementView::Line(pt(x, y, 0, 2), pt(x, y, 4, 0), Stroke::Solid, Feature::Nothing), ElementView::Line(pt(x, y, 0, 2), pt(x, y, 4, 4), Stroke::Solid, Feature::Nothing)]
    } else if k == 132 {
        seq![ElementView::Arc(pt(x, y, 4, 2), pt(x, y, 2, 3), 2, false), ElementView::Line(pt(x, y, 2, 3), pt(x, y, 2, 5), Stroke::Solid, Feature::Nothing)]
    } else if k == 133 {
        seq![ElementView::Line(pt(x, y, 0, 2), pt(x, y, 6, 1), Stroke::Solid, Feature::Nothing), ElementView::Line(pt(x, y, 0, 2), pt(x, y, 6, 3), Stroke::Solid, Feature::Nothing)]
    } else if k == 134 {
        seq![ElementView::Arc(pt(x, y, 2, 1), pt(x, y, 4, 2), 2, false), ElementView::Line(pt(x, y, 2, -1), pt(x, y, 2, 1), Stroke::Solid, Feature::Nothing)]
    } else if k == 135 {
        seq![ElementView::Line(pt(x, y, -2, 1), pt(x, y, 4, 2), Stroke::Solid, Feature::Nothing), ElementView::Line(pt(x, y, -2, 3), pt(x, y, 4, 2), Stroke::Solid, Feature::Nothing)]
    } else if k == 136 {
        seq![ElementView::Arc(pt(x, y, 0, 2), pt(x, y, 2, 1), 2, false), ElementView::Line(pt(x, y, 2, -1), pt(x, y, 2, 1), Stroke::Solid, Feature::Nothing)]
    } else if k == 137 {
        seq![ElementView::Arc(pt(x, y, 2, 3), pt(x, y, 0, 2), 2, false), ElementView::Line(pt(x, y, 2, 3), pt(x, y, 2, 5), Stroke::Solid, Feature::Nothing)]
    } else if k == 138 {
        seq![ElementView::Line(pt(x, y, -2, 4), pt(x, y, 8, 4), Stroke::Solid, Feature::Nothing)]
    } else if k == 139 {
        seq![ElementView::Line(pt(x, y, 0, 4), pt(x, y, 4, 0), Stroke::Solid, Feature::Nothing), ElementView::Line(pt(x, y, 3, 2), pt(x, y, 4, 2), Stroke::Solid, Feature::Nothing), ElementView::Arc(pt(x, y, 3, 2), pt(x, y, 1, 3), 4, false)]
    } else if k == 140 {
        seq![ElementView::Line(pt(x, y, 0, 4), pt(x, y, 4, 0), Stroke::Solid, Feature::Nothing), ElementView::Line(pt(x, y, 1, 2), pt(x, y, 0, 2), Stroke::Solid, Feature::Nothing), ElementView::Arc(pt(x, y, 1, 2), pt(x, y, 3, 1), 8, false)]
    } else if k == 141 {
        seq![ElementView::Line(pt(x, y, 0, 0), pt(x, y, 4, 4), Stroke::Solid, Feature::Nothing), ElementView::Line(pt(x, y, 1, 2), pt(x, y, 0, 2), Stroke::Solid, Feature::Nothing), ElementView::Arc(pt(x, y, 3, 3), pt(x, y, 1, 2), 4, false)]
    } else if k == 142 {
        seq![ElementView::Line(pt(x, y, 0, 0), pt(x, y, 4, 4), Stroke::Solid, Feature::Nothing), ElementView::Line(pt(x, y, 3, 2), pt(x, y, 4, 2), Stroke::Solid, Feature::Nothing), ElementView::Arc(pt(x, y, 1, 1), pt(x, y, 3, 2), 4, false)]
    } else if k == 143 {
        seq![ElementView::Line(pt(x, y, 0, 2), pt(x, y, 4, 2), Stroke::Solid, Feature::Nothing), ElementView::Line(pt(x, y, 0, 4), pt(x, y, 1, 3), Stroke::Solid, Feature::Nothing), ElementView::Arc(pt(x, y, 4, 2), pt(x, y, 1, 3), 4, false)]
    } else if k == 144 {
        seq![ElementView::Line(pt(x, y, 0, 2), pt(x, y, 4, 2), Stroke::Solid, Feature::Nothing), ElementView::Line(pt(x, y, 3, 3), pt(x, y, 4, 4), Stroke::Solid, Feature::Nothing), ElementView::Arc(pt(x, y, 3, 3), pt(x, y, 0, 2), 4, false)]
    } else if k == 145 {
        seq![ElementView::Line(pt(x, y, 0, 2), pt(x, y, 4, 2), Stroke::Solid, Feature::Nothing), ElementView::Line(pt(x, y, 3, 1), pt(x, y, 4, 0), Stroke::Solid, Feature::Nothing), ElementView::Arc(pt(x, y, 0, 2), pt(x, y, 3, 1), 4, false)]
    } else if k == 146 {
        seq![ElementView::Line(pt(x, y, 0, 2), pt(x, y, 4, 2), Stroke::Solid, Feature::Nothing), ElementView::Line(pt(x, y, 0, 0), pt(x, y, 1, 1), Stroke::Solid, Feature::Nothing), ElementView::Arc(pt(x, y, 1, 1), pt(x, y, 4, 2), 4, false)]
    } else if k == 147 {
        seq![ElementView::Line(pt(x, y, 2, 2), pt(x, y, 2, 0), Stroke::Solid, Feature::Nothing), ElementView::Line(pt(x, y, 0, 2), pt(x, y, 4, 2), Stroke::Solid, Feature::Nothing)]
    } else if k == 148 {
        seq![ElementView::Line(pt(x, y, 2, 2), pt(x, y, 2, 4), Stroke::Solid, Feature::Nothing), ElementView::Line(pt(x, y, 0, 2), pt(x, y, 4, 2), Stroke::Solid, Feature::Nothing)]
    } else if k == 149 {
        seq![ElementView::Line(pt(x, y, 2, 0), pt(x, y, 2, 4), Stroke::Solid, Feature::Nothing), ElementView::Line(pt(x, y, 2, 2), pt(x, y, 0, 2), Stroke::Solid, Feature::Nothing)]
    } else if k == 150 {
        seq![ElementView::Line(pt(x, y, 2, 0), pt(x, y, 2, 4), Stroke::Solid, Feature::Nothing), ElementView::Line(pt(x, y, 2, 2), pt(x, y, 4, 2), Stroke::Solid, Feature::Nothing)]
    } else if k == 151 {
        seq![ElementView::Line(pt(x, y, 2, 0), pt(x, y, 2, 4), Stroke::Solid, Feature::Nothing), ElementView::Line(pt(x, y, 0, 4), pt(x, y, 1, 3), Stroke::Solid, Feature::Nothing), ElementView::Arc(pt(x, y, 1, 3), pt(x, y, 2, 1), 8, false)]
    } else if k == 152 {
        seq![ElementView::Line(pt(x, y, 2, 0), pt(x, y, 2, 4), Stroke::Solid, Feature::Nothing), ElementView::Line(pt(x, y, 4, 4), pt(x, y, 3, 3), Stroke::Solid, Feature::Nothing), ElementView::Arc(pt(x, y, 2, 1), pt(x, y, 3, 3), 8, false)]
    } else if k == 153 {
        seq![ElementView::Line(pt(x, y, 2, 0), pt(x, y, 2, 2), Stroke::Solid, Feature::Nothing), ElementView::Line(pt(x, y, 2, 2), pt(x, y, 4, 4), Stroke::Solid, Feature::Nothing), ElementView::Line(pt(x, y, 2, 2), pt(x, y, 0, 4), Stroke::Solid, Feature::Nothing)]
    } else if k == 154 {
        seq![ElementView::Line(pt(x, y, 2, 0), pt(x, y, 2, 4), Stroke::Solid, Feature::Nothing), ElementView::Line(pt(x, y, 2, 2), pt(x, y, 4, 0), Stroke::Solid, Feature::Nothing)]
    } else if k == 155 {
        seq![ElementView::Line(pt(x, y, 2, 0), pt(x, y, 2, 4), Stroke::Solid, Feature::Nothing), ElementView::Line(pt(x, y, 0, 0), pt(x, y, 2, 2), Stroke::Solid, Feature::Nothing)]
    } else if k == 156 {
        seq![ElementView::Line(pt(x, y, 2, 0), pt(x, y, 2, 4), Stroke::Solid, Feature::Nothing), ElementView::Line(pt(x, y, 0, 2), pt(x, y, 4, 2), Stroke::Solid, Feature::Nothing)]
    } else if k == 157 {
        seq![ElementView::Line(pt(x, y, 2, 0), pt(x, y, 2, 4), Stroke::Dashed, Feature::Nothing), ElementView::Line(pt(x, y, 0, 2), pt(x, y, 4, 2), Stroke::Dashed, Feature::Nothing)]
    } else if k == 158 {
        seq![ElementView::Line(pt(x, y, 2, 0), pt(x, y, 2, 4), Stroke::Solid, Feature::Nothing), ElementView::Line(pt(x, y, 0, 0), pt(x, y, 4, 4), Stroke::Solid, Feature::Nothing), ElementView::Line(pt(x, y, 0, 4), pt(x, y, 4, 0), Stroke::Solid, Feature::Nothing)]
    } else if k == 159 {
        seq![ElementView::Line(pt(x, y, 2, 0), pt(x, y, 2, 4), Stroke::Solid, Feature::Nothing), ElementView::Line(pt(x, y, 0, 2), pt(x, y, 4, 2), Stroke::Solid, Feature::Nothing), ElementView::Line(pt(x, y, 0, 0), pt(x, y, 4, 4), Stroke::Solid, Feature::Nothing), ElementView::Line(pt(x, y, 0, 4), pt(x, y, 4, 0), Stroke::Solid, Feature::Nothing)]
    } else {
        seq![]
    }
}

/// Whether a lattice point lies on the 5 x 5 points of cell `(x, y)`.
pub open spec fn on_cell_lattice(p: Point, x: int, y: int) -> bool {
    4 * x <= p.x <= 4 * x + 4 && 4 * y <= p.y <= 4 * y + 4
}

/// Whether every point of a line, arc or circle lies on the 5 x 5 points of
/// cell `(x, y)`.
pub open spec fn drawn_on_cell(e: ElementView, x: int, y: int) -> bool {
    match e {
        ElementView::Line(s, t, _, _) => on_cell_lattice(s, x, y) && on_cell_lattice(t, x, y),
        ElementView::Arc(s, t, _, _) => on_cell_lattice(s, x, y) && on_cell_lattice(t, x, y),
        ElementView::Circle(c, _, _) => on_cell_lattice(c, x, y),
        _ => false,
    }
}

/// The rules that reach past their cell: long arcs, overshooting lines and
/// extended low bars.
pub open spec fn extended_rule(k: int) -> bool {
    k == 26 || k == 27 || k == 28 || k == 29 || k == 30 || k == 31 || k == 32 || k == 34
        || k == 36 || k == 37 || k == 39 || k == 42 || k == 44 || k == 45 || k == 47 || k == 53
        || k == 55 || k == 56 || k == 57 || k == 59 || k == 60 || k == 62 || k == 63 || k == 65
        || k == 66 || k == 67 || k == 97 || k == 98 || k == 99 || k == 100 || k == 132
        || k == 133 || k == 134 || k == 135 || k == 136 || k == 137 || k == 138
}

/// Every line, arc and circle of a rule lies on its cell's 5 x 5 lattice
/// points, but for the extended rules, whose points stay within the cell's
/// window.
pub proof fn lemma_rule_points(x: int, y: int, k: int)
    requires
        -MAX_CELL <= x <= MAX_CELL,
        -MAX_CELL <= y <= MAX_CELL,
    ensures
        forall|i: int|
            0 <= i < rule_output(x, y, k).len() ==> if extended_rule(k) {
                drawn_near(#[trigger] rule_output(x, y, k)[i], x, y)
            } else {
                drawn_on_cell(rule_output(x, y, k)[i], x, y)
            },
{
    if 0 <= k < RULE_COUNT {
        lemma_rule_points_at(x, y, k);
    }
}

proof fn lemma_rule_points_at(x: int, y: int, k: int)
    requires
        -MAX_CELL <= x <= MAX_CELL,
        -MAX_CELL <= y <= MAX_CELL,
        0 <= k < RULE_COUNT,
    ensures
        forall|i: int|
            0 <= i < rule_output(x, y, k).len() ==> if extended_rule(k) {
                drawn_near(#[trigger] rule_output(x, y, k)[i], x, y)
            } else {
                drawn_on_cell(rule_output(x, y, k)[i], x, y)
            },
{
    let s = rule_output(x, y, k);
    assert forall|i: int| 0 <= i < s.len() implies if extended_rule(k) {
        drawn_near(#[trigger] s[i], x, y)
    } else {
        drawn_on_cell(s[i], x, y)
    } by {
        if i == 0 {
        } else if i == 1 {
        } else if i == 2 {
        } else {
        }
    }
}

/// The index of the last rule below `n` that holds at cell `(x, y)`.
pub open spec fn first_rule(g: Grid, x: int, y: int, n: int) -> Option<int>
    decreases n,
{
    if n <= 0 {
        None
    } else if rule_guard(g, x, y, n - 1) {
        Some(n - 1)
    } else {
        first_rule(g, x, y, n - 1)
    }
}

/// The pattern rules: a later rule is more specific and wins over an
/// earlier one. The primitives of the last rule that holds at cell
/// `(x, y)`, or `None` where no rule holds.
pub open spec fn rule_table(g: Grid, x: int, y: int) -> Option<Seq<ElementView>> {
    match first_rule(g, x, y, RULE_COUNT as int) {
        Some(k) => Some(rule_output(x, y, k)),
        None => None,
    }
}

/// Positions of the neighbourhood, as `pos_dx` and `pos_dy` place them.
pub const AT_THIS: usize = 0;
pub const AT_TOP: usize = 1;
pub const AT_BOTTOM: usize = 2;
pub const AT_LEFT: usize = 3;
pub const AT_RIGHT: usize = 4;
pub const AT_TOP_LEFT: usize = 5;
pub const AT_TOP_RIGHT: usize = 6;
pub const AT_BOTTOM_LEFT: usize = 7;
pub const AT_BOTTOM_RIGHT: usize = 8;
pub const AT_LEFT_LEFT: usize = 9;
pub const AT_RIGHT_RIGHT: usize = 10;
pub const AT_FAR_TOP_LEFT: usize = 11;
pub const AT_FAR_BOTTOM_LEFT: usize = 12;
pub const AT_FAR_TOP_RIGHT: usize = 13;
pub const AT_FAR_BOTTOM_RIGHT: usize = 14;

/// Indices of the classes, as `class_of` numbers them.
pub const VERTICAL: usize = 0;
pub const HORIZONTAL: usize = 1;
pub const HORIZONTAL_DASHED: usize = 2;
pub const VERTICAL_DASHED: usize = 3;
pub const LOW_HORIZONTAL: usize = 4;
pub const LOW_HORIZONTAL_DASHED: usize = 5;
pub const SLANT_LEFT: usize = 6;
pub const SLANT_RIGHT: usize = 7;
pub const LOW_ROUND: usize = 8;
pub const PERIOD: usize = 9;
pub const COMMA: usize = 10;
pub const HIGH_ROUND: usize = 11;
pub const BACKTICK: usize = 12;
pub const ROUND: usize = 13;
pub const INTERSECTION: usize = 14;
pub const MARKER: usize = 15;
pub const ASTERISK: usize = 16;
pub const LETTER_O: usize = 17;
pub const ARROW_UP: usize = 18;
pub const ARROW_DOWN: usize = 19;
pub const ARROW_LEFT: usize = 20;
pub const ARROW_RIGHT: usize = 21;
pub const OPEN_CURVE: usize = 22;
pub const CLOSE_CURVE: usize = 23;
pub const ALPHANUMERIC: usize = 24;

/// Whether `h` holds, for each neighbourhood position and class, whether
/// that cell is of that class.
pub open spec fn hood_ok(h: Seq<Vec<bool>>, g: Grid, x: int, y: int) -> bool {
    &&& h.len() == 15
    &&& forall|pos: int|
        0 <= pos < 15 ==> (#[trigger] h[pos])@.len() == 25
    &&& forall|pos: int, c: int|
        0 <= pos < 15 && 0 <= c < 25 ==> (#[trigger] h[pos]@[c]) == at(
            g,
            x,
            y,
            pos_dx(pos),
            pos_dy(pos),
            class_of(c),
        )
}

fn pos_offset(pos: usize) -> (r: (isize, isize))
    requires
        pos < 15,
    ensures
        r.0 == pos_dx(pos as int),
        r.1 == pos_dy(pos as int),
{
    if pos == 0 {
        (0, 0)
    } else if pos == 1 {
        (0, -1)
    } else if pos == 2 {
        (0, 1)
    } else if pos == 3 {
        (-1, 0)
    } else if pos == 4 {
        (1, 0)
    } else if pos == 5 {
        (-1, -1)
    } else if pos == 6 {
        (1, -1)
    } else if pos == 7 {
        (-1, 1)
    } else if pos == 8 {
        (1, 1)
    } else if pos == 9 {
        (-2, 0)
    } else if pos == 10 {
        (2, 0)
    } else if pos == 11 {
        (-2, -1)
    } else if pos == 12 {
        (-2, 1)
    } else if pos == 13 {
        (2, -1)
    } else {
        (2, 1)
    }
}

fn class_index(c: usize) -> (r: Class)
    requires
        c < 25,
    ensures
        r == class_of(c as int),
{
    if c == 0 {
        Class::Vertical
    } else if c == 1 {
        Class::Horizontal
    } else if c == 2 {
        Class::HorizontalDashed
    } else if c == 3 {
        Class::VerticalDashed
    } else if c == 4 {
        Class::LowHorizontal
    } else if c == 5 {
        Class::LowHorizontalDashed
    } else if c == 6 {
        Class::SlantLeft
    } else if c == 7 {
        Class::SlantRight
    } else if c == 8 {
        Class::LowRound
    } else if c == 9 {
        Class::Period
    } else if c == 10 {
        Class::Comma
    } else if c == 11 {
        Class::HighRound
    } else if c == 12 {
        Class::Backtick
    } else if c == 13 {
        Class::Round
    } else if c == 14 {
        Class::Intersection
    } else if c == 15 {
        Class::Marker
    } else if c == 16 {
        Class::Asterisk
    } else if c == 17 {
        Class::O
    } else if c == 18 {
        Class::ArrowUp
    } else if c == 19 {
        Class::ArrowDown
    } else if c == 20 {
        Class::ArrowLeft
    } else if c == 21 {
        Class::ArrowRight
    } else if c == 22 {
        Class::OpenCurve
    } else if c == 23 {
        Class::CloseCurve
    } else {
        Class::Alphanumeric
    }
}

/// What cell `(x, y)` may contribute: up to four lines, arcs or circles in
/// its window, or its own escaped text where it shows as text.
pub open spec fn cell_output(g: Grid, x: isize, y: isize, v: Seq<Element>) -> bool {
    (v.len() <= 4 && all_drawn_near(v, x as int, y as int)) || (shows_text(g, x as int, y as int)
        && v.len() == 1 && v[0]@ == ElementView::Text(
        Loc { x, y },
        escaped(g.cell_at(x as int, y as int).unwrap().string@),
    ))
}

/// The number of cells of the rows.
pub open spec fn cell_count(rows: Seq<Vec<GChar>>) -> int
    decreases rows.len(),
{
    if rows.len() == 0 {
        0
    } else {
        cell_count(rows.drop_last()) + rows.last()@.len()
    }
}

/// The number of primitives in all groups.
pub open spec fn group_total(groups: Seq<(Loc, Vec<Element>)>) -> int
    decreases groups.len(),
{
    if groups.len() == 0 {
        0
    } else {
        group_total(groups.drop_last()) + groups.last().1@.len()
    }
}

/// Whether the position lies in the range that the rules accept.
pub open spec fn loc_in_range(l: Loc) -> bool {
    0 <= l.x <= MAX_CELL && 0 <= l.y <= MAX_CELL
}

/// Whether `groups` are the per-cell primitives of the grid: each group
/// stands at the first column of a cell and is what that cell contributes,
/// the cells come in reading order, and every cell in reach that
/// contributes something has its group.
pub open spec fn cell_groups(g: Grid, groups: Seq<(Loc, Vec<Element>)>) -> bool {
    &&& group_total(groups) <= 4 * cell_count(g.lines@)
    &&& forall|i: int|
        0 <= i < groups.len() ==> loc_in_range((#[trigger] groups[i]).0) && cell_output(
            g,
            groups[i].0.x,
            groups[i].0.y,
            groups[i].1@,
        ) && cell_spec(g, groups[i].0.x as int, groups[i].0.y as int) == Some(views(groups[i].1@))
            && starts_cell(g, groups[i].0.x as int, groups[i].0.y as int)
    &&& forall|i: int, j: int|
        0 <= i < j < groups.len() ==> loc_before((#[trigger] groups[i]).0, (#[trigger] groups[j]).0)
    &&& forall|y: int|
        0 <= y < g.lines@.len() ==> row_complete(g, groups, y, (#[trigger] g.lines@[y])@.len() as int)
}

/// Whether a cell spanning at least one column starts at column `x` of
/// row `y`.
pub open spec fn starts_cell(g: Grid, x: int, y: int) -> bool {
    0 <= y < g.lines@.len() && exists|i: int|
        0 <= i < g.lines@[y]@.len() && g.lines@[y]@[i].width > 0 && #[trigger] start_column(
            g.lines@[y]@,
            i,
        ) == x
}

/// Whether a group for the cell at `(x, y)` is among the groups.
pub open spec fn has_group(groups: Seq<(Loc, Vec<Element>)>, x: int, y: int) -> bool {
    exists|k: int| 0 <= k < groups.len() && (#[trigger] groups[k]).0.x == x && groups[k].0.y == y
}

/// Whether the position lies where the rules are applied.
pub open spec fn in_reach(x: int, y: int) -> bool {
    0 <= x <= MAX_CELL && x <= isize::MAX - 2 && 0 <= y <= MAX_CELL && y <= isize::MAX - 2
}

/// Whether each of the first `n` cells of row `y` that spans a column, lies
/// in reach and contributes something has its group.
pub open spec fn row_complete(g: Grid, groups: Seq<(Loc, Vec<Element>)>, y: int, n: int) -> bool {
    forall|i: int|
        0 <= i < n && g.lines@[y]@[i].width > 0 && in_reach(#[trigger] start_column(g.lines@[y]@, i), y)
            && cell_spec(g, start_column(g.lines@[y]@, i), y) is Some ==> has_group(
            groups,
            start_column(g.lines@[y]@, i),
            y,
        )
}

proof fn lemma_complete_push(
    g: Grid,
    groups: Seq<(Loc, Vec<Element>)>,
    e: (Loc, Vec<Element>),
    y: int,
    n: int,
)
    requires
        row_complete(g, groups, y, n),
    ensures
        row_complete(g, groups.push(e), y, n),
{
    let s = groups.push(e);
    assert forall|i: int|
        0 <= i < n && g.lines@[y]@[i].width > 0 && in_reach(#[trigger] start_column(g.lines@[y]@, i), y)
            && cell_spec(g, start_column(g.lines@[y]@, i), y) is Some implies has_group(
        s,
        start_column(g.lines@[y]@, i),
        y,
    ) by {
        let x = start_column(g.lines@[y]@, i);
        let k = choose|k: int| 0 <= k < groups.len() && (#[trigger] groups[k]).0.x == x && groups[k].0.y == y;
        assert(s[k] == groups[k]);
    }
}

/// Whether `a` comes before `b` reading row by row, left to right.
pub open spec fn loc_before(a: Loc, b: Loc) -> bool {
    a.y < b.y || (a.y == b.y && a.x < b.x)
}

fn shapes1(x: isize, y: isize, a: Element) -> (r: Vec<Element>)
    requires
        drawn_near(a@, x as int, y as int),
    ensures
        r@.len() == 1,
        all_drawn_near(r@, x as int, y as int),
        views(r@) == seq![a@],
{
    let r = vec![a];
    assert(r@[0] == a);
    assert(views(r@) =~= seq![a@]);
    r
}

fn shapes2(x: isize, y: isize, a: Element, b: Element) -> (r: Vec<Element>)
    requires
        drawn_near(a@, x as int, y as int),
        drawn_near(b@, x as int, y as int),
    ensures
        r@.len() == 2,
        all_drawn_near(r@, x as int, y as int),
        views(r@) == seq![a@, b@],
{
    let r = vec![a, b];
    assert(r@[0] == a && r@[1] == b);
    assert(views(r@) =~= seq![a@, b@]);
    r
}

fn shapes3(x: isize, y: isize, a: Element, b: Element, c: Element) -> (r: Vec<Element>)
    requires
        drawn_near(a@, x as int, y as int),
        drawn_near(b@, x as int, y as int),
        drawn_near(c@, x as int, y as int),
    ensures
        r@.len() == 3,
        all_drawn_near(r@, x as int, y as int),
        views(r@) == seq![a@, b@, c@],
{
    let r = vec![a, b, c];
    assert(r@[0] == a && r@[1] == b && r@[2] == c);
    assert(views(r@) =~= seq![a@, b@, c@]);
    r
}

fn shapes4(x: isize, y: isize, a: Element, b: Element, c: Element, d: Element) -> (r: Vec<
    Element,
>)
    requires
        drawn_near(a@, x as int, y as int),
        drawn_near(b@, x as int, y as int),
        drawn_near(c@, x as int, y as int),
        drawn_near(d@, x as int, y as int),
    ensures
        r@.len() == 4,
        all_drawn_near(r@, x as int, y as int),
        views(r@) == seq![a@, b@, c@, d@],
{
    let r = vec![a, b, c, d];
    assert(r@[0] == a && r@[1] == b && r@[2] == c && r@[3] == d);
    assert(views(r@) =~= seq![a@, b@, c@, d@]);
    r
}

/// The primitives of rule `k` at cell `(x, y)`.
fn rule_shapes(x: isize, y: isize, k: usize) -> (r: Vec<Element>)
    requires
        -MAX_CELL <= x <= MAX_CELL,
        -MAX_CELL <= y <= MAX_CELL,
    ensures
        views(r@) == rule_output(x as int, y as int, k as int),
        r@.len() <= 4,
        all_drawn_near(r@, x as int, y as int),
{
    let mx: i64 = 4 * (x as i64);
    let my: i64 = 4 * (y as i64);
    let p_xm4_y0 = Point::new(mx - 4, my + 0);
    let p_xm4_y4 = Point::new(mx - 4, my + 4);
    let p_xm3_y0 = Point::new(mx - 3, my + 0);
    let p_xm3_y4 = Point::new(mx - 3, my + 4);
    let p_xm2_ym2 = Point::new(mx - 2, my - 2);
    let p_xm2_y0 = Point::new(mx - 2, my + 0);
    let p_xm2_y1 = Point::new(mx - 2, my + 1);
    let p_xm2_y2 = Point::new(mx - 2, my + 2);
    let p_xm2_y3 = Point::new(mx - 2, my + 3);
    let p_xm2_y4 = Point::new(mx - 2, my + 4);
    let p_xm2_y6 = Point::new(mx - 2, my + 6);
    let p_xm1_y0 = Point::new(mx - 1, my + 0);
    let p_xm1_y4 = Point::new(mx - 1, my + 4);
    let p_x0_y0 = Point::new(mx + 0, my + 0);
    let p_x0_y2 = Point::new(mx + 0, my + 2);
    let p_x0_y4 = Point::new(mx + 0, my + 4);
    let p_x1_y0 = Point::new(mx + 1, my + 0);
    let p_x1_y1 = Point::new(mx + 1, my + 1);
    let p_x1_y2 = Point::new(mx + 1, my + 2);
    let p_x1_y3 = Point::new(mx + 1, my + 3);
    let p_x1_y4 = Point::new(mx + 1, my + 4);
    let p_x2_ym2 = Point::new(mx + 2, my - 2);
    let p_x2_ym1 = Point::new(mx + 2, my - 1);
    let p_x2_y0 = Point::new(mx + 2, my + 0);
    let p_x2_y1 = Point::new(mx + 2, my + 1);
    let p_x2_y2 = Point::new(mx + 2, my + 2);
    let p_x2_y3 = Point::new(mx + 2, my + 3);
    let p_x2_y4 = Point::new(mx + 2, my + 4);
    let p_x2_y5 = Point::new(mx + 2, my + 5);
    let p_x2_y6 = Point::new(mx + 2, my + 6);
    let p_x3_y0 = Point::new(mx + 3, my + 0);
    let p_x3_y1 = Point::new(mx + 3, my + 1);
    let p_x3_y2 = Point::new(mx + 3, my + 2);
    let p_x3_y3 = Point::new(mx + 3, my + 3);
    let p_x3_y4 = Point::new(mx + 3, my + 4);
    let p_x4_y0 = Point::new(mx + 4, my + 0);
    let p_x4_y2 = Point::new(mx + 4, my + 2);
    let p_x4_y4 = Point::new(mx + 4, my + 4);
    let p_x5_y0 = Point::new(mx + 5, my + 0);
    let p_x5_y4 = Point::new(mx + 5, my + 4);
    let p_x6_ym2 = Point::new(mx + 6, my - 2);
    let p_x6_y0 = Point::new(mx + 6, my + 0);
    let p_x6_y1 = Point::new(mx + 6, my + 1);
    let p_x6_y2 = Point::new(mx + 6, my + 2);
    let p_x6_y3 = Point::new(mx + 6, my + 3);
    let p_x6_y4 = Point::new(mx + 6, my + 4);
    let p_x6_y6 = Point::new(mx + 6, my + 6);
    let p_x7_y0 = Point::new(mx + 7, my + 0);
    let p_x7_y4 = Point::new(mx + 7, my + 4);
    let p_x8_y0 = Point::new(mx + 8, my + 0);
    let p_x8_y4 = Point::new(mx + 8, my + 4);

    if k == 0 {
        shapes1(x, y, Element::solid_circle(&p_x2_y2, 2))
    } else if k == 1 {
        shapes1(x, y, Element::open_circle(&p_x2_y2, 2))
    } else if k == 2 {
        shapes1(x, y, Element::solid_line(&p_x2_y0, &p_x2_y4))
    } else if k == 3 {
        shapes1(x, y, Element::solid_line(&p_x0_y2, &p_x4_y2))
    } else if k == 4 {
        shapes1(x, y, Element::solid_line(&p_x0_y4, &p_x4_y4))
    } else if k == 5 {
        shapes1(x, y, Element::line(&p_x2_y0, &p_x2_y4, Stroke::Dashed, Feature::Nothing))
    } else if k == 6 {
        shapes1(x, y, Element::line(&p_x0_y2, &p_x4_y2, Stroke::Dashed, Feature::Nothing))
    } else if k == 7 {
        shapes1(x, y, Element::line(&p_x0_y4, &p_x4_y4, Stroke::Dashed, Feature::Nothing))
    } else if k == 8 {
        shapes1(x, y, Element::solid_line(&p_x0_y4, &p_x4_y0))
    } else if k == 9 {
        shapes1(x, y, Element::solid_line(&p_x0_y0, &p_x4_y4))
    } else if k == 10 {
        shapes1(x, y, Element::solid_line(&p_x0_y0, &p_x4_y2))
    } else if k == 11 {
        shapes1(x, y, Element::solid_line(&p_x0_y2, &p_x4_y0))
    } else if k == 12 {
        shapes1(x, y, Element::solid_line(&p_x0_y2, &p_x4_y4))
    } else if k == 13 {
        shapes1(x, y, Element::solid_line(&p_x0_y4, &p_x4_y2))
    } else if k == 14 {
        shapes1(x, y, Element::line(&p_x2_y4, &p_x2_y0, Stroke::Solid, Feature::Arrow))
    } else if k == 15 {
        shapes1(x, y, Element::line(&p_x2_y4, &p_x2_y0, Stroke::Dashed, Feature::Arrow))
    } else if k == 16 {
        shapes1(x, y, Element::line(&p_x2_y0, &p_x2_y4, Stroke::Solid, Feature::Arrow))
    } else if k == 17 {
        shapes1(x, y, Element::line(&p_x2_y0, &p_x2_y4, Stroke::Dashed, Feature::Arrow))
    } else if k == 18 {
        shapes1(x, y, Element::line(&p_x4_y2, &p_x0_y2, Stroke::Solid, Feature::Arrow))
    } else if k == 19 {
        shapes1(x, y, Element::line(&p_x4_y2, &p_x0_y2, Stroke::Dashed, Feature::Arrow))
    } else if k == 20 {
        shapes1(x, y, Element::line(&p_x0_y2, &p_x4_y2, Stroke::Solid, Feature::Arrow))
    } else if k == 21 {
        shapes1(x, y, Element::line(&p_x0_y2, &p_x4_y2, Stroke::Dashed, Feature::Arrow))
    } else if k == 22 {
        shapes1(x, y, Element::line(&p_x4_y4, &p_x0_y0, Stroke::Solid, Feature::Arrow))
    } else if k == 23 {
        shapes1(x, y, Element::line(&p_x0_y4, &p_x4_y0, Stroke::Solid, Feature::Arrow))
    } else if k == 24 {
        shapes1(x, y, Element::line(&p_x4_y0, &p_x0_y4, Stroke::Solid, Feature::Arrow))
    } else if k == 25 {
        shapes1(x, y, Element::line(&p_x0_y0, &p_x4_y4, Stroke::Solid, Feature::Arrow))
    } else if k == 26 {
        shapes1(x, y, Element::solid_line(&p_x4_y4, &p_xm2_y4))
    } else if k == 27 {
        shapes1(x, y, Element::solid_line(&p_x0_y4, &p_x6_y4))
    } else if k == 28 {
        shapes1(x, y, Element::solid_line(&p_x0_y2, &p_x6_y2))
    } else if k == 29 {
        shapes1(x, y, Element::solid_line(&p_x4_y2, &p_xm2_y2))
    } else if k == 30 {
        shapes1(x, y, Element::solid_line(&p_x4_y4, &p_xm4_y4))
    } else if k == 31 {
        shapes2(x, y, Element::solid_line(&p_x0_y4, &p_x4_y0), Element::solid_line(&p_x0_y4, &p_x8_y4))
    } else if k == 32 {
        shapes1(x, y, Element::solid_line(&p_x0_y4, &p_x8_y4))
    } else if k == 33 {
        shapes1(x, y, Element::solid_line(&p_x2_y2, &p_x4_y4))
    } else if k == 34 {
        shapes1(x, y, Element::solid_line(&p_x2_y0, &p_x2_y6))
    } else if k == 35 {
        shapes1(x, y, Element::solid_line(&p_x2_y2, &p_x0_y4))
    } else if k == 36 {
        shapes1(x, y, Element::solid_line(&p_x2_y0, &p_x2_y6))
    } else if k == 37 {
        shapes1(x, y, Element::solid_line(&p_x4_y4, &p_xm2_ym2))
    } else if k == 38 {
        shapes1(x, y, Element::solid_line(&p_x2_y0, &p_x2_y2))
    } else if k == 39 {
        shapes1(x, y, Element::solid_line(&p_x0_y4, &p_x6_ym2))
    } else if k == 40 {
        shapes1(x, y, Element::solid_line(&p_x2_y0, &p_x2_y2))
    } else if k == 41 {
        shapes1(x, y, Element::solid_line(&p_x2_y2, &p_x4_y0))
    } else if k == 42 {
        shapes1(x, y, Element::solid_line(&p_x2_ym2, &p_x2_y4))
    } else if k == 43 {
        shapes1(x, y, Element::solid_line(&p_x0_y0, &p_x2_y2))
    } else if k == 44 {
        shapes1(x, y, Element::solid_line(&p_x2_ym2, &p_x2_y4))
    } else if k == 45 {
        shapes1(x, y, Element::solid_line(&p_x0_y0, &p_x6_y6))
    } else if k == 46 {
        shapes1(x, y, Element::solid_line(&p_x2_y2, &p_x2_y4))
    } else if k == 47 {
        shapes1(x, y, Element::solid_line(&p_x4_y0, &p_xm2_y6))
    } else if k == 48 {
        shapes1(x, y, Element::solid_line(&p_x2_y2, &p_x2_y4))
    } else if k == 49 {
        shapes1(x, y, Element::solid_line(&p_x4_y0, &p_x0_y2))
    } else if k == 50 {
        shapes1(x, y, Element::solid_line(&p_x4_y2, &p_x0_y4))
    } else if k == 51 {
        shapes1(x, y, Element::solid_line(&p_x0_y2, &p_x4_y4))
    } else if k == 52 {
        shapes1(x, y, Element::solid_line(&p_x0_y0, &p_x4_y2))
    } else if k == 53 {
        shapes1(x, y, Element::solid_line(&p_x4_y0, &p_xm4_y4))
    } else if k == 54 {
        shapes1(x, y, Element::solid_line(&p_x0_y0, &p_x4_y2))
    } else if k == 55 {
        shapes1(x, y, Element::solid_line(&p_x0_y0, &p_x8_y4))
    } else if k == 56 {
        shapes1(x, y, Element::solid_line(&p_x0_y0, &p_x8_y4))
    } else if k == 57 {
        shapes1(x, y, Element::arc(&p_x7_y4, &p_xm4_y0, 20, false))
    } else if k == 58 {
        Vec::new()
    } else if k == 59 {
        shapes1(x, y, Element::arc(&p_x6_y4, &p_x3_y0, 20, false))
    } else if k == 60 {
        shapes1(x, y, Element::arc(&p_x8_y0, &p_xm3_y4, 20, false))
    } else if k == 61 {
        Vec::new()
    } else if k == 62 {
        shapes1(x, y, Element::arc(&p_x1_y0, &p_xm2_y4, 20, false))
    } else if k == 63 {
        shapes1(x, y, Element::arc(&p_xm3_y0, &p_x8_y4, 20, false))
    } else if k == 64 {
        Vec::new()
    } else if k == 65 {
        shapes1(x, y, Element::arc(&p_xm2_y0, &p_x1_y4, 20, false))
    } else if k == 66 {
        shapes1(x, y, Element::arc(&p_xm4_y4, &p_x7_y0, 20, false))
    } else if k == 67 {
        shapes1(x, y, Element::arc(&p_x3_y4, &p_x6_y0, 20, false))
    } else if k == 68 {
        Vec::new()
    } else if k == 69 {
        shapes2(x, y, Element::solid_line(&p_x0_y0, &p_x2_y1), Element::solid_line(&p_x2_y1, &p_x4_y0))
    } else if k == 70 {
        shapes2(x, y, Element::solid_line(&p_x0_y2, &p_x2_y3), Element::solid_line(&p_x2_y3, &p_x4_y2))
    } else if k == 71 {
        shapes2(x, y, Element::solid_line(&p_x2_y3, &p_x4_y2), Element::solid_line(&p_x2_y3, &p_x4_y4))
    } else if k == 72 {
        shapes2(x, y, Element::solid_line(&p_x2_y3, &p_x0_y2), Element::solid_line(&p_x2_y3, &p_x0_y4))
    } else if k == 73 {
        shapes2(x, y, Element::solid_line(&p_x2_y3, &p_x0_y4), Element::solid_line(&p_x2_y3, &p_x4_y4))
    } else if k == 74 {
        shapes2(x, y, Element::solid_line(&p_x2_y1, &p_x0_y2), Element::solid_line(&p_x2_y1, &p_x4_y2))
    } else if k == 75 {
        shapes2(x, y, Element::solid_line(&p_x2_y2, &p_x2_y4), Element::solid_line(&p_x2_y2, &p_x4_y2))
    } else if k == 76 {
        shapes2(x, y, Element::solid_line(&p_x2_y2, &p_x2_y4), Element::solid_line(&p_x2_y2, &p_x0_y2))
    } else if k == 77 {
        shapes2(x, y, Element::solid_line(&p_x2_y2, &p_x2_y0), Element::solid_line(&p_x2_y2, &p_x4_y2))
    } else if k == 78 {
        shapes2(x, y, Element::solid_line(&p_x2_y2, &p_x2_y0), Element::solid_line(&p_x2_y2, &p_x0_y2))
    } else if k == 79 {
        shapes2(x, y, Element::solid_line(&p_x2_y3, &p_x2_y4), Element::arc(&p_x4_y2, &p_x2_y3, 2, false))
    } else if k == 80 {
        shapes2(x, y, Element::solid_line(&p_x2_y3, &p_x2_y4), Element::arc(&p_x2_y3, &p_x0_y2, 2, false))
    } else if k == 81 {
        shapes2(x, y, Element::solid_line(&p_x2_y0, &p_x2_y1), Element::arc(&p_x2_y1, &p_x4_y2, 2, false))
    } else if k == 82 {
        shapes2(x, y, Element::solid_line(&p_x2_y0, &p_x2_y1), Element::arc(&p_x0_y2, &p_x2_y1, 2, false))
    } else if k == 83 {
        shapes2(x, y, Element::arc(&p_x0_y4, &p_x2_y3, 2, false), Element::solid_line(&p_x2_y3, &p_x2_y0))
    } else if k == 84 {
        shapes2(x, y, Element::solid_line(&p_x2_y3, &p_x2_y0), Element::arc(&p_x2_y3, &p_x4_y4, 2, false))
    } else if k == 85 {
        shapes2(x, y, Element::solid_line(&p_x0_y4, &p_x1_y3), Element::arc(&p_x4_y2, &p_x1_y3, 4, false))
    } else if k == 86 {
        shapes2(x, y, Element::solid_line(&p_x4_y4, &p_x3_y3), Element::arc(&p_x3_y3, &p_x0_y2, 4, false))
    } else if k == 87 {
        shapes2(x, y, Element::solid_line(&p_x0_y4, &p_x1_y3), Element::arc(&p_x1_y3, &p_x0_y2, 2, false))
    } else if k == 88 {
        shapes2(x, y, Element::solid_line(&p_x4_y4, &p_x3_y3), Element::arc(&p_x4_y2, &p_x3_y3, 2, false))
    } else if k == 89 {
        shapes2(x, y, Element::solid_line(&p_x0_y0, &p_x1_y1), Element::arc(&p_x1_y1, &p_x4_y2, 4, false))
    } else if k == 90 {
        shapes2(x, y, Element::solid_line(&p_x3_y1, &p_x4_y0), Element::arc(&p_x3_y1, &p_x4_y2, 2, false))
    } else if k == 91 {
        shapes2(x, y, Element::solid_line(&p_x0_y0, &p_x1_y1), Element::arc(&p_x0_y2, &p_x1_y1, 2, false))
    } else if k == 92 {
        shapes2(x, y, Element::solid_line(&p_x3_y1, &p_x4_y0), Element::arc(&p_x0_y2, &p_x3_y1, 4, false))
    } else if k == 93 {
        shapes3(x, y, Element::solid_line(&p_x0_y0, &p_x1_y1), Element::solid_line(&p_x0_y4, &p_x1_y3), Element::arc(&p_x1_y3, &p_x1_y1, 4, false))
    } else if k == 94 {
        shapes3(x, y, Element::solid_line(&p_x4_y0, &p_x3_y1), Element::solid_line(&p_x4_y4, &p_x3_y3), Element::arc(&p_x3_y1, &p_x3_y3, 4, false))
    } else if k == 95 {
        shapes1(x, y, Element::arc(&p_x3_y0, &p_x3_y4, 8, false))
    } else if k == 96 {
        shapes1(x, y, Element::arc(&p_x1_y4, &p_x1_y0, 8, false))
    } else if k == 97 {
        shapes1(x, y, Element::arc(&p_x4_y2, &p_xm1_y4, 8, false))
    } else if k == 98 {
        shapes1(x, y, Element::arc(&p_x5_y4, &p_x0_y2, 8, false))
    } else if k == 99 {
        shapes1(x, y, Element::arc(&p_xm1_y0, &p_x4_y2, 8, false))
    } else if k == 100 {
        shapes1(x, y, Element::arc(&p_x0_y2, &p_x5_y0, 8, false))
    } else if k == 101 {
        shapes2(x, y, Element::arc(&p_x4_y2, &p_x2_y3, 2, false), Element::solid_line(&p_x2_y3, &p_x2_y4))
    } else if k == 102 {
        shapes2(x, y, Element::arc(&p_x2_y3, &p_x0_y2, 2, false), Element::solid_line(&p_x2_y3, &p_x2_y4))
    } else if k == 103 {
        shapes2(x, y, Element::arc(&p_x2_y1, &p_x4_y2, 2, false), Element::solid_line(&p_x2_y0, &p_x2_y1))
    } else if k == 104 {
        shapes2(x, y, Element::arc(&p_x0_y2, &p_x2_y1, 2, false), Element::solid_line(&p_x2_y0, &p_x2_y1))
    } else if k == 105 {
        shapes1(x, y, Element::arc(&p_x4_y2, &p_x0_y2, 8, false))
    } else if k == 106 {
        shapes1(x, y, Element::arc(&p_x0_y4, &p_x4_y4, 8, false))
    } else if k == 107 {
        shapes1(x, y, Element::arc(&p_x0_y2, &p_x0_y0, 8, false))
    } else if k == 108 {
        shapes1(x, y, Element::arc(&p_x4_y2, &p_x0_y2, 8, false))
    } else if k == 109 {
        shapes1(x, y, Element::arc(&p_x0_y2, &p_x4_y2, 8, false))
    } else if k == 110 {
        shapes3(x, y, Element::solid_line(&p_x4_y0, &p_x3_y1), Element::solid_line(&p_x2_y4, &p_x2_y3), Element::arc(&p_x3_y1, &p_x2_y3, 8, false))
    } else if k == 111 {
        shapes3(x, y, Element::solid_line(&p_x2_y0, &p_x2_y1), Element::solid_line(&p_x0_y4, &p_x1_y3), Element::arc(&p_x1_y3, &p_x2_y1, 8, false))
    } else if k == 112 {
        shapes3(x, y, Element::solid_line(&p_x0_y0, &p_x1_y1), Element::solid_line(&p_x2_y3, &p_x2_y4), Element::arc(&p_x2_y3, &p_x1_y1, 8, false))
    } else if k == 113 {
        shapes3(x, y, Element::solid_line(&p_x2_y0, &p_x2_y1), Element::solid_line(&p_x3_y3, &p_x4_y4), Element::arc(&p_x2_y1, &p_x3_y3, 8, false))
    } else if k == 114 {
        shapes2(x, y, Element::solid_line(&p_x0_y4, &p_x2_y2), Element::solid_line(&p_x2_y2, &p_x4_y4))
    } else if k == 115 {
        shapes2(x, y, Element::solid_line(&p_x0_y0, &p_x2_y2), Element::solid_line(&p_x2_y2, &p_x4_y0))
    } else if k == 116 {
        shapes3(x, y, Element::solid_line(&p_x0_y4, &p_x2_y2), Element::solid_line(&p_x2_y2, &p_x4_y4), Element::solid_line(&p_x2_y0, &p_x2_y2))
    } else if k == 117 {
        shapes3(x, y, Element::solid_line(&p_x0_y0, &p_x2_y2), Element::solid_line(&p_x2_y2, &p_x4_y0), Element::solid_line(&p_x2_y4, &p_x2_y2))
    } else if k == 118 {
        shapes2(x, y, Element::solid_line(&p_x2_y2, &p_x2_y4), Element::solid_line(&p_x2_y2, &p_x4_y4))
    } else if k == 119 {
        shapes2(x, y, Element::solid_line(&p_x2_y2, &p_x2_y4), Element::solid_line(&p_x2_y2, &p_x0_y4))
    } else if k == 120 {
        shapes2(x, y, Element::solid_line(&p_x0_y0, &p_x2_y2), Element::solid_line(&p_x2_y2, &p_x2_y0))
    } else if k == 121 {
        shapes2(x, y, Element::solid_line(&p_x2_y0, &p_x2_y2), Element::solid_line(&p_x2_y2, &p_x4_y0))
    } else if k == 122 {
        shapes1(x, y, Element::arc(&p_x2_y4, &p_x0_y2, 4, false))
    } else if k == 123 {
        shapes1(x, y, Element::arc(&p_x0_y2, &p_x2_y0, 4, false))
    } else if k == 124 {
        shapes1(x, y, Element::arc(&p_x4_y2, &p_x2_y4, 4, false))
    } else if k == 125 {
        shapes1(x, y, Element::arc(&p_x2_y0, &p_x4_y2, 4, false))
    } else if k == 126 {
        shapes1(x, y, Element::arc(&p_x2_y0, &p_x4_y4, 16, false))
    } else if k == 127 {
        shapes1(x, y, Element::arc(&p_x4_y0, &p_x2_y4, 16, false))
    } else if k == 128 {
        shapes2(x, y, Element::solid_line(&p_x0_y0, &p_x4_y2), Element::solid_line(&p_x0_y4, &p_x4_y2))
    } else if k == 129 {
        shapes1(x, y, Element::arc(&p_x0_y4, &p_x2_y0, 16, false))
    } else if k == 130 {
        shapes1(x, y, Element::arc(&p_x2_y4, &p_x0_y0, 16, false))
    } else if k == 131 {
        shapes2(x, y, Element::solid_line(&p_x0_y2, &p_x4_y0), Element::solid_line(&p_x0_y2, &p_x4_y4))
    } else if k == 132 {
        shapes2(x, y, Element::arc(&p_x4_y2, &p_x2_y3, 2, false), Element::solid_line(&p_x2_y3, &p_x2_y5))
    } else if k == 133 {
        shapes2(x, y, Element::solid_line(&p_x0_y2, &p_x6_y1), Element::solid_line(&p_x0_y2, &p_x6_y3))
    } else if k == 134 {
        shapes2(x, y, Element::arc(&p_x2_y1, &p_x4_y2, 2, false), Element::solid_line(&p_x2_ym1, &p_x2_y1))
    } else if k == 135 {
        shapes2(x, y, Element::solid_line(&p_xm2_y1, &p_x4_y2), Element::solid_line(&p_xm2_y3, &p_x4_y2))
    } else if k == 136 {
        shapes2(x, y, Element::arc(&p_x0_y2, &p_x2_y1, 2, false), Element::solid_line(&p_x2_ym1, &p_x2_y1))
    } else if k == 137 {
        shapes2(x, y, Element::arc(&p_x2_y3, &p_x0_y2, 2, false), Element::solid_line(&p_x2_y3, &p_x2_y5))
    } else if k == 138 {
        shapes1(x, y, Element::solid_line(&p_xm2_y4, &p_x8_y4))
    } else if k == 139 {
        shapes3(x, y, Element::solid_line(&p_x0_y4, &p_x4_y0), Element::solid_line(&p_x3_y2, &p_x4_y2), Element::arc(&p_x3_y2, &p_x1_y3, 4, false))
    } else if k == 140 {
        shapes3(x, y, Element::solid_line(&p_x0_y4, &p_x4_y0), Element::solid_line(&p_x1_y2, &p_x0_y2), Element::arc(&p_x1_y2, &p_x3_y1, 8, false))
    } else if k == 141 {
        shapes3(x, y, Element::solid_line(&p_x0_y0, &p_x4_y4), Element::solid_line(&p_x1_y2, &p_x0_y2), Element::arc(&p_x3_y3, &p_x1_y2, 4, false))
    } else if k == 142 {
        shapes3(x, y, Element::solid_line(&p_x0_y0, &p_x4_y4), Element::solid_line(&p_x3_y2, &p_x4_y2), Element::arc(&p_x1_y1, &p_x3_y2, 4, false))
    } else if k == 143 {
        shapes3(x, y, Element::solid_line(&p_x0_y2, &p_x4_y2), Element::solid_line(&p_x0_y4, &p_x1_y3), Element::arc(&p_x4_y2, &p_x1_y3, 4, false))
    } else if k == 144 {
        shapes3(x, y, Element::solid_line(&p_x0_y2, &p_x4_y2), Element::solid_line(&p_x3_y3, &p_x4_y4), Element::arc(&p_x3_y3, &p_x0_y2, 4, false))
    } else if k == 145 {
        shapes3(x, y, Element::solid_line(&p_x0_y2, &p_x4_y2), Element::solid_line(&p_x3_y1, &p_x4_y0), Element::arc(&p_x0_y2, &p_x3_y1, 4, false))
    } else if k == 146 {
        shapes3(x, y, Element::solid_line(&p_x0_y2, &p_x4_y2), Element::solid_line(&p_x0_y0, &p_x1_y1), Element::arc(&p_x1_y1, &p_x4_y2, 4, false))
    } else if k == 147 {
        shapes2(x, y, Element::solid_line(&p_x2_y2, &p_x2_y0), Element::solid_line(&p_x0_y2, &p_x4_y2))
    } else if k == 148 {
        shapes2(x, y, Element::solid_line(&p_x2_y2, &p_x2_y4), Element::solid_line(&p_x0_y2, &p_x4_y2))
    } else if k == 149 {
        shapes2(x, y, Element::solid_line(&p_x2_y0, &p_x2_y4), Element::solid_line(&p_x2_y2, &p_x0_y2))
    } else if k == 150 {
        shapes2(x, y, Element::solid_line(&p_x2_y0, &p_x2_y4), Element::solid_line(&p_x2_y2, &p_x4_y2))
    } else if k == 151 {
        shapes3(x, y, Element::solid_line(&p_x2_y0, &p_x2_y4), Element::solid_line(&p_x0_y4, &p_x1_y3), Element::arc(&p_x1_y3, &p_x2_y1, 8, false))
    } else if k == 152 {
        shapes3(x, y, Element::solid_line(&p_x2_y0, &p_x2_y4), Element::solid_line(&p_x4_y4, &p_x3_y3), Element::arc(&p_x2_y1, &p_x3_y3, 8, false))
    } else if k == 153 {
        shapes3(x, y, Element::solid_line(&p_x2_y0, &p_x2_y2), Element::solid_line(&p_x2_y2, &p_x4_y4), Element::solid_line(&p_x2_y2, &p_x0_y4))
    } else if k == 154 {
        shapes2(x, y, Element::solid_line(&p_x2_y0, &p_x2_y4), Element::solid_line(&p_x2_y2, &p_x4_y0))
    } else if k == 155 {
        shapes2(x, y, Element::solid_line(&p_x2_y0, &p_x2_y4), Element::solid_line(&p_x0_y0, &p_x2_y2))
    } else if k == 156 {
        shapes2(x, y, Element::solid_line(&p_x2_y0, &p_x2_y4), Element::solid_line(&p_x0_y2, &p_x4_y2))
    } else if k == 157 {
        shapes2(x, y, Element::line(&p_x2_y0, &p_x2_y4, Stroke::Dashed, Feature::Nothing), Element::line(&p_x0_y2, &p_x4_y2, Stroke::Dashed, Feature::Nothing))
    } else if k == 158 {
        shapes3(x, y, Element::solid_line(&p_x2_y0, &p_x2_y4), Element::solid_line(&p_x0_y0, &p_x4_y4), Element::solid_line(&p_x0_y4, &p_x4_y0))
    } else if k == 159 {
        shapes4(x, y, Element::solid_line(&p_x2_y0, &p_x2_y4), Element::solid_line(&p_x0_y2, &p_x4_y2), Element::solid_line(&p_x0_y0, &p_x4_y4), Element::solid_line(&p_x0_y4, &p_x4_y0))
    } else {
        Vec::new()
    }
}

impl Grid {
    /// Which classes the cells around `(x, y)` belong to.
    fn neighborhood(&self, x: isize, y: isize) -> (h: Vec<Vec<bool>>)
        requires
            self.wf(),
            isize::MIN + 2 <= x <= isize::MAX - 2,
            isize::MIN + 2 <= y <= isize::MAX - 2,
        ensures
            hood_ok(h@, *self, x as int, y as int),
    {
        let mut h: Vec<Vec<bool>> = Vec::new();
        let mut pos: usize = 0;
        while pos < 15
            invariant
                self.wf(),
                isize::MIN + 2 <= x <= isize::MAX - 2,
                isize::MIN + 2 <= y <= isize::MAX - 2,
                pos <= 15,
                h@.len() == pos,
                forall|p: int| 0 <= p < pos ==> (#[trigger] h@[p])@.len() == 25,
                forall|p: int, c: int|
                    0 <= p < pos && 0 <= c < 25 ==> (#[trigger] h@[p]@[c]) == at(
                        *self,
                        x as int,
                        y as int,
                        pos_dx(p),
                        pos_dy(p),
                        class_of(c),
                    ),
            decreases 15 - pos,
        {
            let (dx, dy) = pos_offset(pos);
            let cell = self.get(&Loc::new(x + dx, y + dy));
            let mut row: Vec<bool> = Vec::new();
            let mut c: usize = 0;
            while c < 25
                invariant
                    self.wf(),
                    pos < 15,
                    c <= 25,
                    row@.len() == c,
                    dx == pos_dx(pos as int),
                    dy == pos_dy(pos as int),
                    match cell {
                        Some(g) => self.cell_at(x + dx, y + dy) == Some(*g),
                        None => self.cell_at(x + dx, y + dy) is None,
                    },
                    forall|k: int|
                        0 <= k < c ==> (#[trigger] row@[k]) == at(
                            *self,
                            x as int,
                            y as int,
                            pos_dx(pos as int),
                            pos_dy(pos as int),
                            class_of(k),
                        ),
                decreases 25 - c,
            {
                let class = class_index(c);
                row.push(cell_is(cell, class));
                c = c + 1;
            }
            h.push(row);
            pos = pos + 1;
        }
        h
    }

    /// Whether rule `k` holds, read from the neighbourhood classes.
    fn rule_holds(&self, x: isize, y: isize, k: usize, h: &Vec<Vec<bool>>, connects: bool) -> (r: bool)
        requires
            hood_ok(h@, *self, x as int, y as int),
            connects == connects_any(*self, x as int, y as int),
        ensures
            r == rule_guard(*self, x as int, y as int, k as int),
    {
        if k == 0 {
            h[AT_THIS][ASTERISK] && connects
        } else if k == 1 {
            h[AT_THIS][LETTER_O] && connects
        } else if k == 2 {
            h[AT_THIS][VERTICAL]
        } else if k == 3 {
            h[AT_THIS][HORIZONTAL]
        } else if k == 4 {
            h[AT_THIS][LOW_HORIZONTAL]
        } else if k == 5 {
            h[AT_THIS][VERTICAL_DASHED] && (h[AT_TOP][VERTICAL_DASHED] || h[AT_BOTTOM][VERTICAL_DASHED])
        } else if k == 6 {
            h[AT_THIS][HORIZONTAL_DASHED] && ((h[AT_LEFT][HORIZONTAL_DASHED] && h[AT_RIGHT][HORIZONTAL_DASHED]) || (h[AT_LEFT][HORIZONTAL_DASHED] && h[AT_LEFT_LEFT][HORIZONTAL_DASHED]) || (h[AT_RIGHT][HORIZONTAL_DASHED] && h[AT_RIGHT_RIGHT][HORIZONTAL_DASHED]))
        } else if k == 7 {
            h[AT_THIS][LOW_HORIZONTAL_DASHED] && ((h[AT_LEFT][LOW_HORIZONTAL_DASHED] && h[AT_RIGHT][LOW_HORIZONTAL_DASHED]) || (h[AT_LEFT][LOW_HORIZONTAL_DASHED] && h[AT_LEFT_LEFT][LOW_HORIZONTAL_DASHED]) || (h[AT_RIGHT][LOW_HORIZONTAL_DASHED] && h[AT_RIGHT_RIGHT][LOW_HORIZONTAL_DASHED]))
        } else if k == 8 {
            h[AT_THIS][SLANT_RIGHT]
        } else if k == 9 {
            h[AT_THIS][SLANT_LEFT]
        } else if k == 10 {
            h[AT_THIS][BACKTICK] && h[AT_TOP_LEFT][LOW_HORIZONTAL] && h[AT_RIGHT][HORIZONTAL]
        } else if k == 11 {
            h[AT_THIS][HIGH_ROUND] && h[AT_TOP_RIGHT][LOW_HORIZONTAL] && h[AT_LEFT][HORIZONTAL]
        } else if k == 12 {
            h[AT_THIS][LOW_ROUND] && h[AT_LEFT][HORIZONTAL] && h[AT_RIGHT][LOW_HORIZONTAL]
        } else if k == 13 {
            h[AT_THIS][LOW_ROUND] && h[AT_RIGHT][HORIZONTAL] && h[AT_LEFT][LOW_HORIZONTAL]
        } else if k == 14 {
            h[AT_THIS][ARROW_UP] && h[AT_BOTTOM][VERTICAL]
        } else if k == 15 {
            h[AT_THIS][ARROW_UP] && h[AT_BOTTOM][VERTICAL_DASHED]
        } else if k == 16 {
            h[AT_THIS][ARROW_DOWN] && h[AT_TOP][VERTICAL]
        } else if k == 17 {
            h[AT_THIS][ARROW_DOWN] && h[AT_TOP][VERTICAL_DASHED]
        } else if k == 18 {
            h[AT_THIS][ARROW_LEFT] && h[AT_RIGHT][HORIZONTAL]
        } else if k == 19 {
            h[AT_THIS][ARROW_LEFT] && h[AT_RIGHT][HORIZONTAL_DASHED]
        } else if k == 20 {
            h[AT_THIS][ARROW_RIGHT] && h[AT_LEFT][HORIZONTAL]
        } else if k == 21 {
            h[AT_THIS][ARROW_RIGHT] && h[AT_LEFT][HORIZONTAL_DASHED]
        } else if k == 22 {
            h[AT_THIS][ARROW_UP] && h[AT_BOTTOM_RIGHT][SLANT_LEFT]
        } else if k == 23 {
            h[AT_THIS][ARROW_UP] && h[AT_BOTTOM_LEFT][SLANT_RIGHT]
        } else if k == 24 {
            h[AT_THIS][ARROW_DOWN] && h[AT_TOP_RIGHT][SLANT_RIGHT]
        } else if k == 25 {
            h[AT_THIS][ARROW_DOWN] && h[AT_TOP_LEFT][SLANT_LEFT]
        } else if k == 26 {
            h[AT_THIS][LOW_HORIZONTAL] && (h[AT_BOTTOM_LEFT][VERTICAL] || h[AT_LEFT][VERTICAL])
        } else if k == 27 {
            h[AT_THIS][LOW_HORIZONTAL] && (h[AT_BOTTOM_RIGHT][VERTICAL] || h[AT_RIGHT][VERTICAL])
        } else if k == 28 {
            h[AT_THIS][HORIZONTAL] && h[AT_RIGHT][VERTICAL]
        } else if k == 29 {
            h[AT_THIS][HORIZONTAL] && h[AT_LEFT][VERTICAL]
        } else if k == 30 {
            h[AT_THIS][LOW_HORIZONTAL] && h[AT_LEFT][SLANT_RIGHT]
        } else if k == 31 {
            h[AT_THIS][SLANT_RIGHT] && h[AT_RIGHT][LOW_HORIZONTAL]
        } else if k == 32 {
            h[AT_THIS][LOW_HORIZONTAL] && h[AT_RIGHT][SLANT_LEFT]
        } else if k == 33 {
            h[AT_THIS][SLANT_LEFT] && h[AT_TOP][VERTICAL]
        } else if k == 34 {
            h[AT_THIS][VERTICAL] && h[AT_BOTTOM][SLANT_LEFT]
        } else if k == 35 {
            h[AT_THIS][SLANT_RIGHT] && h[AT_TOP][VERTICAL]
        } else if k == 36 {
            h[AT_THIS][VERTICAL] && h[AT_BOTTOM][SLANT_RIGHT]
        } else if k == 37 {
            h[AT_THIS][SLANT_LEFT] && h[AT_TOP_LEFT][VERTICAL]
        } else if k == 38 {
            h[AT_THIS][VERTICAL] && h[AT_BOTTOM_RIGHT][SLANT_LEFT]
        } else if k == 39 {
            h[AT_THIS][SLANT_RIGHT] && h[AT_TOP_RIGHT][VERTICAL]
        } else if k == 40 {
            h[AT_THIS][VERTICAL] && h[AT_BOTTOM_LEFT][SLANT_RIGHT]
        } else if k == 41 {
            h[AT_THIS][SLANT_RIGHT] && h[AT_BOTTOM][VERTICAL]
        } else if k == 42 {
            h[AT_THIS][VERTICAL] && h[AT_TOP][SLANT_RIGHT]
        } else if k == 43 {
            h[AT_THIS][SLANT_LEFT] && h[AT_BOTTOM][VERTICAL]
        } else if k == 44 {
            h[AT_THIS][VERTICAL] && h[AT_TOP][SLANT_LEFT]
        } else if k == 45 {
            h[AT_THIS][SLANT_LEFT] && h[AT_BOTTOM_RIGHT][VERTICAL]
        } else if k == 46 {
            h[AT_THIS][VERTICAL] && h[AT_TOP_LEFT][SLANT_LEFT]
        } else if k == 47 {
            h[AT_THIS][SLANT_RIGHT] && h[AT_BOTTOM_LEFT][VERTICAL]
        } else if k == 48 {
            h[AT_THIS][VERTICAL] && h[AT_TOP_RIGHT][SLANT_RIGHT]
        } else if k == 49 {
            h[AT_THIS][HIGH_ROUND] && ((h[AT_LEFT][COMMA] || h[AT_LEFT][LOW_ROUND]) || (h[AT_TOP_RIGHT][COMMA] || h[AT_TOP_RIGHT][LOW_ROUND]))
        } else if k == 50 {
            (h[AT_THIS][COMMA] ||h[AT_THIS][LOW_ROUND]) && (h[AT_RIGHT][HIGH_ROUND] ||h[AT_BOTTOM_LEFT][HIGH_ROUND])
        } else if k == 51 {
            h[AT_THIS][PERIOD] && (h[AT_BOTTOM_RIGHT][BACKTICK] || h[AT_LEFT][BACKTICK])
        } else if k == 52 {
            h[AT_THIS][BACKTICK] && (h[AT_RIGHT][PERIOD] || h[AT_TOP_LEFT][PERIOD])
        } else if k == 53 {
            h[AT_THIS][HIGH_ROUND] && (h[AT_TOP_RIGHT][COMMA] || h[AT_TOP_RIGHT][LOW_ROUND]) && h[AT_LEFT][SLANT_RIGHT]
        } else if k == 54 {
            h[AT_THIS][BACKTICK] && h[AT_TOP_LEFT][LOW_HORIZONTAL] &&h[AT_RIGHT][LOW_ROUND]
        } else if k == 55 {
            h[AT_THIS][BACKTICK] && h[AT_TOP_LEFT][LOW_ROUND] && h[AT_RIGHT][SLANT_LEFT]
        } else if k == 56 {
            h[AT_THIS][BACKTICK] && h[AT_TOP_LEFT][LOW_HORIZONTAL] && h[AT_RIGHT][SLANT_LEFT]
        } else if k == 57 {
            h[AT_THIS][LOW_ROUND] && h[AT_LEFT][BACKTICK] && h[AT_BOTTOM_RIGHT][SLANT_LEFT]
        } else if k == 58 {
            h[AT_THIS][BACKTICK] && h[AT_RIGHT][LOW_ROUND] && h[AT_FAR_BOTTOM_RIGHT][SLANT_LEFT]
        } else if k == 59 {
            h[AT_THIS][SLANT_LEFT] && h[AT_TOP_LEFT][LOW_ROUND] && h[AT_FAR_TOP_LEFT][BACKTICK]
        } else if k == 60 {
            h[AT_THIS][COMMA] && h[AT_RIGHT][HIGH_ROUND] && h[AT_BOTTOM_LEFT][SLANT_RIGHT]
        } else if k == 61 {
            h[AT_THIS][HIGH_ROUND] && h[AT_LEFT][COMMA] && h[AT_FAR_BOTTOM_LEFT][SLANT_RIGHT]
        } else if k == 62 {
            h[AT_THIS][SLANT_RIGHT] && h[AT_TOP_RIGHT][COMMA] && h[AT_FAR_TOP_RIGHT][HIGH_ROUND]
        } else if k == 63 {
            (h[AT_THIS][HIGH_ROUND] || h[AT_THIS][BACKTICK]) && (h[AT_RIGHT][LOW_ROUND] || h[AT_RIGHT][COMMA]) && h[AT_TOP_LEFT][SLANT_LEFT]
        } else if k == 64 {
            (h[AT_LEFT][HIGH_ROUND] || h[AT_LEFT][BACKTICK]) && (h[AT_THIS][LOW_ROUND] || h[AT_THIS][COMMA]) && h[AT_FAR_TOP_LEFT][SLANT_LEFT]
        } else if k == 65 {
            (h[AT_BOTTOM_RIGHT][HIGH_ROUND] || h[AT_BOTTOM_RIGHT][BACKTICK]) && (h[AT_FAR_BOTTOM_RIGHT][LOW_ROUND] || h[AT_FAR_BOTTOM_RIGHT][COMMA]) && h[AT_THIS][SLANT_LEFT]
        } else if k == 66 {
            h[AT_THIS][HIGH_ROUND] && (h[AT_LEFT][LOW_ROUND] || h[AT_LEFT][COMMA]) && h[AT_TOP_RIGHT][SLANT_RIGHT]
        } else if k == 67 {
            h[AT_THIS][SLANT_RIGHT] && (h[AT_FAR_BOTTOM_LEFT][LOW_ROUND] || h[AT_FAR_BOTTOM_LEFT][COMMA]) && h[AT_BOTTOM_LEFT][HIGH_ROUND]
        } else if k == 68 {
            h[AT_FAR_TOP_RIGHT][SLANT_RIGHT] && (h[AT_THIS][LOW_ROUND] || h[AT_THIS][COMMA]) && h[AT_RIGHT][HIGH_ROUND]
        } else if k == 69 {
            (h[AT_THIS][HIGH_ROUND] ||h[AT_THIS][BACKTICK]) && h[AT_TOP_RIGHT][COMMA] && h[AT_TOP_LEFT][LOW_ROUND]
        } else if k == 70 {
            h[AT_THIS][LOW_ROUND] && (h[AT_LEFT][HIGH_ROUND] || h[AT_LEFT][BACKTICK]) && h[AT_RIGHT][HIGH_ROUND]
        } else if k == 71 {
            h[AT_THIS][LOW_ROUND] && h[AT_RIGHT][HIGH_ROUND] && (h[AT_BOTTOM_RIGHT][HIGH_ROUND] ||h[AT_BOTTOM_RIGHT][BACKTICK])
        } else if k == 72 {
            (h[AT_THIS][LOW_ROUND] || h[AT_THIS][COMMA]) && (h[AT_LEFT][HIGH_ROUND] || h[AT_LEFT][BACKTICK]) && h[AT_BOTTOM_LEFT][HIGH_ROUND]
        } else if k == 73 {
            h[AT_THIS][LOW_ROUND] && h[AT_BOTTOM_LEFT][HIGH_ROUND] && (h[AT_BOTTOM_RIGHT][HIGH_ROUND] || h[AT_BOTTOM_RIGHT][BACKTICK])
        } else if k == 74 {
            (h[AT_THIS][HIGH_ROUND] || h[AT_THIS][BACKTICK]) && h[AT_RIGHT][LOW_ROUND] && (h[AT_LEFT][LOW_ROUND] || h[AT_LEFT][COMMA])
        } else if k == 75 {
            h[AT_THIS][INTERSECTION] && h[AT_RIGHT][HORIZONTAL] && h[AT_BOTTOM][VERTICAL]
        } else if k == 76 {
            h[AT_THIS][INTERSECTION] && h[AT_LEFT][HORIZONTAL] && h[AT_BOTTOM][VERTICAL]
        } else if k == 77 {
            h[AT_THIS][INTERSECTION] && h[AT_RIGHT][HORIZONTAL] && h[AT_TOP][VERTICAL]
        } else if k == 78 {
            h[AT_THIS][INTERSECTION] && h[AT_LEFT][HORIZONTAL] && h[AT_TOP][VERTICAL]
        } else if k == 79 {
            (h[AT_THIS][ROUND] || h[AT_THIS][COMMA]) && h[AT_RIGHT][HORIZONTAL] && h[AT_BOTTOM][VERTICAL]
        } else if k == 80 {
            h[AT_THIS][ROUND] && h[AT_LEFT][HORIZONTAL] && h[AT_BOTTOM][VERTICAL]
        } else if k == 81 {
            (h[AT_THIS][ROUND] || h[AT_THIS][BACKTICK]) && h[AT_RIGHT][HORIZONTAL] && h[AT_TOP][VERTICAL]
        } else if k == 82 {
            h[AT_THIS][ROUND] && h[AT_LEFT][HORIZONTAL] && h[AT_TOP][VERTICAL]
        } else if k == 83 {
            h[AT_THIS][ROUND] && h[AT_LEFT][LOW_HORIZONTAL] && h[AT_TOP][VERTICAL]
        } else if k == 84 {
            h[AT_THIS][ROUND] && h[AT_RIGHT][LOW_HORIZONTAL] && h[AT_TOP][VERTICAL]
        } else if k == 85 {
            h[AT_THIS][ROUND] && h[AT_RIGHT][HORIZONTAL] && h[AT_BOTTOM_LEFT][SLANT_RIGHT]
        } else if k == 86 {
            h[AT_THIS][ROUND] && h[AT_LEFT][HORIZONTAL] && h[AT_BOTTOM_RIGHT][SLANT_LEFT]
        } else if k == 87 {
            h[AT_THIS][ROUND] && h[AT_LEFT][HORIZONTAL] && h[AT_BOTTOM_LEFT][SLANT_RIGHT]
        } else if k == 88 {
            h[AT_THIS][ROUND] && h[AT_RIGHT][HORIZONTAL] && h[AT_BOTTOM_RIGHT][SLANT_LEFT]
        } else if k == 89 {
            h[AT_THIS][ROUND] && h[AT_RIGHT][HORIZONTAL] && h[AT_TOP_LEFT][SLANT_LEFT]
        } else if k == 90 {
            h[AT_THIS][ROUND] && h[AT_RIGHT][HORIZONTAL] && h[AT_TOP_RIGHT][SLANT_RIGHT]
        } else if k == 91 {
            h[AT_THIS][ROUND] && h[AT_LEFT][HORIZONTAL] && h[AT_TOP_LEFT][SLANT_LEFT]
        } else if k == 92 {
            h[AT_THIS][ROUND] && h[AT_LEFT][HORIZONTAL] && h[AT_TOP_RIGHT][SLANT_RIGHT]
        } else if k == 93 {
            (h[AT_THIS][ROUND] || h[AT_THIS][CLOSE_CURVE]) && h[AT_TOP_LEFT][SLANT_LEFT] && h[AT_BOTTOM_LEFT][SLANT_RIGHT]
        } else if k == 94 {
            (h[AT_THIS][ROUND] || h[AT_THIS][OPEN_CURVE]) && h[AT_TOP_RIGHT][SLANT_RIGHT] && h[AT_BOTTOM_RIGHT][SLANT_LEFT]
        } else if k == 95 {
            h[AT_THIS][OPEN_CURVE] && (h[AT_TOP_RIGHT][ROUND] || h[AT_TOP_RIGHT][COMMA]) && (h[AT_BOTTOM_RIGHT][HIGH_ROUND] || h[AT_BOTTOM_RIGHT][BACKTICK])
        } else if k == 96 {
            h[AT_THIS][CLOSE_CURVE] && h[AT_TOP_LEFT][ROUND] && h[AT_BOTTOM_LEFT][ROUND]
        } else if k == 97 {
            (h[AT_THIS][LOW_ROUND] || h[AT_THIS][COMMA]) && h[AT_RIGHT][HORIZONTAL] && h[AT_BOTTOM_LEFT][OPEN_CURVE]
        } else if k == 98 {
            h[AT_THIS][ROUND] && h[AT_LEFT][HORIZONTAL] && h[AT_BOTTOM_RIGHT][CLOSE_CURVE]
        } else if k == 99 {
            (h[AT_THIS][HIGH_ROUND] || h[AT_THIS][BACKTICK]) && h[AT_RIGHT][HORIZONTAL] && h[AT_TOP_LEFT][OPEN_CURVE]
        } else if k == 100 {
            h[AT_THIS][ROUND] && h[AT_LEFT][HORIZONTAL] && h[AT_TOP_RIGHT][CLOSE_CURVE]
        } else if k == 101 {
            h[AT_THIS][LOW_ROUND] && h[AT_RIGHT][HORIZONTAL] && h[AT_BOTTOM][HIGH_ROUND]
        } else if k == 102 {
            h[AT_THIS][LOW_ROUND] && h[AT_LEFT][HORIZONTAL] && h[AT_BOTTOM][HIGH_ROUND]
        } else if k == 103 {
            h[AT_THIS][HIGH_ROUND] && h[AT_RIGHT][HORIZONTAL] && h[AT_TOP][LOW_ROUND]
        } else if k == 104 {
            h[AT_THIS][HIGH_ROUND] && h[AT_LEFT][HORIZONTAL] && h[AT_TOP][LOW_ROUND]
        } else if k == 105 {
            h[AT_THIS][HORIZONTAL] && h[AT_LEFT][LOW_ROUND] && h[AT_RIGHT][LOW_ROUND]
        } else if k == 106 {
            h[AT_THIS][LOW_HORIZONTAL] && h[AT_LEFT][LOW_ROUND] && h[AT_RIGHT][LOW_ROUND]
        } else if k == 107 {
            h[AT_THIS][HIGH_ROUND] && h[AT_LEFT][LOW_ROUND] && h[AT_TOP_LEFT][LOW_ROUND]
        } else if k == 108 {
            h[AT_THIS][HORIZONTAL] && h[AT_LEFT][LOW_ROUND] && h[AT_RIGHT][LOW_ROUND] && h[AT_FAR_BOTTOM_LEFT][OPEN_CURVE]
        } else if k == 109 {
            h[AT_THIS][HORIZONTAL] && (h[AT_LEFT][HIGH_ROUND] || h[AT_LEFT][BACKTICK]) && h[AT_RIGHT][HIGH_ROUND] && h[AT_FAR_TOP_LEFT][OPEN_CURVE]
        } else if k == 110 {
            h[AT_THIS][ROUND] && h[AT_BOTTOM][VERTICAL] && h[AT_TOP_RIGHT][SLANT_RIGHT]
        } else if k == 111 {
            h[AT_THIS][ROUND] && h[AT_TOP][VERTICAL] && h[AT_BOTTOM_LEFT][SLANT_RIGHT]
        } else if k == 112 {
            h[AT_THIS][ROUND] && h[AT_BOTTOM][VERTICAL] && h[AT_TOP_LEFT][SLANT_LEFT]
        } else if k == 113 {
            h[AT_THIS][ROUND] && h[AT_TOP][VERTICAL] && h[AT_BOTTOM_RIGHT][SLANT_LEFT]
        } else if k == 114 {
            h[AT_THIS][LOW_ROUND] && h[AT_BOTTOM_LEFT][SLANT_RIGHT] && h[AT_BOTTOM_RIGHT][SLANT_LEFT]
        } else if k == 115 {
            h[AT_THIS][HIGH_ROUND] && h[AT_TOP_LEFT][SLANT_LEFT] && h[AT_TOP_RIGHT][SLANT_RIGHT]
        } else if k == 116 {
            h[AT_THIS][VERTICAL] && h[AT_BOTTOM_LEFT][SLANT_RIGHT] && h[AT_BOTTOM_RIGHT][SLANT_LEFT]
        } else if k == 117 {
            h[AT_THIS][VERTICAL] && h[AT_TOP_LEFT][SLANT_LEFT] && h[AT_TOP_RIGHT][SLANT_RIGHT]
        } else if k == 118 {
            h[AT_THIS][ROUND] && h[AT_BOTTOM][VERTICAL] && h[AT_BOTTOM_RIGHT][SLANT_LEFT]
        } else if k == 119 {
            h[AT_THIS][ROUND] && h[AT_BOTTOM][VERTICAL] && h[AT_BOTTOM_LEFT][SLANT_RIGHT]
        } else if k == 120 {
            h[AT_THIS][ROUND] && h[AT_TOP][VERTICAL] && h[AT_TOP_LEFT][SLANT_LEFT]
        } else if k == 121 {
            h[AT_THIS][ROUND] && h[AT_TOP][VERTICAL] && h[AT_TOP_RIGHT][SLANT_RIGHT]
        } else if k == 122 {
            h[AT_THIS][LOW_ROUND] && h[AT_LEFT][HORIZONTAL] && h[AT_BOTTOM][OPEN_CURVE]
        } else if k == 123 {
            h[AT_THIS][HIGH_ROUND] && h[AT_TOP][OPEN_CURVE] && h[AT_LEFT][HORIZONTAL]
        } else if k == 124 {
            h[AT_THIS][LOW_ROUND] && h[AT_RIGHT][HORIZONTAL] && h[AT_BOTTOM][CLOSE_CURVE]
        } else if k == 125 {
            h[AT_THIS][HIGH_ROUND] && h[AT_RIGHT][HORIZONTAL] && h[AT_TOP][CLOSE_CURVE]
        } else if k == 126 {
            h[AT_THIS][OPEN_CURVE] && h[AT_BOTTOM_RIGHT][ARROW_RIGHT]
        } else if k == 127 {
            h[AT_THIS][OPEN_CURVE] && h[AT_TOP_RIGHT][ARROW_RIGHT]
        } else if k == 128 {
            h[AT_THIS][ARROW_RIGHT] && h[AT_TOP_LEFT][OPEN_CURVE] && h[AT_BOTTOM_LEFT][OPEN_CURVE]
        } else if k == 129 {
            h[AT_THIS][CLOSE_CURVE] && h[AT_BOTTOM_LEFT][ARROW_LEFT]
        } else if k == 130 {
            h[AT_THIS][CLOSE_CURVE] && h[AT_TOP_LEFT][ARROW_LEFT]
        } else if k == 131 {
            h[AT_THIS][ARROW_LEFT] && h[AT_TOP_RIGHT][CLOSE_CURVE] && h[AT_BOTTOM_RIGHT][CLOSE_CURVE]
        } else if k == 132 {
            h[AT_THIS][LOW_ROUND] && h[AT_RIGHT][HORIZONTAL] && h[AT_BOTTOM_LEFT][ARROW_LEFT]
        } else if k == 133 {
            h[AT_THIS][ARROW_LEFT] && h[AT_TOP_RIGHT][LOW_ROUND] && h[AT_BOTTOM_RIGHT][HIGH_ROUND]
        } else if k == 134 {
            h[AT_THIS][HIGH_ROUND] && h[AT_RIGHT][HORIZONTAL] && h[AT_TOP_LEFT][ARROW_LEFT]
        } else if k == 135 {
            h[AT_THIS][ARROW_RIGHT] && h[AT_TOP_LEFT][LOW_ROUND] && h[AT_BOTTOM_LEFT][HIGH_ROUND]
        } else if k == 136 {
            h[AT_THIS][HIGH_ROUND] && h[AT_LEFT][HORIZONTAL] && h[AT_TOP_RIGHT][ARROW_RIGHT]
        } else if k == 137 {
            h[AT_THIS][LOW_ROUND] && h[AT_LEFT][HORIZONTAL] && h[AT_BOTTOM_RIGHT][ARROW_RIGHT]
        } else if k == 138 {
            h[AT_THIS][LOW_HORIZONTAL] && h[AT_LEFT][VERTICAL] && h[AT_RIGHT][SLANT_LEFT]
        } else if k == 139 {
            h[AT_THIS][ROUND] && h[AT_RIGHT][HORIZONTAL] && h[AT_TOP_RIGHT][SLANT_RIGHT] && h[AT_BOTTOM_LEFT][SLANT_RIGHT]
        } else if k == 140 {
            h[AT_THIS][ROUND] && h[AT_LEFT][HORIZONTAL] && h[AT_TOP_RIGHT][SLANT_RIGHT] && h[AT_BOTTOM_LEFT][SLANT_RIGHT]
        } else if k == 141 {
            h[AT_THIS][ROUND] && h[AT_LEFT][HORIZONTAL] && h[AT_TOP_LEFT][SLANT_LEFT] && h[AT_BOTTOM_RIGHT][SLANT_LEFT]
        } else if k == 142 {
            h[AT_THIS][ROUND] && h[AT_RIGHT][HORIZONTAL] && h[AT_TOP_LEFT][SLANT_LEFT] && h[AT_BOTTOM_RIGHT][SLANT_LEFT]
        } else if k == 143 {
            h[AT_THIS][ROUND] && h[AT_RIGHT][HORIZONTAL] && h[AT_LEFT][HORIZONTAL] && h[AT_BOTTOM_LEFT][SLANT_RIGHT]
        } else if k == 144 {
            h[AT_THIS][ROUND] && h[AT_RIGHT][HORIZONTAL] && h[AT_LEFT][HORIZONTAL] && h[AT_BOTTOM_RIGHT][SLANT_LEFT]
        } else if k == 145 {
            h[AT_THIS][ROUND] && h[AT_RIGHT][HORIZONTAL] && h[AT_LEFT][HORIZONTAL] && h[AT_TOP_RIGHT][SLANT_RIGHT]
        } else if k == 146 {
            h[AT_THIS][ROUND] && h[AT_RIGHT][HORIZONTAL] && h[AT_LEFT][HORIZONTAL] && h[AT_TOP_LEFT][SLANT_LEFT]
        } else if k == 147 {
            h[AT_THIS][INTERSECTION] && h[AT_LEFT][HORIZONTAL] && h[AT_RIGHT][HORIZONTAL] && h[AT_TOP][VERTICAL]
        } else if k == 148 {
            h[AT_THIS][INTERSECTION] && h[AT_LEFT][HORIZONTAL] && h[AT_RIGHT][HORIZONTAL] && h[AT_BOTTOM][VERTICAL]
        } else if k == 149 {
            h[AT_THIS][INTERSECTION] && h[AT_LEFT][HORIZONTAL] && h[AT_TOP][VERTICAL] && h[AT_BOTTOM][VERTICAL]
        } else if k == 150 {
            h[AT_THIS][INTERSECTION] && h[AT_RIGHT][HORIZONTAL] && h[AT_TOP][VERTICAL] && h[AT_BOTTOM][VERTICAL]
        } else if k == 151 {
            h[AT_THIS][ROUND] && h[AT_BOTTOM][VERTICAL] && h[AT_TOP][VERTICAL] && h[AT_BOTTOM_LEFT][SLANT_RIGHT]
        } else if k == 152 {
            h[AT_THIS][ROUND] && h[AT_BOTTOM][VERTICAL] && h[AT_TOP][VERTICAL] && h[AT_BOTTOM_RIGHT][SLANT_LEFT]
        } else if k == 153 {
            h[AT_THIS][ROUND] && h[AT_TOP][VERTICAL] && h[AT_BOTTOM_LEFT][SLANT_RIGHT] && h[AT_BOTTOM_RIGHT][SLANT_LEFT]
        } else if k == 154 {
            h[AT_THIS][ROUND] && h[AT_TOP][VERTICAL] && h[AT_BOTTOM][VERTICAL] && h[AT_TOP_RIGHT][SLANT_RIGHT]
        } else if k == 155 {
            h[AT_THIS][ROUND] && h[AT_TOP][VERTICAL] && h[AT_BOTTOM][VERTICAL] && h[AT_TOP_LEFT][SLANT_LEFT]
        } else if k == 156 {
            (h[AT_THIS][INTERSECTION] || h[AT_THIS][ROUND] || h[AT_THIS][MARKER]) && h[AT_TOP][VERTICAL] && h[AT_BOTTOM][VERTICAL] && h[AT_LEFT][HORIZONTAL] && h[AT_RIGHT][HORIZONTAL]
        } else if k == 157 {
            (h[AT_THIS][INTERSECTION] || h[AT_THIS][ROUND] || h[AT_THIS][MARKER]) && h[AT_TOP][VERTICAL_DASHED] && h[AT_BOTTOM][VERTICAL_DASHED] && h[AT_LEFT][HORIZONTAL_DASHED] && h[AT_RIGHT][HORIZONTAL_DASHED]
        } else if k == 158 {
            (h[AT_THIS][INTERSECTION] || h[AT_THIS][ROUND] || h[AT_THIS][MARKER]) && h[AT_TOP][VERTICAL] && h[AT_BOTTOM][VERTICAL] && h[AT_TOP_LEFT][SLANT_LEFT] && h[AT_TOP_RIGHT][SLANT_RIGHT] && h[AT_BOTTOM_LEFT][SLANT_RIGHT] && h[AT_BOTTOM_RIGHT][SLANT_LEFT]
        } else if k == 159 {
            (h[AT_THIS][INTERSECTION] || h[AT_THIS][ROUND] || h[AT_THIS][MARKER]) && h[AT_TOP][VERTICAL] && h[AT_BOTTOM][VERTICAL] && h[AT_LEFT][HORIZONTAL] && h[AT_RIGHT][HORIZONTAL] && h[AT_TOP_LEFT][SLANT_LEFT] && h[AT_TOP_RIGHT][SLANT_RIGHT] && h[AT_BOTTOM_LEFT][SLANT_RIGHT] && h[AT_BOTTOM_RIGHT][SLANT_LEFT]
        } else {
            false
        }
    }

    /// The primitives that cell `(x, y)` contributes: those of
    /// `rule_table`, whose first holding rule gives up to four lines, arcs
    /// or circles on the cell's lattice points (none where a pattern only
    /// silences the cell). Where no rule holds, the cell shows as escaped
    /// text if `shows_text` allows, else contributes nothing.
    pub fn get_elements(&self, x: isize, y: isize) -> (r: Option<Vec<Element>>)
        requires
            self.wf(),
            -MAX_CELL <= x <= MAX_CELL,
            -MAX_CELL <= y <= MAX_CELL,
            isize::MIN + 2 <= x <= isize::MAX - 2,
            isize::MIN + 2 <= y <= isize::MAX - 2,
        ensures
            match r {
                Some(v) => cell_spec(*self, x as int, y as int) == Some(views(v@)),
                None => cell_spec(*self, x as int, y as int) is None,
            },
            match r {
                Some(v) => cell_output(*self, x, y, v@),
                None => !shows_text(*self, x as int, y as int),
            },
    {
        let h = self.neighborhood(x, y);
        let connects = h[AT_LEFT][HORIZONTAL] || h[AT_RIGHT][HORIZONTAL] || h[AT_TOP][VERTICAL]
            || h[AT_BOTTOM][VERTICAL] || h[AT_TOP_LEFT][SLANT_LEFT] || h[AT_TOP_RIGHT][SLANT_RIGHT]
            || h[AT_BOTTOM_LEFT][SLANT_RIGHT] || h[AT_BOTTOM_RIGHT][SLANT_LEFT];
        proof {
            assert(h@[AT_LEFT as int]@[HORIZONTAL as int] == at(
                *self,
                x as int,
                y as int,
                -1,
                0,
                Class::Horizontal,
            ));
            assert(h@[AT_RIGHT as int]@[HORIZONTAL as int] == at(
                *self,
                x as int,
                y as int,
                1,
                0,
                Class::Horizontal,
            ));
            assert(h@[AT_TOP as int]@[VERTICAL as int] == at(
                *self,
                x as int,
                y as int,
                0,
                -1,
                Class::Vertical,
            ));
            assert(h@[AT_BOTTOM as int]@[VERTICAL as int] == at(
                *self,
                x as int,
                y as int,
                0,
                1,
                Class::Vertical,
            ));
            assert(h@[AT_TOP_LEFT as int]@[SLANT_LEFT as int] == at(
                *self,
                x as int,
                y as int,
                -1,
                -1,
                Class::SlantLeft,
            ));
            assert(h@[AT_TOP_RIGHT as int]@[SLANT_RIGHT as int] == at(
                *self,
                x as int,
                y as int,
                1,
                -1,
                Class::SlantRight,
            ));
            assert(h@[AT_BOTTOM_LEFT as int]@[SLANT_RIGHT as int] == at(
                *self,
                x as int,
                y as int,
                -1,
                1,
                Class::SlantRight,
            ));
            assert(h@[AT_BOTTOM_RIGHT as int]@[SLANT_LEFT as int] == at(
                *self,
                x as int,
                y as int,
                1,
                1,
                Class::SlantLeft,
            ));
        }
        let mut k: usize = RULE_COUNT;
        while k > 0
            invariant
                k <= RULE_COUNT,
                -MAX_CELL <= x <= MAX_CELL,
                -MAX_CELL <= y <= MAX_CELL,
                hood_ok(h@, *self, x as int, y as int),
                connects == connects_any(*self, x as int, y as int),
                first_rule(*self, x as int, y as int, RULE_COUNT as int) == first_rule(
                    *self,
                    x as int,
                    y as int,
                    k as int,
                ),
            decreases k,
        {
            if self.rule_holds(x, y, k - 1, &h, connects) {
                return Some(rule_shapes(x, y, k - 1));
            }
            k = k - 1;
        }
        let this = Loc::new(x, y);
        let c_this = self.get(&this);
        proof {
            assert(h@[AT_LEFT as int]@[ALPHANUMERIC as int] == at(
                *self,
                x as int,
                y as int,
                -1,
                0,
                Class::Alphanumeric,
            ));
            assert(h@[AT_RIGHT as int]@[ALPHANUMERIC as int] == at(
                *self,
                x as int,
                y as int,
                1,
                0,
                Class::Alphanumeric,
            ));
        }
        match c_this {
            Some(ch) => {
                let space = glyph_is(ch.string.as_str(), ' ');
                if !space || (space && h[AT_LEFT][ALPHANUMERIC] && h[AT_RIGHT][ALPHANUMERIC]) {
                    let s = escape_char(ch.string.as_str());
                    let text = Element::Text(this, s);
                    let v = vec![text];
                    assert(v@[0]@ == ElementView::Text(this, s@));
                    assert(views(v@) =~= seq![ElementView::Text(this, s@)]);
                    Some(v)
                } else {
                    None
                }
            },
            None => None,
        }
    }

    /// The primitives of every cell, grouped by cell in reading order; a
    /// cell that contributes nothing, or spans no column, has no group.
    pub fn get_all_elements(&self) -> (r: Vec<(Loc, Vec<Element>)>)
        requires
            self.wf(),
        ensures
            cell_groups(*self, r@),
    {
        let mut all: Vec<(Loc, Vec<Element>)> = Vec::new();
        let mut row: usize = 0;
        while row < self.lines.len() && row as u64 <= MAX_CELL as u64 && row as u64 <= (isize::MAX
            - 2) as u64
            invariant
                self.wf(),
                row <= self.lines@.len(),
                group_total(all@) <= 4 * cell_count(self.lines@.take(row as int)),
                forall|i: int|
                    0 <= i < all@.len() ==> loc_in_range((#[trigger] all@[i]).0) && cell_output(
                        *self,
                        all@[i].0.x,
                        all@[i].0.y,
                        all@[i].1@,
                    ) && cell_spec(*self, all@[i].0.x as int, all@[i].0.y as int) == Some(
                        views(all@[i].1@),
                    ) && starts_cell(*self, all@[i].0.x as int, all@[i].0.y as int),
                forall|i: int, j: int|
                    0 <= i < j < all@.len() ==> loc_before((#[trigger] all@[i]).0, (#[trigger] all@[j]).0),
                forall|i: int| 0 <= i < all@.len() ==> (#[trigger] all@[i]).0.y < row,
                forall|yy: int|
                    0 <= yy < row ==> row_complete(
                        *self,
                        all@,
                        yy,
                        (#[trigger] self.lines@[yy])@.len() as int,
                    ),
            decreases self.lines@.len() - row,
        {
            proof {
                assert(self.lines@.take(row + 1).drop_last() =~= self.lines@.take(row as int));
            }
            let y = row as isize;
            let line = &self.lines[row];
            let ghost before = all@.len();
            let mut column: u128 = 0;
            let mut k: usize = 0;
            while k < line.len() && column <= MAX_CELL as u128 && column <= (isize::MAX - 2) as u128
                invariant
                    self.wf(),
                    row < self.lines@.len(),
                    line == &self.lines@[row as int],
                    y == row,
                    0 <= y <= MAX_CELL,
                    y <= isize::MAX - 2,
                    k <= line@.len(),
                    before <= all@.len(),
                    column <= k * 0xffff_ffff_ffff_ffffu128,
                    group_total(all@) <= 4 * cell_count(self.lines@.take(row as int)) + 4 * k,
                    forall|i: int|
                        0 <= i < all@.len() ==> loc_in_range((#[trigger] all@[i]).0) && cell_output(
                        *self,
                        all@[i].0.x,
                        all@[i].0.y,
                        all@[i].1@,
                    ) && cell_spec(*self, all@[i].0.x as int, all@[i].0.y as int) == Some(
                        views(all@[i].1@),
                    ) && starts_cell(*self, all@[i].0.x as int, all@[i].0.y as int),
                    forall|i: int, j: int|
                        0 <= i < j < all@.len() ==> loc_before((#[trigger] all@[i]).0, (#[trigger] all@[j]).0),
                    forall|i: int| 0 <= i < before ==> (#[trigger] all@[i]).0.y < row,
                    forall|i: int| before <= i < all@.len() ==> (#[trigger] all@[i]).0.y == row && all@[i].0.x < column,
                    column == start_column(line@, k as int),
                    forall|yy: int|
                        0 <= yy < row ==> row_complete(
                            *self,
                            all@,
                            yy,
                            (#[trigger] self.lines@[yy])@.len() as int,
                        ),
                    row_complete(*self, all@, row as int, k as int),
                decreases line@.len() - k,
            {
                let x = column as isize;
                if line[k].width > 0 {
                    match self.get_elements(x, y) {
                        Some(v) => {
                            let ghost old_all = all@;
                            let e = (Loc::new(x, y), v);
                            all.push(e);
                            proof {
                                assert(start_column(self.lines@[row as int]@, k as int) == x);
                                assert(starts_cell(*self, x as int, y as int));
                                assert(all@.drop_last() =~= old_all);
                                assert(all@ == old_all.push(e));
                                assert forall|yy: int|
                                    0 <= yy < row implies row_complete(
                                    *self,
                                    all@,
                                    yy,
                                    (#[trigger] self.lines@[yy])@.len() as int,
                                ) by {
                                    lemma_complete_push(*self, old_all, e, yy, self.lines@[yy]@.len() as int);
                                }
                                lemma_complete_push(*self, old_all, e, row as int, k as int);
                                assert(all@[all@.len() - 1] == e);
                                assert(has_group(all@, x as int, row as int));
                            }
                        },
                        None => {},
                    }
                }
                column = column + line[k].width as u128;
                k = k + 1;
            }
            proof {
                assert(cell_count(self.lines@.take(row + 1)) == cell_count(self.lines@.take(row as int)) + line@.len());
                assert forall|i: int|
                    k <= i < line@.len() implies !in_reach(
                    #[trigger] start_column(line@, i),
                    row as int,
                ) by {
                    if k < i {
                        lemma_start_column_mono(line@, k as int, i);
                    }
                }
                assert(row_complete(*self, all@, row as int, line@.len() as int));
            }
            row = row + 1;
        }
        proof {
            assert forall|yy: int|
                0 <= yy < self.lines@.len() implies row_complete(
                *self,
                all@,
                yy,
                (#[trigger] self.lines@[yy])@.len() as int,
            ) by {
                if yy >= row {
                    assert forall|i: int|
                        !in_reach(#[trigger] start_column(self.lines@[yy]@, i), yy) by {}
                }
            }
            lemma_cell_count_prefix(self.lines@, row as int);
        }
        all
    }
}

proof fn lemma_cell_count_prefix(rows: Seq<Vec<GChar>>, n: int)
    requires
        0 <= n <= rows.len(),
    ensures
        cell_count(rows.take(n)) <= cell_count(rows),
    decreases rows.len() - n,
{
    if n < rows.len() {
        lemma_cell_count_prefix(rows, n + 1);
        assert(rows.take(n + 1).drop_last() =~= rows.take(n));
    } else {
        assert(rows.take(n) =~= rows);
    }
}

} // verus!
