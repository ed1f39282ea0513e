use vstd::prelude::*;
use vstd::string::StringExecFns;
use crate::grid::{str_width, str_width_of};
use crate::loc::Loc;

verus! {

/// The largest coordinate magnitude a point may have.
pub const COORD_LIMIT: i64 = 0x4000_0000_0000_0000;

/// A point of the drawing lattice: `x` counts quarters of a cell's width,
/// `y` quarters of its height. The corner of cell `(col, row)` is
/// `(4 * col, 4 * row)`.
#[derive(Debug, Clone, Copy, PartialEq, Eq, Structural)]
pub struct Point {
    pub x: i64,
    pub y: i64,
}

impl Point {
    pub fn new(x: i64, y: i64) -> (r: Point)
        ensures
            r.x == x,
            r.y == y,
    {
        Point { x, y }
    }

    /// Whether both coordinates lie within `COORD_LIMIT`.
    pub open spec fn bounded(self) -> bool {
        -COORD_LIMIT <= self.x <= COORD_LIMIT && -COORD_LIMIT <= self.y <= COORD_LIMIT
    }
}

#[derive(Debug, Clone, Copy, PartialEq, Eq, Structural)]
pub enum Stroke {
    Solid,
    Dashed,
}

/// A marker on a line: an arrow head at its end, a circle at its start.
#[derive(Debug, Clone, Copy, PartialEq, Eq, Structural)]
pub enum Feature {
    Arrow,
    Circle,
    Nothing,
}

/// How a junction circle is filled.
#[derive(Debug, Clone, Copy, PartialEq, Eq, Structural)]
pub enum CircleKind {
    Solid,
    Open,
}

/// One step of a path after its starting point: a straight line, an arc,
/// or a jump that starts a new piece. Radii count quarters of a cell's
/// width.
#[derive(Debug, Clone, Copy, PartialEq, Eq, Structural)]
pub enum Segment {
    LineTo(Point),
    ArcTo(Point, u64, bool),
    MoveTo(Point),
}

/// A drawing primitive. Radii count quarters of a cell's width.
#[derive(Debug, Clone)]
pub enum Element {
    Circle(Point, u64, CircleKind),
    Line(Point, Point, Stroke, Feature),
    Arc(Point, Point, u64, bool),
    Text(Loc, String),
    Path(Point, Point, Vec<Segment>, Stroke),
}

/// The mathematical value of an `Element`.
pub enum ElementView {
    Circle(Point, u64, CircleKind),
    Line(Point, Point, Stroke, Feature),
    Arc(Point, Point, u64, bool),
    Text(Loc, Seq<char>),
    Path(Point, Point, Seq<Segment>, Stroke),
}

impl View for Element {
    type V = ElementView;

    open spec fn view(&self) -> ElementView {
        match self {
            Element::Circle(c, r, k) => ElementView::Circle(*c, *r, *k),
            Element::Line(s, e, st, f) => ElementView::Line(*s, *e, *st, *f),
            Element::Arc(s, e, r, sw) => ElementView::Arc(*s, *e, *r, *sw),
            Element::Text(l, t) => ElementView::Text(*l, t@),
            Element::Path(s, e, d, st) => ElementView::Path(*s, *e, d@, *st),
        }
    }
}

impl ElementView {
    /// Whether every point of the primitive lies within `COORD_LIMIT`.
    pub open spec fn bounded(self) -> bool {
        match self {
            ElementView::Circle(c, _, _) => c.bounded(),
            ElementView::Line(s, e, _, _) => s.bounded() && e.bounded(),
            ElementView::Arc(s, e, _, _) => s.bounded() && e.bounded(),
            ElementView::Text(_, _) => true,
            ElementView::Path(s, e, d, _) => s.bounded() && e.bounded() && forall|i: int|
                0 <= i < d.len() ==> segment_end(#[trigger] d[i]).bounded(),
        }
    }
}

/// The point a segment leads to.
pub open spec fn segment_end(s: Segment) -> Point {
    match s {
        Segment::LineTo(p) => p,
        Segment::ArcTo(p, _, _) => p,
        Segment::MoveTo(p) => p,
    }
}

/// The primitive that two primitives fuse into, if they do: a line whose
/// end is where a collinear line of the same stroke starts, with no arrow at
/// the joint and no start marker on the second, continues into it; a text
/// directly followed on its row by another takes the other's characters.
pub open spec fn reduce_spec(a: ElementView, b: ElementView) -> Option<ElementView> {
    match (a, b) {
        (ElementView::Line(s, e, st, f), ElementView::Line(s2, e2, st2, f2)) => {
            if collinear_spec(s, e, s2) && collinear_spec(s, e, e2) && e == s2 && st == st2 && f
                == Feature::Nothing && f2 != Feature::Circle {
                Some(ElementView::Line(s, e2, st, f2))
            } else {
                None
            }
        },
        (ElementView::Text(l, t), ElementView::Text(l2, t2)) => {
            if l.y == l2.y && l.x + str_width_of(t) == l2.x {
                Some(ElementView::Text(l, t + t2))
            } else {
                None
            }
        },
        _ => None,
    }
}

/// Whether three points lie on one line: the triangle they span has no area.
pub open spec fn collinear_spec(a: Point, b: Point, c: Point) -> bool {
    a.x * (b.y - c.y) + b.x * (c.y - a.y) + c.x * (a.y - b.y) == 0
}

pub fn collinear(a: &Point, b: &Point, c: &Point) -> (r: bool)
    requires
        a.bounded(),
        b.bounded(),
        c.bounded(),
    ensures
        r == collinear_spec(*a, *b, *c),
{
    let ax = a.x as i128;
    let ay = a.y as i128;
    let bx = b.x as i128;
    let by = b.y as i128;
    let cx = c.x as i128;
    let cy = c.y as i128;
    let lim: i128 = COORD_LIMIT as i128;
    proof {
        lemma_product_bound(ax as int, (by - cy) as int, lim as int);
        lemma_product_bound(bx as int, (cy - ay) as int, lim as int);
        lemma_product_bound(cx as int, (ay - by) as int, lim as int);
    }
    let t1 = ax * (by - cy);
    let t2 = bx * (cy - ay);
    let t3 = cx * (ay - by);
    t1 + t2 + t3 == 0
}

impl Element {
    pub fn solid_circle(c: &Point, r: u64) -> (e: Element)
        ensures
            e@ == ElementView::Circle(*c, r, CircleKind::Solid),
    {
        Element::Circle(*c, r, CircleKind::Solid)
    }

    pub fn open_circle(c: &Point, r: u64) -> (e: Element)
        ensures
            e@ == ElementView::Circle(*c, r, CircleKind::Open),
    {
        Element::Circle(*c, r, CircleKind::Open)
    }

    pub fn solid_line(s: &Point, e: &Point) -> (r: Element)
        ensures
            r@ == ElementView::Line(*s, *e, Stroke::Solid, Feature::Nothing),
    {
        Element::Line(*s, *e, Stroke::Solid, Feature::Nothing)
    }

    pub fn line(s: &Point, e: &Point, stroke: Stroke, feature: Feature) -> (r: Element)
        ensures
            r@ == ElementView::Line(*s, *e, stroke, feature),
    {
        Element::Line(*s, *e, stroke, feature)
    }

    pub fn arc(s: &Point, e: &Point, radius: u64, sweep: bool) -> (r: Element)
        ensures
            r@ == ElementView::Arc(*s, *e, radius, sweep),
    {
        Element::Arc(*s, *e, radius, sweep)
    }

    /// The primitive that `self` followed by `other` fuses into, if any.
    pub fn reduce(&self, other: &Element) -> (r: Option<Element>)
        requires
            self@.bounded(),
            other@.bounded(),
        ensures
            match r {
                Some(m) => reduce_spec(self@, other@) == Some(m@),
                None => reduce_spec(self@, other@) is None,
            },
    {
        match self {
            Element::Line(s, e, stroke, feature) => match other {
                Element::Line(s2, e2, stroke2, feature2) => {
                    if *e == *s2 && *stroke == *stroke2 && *feature == Feature::Nothing
                        && *feature2 != Feature::Circle && collinear(s, e, s2) && collinear(
                        s,
                        e,
                        e2,
                    ) {
                        Some(Element::Line(*s, *e2, *stroke, *feature2))
                    } else {
                        None
                    }
                },
                _ => None,
            },
            Element::Text(loc, text) => match other {
                Element::Text(loc2, text2) => {
                    if loc.y == loc2.y && loc2.x >= loc.x && (loc2.x as i128) - (loc.x as i128)
                        == str_width(text.as_str()) as i128 {
                        let merged = text.clone().concat(text2.as_str());
                        Some(Element::Text(*loc, merged))
                    } else {
                        None
                    }
                },
                _ => None,
            },
            _ => None,
        }
    }
}

/// Two lines fuse only where the start and end of the first and the end of
/// the second are collinear, and the first ends where the second starts.
pub proof fn lemma_fused_lines_collinear(
    s1: Point,
    e1: Point,
    s2: Point,
    e2: Point,
    st1: Stroke,
    st2: Stroke,
    f1: Feature,
    f2: Feature,
)
    requires
        reduce_spec(ElementView::Line(s1, e1, st1, f1), ElementView::Line(s2, e2, st2, f2)) is Some,
    ensures
        collinear_spec(s1, e1, e2),
        e1 == s2,
        st1 == st2,
        reduce_spec(ElementView::Line(s1, e1, st1, f1), ElementView::Line(s2, e2, st2, f2))
            == Some(ElementView::Line(s1, e2, st1, f2)),
{
}

proof fn lemma_product_bound(a: int, d: int, lim: int)
    requires
        lim == 0x4000_0000_0000_0000,
        -lim <= a <= lim,
        -2 * lim <= d <= 2 * lim,
    ensures
        -2 * lim * lim <= a * d <= 2 * lim * lim,
{
    assert(-2 * lim * lim <= a * d <= 2 * lim * lim) by (nonlinear_arith)
        requires
            -lim <= a <= lim,
            -2 * lim <= d <= 2 * lim,
            lim > 0,
    ;
}

} // verus!
