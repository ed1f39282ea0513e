use vstd::prelude::*;
use vstd::string::StringExecFns;
use crate::element::{CircleKind, Element, ElementView, Feature, Point, Segment, Stroke};
use crate::number::{push_char, push_quarters, quarter_text};

verus! {

/// How a diagram is drawn: the size of a cell in pixels, whether primitives
/// are fused, and whether chains of lines and arcs are fused into paths.
#[derive(Debug, Clone, Copy, PartialEq, Eq, Structural)]
pub struct Settings {
    pub text_width: u32,
    pub text_height: u32,
    pub optimize: bool,
    pub compact_path: bool,
}

impl Settings {
    /// The settings that `default` gives.
    pub open spec fn spec_default() -> Settings {
        Settings { text_width: 8, text_height: 16, optimize: true, compact_path: true }
    }

    /// Cells of 8 by 16 pixels, fused into compact paths.
    pub fn default_settings() -> (r: Settings)
        ensures
            r == (Settings { text_width: 8, text_height: 16, optimize: true, compact_path: true }),
    {
        Settings { text_width: 8, text_height: 16, optimize: true, compact_path: true }
    }

    pub fn with_size(text_width: u32, text_height: u32) -> (r: Settings)
        ensures
            r == (Settings { text_width, text_height, optimize: true, compact_path: true }),
    {
        Settings { text_width, text_height, optimize: true, compact_path: true }
    }

    /// Every primitive drawn on its own.
    pub fn no_optimization() -> (r: Settings)
        ensures
            r == (Settings { text_width: 8, text_height: 16, optimize: false, compact_path: false }),
    {
        let mut settings = Settings::default_settings();
        settings.optimize = false;
        settings.compact_path = false;
        settings
    }

    /// Lines and texts fused, but no paths.
    pub fn separate_lines() -> (r: Settings)
        ensures
            r == (Settings { text_width: 8, text_height: 16, optimize: true, compact_path: false }),
    {
        let mut settings = Settings::default_settings();
        settings.optimize = true;
        settings.compact_path = false;
        settings
    }

    /// Lines and texts fused, and chains fused into paths.
    pub fn compact() -> (r: Settings)
        ensures
            r == (Settings { text_width: 8, text_height: 16, optimize: true, compact_path: true }),
    {
        let mut settings = Settings::default_settings();
        settings.optimize = true;
        settings.compact_path = true;
        settings
    }
}

impl Default for Settings {
    fn default() -> (r: Settings)
        ensures
            r == (Settings { text_width: 8, text_height: 16, optimize: true, compact_path: true }),
    {
        Settings::default_settings()
    }
}

/// One SVG node, its numbers already written out in pixels.
#[derive(Debug)]
pub enum Node {
    Line { x1: String, y1: String, x2: String, y2: String, stroke: Stroke, feature: Feature },
    Path { d: String, stroke: Stroke },
    Circle { kind: CircleKind, cx: String, cy: String, r: String },
    Text { x: String, y: String, text: String },
}

pub enum NodeView {
    Line {
        x1: Seq<char>,
        y1: Seq<char>,
        x2: Seq<char>,
        y2: Seq<char>,
        stroke: Stroke,
        feature: Feature,
    },
    Path { d: Seq<char>, stroke: Stroke },
    Circle { kind: CircleKind, cx: Seq<char>, cy: Seq<char>, r: Seq<char> },
    Text { x: Seq<char>, y: Seq<char>, text: Seq<char> },
}

impl View for Node {
    type V = NodeView;

    open spec fn view(&self) -> NodeView {
        match self {
            Node::Line { x1, y1, x2, y2, stroke, feature } => NodeView::Line {
                x1: x1@,
                y1: y1@,
                x2: x2@,
                y2: y2@,
                stroke: *stroke,
                feature: *feature,
            },
            Node::Path { d, stroke } => NodeView::Path { d: d@, stroke: *stroke },
            Node::Circle { kind, cx, cy, r } => NodeView::Circle {
                kind: *kind,
                cx: cx@,
                cy: cy@,
                r: r@,
            },
            Node::Text { x, y, text } => NodeView::Text { x: x@, y: y@, text: text@ },
        }
    }
}

/// The pixel coordinates of a lattice point, as `x y`.
pub open spec fn xy_text(p: Point, tw: int, th: int) -> Seq<char> {
    quarter_text(p.x * tw) + seq![' '] + quarter_text(p.y * th)
}

/// The path command of one segment, with the space before it.
pub open spec fn segment_text(seg: Segment, tw: int, th: int) -> Seq<char> {
    match seg {
        Segment::LineTo(p) => seq![' ', 'L', ' '] + xy_text(p, tw, th),
        Segment::MoveTo(p) => seq![' ', 'M', ' '] + xy_text(p, tw, th),
        Segment::ArcTo(p, r, sw) => seq![' ', 'A', ' '] + quarter_text(r * tw) + seq![' ']
            + quarter_text(r * tw) + seq![' ', '0', ' ', '0', ' ', if sw { '1' } else { '0' }, ' ']
            + xy_text(p, tw, th),
    }
}

pub open spec fn segments_text(d: Seq<Segment>, tw: int, th: int) -> Seq<char>
    decreases d.len(),
{
    if d.len() == 0 {
        seq![]
    } else {
        segments_text(d.drop_last(), tw, th) + segment_text(d.last(), tw, th)
    }
}

/// The `d` attribute of a path from `start` through the segments.
pub open spec fn path_d(start: Point, d: Seq<Segment>, tw: int, th: int) -> Seq<char> {
    seq!['M', ' '] + xy_text(start, tw, th) + segments_text(d, tw, th)
}

/// The SVG node of a primitive: lattice quarters become pixels, an arc
/// becomes a one-segment path, a text sits a quarter cell in from the
/// left and three quarters down.
pub open spec fn node_view(e: ElementView, tw: int, th: int) -> NodeView {
    match e {
        ElementView::Line(s, t, st, f) => NodeView::Line {
            x1: quarter_text(s.x * tw),
            y1: quarter_text(s.y * th),
            x2: quarter_text(t.x * tw),
            y2: quarter_text(t.y * th),
            stroke: st,
            feature: f,
        },
        ElementView::Arc(s, t, r, sw) => NodeView::Path {
            d: path_d(s, seq![Segment::ArcTo(t, r, sw)], tw, th),
            stroke: Stroke::Solid,
        },
        ElementView::Circle(c, r, k) => NodeView::Circle {
            kind: k,
            cx: quarter_text(c.x * tw),
            cy: quarter_text(c.y * th),
            r: quarter_text(r * tw),
        },
        ElementView::Text(l, t) => NodeView::Text {
            x: quarter_text((4 * l.x + 1) * tw),
            y: quarter_text((4 * l.y + 3) * th),
            text: t,
        },
        ElementView::Path(s, _, d, st) => NodeView::Path { d: path_d(s, d, tw, th), stroke: st },
    }
}

/// `v * k`, for `|v|` up to 2^66.
fn scaled(v: i128, k: u32) -> (r: i128)
    requires
        -0x4_0000_0000_0000_0000i128 <= v <= 0x4_0000_0000_0000_0000i128,
    ensures
        r == v * k,
        -0x4_0000_0000_0000_0000_0000_0000i128 <= r <= 0x4_0000_0000_0000_0000_0000_0000i128,
{
    let kk = k as i128;
    assert(-0x4_0000_0000_0000_0000_0000_0000i128 <= v * kk <= 0x4_0000_0000_0000_0000_0000_0000i128)
        by (nonlinear_arith)
        requires
            -0x4_0000_0000_0000_0000i128 <= v <= 0x4_0000_0000_0000_0000i128,
            0 <= kk <= 0xffff_ffff,
    ;
    v * kk
}

fn quarters(q: i128) -> (r: String)
    requires
        q > i128::MIN,
    ensures
        r@ == quarter_text(q as int),
{
    let mut s = String::new();
    push_quarters(&mut s, q);
    assert(s@ =~= quarter_text(q as int));
    s
}

fn push_xy(s: &mut String, p: Point, tw: u32, th: u32)
    requires
        p.bounded(),
    ensures
        final(s)@ == old(s)@ + xy_text(p, tw as int, th as int),
{
    let ghost start = s@;
    push_quarters(s, scaled(p.x as i128, tw));
    push_char(s, ' ');
    push_quarters(s, scaled(p.y as i128, th));
    assert(s@ =~= start + xy_text(p, tw as int, th as int));
}

fn push_segment(s: &mut String, seg: Segment, tw: u32, th: u32)
    requires
        crate::element::segment_end(seg).bounded(),
        seg matches Segment::ArcTo(_, r, _) ==> r <= 0xffff_ffff_ffff_ffffu64,
    ensures
        final(s)@ == old(s)@ + segment_text(seg, tw as int, th as int),
{
    let ghost start = s@;
    match seg {
        Segment::LineTo(p) => {
            push_char(s, ' ');
            push_char(s, 'L');
            push_char(s, ' ');
            push_xy(s, p, tw, th);
            assert(s@ =~= start + segment_text(seg, tw as int, th as int));
        },
        Segment::MoveTo(p) => {
            push_char(s, ' ');
            push_char(s, 'M');
            push_char(s, ' ');
            push_xy(s, p, tw, th);
            assert(s@ =~= start + segment_text(seg, tw as int, th as int));
        },
        Segment::ArcTo(p, r, sw) => {
            let rq = scaled(r as i128, tw);
            push_char(s, ' ');
            push_char(s, 'A');
            push_char(s, ' ');
            push_quarters(s, rq);
            push_char(s, ' ');
            push_quarters(s, rq);
            push_char(s, ' ');
            push_char(s, '0');
            push_char(s, ' ');
            push_char(s, '0');
            push_char(s, ' ');
            push_char(s, if sw { '1' } else { '0' });
            push_char(s, ' ');
            push_xy(s, p, tw, th);
            assert(s@ =~= start + segment_text(seg, tw as int, th as int));
        },
    }
}

fn path_string(start: Point, d: &Vec<Segment>, tw: u32, th: u32) -> (r: String)
    requires
        start.bounded(),
        forall|k: int| 0 <= k < d@.len() ==> crate::element::segment_end(#[trigger] d@[k]).bounded(),
    ensures
        r@ == path_d(start, d@, tw as int, th as int),
{
    let mut s = String::new();
    push_char(&mut s, 'M');
    push_char(&mut s, ' ');
    push_xy(&mut s, start, tw, th);
    let ghost head = s@;
    let mut k: usize = 0;
    assert(segments_text(d@.take(0), tw as int, th as int) =~= seq![]);
    while k < d.len()
        invariant
            k <= d@.len(),
            forall|k: int| 0 <= k < d@.len() ==> crate::element::segment_end(#[trigger] d@[k]).bounded(),
            s@ == head + segments_text(d@.take(k as int), tw as int, th as int),
        decreases d@.len() - k,
    {
        push_segment(&mut s, d[k], tw, th);
        proof {
            assert(d@.take(k + 1).drop_last() =~= d@.take(k as int));
        }
        k = k + 1;
        assert(s@ =~= head + segments_text(d@.take(k as int), tw as int, th as int));
    }
    assert(d@.take(k as int) =~= d@);
    assert(s@ =~= path_d(start, d@, tw as int, th as int));
    s
}

/// The SVG node of one primitive.
pub fn element_node(e: &Element, tw: u32, th: u32) -> (n: Node)
    requires
        e@.bounded(),
    ensures
        n@ == node_view(e@, tw as int, th as int),
{
    match e {
        Element::Line(s, t, st, f) => {
            let x1 = quarters(scaled(s.x as i128, tw));
            let y1 = quarters(scaled(s.y as i128, th));
            let x2 = quarters(scaled(t.x as i128, tw));
            let y2 = quarters(scaled(t.y as i128, th));
            Node::Line { x1, y1, x2, y2, stroke: *st, feature: *f }
        },
        Element::Arc(s, t, r, sw) => {
            let d = vec![Segment::ArcTo(*t, *r, *sw)];
            assert(d@ =~= seq![Segment::ArcTo(*t, *r, *sw)]);
            Node::Path { d: path_string(*s, &d, tw, th), stroke: Stroke::Solid }
        },
        Element::Circle(c, r, k) => Node::Circle {
            kind: *k,
            cx: quarters(scaled(c.x as i128, tw)),
            cy: quarters(scaled(c.y as i128, th)),
            r: quarters(scaled(*r as i128, tw)),
        },
        Element::Text(l, t) => Node::Text {
            x: quarters(scaled(4 * l.x as i128 + 1, tw)),
            y: quarters(scaled(4 * l.y as i128 + 3, th)),
            text: t.clone(),
        },
        Element::Path(s, _, d, st) => Node::Path { d: path_string(*s, d, tw, th), stroke: *st },
    }
}

/// The markers that a line's feature adds.
pub open spec fn feature_attributes(f: Feature) -> Seq<(Seq<char>, Seq<char>)> {
    match f {
        Feature::Arrow => seq![("marker-end"@, "url(#triangle)"@)],
        Feature::Circle => seq![("marker-start"@, "url(#circle)"@)],
        Feature::Nothing => seq![],
    }
}

/// The SVG element name of a node and its attributes, in order: a dashed
/// line or path gets `stroke-dasharray="3 3"` (a line also `fill="none"`),
/// an arrow `marker-end`, a circle start `marker-start`, a circle its
/// class.
pub open spec fn node_attributes(n: NodeView) -> (Seq<char>, Seq<(Seq<char>, Seq<char>)>) {
    match n {
        NodeView::Line { x1, y1, x2, y2, stroke, feature } => (
            "line"@,
            seq![("x1"@, x1), ("y1"@, y1), ("x2"@, x2), ("y2"@, y2)] + feature_attributes(feature)
                + if stroke == Stroke::Dashed {
                seq![("stroke-dasharray"@, "3 3"@), ("fill"@, "none"@)]
            } else {
                seq![]
            },
        ),
        NodeView::Path { d, stroke } => (
            "path"@,
            seq![("d"@, d), ("fill"@, "none"@)] + if stroke == Stroke::Dashed {
                seq![("stroke-dasharray"@, "3 3"@)]
            } else {
                seq![]
            },
        ),
        NodeView::Circle { kind, cx, cy, r } => (
            "circle"@,
            seq![
                ("class"@, if kind == CircleKind::Solid {
                    "solid"@
                } else {
                    "open"@
                }),
                ("cx"@, cx),
                ("cy"@, cy),
                ("r"@, r),
            ],
        ),
        NodeView::Text { x, y, text: _ } => ("text"@, seq![("x"@, x), ("y"@, y)]),
    }
}

/// The values of a list of attribute pairs.
pub open spec fn pair_views(v: Seq<(String, String)>) -> Seq<(Seq<char>, Seq<char>)> {
    v.map_values(|p: (String, String)| (p.0@, p.1@))
}

fn pair(name: &str, value: &str) -> (r: (String, String))
    ensures
        r.0@ == name@,
        r.1@ == value@,
{
    (String::from_str(name), String::from_str(value))
}

fn push_pair(v: &mut Vec<(String, String)>, name: &str, value: &str)
    ensures
        pair_views(final(v)@) == pair_views(old(v)@).push((name@, value@)),
{
    let ghost before = pair_views(v@);
    v.push(pair(name, value));
    assert(pair_views(v@) =~= before.push((name@, value@)));
}

impl Node {
    /// The SVG element name of the node and its attributes, in order.
    pub fn attributes(&self) -> (r: (String, Vec<(String, String)>))
        ensures
            (r.0@, pair_views(r.1@)) == node_attributes(self@),
    {
        let mut v: Vec<(String, String)> = Vec::new();
        match self {
            Node::Line { x1, y1, x2, y2, stroke, feature } => {
                push_pair(&mut v, "x1", x1.as_str());
                push_pair(&mut v, "y1", y1.as_str());
                push_pair(&mut v, "x2", x2.as_str());
                push_pair(&mut v, "y2", y2.as_str());
                match feature {
                    Feature::Arrow => push_pair(&mut v, "marker-end", "url(#triangle)"),
                    Feature::Circle => push_pair(&mut v, "marker-start", "url(#circle)"),
                    Feature::Nothing => {},
                }
                if *stroke == Stroke::Dashed {
                    push_pair(&mut v, "stroke-dasharray", "3 3");
                    push_pair(&mut v, "fill", "none");
                }
                proof {
                    let (_, want) = node_attributes(self@);
                    assert(pair_views(v@) =~= want);
                }
                (String::from_str("line"), v)
            },
            Node::Path { d, stroke } => {
                push_pair(&mut v, "d", d.as_str());
                push_pair(&mut v, "fill", "none");
                if *stroke == Stroke::Dashed {
                    push_pair(&mut v, "stroke-dasharray", "3 3");
                }
                proof {
                    let (_, want) = node_attributes(self@);
                    assert(pair_views(v@) =~= want);
                }
                (String::from_str("path"), v)
            },
            Node::Circle { kind, cx, cy, r } => {
                match kind {
                    CircleKind::Solid => push_pair(&mut v, "class", "solid"),
                    CircleKind::Open => push_pair(&mut v, "class", "open"),
                }
                push_pair(&mut v, "cx", cx.as_str());
                push_pair(&mut v, "cy", cy.as_str());
                push_pair(&mut v, "r", r.as_str());
                proof {
                    let (_, want) = node_attributes(self@);
                    assert(pair_views(v@) =~= want);
                }
                (String::from_str("circle"), v)
            },
            Node::Text { x, y, text: _ } => {
                push_pair(&mut v, "x", x.as_str());
                push_pair(&mut v, "y", y.as_str());
                proof {
                    let (_, want) = node_attributes(self@);
                    assert(pair_views(v@) =~= want);
                }
                (String::from_str("text"), v)
            },
        }
    }
}

} // verus!
