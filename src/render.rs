use vstd::prelude::*;
use crate::element::{Element, ElementView};
use crate::emit::{Node, NodeView, Settings, element_node, node_view};
use crate::grid::{GChar, Grid, line_cells, max_row_width, row_texts, row_width, start_column, text_lines};
use crate::loc::Loc;
use crate::optimizer::{
    Optimizer, all_bounded, flat_views, flatten, lemma_fuses_len, optimized, views,
};
use crate::rules::{
    all_drawn_near, cell_count, cell_groups, cell_output, drawn_near, group_total, loc_in_range,
};

verus! {

/// A drawing ready to be written as SVG: its size in pixels and its nodes
/// in drawing order.
#[derive(Debug)]
pub struct Svg {
    pub width: u128,
    pub height: u128,
    pub nodes: Vec<Node>,
}

impl Svg {
    pub open spec fn node_views(&self) -> Seq<NodeView> {
        self.nodes@.map_values(|n: Node| n@)
    }
}

/// The width of the drawing: the widest row plus four cells.
pub open spec fn svg_width(g: Grid, s: Settings) -> int {
    s.text_width * (g.columns + 4)
}

/// The height of the drawing: the rows plus two cells.
pub open spec fn svg_height(g: Grid, s: Settings) -> int {
    s.text_height * (g.rows + 2)
}

/// Whether `es` are the primitives that the grid is drawn with under the
/// settings: the per-cell primitives in reading order, optimized where the
/// settings ask for it.
pub open spec fn drawn_elements(g: Grid, s: Settings, es: Seq<ElementView>) -> bool {
    exists|groups: Seq<(Loc, Vec<Element>)>|
        #![trigger flat_views(groups)]
        cell_groups(g, groups) && if s.optimize {
            es == optimized(flat_views(groups), s.compact_path)
        } else {
            es == flat_views(groups)
        }
}

/// Whether `r` draws the grid under the settings: one node per primitive.
pub open spec fn svg_of(g: Grid, s: Settings, r: Svg) -> bool {
    &&& r.width == svg_width(g, s)
    &&& r.height == svg_height(g, s)
    &&& exists|es: Seq<ElementView>|
        #![trigger drawn_elements(g, s, es)]
        drawn_elements(g, s, es) && r.nodes@.len() == es.len() && forall|i: int|
            0 <= i < es.len() ==> (#[trigger] r.node_views()[i]) == node_view(
                es[i],
                s.text_width as int,
                s.text_height as int,
            )
}

/// Whether `g` is the grid of the text `s`.
pub open spec fn grid_of(s: Seq<char>, g: Grid) -> bool {
    &&& g.wf()
    &&& g.lines@.len() == text_lines(s).len()
    &&& forall|i: int|
        0 <= i < g.lines@.len() ==> row_texts(#[trigger] g.lines@[i]@) == line_cells(
            text_lines(s)[i],
        )
}

/// The primitives that cells contribute are bounded and never paths, and
/// there are as many as the groups hold.
pub proof fn lemma_cell_primitives(g: Grid, groups: Seq<(Loc, Vec<Element>)>)
    requires
        forall|i: int|
            0 <= i < groups.len() ==> loc_in_range((#[trigger] groups[i]).0) && cell_output(
                g,
                groups[i].0.x,
                groups[i].0.y,
                groups[i].1@,
            ),
    ensures
        flat_views(groups).len() == group_total(groups),
        all_bounded(flat_views(groups)),
        forall|k: int|
            0 <= k < flat_views(groups).len() ==> !((#[trigger] flat_views(groups)[k]) is Path),
    decreases groups.len(),
{
    if groups.len() > 0 {
        let prefix = groups.drop_last();
        assert forall|i: int| 0 <= i < prefix.len() implies loc_in_range(
            (#[trigger] prefix[i]).0,
        ) && cell_output(g, prefix[i].0.x, prefix[i].0.y, prefix[i].1@) by {
            assert(prefix[i] == groups[i]);
        }
        lemma_cell_primitives(g, prefix);
        let last = groups.last();
        assert(groups[groups.len() - 1] == last);
        let v = last.1@;
        let x = last.0.x;
        let y = last.0.y;
        let f = flat_views(groups);
        let pf = flat_views(prefix);
        assert(f == pf + views(v));
        assert forall|k: int| 0 <= k < f.len() implies (#[trigger] f[k]).bounded() && !(
        f[k] is Path) by {
            if k >= pf.len() {
                let j = k - pf.len();
                assert(f[k] == v[j]@);
                if all_drawn_near(v, x as int, y as int) {
                    assert(drawn_near(v[j]@, x as int, y as int));
                }
            } else {
                assert(f[k] == pf[k]);
            }
        }
    }
}

/// Without optimization no primitive is a path.
pub proof fn lemma_unoptimized_has_no_paths(g: Grid, s: Settings, es: Seq<ElementView>)
    requires
        drawn_elements(g, s, es),
        !s.optimize,
    ensures
        forall|k: int| 0 <= k < es.len() ==> !((#[trigger] es[k]) is Path),
{
    let groups = choose|groups: Seq<(Loc, Vec<Element>)>|
        #![trigger flat_views(groups)]
        cell_groups(g, groups) && if s.optimize {
            es == optimized(flat_views(groups), s.compact_path)
        } else {
            es == flat_views(groups)
        };
    lemma_cell_primitives(g, groups);
}

impl Grid {
    /// The drawing of the grid under the settings: one node per primitive,
    /// sized `text_width * (columns + 4)` by `text_height * (rows + 2)`.
    pub fn get_svg(&self, settings: &Settings) -> (r: Svg)
        requires
            self.wf(),
        ensures
            svg_of(*self, *settings, r),
            r.nodes@.len() <= 4 * cell_count(self.lines@),
    {
        let groups = self.get_all_elements();
        let ghost gs = groups@;
        proof {
            lemma_cell_primitives(*self, gs);
        }
        let es = if settings.optimize {
            let optimizer = Optimizer::new(groups);
            optimizer.optimize(settings)
        } else {
            flatten(groups)
        };
        let ghost ev = views(es@);
        proof {
            if settings.optimize {
                let n = choose|n: nat| crate::optimizer::fuses_to(flat_views(gs), ev, settings.compact_path, n);
                lemma_fuses_len(flat_views(gs), ev, settings.compact_path, n);
            }
            assert(drawn_elements(*self, *settings, ev));
            assert(all_bounded(ev));
        }
        let tw = settings.text_width;
        let th = settings.text_height;
        let mut nodes: Vec<Node> = Vec::new();
        let mut k: usize = 0;
        while k < es.len()
            invariant
                ev == views(es@),
                all_bounded(ev),
                k <= es@.len(),
                nodes@.len() == k,
                tw == settings.text_width,
                th == settings.text_height,
                forall|i: int|
                    0 <= i < k ==> (#[trigger] nodes@[i])@ == node_view(ev[i], tw as int, th as int),
            decreases es@.len() - k,
        {
            assert(ev[k as int] == es@[k as int]@);
            let node = element_node(&es[k], tw, th);
            nodes.push(node);
            k = k + 1;
        }
        let columns = self.columns as u128 + 4;
        let rows = self.rows as u128 + 2;
        let w = tw as u128;
        let h = th as u128;
        assert(w * columns <= 0xffff_ffff * 0x1_0000_0000_0000_0004u128) by (nonlinear_arith)
            requires
                w <= 0xffff_ffff,
                columns <= 0x1_0000_0000_0000_0004u128,
        ;
        assert(h * rows <= 0xffff_ffff * 0x1_0000_0000_0000_0004u128) by (nonlinear_arith)
            requires
                h <= 0xffff_ffff,
                rows <= 0x1_0000_0000_0000_0004u128,
        ;
        let r = Svg { width: w * columns, height: h * rows, nodes };
        proof {
            assert forall|i: int| 0 <= i < ev.len() implies (#[trigger] r.node_views()[i])
                == node_view(ev[i], tw as int, th as int) by {
                assert(r.node_views()[i] == r.nodes@[i]@);
            }
        }
        r
    }
}

/// The size of the drawing is proportional to the cell size: for one grid,
/// widths relate as the text widths do, and heights as the text heights.
pub proof fn lemma_size_scales(g: Grid, s1: Settings, s2: Settings)
    ensures
        svg_width(g, s1) * s2.text_width == svg_width(g, s2) * s1.text_width,
        svg_height(g, s1) * s2.text_height == svg_height(g, s2) * s1.text_height,
{
    let c = g.columns + 4;
    let r = g.rows + 2;
    assert(s1.text_width * c * s2.text_width == s2.text_width * c * s1.text_width)
        by (nonlinear_arith);
    assert(s1.text_height * r * s2.text_height == s2.text_height * r * s1.text_height)
        by (nonlinear_arith);
}

proof fn lemma_same_start_columns(r1: Seq<GChar>, r2: Seq<GChar>, n: int)
    requires
        r1.len() == r2.len(),
        0 <= n <= r1.len(),
        forall|i: int| 0 <= i < r1.len() ==> (#[trigger] r1[i]).width == r2[i].width,
    ensures
        start_column(r1, n) == start_column(r2, n),
    decreases n,
{
    if n > 0 {
        lemma_same_start_columns(r1, r2, n - 1);
    }
}

proof fn lemma_same_max_width(l1: Seq<Vec<GChar>>, l2: Seq<Vec<GChar>>)
    requires
        l1.len() == l2.len(),
        forall|i: int| 0 <= i < l1.len() ==> row_width((#[trigger] l1[i])@) == row_width(l2[i]@),
    ensures
        max_row_width(l1) == max_row_width(l2),
    decreases l1.len(),
{
    if l1.len() > 0 {
        let head1 = l1.drop_last();
        let head2 = l2.drop_last();
        assert forall|i: int| 0 <= i < head1.len() implies row_width((#[trigger] head1[i])@) == row_width(
            head2[i]@,
        ) by {
            assert(head1[i] == l1[i] && head2[i] == l2[i]);
        }
        lemma_same_max_width(head1, head2);
        assert(l1.last() == l1[l1.len() - 1] && l2.last() == l2[l2.len() - 1]);
    }
}

/// Two grids of one text have the same numbers of rows and columns.
pub proof fn lemma_grid_size_of_text(s: Seq<char>, g1: Grid, g2: Grid)
    requires
        grid_of(s, g1),
        grid_of(s, g2),
    ensures
        g1.rows == g2.rows,
        g1.columns == g2.columns,
{
    let l1 = g1.lines@;
    let l2 = g2.lines@;
    assert forall|i: int| 0 <= i < l1.len() implies row_width((#[trigger] l1[i])@) == row_width(
        l2[i]@,
    ) by {
        let r1 = l1[i]@;
        let r2 = l2[i]@;
        assert(row_texts(r1) == row_texts(r2));
        assert(r1.len() == row_texts(r1).len() && r2.len() == row_texts(r2).len());
        assert forall|j: int| 0 <= j < r1.len() implies (#[trigger] r1[j]).width == r2[j].width by {
            assert(row_texts(r1)[j] == r1[j].string@);
            assert(row_texts(r2)[j] == r2[j].string@);
            assert(g1.lines@[i]@[j].wf() && g2.lines@[i]@[j].wf());
        }
        lemma_same_start_columns(r1, r2, r1.len() as int);
    }
    lemma_same_max_width(l1, l2);
}

/// For one text, scaling the cell width by `k` scales the drawing's width
/// by `k` and leaves its height alone; likewise for the cell height.
pub proof fn lemma_size_scales_with_cells(
    text: Seq<char>,
    g1: Grid,
    g2: Grid,
    s1: Settings,
    s2: Settings,
    k: int,
)
    requires
        grid_of(text, g1),
        grid_of(text, g2),
    ensures
        s2.text_width == k * s1.text_width ==> svg_width(g2, s2) == k * svg_width(g1, s1),
        s2.text_height == k * s1.text_height ==> svg_height(g2, s2) == k * svg_height(g1, s1),
        s2.text_width == s1.text_width ==> svg_width(g2, s2) == svg_width(g1, s1),
        s2.text_height == s1.text_height ==> svg_height(g2, s2) == svg_height(g1, s1),
{
    lemma_grid_size_of_text(text, g1, g2);
    let c = g1.columns + 4;
    let r = g1.rows + 2;
    assert(s2.text_width == k * s1.text_width ==> s2.text_width * c == k * (s1.text_width * c))
        by (nonlinear_arith);
    assert(s2.text_height == k * s1.text_height ==> s2.text_height * r == k * (s1.text_height
        * r)) by (nonlinear_arith);
}

/// The drawing of a text, with cells of 8 by 16 pixels and compact paths.
pub fn to_svg(input: &str) -> (r: Svg)
    ensures
        exists|g: Grid| grid_of(input@, g) && svg_of(g, Settings::spec_default(), r),
{
    let settings = Settings::default_settings();
    let grid = Grid::from_str(input);
    let r = grid.get_svg(&settings);
    assert(grid_of(input@, grid));
    r
}

/// The drawing of a text with the given cell size, optimized.
pub fn to_svg_with_size(input: &str, text_width: u32, text_height: u32) -> (r: Svg)
    ensures
        exists|g: Grid|
            grid_of(input@, g) && svg_of(
                g,
                Settings { text_width, text_height, optimize: true, compact_path: true },
                r,
            ),
{
    let settings = Settings::with_size(text_width, text_height);
    let grid = Grid::from_str(input);
    let r = grid.get_svg(&settings);
    assert(grid_of(input@, grid));
    r
}

/// The drawing of a text with the given cell size, every primitive on its
/// own.
pub fn to_svg_with_size_nooptimization(input: &str, text_width: u32, text_height: u32) -> (r:
    Svg)
    ensures
        exists|g: Grid|
            grid_of(input@, g) && svg_of(
                g,
                Settings { text_width, text_height, optimize: false, compact_path: false },
                r,
            ),
{
    let mut settings = Settings::no_optimization();
    settings.text_width = text_width;
    settings.text_height = text_height;
    let grid = Grid::from_str(input);
    let r = grid.get_svg(&settings);
    assert(grid_of(input@, grid));
    r
}

} // verus!
