use vstd::prelude::*;
use crate::element::{
    Element, ElementView, Feature, Point, Segment, Stroke, reduce_spec, segment_end,
};
use crate::emit::Settings;
use crate::loc::Loc;

verus! {

/// The values of a sequence of primitives.
pub open spec fn views(v: Seq<Element>) -> Seq<ElementView> {
    v.map_values(|e: Element| e@)
}

/// Whether a primitive can stand in a chain: a solid line with no marker,
/// an arc, or a solid path.
pub open spec fn chainable(e: ElementView) -> bool {
    match e {
        ElementView::Line(_, _, st, f) => st == Stroke::Solid && f == Feature::Nothing,
        ElementView::Arc(_, _, _, _) => true,
        ElementView::Path(_, _, _, st) => st == Stroke::Solid,
        _ => false,
    }
}

pub open spec fn start_of(e: ElementView) -> Point {
    match e {
        ElementView::Line(s, _, _, _) => s,
        ElementView::Arc(s, _, _, _) => s,
        ElementView::Path(s, _, _, _) => s,
        ElementView::Circle(c, _, _) => c,
        ElementView::Text(_, _) => Point { x: 0, y: 0 },
    }
}

pub open spec fn end_of(e: ElementView) -> Point {
    match e {
        ElementView::Line(_, t, _, _) => t,
        ElementView::Arc(_, t, _, _) => t,
        ElementView::Path(_, t, _, _) => t,
        ElementView::Circle(c, _, _) => c,
        ElementView::Text(_, _) => Point { x: 0, y: 0 },
    }
}

/// The steps that draw a chainable primitive from its start.
pub open spec fn segments_of(e: ElementView) -> Seq<Segment> {
    match e {
        ElementView::Line(_, t, _, _) => seq![Segment::LineTo(t)],
        ElementView::Arc(_, t, r, sw) => seq![Segment::ArcTo(t, r, sw)],
        ElementView::Path(_, _, d, _) => d,
        _ => seq![],
    }
}

/// The steps between two chainable primitives: none where the first ends
/// where the second starts, else a jump to the second's start.
pub open spec fn link_of(a: ElementView, b: ElementView) -> Seq<Segment> {
    if end_of(a) == start_of(b) {
        seq![]
    } else {
        seq![Segment::MoveTo(start_of(b))]
    }
}

/// The path that two chainable primitives form: the first, then the
/// second, continuing where the first ends at the second's start and
/// jumping there otherwise.
pub open spec fn join_spec(a: ElementView, b: ElementView) -> Option<ElementView> {
    if chainable(a) && chainable(b) {
        Some(
            ElementView::Path(
                start_of(a),
                end_of(b),
                segments_of(a) + link_of(a, b) + segments_of(b),
                Stroke::Solid,
            ),
        )
    } else {
        None
    }
}

/// What `a` and `b` fuse into: a reduction where there is one, else, when
/// paths are compacted, a chain.
pub open spec fn fuse_spec(a: ElementView, b: ElementView, compact: bool) -> Option<ElementView> {
    if reduce_spec(a, b) is Some {
        reduce_spec(a, b)
    } else if compact {
        join_spec(a, b)
    } else {
        None
    }
}

/// Whether element `i` of `s` fuses with the later element `j`.
pub open spec fn can_fuse(s: Seq<ElementView>, i: int, j: int, compact: bool) -> bool {
    0 <= i < j < s.len() && fuse_spec(s[i], s[j], compact) is Some
}

/// `s` after fusing element `j` into element `i`.
pub open spec fn fuse_at(s: Seq<ElementView>, i: int, j: int, compact: bool) -> Seq<ElementView> {
    s.update(i, fuse_spec(s[i], s[j], compact).unwrap()).remove(j)
}

/// Whether no two primitives of `s` fuse any more.
pub open spec fn stable(s: Seq<ElementView>, compact: bool) -> bool {
    forall|i: int, j: int| !can_fuse(s, i, j, compact)
}

/// Whether `n` fusion steps lead from `s` to `t`.
pub open spec fn fuses_to(s: Seq<ElementView>, t: Seq<ElementView>, compact: bool, n: nat) -> bool
    decreases n,
{
    if n == 0 {
        s == t
    } else {
        exists|p: Seq<ElementView>, i: int, j: int|
            fuses_to(s, p, compact, (n - 1) as nat) && can_fuse(p, i, j, compact) && t == fuse_at(
                p,
                i,
                j,
                compact,
            )
    }
}

/// Whether `t` is what the optimizer makes of `s`: reached by fusion steps,
/// with nothing left to fuse, and `s` itself where nothing fused to begin
/// with.
pub open spec fn optimizes_to(s: Seq<ElementView>, t: Seq<ElementView>, compact: bool) -> bool {
    &&& exists|n: nat| fuses_to(s, t, compact, n)
    &&& stable(t, compact)
    &&& stable(s, compact) ==> t == s
}

/// Whether every primitive of `s` has its points within `COORD_LIMIT`.
pub open spec fn all_bounded(s: Seq<ElementView>) -> bool {
    forall|i: int| 0 <= i < s.len() ==> (#[trigger] s[i]).bounded()
}


proof fn lemma_fuse_bounded(a: ElementView, b: ElementView, compact: bool)
    requires
        a.bounded(),
        b.bounded(),
        fuse_spec(a, b, compact) is Some,
    ensures
        fuse_spec(a, b, compact).unwrap().bounded(),
{
    if reduce_spec(a, b) is None {
        let m = join_spec(a, b).unwrap();
        let d = segments_of(a) + segments_of(b);
        assert forall|k: int| 0 <= k < d.len() implies segment_end(#[trigger] d[k]).bounded() by {
            if k < segments_of(a).len() {
                assert(d[k] == segments_of(a)[k]);
            } else {
                assert(d[k] == segments_of(b)[k - segments_of(a).len()]);
            }
        }
    }
}

/// Copies the steps of a chainable primitive.
fn segments(e: &Element) -> (r: Vec<Segment>)
    ensures
        r@ == segments_of(e@),
{
    match e {
        Element::Line(_, t, _, _) => vec![Segment::LineTo(*t)],
        Element::Arc(_, t, r, sw) => vec![Segment::ArcTo(*t, *r, *sw)],
        Element::Path(_, _, d, _) => {
            let mut out: Vec<Segment> = Vec::new();
            let mut k: usize = 0;
            while k < d.len()
                invariant
                    k <= d@.len(),
                    out@ == d@.take(k as int),
                decreases d@.len() - k,
            {
                out.push(d[k]);
                k = k + 1;
                assert(out@ =~= d@.take(k as int));
            }
            assert(d@.take(k as int) =~= d@);
            out
        },
        _ => Vec::new(),
    }
}

fn is_chainable(e: &Element) -> (r: bool)
    ensures
        r == chainable(e@),
{
    match e {
        Element::Line(_, _, st, f) => *st == Stroke::Solid && *f == Feature::Nothing,
        Element::Arc(_, _, _, _) => true,
        Element::Path(_, _, _, st) => *st == Stroke::Solid,
        _ => false,
    }
}

fn start_point(e: &Element) -> (r: Point)
    ensures
        r == start_of(e@),
{
    match e {
        Element::Line(s, _, _, _) => *s,
        Element::Arc(s, _, _, _) => *s,
        Element::Path(s, _, _, _) => *s,
        Element::Circle(c, _, _) => *c,
        Element::Text(_, _) => Point { x: 0, y: 0 },
    }
}

fn end_point(e: &Element) -> (r: Point)
    ensures
        r == end_of(e@),
{
    match e {
        Element::Line(_, t, _, _) => *t,
        Element::Arc(_, t, _, _) => *t,
        Element::Path(_, t, _, _) => *t,
        Element::Circle(c, _, _) => *c,
        Element::Text(_, _) => Point { x: 0, y: 0 },
    }
}

/// The path that `a` and `b` form, if they chain.
pub fn join(a: &Element, b: &Element) -> (r: Option<Element>)
    ensures
        match r {
            Some(m) => join_spec(a@, b@) == Some(m@),
            None => join_spec(a@, b@) is None,
        },
{
    if is_chainable(a) && is_chainable(b) {
        let mut d = segments(a);
        let ghost head = d@;
        if end_point(a) != start_point(b) {
            d.push(Segment::MoveTo(start_point(b)));
        }
        let mut tail = segments(b);
        d.append(&mut tail);
        assert(d@ =~= head + link_of(a@, b@) + segments_of(b@));
        Some(Element::Path(start_point(a), end_point(b), d, Stroke::Solid))
    } else {
        None
    }
}

/// What `a` and `b` fuse into, if anything.
pub fn fuse(a: &Element, b: &Element, compact: bool) -> (r: Option<Element>)
    requires
        a@.bounded(),
        b@.bounded(),
    ensures
        match r {
            Some(m) => fuse_spec(a@, b@, compact) == Some(m@),
            None => fuse_spec(a@, b@, compact) is None,
        },
{
    match a.reduce(b) {
        Some(m) => Some(m),
        None => if compact {
            join(a, b)
        } else {
            None
        },
    }
}

/// Whether elements `i` and `j` fuse, and, with `linked`, the first ends
/// where the second starts.
pub open spec fn pair_ok(s: Seq<ElementView>, i: int, j: int, compact: bool, linked: bool) -> bool {
    can_fuse(s, i, j, compact) && (!linked || end_of(s[i]) == start_of(s[j]))
}

/// The first `j` from `from` on such that elements `i` and `j` fuse.
pub open spec fn first_partner(
    s: Seq<ElementView>,
    i: int,
    from: int,
    compact: bool,
    linked: bool,
) -> Option<int>
    decreases s.len() - from,
{
    if from < 0 || from >= s.len() {
        None
    } else if pair_ok(s, i, from, compact, linked) {
        Some(from)
    } else {
        first_partner(s, i, from + 1, compact, linked)
    }
}

/// The first pair from first index `from` on that fuses, in order of the
/// first index, then the second.
pub open spec fn first_pair(s: Seq<ElementView>, from: int, compact: bool, linked: bool) -> Option<
    (int, int),
>
    decreases s.len() - from,
{
    if from < 0 || from >= s.len() {
        None
    } else {
        match first_partner(s, from, 0, compact, linked) {
            Some(j) => Some((from, j)),
            None => first_pair(s, from + 1, compact, linked),
        }
    }
}

/// The pair the optimizer fuses next, a primitive and a later one: the
/// first reduction; else, when paths are compacted, the first join of a
/// primitive to one that starts where it ends, else the first join.
pub open spec fn next_pair(s: Seq<ElementView>, compact: bool) -> Option<(int, int)> {
    match first_pair(s, 0, false, false) {
        Some(p) => Some(p),
        None => if compact {
            match first_pair(s, 0, true, true) {
                Some(p) => Some(p),
                None => first_pair(s, 0, true, false),
            }
        } else {
            None
        },
    }
}

/// What the optimizer makes of `s`: the pair that `next_pair` names is
/// fused, again and again, until none is left.
pub open spec fn optimized(s: Seq<ElementView>, compact: bool) -> Seq<ElementView>
    decreases s.len(),
{
    match next_pair(s, compact) {
        Some((i, j)) => if 0 <= i < j < s.len() {
            optimized(fuse_at(s, i, j, compact), compact)
        } else {
            s
        },
        None => s,
    }
}

/// Whether no pair fuses whose first index is below `start`, leaving out
/// the pairs that involve element `p`.
pub open spec fn clean_before(s: Seq<ElementView>, start: int, p: int, compact: bool, linked: bool) -> bool {
    forall|a: int, b: int|
        0 <= a < start && a != p && b != p ==> !#[trigger] pair_ok(s, a, b, compact, linked)
}

/// Where element `k` of `s` after fusing `j` into `i` came from.
pub open spec fn source_index(j: int, k: int) -> int {
    if k < j {
        k
    } else {
        k + 1
    }
}

proof fn lemma_partner_skip(
    s: Seq<ElementView>,
    i: int,
    from: int,
    to: int,
    compact: bool,
    linked: bool,
)
    requires
        0 <= from <= to <= s.len(),
        forall|b: int| from <= b < to ==> !#[trigger] pair_ok(s, i, b, compact, linked),
    ensures
        first_partner(s, i, from, compact, linked) == first_partner(s, i, to, compact, linked),
    decreases to - from,
{
    if from < to {
        lemma_partner_skip(s, i, from + 1, to, compact, linked);
    }
}

proof fn lemma_no_partner(s: Seq<ElementView>, i: int, from: int, compact: bool, linked: bool)
    requires
        0 <= from,
        first_partner(s, i, from, compact, linked) is None,
    ensures
        forall|b: int| from <= b ==> !#[trigger] pair_ok(s, i, b, compact, linked),
    decreases s.len() - from,
{
    if from < s.len() {
        lemma_no_partner(s, i, from + 1, compact, linked);
    }
}

proof fn lemma_no_pair(s: Seq<ElementView>, from: int, compact: bool, linked: bool)
    requires
        0 <= from,
        first_pair(s, from, compact, linked) is None,
    ensures
        forall|a: int, b: int| from <= a ==> !#[trigger] pair_ok(s, a, b, compact, linked),
    decreases s.len() - from,
{
    if from < s.len() {
        lemma_no_partner(s, from, 0, compact, linked);
        lemma_no_pair(s, from + 1, compact, linked);
    }
}

proof fn lemma_rows_before_pair(
    s: Seq<ElementView>,
    from: int,
    i: int,
    j: int,
    compact: bool,
    linked: bool,
)
    requires
        0 <= from,
        first_pair(s, from, compact, linked) == Some((i, j)),
    ensures
        forall|a: int, b: int| from <= a < i ==> !#[trigger] pair_ok(s, a, b, compact, linked),
    decreases s.len() - from,
{
    if from < s.len() && from < i {
        lemma_no_partner(s, from, 0, compact, linked);
        lemma_rows_before_pair(s, from + 1, i, j, compact, linked);
    }
}

/// Pairs that leave out the fused element fuse after a step exactly as the
/// elements they came from did before it.
proof fn lemma_pairs_carry_over(
    s: Seq<ElementView>,
    i: int,
    j: int,
    step_compact: bool,
    compact: bool,
    linked: bool,
)
    requires
        can_fuse(s, i, j, step_compact),
    ensures
        forall|a: int, b: int|
            a != (if i < j { i } else { i - 1 }) && b != (if i < j { i } else { i - 1 }) ==> (
            #[trigger] pair_ok(fuse_at(s, i, j, step_compact), a, b, compact, linked)
                == pair_ok(s, source_index(j, a), source_index(j, b), compact, linked)),
{
    let t = fuse_at(s, i, j, step_compact);
    let p = if i < j { i } else { i - 1 };
    assert forall|a: int, b: int| a != p && b != p implies (#[trigger] pair_ok(
        t,
        a,
        b,
        compact,
        linked,
    ) == pair_ok(s, source_index(j, a), source_index(j, b), compact, linked)) by {
        if 0 <= a < t.len() {
            assert(t[a] == s[source_index(j, a)]);
        }
        if 0 <= b < t.len() {
            assert(t[b] == s[source_index(j, b)]);
        }
    }
}

/// The first pair (in order of the first index, then the second) that
/// fuses, with what it fuses into; with `linked`, only among pairs whose
/// first element ends where the second starts. Below `start` only pairs
/// with element `p` are tried: the others are known not to fuse.
fn find_fusion(v: &Vec<Element>, compact: bool, linked: bool, start: usize, p: usize) -> (r: Option<
    (usize, usize, Element),
>)
    requires
        all_bounded(views(v@)),
        clean_before(views(v@), start as int, p as int, compact, linked),
    ensures
        match r {
            Some((i, j, m)) => can_fuse(views(v@), i as int, j as int, compact) && fuse_spec(
                views(v@)[i as int],
                views(v@)[j as int],
                compact,
            ) == Some(m@) && first_pair(views(v@), 0, compact, linked) == Some((i as int, j as int)),
            None => (!linked ==> stable(views(v@), compact)) && first_pair(views(v@), 0, compact, linked) is None,
        },
{
    let ghost s = views(v@);
    let mut i: usize = 0;
    while i < v.len()
        invariant
            s == views(v@),
            all_bounded(s),
            i <= v@.len(),
            forall|a: int, b: int| 0 <= a < i ==> !linked ==> !can_fuse(s, a, b, compact),
            first_pair(s, 0, compact, linked) == first_pair(s, i as int, compact, linked),
            clean_before(s, start as int, p as int, compact, linked),
        decreases v@.len() - i,
    {
        if i < start && i != p {
            if i < p && p < v.len() && (!linked || end_point(&v[i]) == start_point(&v[p])) {
                proof {
                    lemma_partner_skip(s, i as int, 0, p as int, compact, linked);
                    assert(s[i as int] == v@[i as int]@ && s[p as int] == v@[p as int]@);
                    assert(s[i as int].bounded() && s[p as int].bounded());
                }
                match fuse(&v[i], &v[p], compact) {
                    Some(m) => {
                        return Some((i, p, m));
                    },
                    None => {},
                }
            }
            proof {
                assert forall|b: int| !#[trigger] pair_ok(s, i as int, b, compact, linked) by {
                    if b == p && i < b && b < s.len() {
                        if !linked || end_of(s[i as int]) == start_of(s[b]) {
                            assert(s[i as int] == v@[i as int]@ && s[b] == v@[b]@);
                        }
                    }
                }
                lemma_partner_skip(s, i as int, 0, s.len() as int, compact, linked);
            }
            proof {
                assert forall|b: int| !linked implies !can_fuse(s, i as int, b, compact) by {
                    assert(!pair_ok(s, i as int, b, compact, linked));
                }
            }
            i = i + 1;
            continue;
        }
        let mut j: usize = 0;
        while j < v.len()
            invariant
                s == views(v@),
                all_bounded(s),
                i < v@.len(),
                j <= v@.len(),
                forall|a: int, b: int| 0 <= a < i ==> !linked ==> !can_fuse(s, a, b, compact),
                forall|b: int| 0 <= b < j ==> !linked ==> !can_fuse(s, i as int, b, compact),
                first_pair(s, 0, compact, linked) == first_pair(s, i as int, compact, linked),
                first_partner(s, i as int, 0, compact, linked) == first_partner(
                    s,
                    i as int,
                    j as int,
                    compact,
                    linked,
                ),
            decreases v@.len() - j,
        {
            if i < j && (!linked || end_point(&v[i]) == start_point(&v[j])) {
                assert(s[i as int] == v@[i as int]@ && s[j as int] == v@[j as int]@);
                assert(s[i as int].bounded() && s[j as int].bounded());
                match fuse(&v[i], &v[j], compact) {
                    Some(m) => {
                        return Some((i, j, m));
                    },
                    None => {},
                }
            }
            j = j + 1;
        }
        i = i + 1;
    }
    assert(first_pair(s, i as int, compact, linked) is None);
    None
}

/// Puts `m` in place of element `i` and takes out element `j`.
fn replace_pair(v: &mut Vec<Element>, i: usize, j: usize, m: Element)
    requires
        i < old(v)@.len(),
        j < old(v)@.len(),
        i != j,
    ensures
        views(final(v)@) == views(old(v)@).update(i as int, m@).remove(j as int),
{
    let ghost s = views(v@);
    if i < j {
        v.remove(j);
        v.remove(i);
        v.insert(i, m);
    } else {
        v.remove(i);
        v.remove(j);
        v.insert(i - 1, m);
    }
    assert(views(v@) =~= s.update(i as int, m@).remove(j as int));
}

/// Fuses primitives until no two of them fuse, each with a later one in
/// reading order: collinear lines that continue one another become one
/// line, adjacent texts one text, and, with `compact`, all solid unmarked
/// lines, arcs and paths one path. Reductions are made first, then joins of
/// a primitive to a later one that starts where it ends, then the remaining
/// joins.
pub fn optimize_elements(v: Vec<Element>, compact: bool) -> (r: Vec<Element>)
    requires
        all_bounded(views(v@)),
    ensures
        optimizes_to(views(v@), views(r@), compact),
        views(r@) == optimized(views(v@), compact),
        all_bounded(views(r@)),
{
    let ghost s = views(v@);
    let mut cur = v;
    let ghost mut n: nat = 0;
    // Below each start, only pairs with element `fresh` (the last one made)
    // can fuse in the search of that kind: reductions, links, joins.
    let mut fresh: usize = 0;
    let mut reduce_start: usize = 0;
    let mut link_start: usize = 0;
    let mut join_start: usize = 0;
    loop
        invariant
            s == views(v@),
            fuses_to(s, views(cur@), compact, n),
            optimized(views(cur@), compact) == optimized(s, compact),
            all_bounded(views(cur@)),
            stable(s, compact) ==> views(cur@) == s,
            clean_before(views(cur@), reduce_start as int, fresh as int, false, false),
            clean_before(views(cur@), link_start as int, fresh as int, true, true),
            clean_before(views(cur@), join_start as int, fresh as int, true, false),
        decreases cur@.len(),
    {
        let found = match find_fusion(&cur, false, false, reduce_start, fresh) {
            Some((i, j, m)) => Some((i, j, m, 0u8)),
            None => if compact {
                match find_fusion(&cur, true, true, link_start, fresh) {
                    Some((i, j, m)) => Some((i, j, m, 1u8)),
                    None => match find_fusion(&cur, true, false, join_start, fresh) {
                        Some((i, j, m)) => Some((i, j, m, 2u8)),
                        None => None,
                    },
                }
            } else {
                None
            },
        };
        match found {
            Some((i, j, m, kind)) => {
                let ghost p = views(cur@);
                proof {
                    assert(can_fuse(p, i as int, j as int, compact));
                    lemma_fuse_bounded(p[i as int], p[j as int], compact);
                    lemma_pairs_carry_over(p, i as int, j as int, compact, false, false);
                    lemma_pairs_carry_over(p, i as int, j as int, compact, true, true);
                    lemma_pairs_carry_over(p, i as int, j as int, compact, true, false);
                    if kind == 0 {
                        lemma_rows_before_pair(p, 0, i as int, j as int, false, false);
                    } else if kind == 1 {
                        lemma_no_pair(p, 0, false, false);
                        lemma_rows_before_pair(p, 0, i as int, j as int, true, true);
                    } else {
                        lemma_no_pair(p, 0, false, false);
                        lemma_no_pair(p, 0, true, true);
                        lemma_rows_before_pair(p, 0, i as int, j as int, true, false);
                    }
                }
                replace_pair(&mut cur, i, j, m);
                fresh = if i < j {
                    i
                } else {
                    i - 1
                };
                if kind == 0 {
                    reduce_start = fresh;
                    link_start = 0;
                    join_start = 0;
                } else if kind == 1 {
                    reduce_start = cur.len();
                    link_start = fresh;
                    join_start = 0;
                } else {
                    reduce_start = cur.len();
                    link_start = cur.len();
                    join_start = fresh;
                }
                proof {
                    let t = views(cur@);
                    assert(t == fuse_at(p, i as int, j as int, compact));
                    assert(fuses_to(s, p, compact, n));
                    n = n + 1;
                    assert(fuses_to(s, t, compact, n));
                    assert forall|k: int| 0 <= k < t.len() implies (#[trigger] t[k]).bounded() by {
                        if k < j {
                            if k != i {
                                assert(t[k] == p[k]);
                            }
                        } else {
                            if k + 1 != i {
                                assert(t[k] == p[k + 1]);
                            }
                        }
                    }
                }
            },
            None => {
                assert(fuses_to(s, views(cur@), compact, n));
                return cur;
            },
        }
    }
}

/// The primitives of all groups, in order.
pub open spec fn flat_views(groups: Seq<(Loc, Vec<Element>)>) -> Seq<ElementView>
    decreases groups.len(),
{
    if groups.len() == 0 {
        seq![]
    } else {
        flat_views(groups.drop_last()) + views(groups.last().1@)
    }
}

proof fn lemma_flat_front(groups: Seq<(Loc, Vec<Element>)>)
    requires
        groups.len() > 0,
    ensures
        flat_views(groups) == views(groups[0].1@) + flat_views(groups.drop_first()),
    decreases groups.len(),
{
    if groups.len() == 1 {
        assert(groups.drop_last() =~= seq![]);
        assert(groups.drop_first() =~= seq![]);
        assert(flat_views(groups) =~= views(groups[0].1@) + flat_views(groups.drop_first()));
    } else {
        lemma_flat_front(groups.drop_last());
        assert(groups.drop_last().drop_first() =~= groups.drop_first().drop_last());
        assert(groups.drop_first().last() == groups.last());
        assert(flat_views(groups) =~= views(groups[0].1@) + flat_views(groups.drop_first()));
    }
}

/// Flattens the per-cell groups into one sequence in reading order.
pub fn flatten(groups: Vec<(Loc, Vec<Element>)>) -> (r: Vec<Element>)
    ensures
        views(r@) == flat_views(groups@),
{
    let ghost all = groups@;
    let mut out: Vec<Element> = Vec::new();
    let mut rest = groups;
    while rest.len() > 0
        invariant
            views(out@) + flat_views(rest@) == flat_views(all),
        decreases rest@.len(),
    {
        let ghost before_out = views(out@);
        let ghost before_rest = rest@;
        proof {
            lemma_flat_front(rest@);
        }
        let (_, mut es) = rest.remove(0);
        let ghost es_views = views(es@);
        out.append(&mut es);
        proof {
            assert(rest@ =~= before_rest.drop_first());
            assert(views(out@) =~= before_out + es_views);
            assert(views(out@) + flat_views(rest@) =~= before_out + (es_views + flat_views(
                rest@,
            )));
        }
    }
    assert(views(out@) + flat_views(rest@) =~= views(out@));
    out
}

/// Fuses the primitives of the per-cell groups, as the settings ask.
pub struct Optimizer {
    pub elements: Vec<(Loc, Vec<Element>)>,
}

impl Optimizer {
    pub open spec fn groups(&self) -> Seq<(Loc, Vec<Element>)> {
        self.elements@
    }

    pub fn new(elements: Vec<(Loc, Vec<Element>)>) -> (r: Optimizer)
        ensures
            r.groups() == elements@,
    {
        Optimizer { elements }
    }

    /// The primitives of all groups in reading order, fused until nothing
    /// more fuses; chains become paths only where the settings compact
    /// paths.
    pub fn optimize(self, settings: &Settings) -> (r: Vec<Element>)
        requires
            all_bounded(flat_views(self.groups())),
        ensures
            optimizes_to(flat_views(self.groups()), views(r@), settings.compact_path),
            views(r@) == optimized(flat_views(self.groups()), settings.compact_path),
            all_bounded(views(r@)),
    {
        let flat = flatten(self.elements);
        optimize_elements(flat, settings.compact_path)
    }
}

/// Each fusion step removes one primitive.
pub proof fn lemma_fuses_len(s: Seq<ElementView>, t: Seq<ElementView>, compact: bool, n: nat)
    requires
        fuses_to(s, t, compact, n),
    ensures
        t.len() + n == s.len(),
    decreases n,
{
    if n > 0 {
        let (p, i, j) = choose|p: Seq<ElementView>, i: int, j: int|
            fuses_to(s, p, compact, (n - 1) as nat) && can_fuse(p, i, j, compact) && t == fuse_at(
                p,
                i,
                j,
                compact,
            );
        lemma_fuses_len(s, p, compact, (n - 1) as nat);
    }
}

proof fn lemma_first_partner_ok(s: Seq<ElementView>, i: int, from: int, compact: bool, linked: bool)
    requires
        first_partner(s, i, from, compact, linked) is Some,
    ensures
        pair_ok(s, i, first_partner(s, i, from, compact, linked).unwrap(), compact, linked),
    decreases s.len() - from,
{
    if 0 <= from < s.len() && !pair_ok(s, i, from, compact, linked) {
        lemma_first_partner_ok(s, i, from + 1, compact, linked);
    }
}

proof fn lemma_first_pair_ok(s: Seq<ElementView>, from: int, compact: bool, linked: bool)
    requires
        first_pair(s, from, compact, linked) is Some,
    ensures
        pair_ok(
            s,
            first_pair(s, from, compact, linked).unwrap().0,
            first_pair(s, from, compact, linked).unwrap().1,
            compact,
            linked,
        ),
    decreases s.len() - from,
{
    if 0 <= from < s.len() {
        match first_partner(s, from, 0, compact, linked) {
            Some(j) => lemma_first_partner_ok(s, from, 0, compact, linked),
            None => lemma_first_pair_ok(s, from + 1, compact, linked),
        }
    }
}

/// Nothing is left for the optimizer in what it made.
pub proof fn lemma_optimized_is_final(s: Seq<ElementView>, compact: bool)
    ensures
        next_pair(optimized(s, compact), compact) is None,
    decreases s.len(),
{
    match next_pair(s, compact) {
        Some((i, j)) => {
            if first_pair(s, 0, false, false) is Some {
                lemma_first_pair_ok(s, 0, false, false);
            } else if first_pair(s, 0, true, true) is Some {
                lemma_first_pair_ok(s, 0, true, true);
            } else {
                lemma_first_pair_ok(s, 0, true, false);
            }
            lemma_optimized_is_final(fuse_at(s, i, j, compact), compact);
        },
        None => {},
    }
}

/// Optimizing is idempotent: optimizing what the optimizer made gives it
/// back unchanged.
pub proof fn lemma_optimize_idempotent(s: Seq<ElementView>, compact: bool)
    ensures
        optimized(optimized(s, compact), compact) == optimized(s, compact),
{
    lemma_optimized_is_final(s, compact);
}

} // verus!
