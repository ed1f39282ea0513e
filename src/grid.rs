use vstd::prelude::*;
use vstd::std_specs::iter::IteratorSpec;
use vstd::string::StringExecFns;

use crate::glyph::{Class, class_test, in_class};
use crate::loc::Loc;
use crate::number::push_char;

verus! {

/// The display width that `unicode-width` gives a single character, `None`
/// for a control character.
pub uninterp spec fn char_width_of(c: char) -> Option<usize>;

/// The display width that `unicode-width` gives a string.
pub uninterp spec fn str_width_of(s: Seq<char>) -> usize;

/// Relies on `UnicodeWidthChar::width` of unicode-width: the width of one
/// character, depending on the character alone.
#[verifier::external_body]
fn char_width(c: char) -> (r: Option<usize>)
    ensures
        r == char_width_of(c),
{
    unicode_width::UnicodeWidthChar::width(c)
}

/// Relies on `UnicodeWidthStr::width` of unicode-width: the width of a
/// string, depending on its characters alone.
#[verifier::external_body]
pub(crate) fn str_width(s: &str) -> (r: usize)
    ensures
        r == str_width_of(s@),
{
    unicode_width::UnicodeWidthStr::width(s)
}

/// The characters of `s`.
fn chars_of(s: &str) -> (r: Vec<char>)
    ensures
        r@ == s@,
{
    broadcast use vstd::string::axiom_spec_iter, vstd::string::next_postcondition;

    let mut out: Vec<char> = Vec::new();
    let mut it = s.chars();
    loop
        invariant
            out@ + it.remaining() == s@,
            it.obeys_prophetic_iter_laws(),
            it.decrease() is Some,
        decreases it.decrease()->0,
    {
        match it.next() {
            Some(c) => {
                out.push(c);
                assert(out@ + it.remaining() =~= s@);
            },
            None => {
                assert(out@ =~= s@);
                return out;
            },
        }
    }
}

/// One display cell: a base character with the combining marks folded
/// into it, and the number of columns it takes.
#[derive(Debug, PartialEq)]
pub struct GChar {
    pub string: String,
    pub width: usize,
}

impl GChar {
    pub open spec fn wf(&self) -> bool {
        self.width == str_width_of(self.string@)
    }

    pub fn new(ch: char) -> (r: GChar)
        ensures
            r.string@ == seq![ch],
            r.wf(),
    {
        let mut s = String::new();
        push_char(&mut s, ch);
        let width = str_width(s.as_str());
        GChar { string: s, width }
    }

    pub fn from_str(s: &str) -> (r: GChar)
        ensures
            r.string@ == s@,
            r.wf(),
    {
        let width = str_width(s);
        GChar { string: String::from_str(s), width }
    }

    pub fn push_str(self, s: &str) -> (r: GChar)
        ensures
            r.string@ == self.string@ + s@,
            r.wf(),
    {
        let string = self.string.concat(s);
        GChar::from_str(string.as_str())
    }
}

/// The lines of a text: split at `\n`, a `\r` right before the `\n` dropped,
/// and no empty line after a final `\n`.
pub open spec fn lines_from(s: Seq<char>, cur: Seq<char>) -> Seq<Seq<char>>
    decreases s.len(),
{
    if s.len() == 0 {
        if cur.len() == 0 {
            seq![]
        } else {
            seq![cur]
        }
    } else if s[0] == '\n' {
        let line = if cur.len() > 0 && cur.last() == '\r' {
            cur.drop_last()
        } else {
            cur
        };
        seq![line] + lines_from(s.drop_first(), seq![])
    } else {
        lines_from(s.drop_first(), cur.push(s[0]))
    }
}

pub open spec fn text_lines(s: Seq<char>) -> Seq<Seq<char>> {
    lines_from(s, seq![])
}

/// The cells of one line, built from `cs` onto the cells `cells` already
/// made, with `zero` a combining mark that waits for its base character.
/// A character of no defined width is skipped; a combining mark is held
/// until the next character of nonzero width, and both are then appended to
/// the preceding cell (dropped where there is none).
pub open spec fn cells_from(cs: Seq<char>, cells: Seq<Seq<char>>, zero: Option<char>) -> Seq<
    Seq<char>,
>
    decreases cs.len(),
{
    if cs.len() == 0 {
        cells
    } else {
        let c = cs[0];
        let rest = cs.drop_first();
        match char_width_of(c) {
            None => cells_from(rest, cells, zero),
            Some(w) => if w == 0 {
                cells_from(rest, cells, Some(c))
            } else {
                match zero {
                    Some(z) => if cells.len() > 0 {
                        cells_from(
                            rest,
                            cells.update(cells.len() - 1, cells.last() + seq![z, c]),
                            None,
                        )
                    } else {
                        cells_from(rest, cells, None)
                    },
                    None => cells_from(rest, cells.push(seq![c]), None),
                }
            },
        }
    }
}

pub open spec fn line_cells(line: Seq<char>) -> Seq<Seq<char>> {
    cells_from(line, seq![], None)
}

/// The texts of a row of cells.
pub open spec fn row_texts(row: Seq<GChar>) -> Seq<Seq<char>> {
    row.map_values(|g: GChar| g.string@)
}

/// The column at which cell `i` of the row starts.
pub open spec fn start_column(row: Seq<GChar>, i: int) -> int
    decreases i,
{
    if i <= 0 {
        0
    } else {
        start_column(row, i - 1) + row[i - 1].width
    }
}

/// The number of columns a row takes.
pub open spec fn row_width(row: Seq<GChar>) -> int {
    start_column(row, row.len() as int)
}

/// Whether cell `i` of the row spans column `x`.
pub open spec fn covers(row: Seq<GChar>, i: int, x: int) -> bool {
    0 <= i < row.len() && start_column(row, i) <= x < start_column(row, i) + row[i].width
}


/// The widest of the rows.
pub open spec fn max_row_width(rows: Seq<Vec<GChar>>) -> int
    decreases rows.len(),
{
    if rows.len() == 0 {
        0
    } else {
        let w = row_width(rows.last()@);
        let m = max_row_width(rows.drop_last());
        if w >= m {
            w
        } else {
            m
        }
    }
}

/// Builds the cells of one line.
fn make_row(line: &Vec<char>) -> (r: Vec<GChar>)
    ensures
        row_texts(r@) == line_cells(line@),
        forall|j: int| 0 <= j < r@.len() ==> (#[trigger] r@[j]).wf(),
{
    let mut gchars: Vec<GChar> = Vec::new();
    let mut zero_ch: Option<char> = None;
    let mut i: usize = 0;
    assert(line@.skip(0) =~= line@);
    assert(row_texts(gchars@) =~= seq![]);
    while i < line.len()
        invariant
            i <= line@.len(),
            cells_from(line@.skip(i as int), row_texts(gchars@), zero_ch) == line_cells(line@),
            forall|j: int| 0 <= j < gchars@.len() ==> (#[trigger] gchars@[j]).wf(),
        decreases line@.len() - i,
    {
        let ch = line[i];
        proof {
            assert(line@.skip(i as int).drop_first() =~= line@.skip(i + 1));
            assert(line@.skip(i as int)[0] == ch);
        }
        match char_width(ch) {
            None => {},
            Some(w) => {
                if w == 0 {
                    zero_ch = Some(ch);
                } else {
                    match zero_ch {
                        Some(z) => {
                            let ghost before = row_texts(gchars@);
                            let last = gchars.pop();
                            match last {
                                Some(g) => {
                                    let mut pair = String::new();
                                    push_char(&mut pair, z);
                                    push_char(&mut pair, ch);
                                    let merged = g.push_str(pair.as_str());
                                    gchars.push(merged);
                                    proof {
                                        assert(pair@ =~= seq![z, ch]);
                                        assert(row_texts(gchars@) =~= before.update(
                                            before.len() - 1,
                                            before.last() + seq![z, ch],
                                        ));
                                    }
                                },
                                None => {},
                            }
                            zero_ch = None;
                        },
                        None => {
                            let ghost before = row_texts(gchars@);
                            gchars.push(GChar::new(ch));
                            assert(row_texts(gchars@) =~= before.push(seq![ch]));
                        },
                    }
                }
            },
        }
        i = i + 1;
    }
    assert(line@.skip(i as int).len() == 0);
    gchars
}

/// The diagram as rows of display cells.
#[derive(Debug)]
pub struct Grid {
    pub rows: usize,
    pub columns: usize,
    pub lines: Vec<Vec<GChar>>,
}

impl Grid {
    pub open spec fn wf(&self) -> bool {
        &&& self.rows == self.lines@.len()
        &&& forall|i: int, j: int|
            0 <= i < self.lines@.len() && 0 <= j < self.lines@[i]@.len()
                ==> (#[trigger] self.lines@[i]@[j]).wf()
        &&& self.columns == (if max_row_width(self.lines@) <= usize::MAX {
            max_row_width(self.lines@)
        } else {
            usize::MAX as int
        })
    }

    /// The cell texts of row `y`.
    pub open spec fn row(&self, y: int) -> Seq<GChar> {
        self.lines@[y]@
    }

    /// Builds the grid of a text: one row per line, each line cut into
    /// display cells; `columns` is the widest row (capped at `usize::MAX`).
    pub fn from_str(s: &str) -> (r: Grid)
        ensures
            r.wf(),
            r.lines@.len() == text_lines(s@).len(),
            forall|i: int|
                0 <= i < r.lines@.len() ==> row_texts(#[trigger] r.lines@[i]@) == line_cells(
                    text_lines(s@)[i],
                ),
    {
        let chars = chars_of(s);
        let mut lines: Vec<Vec<GChar>> = Vec::new();
        let ghost mut raw: Seq<Seq<char>> = seq![];
        let mut cur: Vec<char> = Vec::new();
        let mut i: usize = 0;
        assert(chars@.skip(0) =~= chars@);
        assert(raw + lines_from(chars@.skip(0), cur@) =~= text_lines(s@));
        while i < chars.len()
            invariant
                i <= chars@.len(),
                chars@ == s@,
                raw + lines_from(chars@.skip(i as int), cur@) == text_lines(s@),
                raw.len() == lines@.len(),
                forall|k: int|
                    0 <= k < lines@.len() ==> row_texts(#[trigger] lines@[k]@) == line_cells(raw[k]),
                forall|k: int, j: int|
                    0 <= k < lines@.len() && 0 <= j < lines@[k]@.len()
                        ==> (#[trigger] lines@[k]@[j]).wf(),
            decreases chars@.len() - i,
        {
            let ch = chars[i];
            proof {
                assert(chars@.skip(i as int).drop_first() =~= chars@.skip(i + 1));
                assert(chars@.skip(i as int)[0] == ch);
            }
            if ch == '\n' {
                if cur.len() > 0 && cur[cur.len() - 1] == '\r' {
                    cur.pop();
                }
                let row = make_row(&cur);
                proof {
                    raw = raw.push(cur@);
                }
                lines.push(row);
                cur = Vec::new();
                assert(raw + lines_from(chars@.skip(i + 1), cur@) =~= text_lines(s@));
            } else {
                cur.push(ch);
            }
            i = i + 1;
        }
        assert(chars@.skip(i as int).len() == 0);
        if cur.len() > 0 {
            let row = make_row(&cur);
            proof {
                raw = raw.push(cur@);
            }
            lines.push(row);
        }
        assert(raw =~= text_lines(s@));
        let columns = Self::widest(&lines);
        Grid { rows: lines.len(), columns, lines }
    }

    /// The widest row, capped at `usize::MAX`.
    fn widest(lines: &Vec<Vec<GChar>>) -> (r: usize)
        ensures
            r == (if max_row_width(lines@) <= usize::MAX {
                max_row_width(lines@)
            } else {
                usize::MAX as int
            }),
    {
        let mut max: usize = 0;
        let mut k: usize = 0;
        while k < lines.len()
            invariant
                k <= lines@.len(),
                max == (if max_row_width(lines@.take(k as int)) <= usize::MAX {
                    max_row_width(lines@.take(k as int))
                } else {
                    usize::MAX as int
                }),
            decreases lines@.len() - k,
        {
            let w = Self::line_width(&lines[k]);
            proof {
                assert(lines@.take(k + 1).drop_last() =~= lines@.take(k as int));
                assert(lines@.take(k + 1).last() == lines@[k as int]);
            }
            if w >= max {
                max = w;
            }
            k = k + 1;
        }
        assert(lines@.take(k as int) =~= lines@);
        max
    }

    /// The number of columns of a row, capped at `usize::MAX`.
    fn line_width(line: &Vec<GChar>) -> (r: usize)
        ensures
            r == (if row_width(line@) <= usize::MAX {
                row_width(line@)
            } else {
                usize::MAX as int
            }),
    {
        let mut total: usize = 0;
        let mut j: usize = 0;
        while j < line.len()
            invariant
                j <= line@.len(),
                total == (if start_column(line@, j as int) <= usize::MAX {
                    start_column(line@, j as int)
                } else {
                    usize::MAX as int
                }),
            decreases line@.len() - j,
        {
            proof {
                lemma_start_column_grows(line@, j as int);
            }
            total = total.saturating_add(line[j].width);
            j = j + 1;
        }
        total
    }
}

impl Grid {
    /// The cell that spans column `x` of row `y`, if any.
    pub open spec fn cell_at(&self, x: int, y: int) -> Option<GChar> {
        if 0 <= y < self.lines@.len() && exists|i: int| covers(self.row(y), i, x) {
            Some(self.row(y)[choose|i: int| covers(self.row(y), i, x)])
        } else {
            None
        }
    }

    /// Whether a cell spans the position and its text is of the class.
    pub open spec fn has_class_at(&self, x: int, y: int, class: Class) -> bool {
        match self.cell_at(x, y) {
            Some(g) => in_class(class, g.string@),
            None => false,
        }
    }

    /// The cell whose columns span `loc.x` on row `loc.y`.
    pub fn get(&self, loc: &Loc) -> (r: Option<&GChar>)
        requires
            self.wf(),
        ensures
            match r {
                Some(g) => self.cell_at(loc.x as int, loc.y as int) == Some(*g),
                None => self.cell_at(loc.x as int, loc.y as int) is None,
            },
    {
        if loc.y < 0 || loc.y as usize >= self.lines.len() {
            return None;
        }
        let line = &self.lines[loc.y as usize];
        let ghost row = line@;
        assert(row == self.row(loc.y as int));
        if loc.x < 0 {
            assert forall|i: int| !covers(row, i, loc.x as int) by {
                if 0 <= i {
                    lemma_start_column_grows(row, i);
                }
            }
            return None;
        }
        let x = loc.x as u128;
        let mut total: u128 = 0;
        let mut j: usize = 0;
        while j < line.len()
            invariant
                row == line@,
                j <= row.len(),
                total == start_column(row, j as int),
                total <= j * 0xffff_ffff_ffff_ffffu128,
                x as int == loc.x as int,
                row == self.row(loc.y as int),
                0 <= loc.y < self.lines@.len(),
                forall|k: int| 0 <= k < j ==> !covers(row, k, x as int),
            decreases row.len() - j,
        {
            let w = line[j].width as u128;
            if total <= x && x < total + w {
                proof {
                    let xi = loc.x as int;
                    let yi = loc.y as int;
                    assert(covers(self.row(yi), j as int, xi));
                    let c = choose|i: int| covers(self.row(yi), i, xi);
                    lemma_covers_unique(self.row(yi), j as int, c, xi);
                    assert(0 <= yi < self.lines@.len());
                    assert(self.cell_at(xi, yi) == Some(self.row(yi)[j as int]));
                }
                return Some(&line[j]);
            }
            total = total + w;
            j = j + 1;
        }
        proof {
            if exists|i: int| covers(row, i, x as int) {
                let c = choose|i: int| covers(row, i, x as int);
                assert(!covers(row, c, x as int));
            }
        }
        None
    }

    /// Whether the cell at `loc` exists and its text is of the class.
    pub fn is_char(&self, loc: &Loc, class: Class) -> (r: bool)
        requires
            self.wf(),
        ensures
            r == self.has_class_at(loc.x as int, loc.y as int, class),
    {
        match self.get(loc) {
            Some(g) => class_test(class, g.string.as_str()),
            None => false,
        }
    }
}

pub proof fn lemma_start_column_mono(row: Seq<GChar>, i: int, j: int)
    requires
        0 <= i < j <= row.len(),
    ensures
        start_column(row, j) >= start_column(row, i) + row[i].width,
    decreases j - i,
{
    if j > i + 1 {
        lemma_start_column_mono(row, i, j - 1);
    }
}

proof fn lemma_covers_unique(row: Seq<GChar>, i: int, j: int, x: int)
    requires
        covers(row, i, x),
        covers(row, j, x),
    ensures
        i == j,
{
    if i < j {
        lemma_start_column_mono(row, i, j);
    } else if j < i {
        lemma_start_column_mono(row, j, i);
    }
}

pub proof fn lemma_start_column_grows(row: Seq<GChar>, i: int)
    requires
        0 <= i,
    ensures
        start_column(row, i) >= 0,
    decreases i,
{
    if i > 0 {
        lemma_start_column_grows(row, i - 1);
    }
}

} // verus!
