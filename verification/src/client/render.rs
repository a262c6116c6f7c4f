//! What the widgets put on screen, as plain values: which lines of a text
//! are highlighted and where, and which lines fit in a window.

use vstd::prelude::*;

use crate::client::content::{lemma_line_le_sum, lemma_lines_make_up_text, lines_of};
use crate::text::{char_views, chars_of, split_chars, str_utf8_len, utf8_len, utf8_len_of};

verus! {

/// How one line of a text is rendered.
#[derive(Debug, Clone, Copy, PartialEq, Eq, Structural)]
pub enum LineRender {
    /// With its line number, not highlighted.
    Numbered,
    /// With its line number, characters `start` to `end` (exclusive)
    /// highlighted.
    Highlighted { start: usize, end: usize },
    /// The bare line, without a line number.
    Bare,
}

/// A highlighted section of a line of `chars` characters: kept when it is
/// a proper range within the line, else the bare line.
pub open spec fn section(chars: nat, start: usize, end: usize) -> LineRender {
    if start < end && start < chars && end <= chars {
        LineRender::Highlighted { start, end }
    } else {
        LineRender::Bare
    }
}

/// `a - b`, or `0` below zero.
pub open spec fn sat_sub(a: int, b: int) -> usize {
    if a >= b {
        (a - b) as usize
    } else {
        0
    }
}

/// A line with characters `start` to `end` (exclusive) to highlight: when
/// that range is empty the line is shown with its number only, else as
/// `section` has it.
pub open spec fn line_with_section(chars: nat, start: usize, end: usize) -> LineRender {
    if start < end {
        section(chars, start, end)
    } else {
        LineRender::Numbered
    }
}

/// One line's rendering, given its UTF-8 length and character count, the
/// offset still to skip and the length still to highlight; with the offset
/// and length left after it (a newline counts one). A region that starts
/// inside the line covers at most the length still to highlight.
pub open spec fn plan_step(bytes: nat, chars: nat, ro: usize, rl: usize) -> (LineRender, usize, usize) {
    if ro > 0 {
        if bytes <= ro {
            (LineRender::Numbered, sat_sub(ro - bytes, 1), rl)
        } else {
            let used: nat = if rl >= bytes - ro {
                (bytes - ro) as nat
            } else {
                rl as nat
            };
            (line_with_section(chars, ro, (ro + used) as usize), 0, sat_sub(rl as int, used + 1 as int))
        }
    } else if rl > 0 {
        let hl = (if bytes <= rl {
            bytes
        } else {
            rl as nat
        }) as usize;
        (line_with_section(chars, 0, hl), ro, sat_sub(rl as int, hl + 1))
    } else {
        (LineRender::Numbered, ro, rl)
    }
}

/// The rendering of each line when the region of `rl` bytes starting at
/// byte `ro` is highlighted.
pub open spec fn plan(lines: Seq<Seq<char>>, ro: usize, rl: usize) -> Seq<LineRender>
    decreases lines.len(),
{
    if lines.len() == 0 {
        Seq::empty()
    } else {
        let step = plan_step(utf8_len(lines[0]), lines[0].len(), ro, rl);
        seq![step.0] + plan(lines.drop_first(), step.1, step.2)
    }
}

/// In a text whose lines take one byte per character, every line is
/// planned with its number: none is bare, and every highlighted section is
/// a non-empty range within its line.
pub proof fn lemma_one_byte_lines_keep_numbers(lines: Seq<Seq<char>>, ro: usize, rl: usize)
    requires
        forall|i: int| 0 <= i < lines.len() ==> utf8_len(#[trigger] lines[i]) == lines[i].len(),
    ensures
        plan(lines, ro, rl).len() == lines.len(),
        forall|i: int|
            0 <= i < lines.len() ==> match #[trigger] plan(lines, ro, rl)[i] {
                LineRender::Bare => false,
                LineRender::Highlighted { start, end } => start < end && end <= lines[i].len(),
                LineRender::Numbered => true,
            },
    decreases lines.len(),
{
    if lines.len() > 0 {
        let step = plan_step(utf8_len(lines[0]), lines[0].len(), ro, rl);
        let rest = lines.drop_first();
        assert forall|i: int| 0 <= i < rest.len() implies utf8_len(#[trigger] rest[i]) == rest[i].len() by {
            assert(rest[i] == lines[i + 1]);
        }
        lemma_one_byte_lines_keep_numbers(rest, step.1, step.2);
        let p = plan(lines, ro, rl);
        assert(p == seq![step.0] + plan(rest, step.1, step.2));
        assert(utf8_len(lines[0]) == lines[0].len());
        assert forall|i: int| 0 <= i < lines.len() implies match #[trigger] p[i] {
            LineRender::Bare => false,
            LineRender::Highlighted { start, end } => start < end && end <= lines[i].len(),
            LineRender::Numbered => true,
        } by {
            if i > 0 {
                assert(p[i] == plan(rest, step.1, step.2)[i - 1]);
                assert(rest[i - 1] == lines[i]);
            }
        }
    }
}

/// Plans the highlighting of `len` bytes from byte `offset` of `text`, line
/// by line.
pub fn highlight_plan(text: &str, offset: usize, len: usize) -> (res: Vec<LineRender>)
    ensures
        res@ == plan(lines_of(text@), offset, len),
{
    let total = str_utf8_len(text);
    let lines = split_chars(text, '\n');
    let ghost ls = char_views(lines@);
    proof {
        lemma_lines_make_up_text(text@);
    }
    let mut out: Vec<LineRender> = Vec::new();
    let mut ro = offset;
    let mut rl = len;
    let mut i: usize = 0;
    proof {
        assert(ls.skip(0) =~= ls);
        assert(out@ + plan(ls.skip(0), ro, rl) =~= plan(ls, offset, len));
    }
    while i < lines.len()
        invariant
            i <= lines@.len(),
            ls == char_views(lines@),
            ls == lines_of(text@),
            crate::client::content::lines_len_sum(ls) <= total,
            out@ + plan(ls.skip(i as int), ro, rl) == plan(ls, offset, len),
        decreases lines@.len() - i,
    {
        proof {
            lemma_line_le_sum(ls, i as int);
            assert(ls[i as int] == lines@[i as int]@);
        }
        let bytes = utf8_len_of(lines[i].as_slice());
        let chars = lines[i].len();
        let ghost step = plan_step(utf8_len(ls[i as int]), ls[i as int].len(), ro, rl);
        let ghost rest = ls.skip(i as int);
        proof {
            assert(rest[0] == ls[i as int]);
            assert(rest.drop_first() =~= ls.skip(i + 1));
            assert(plan(rest, ro, rl) == seq![step.0] + plan(rest.drop_first(), step.1, step.2));
        }
        let r: LineRender;
        if ro > 0 {
            if bytes <= ro {
                r = LineRender::Numbered;
                ro = (ro - bytes).saturating_sub(1);
            } else {
                let avail = bytes - ro;
                let used = if rl >= avail {
                    avail
                } else {
                    rl
                };
                r = line_with_section_exec(chars, ro, ro + used);
                ro = 0;
                rl = rl.saturating_sub(used + 1);
            }
        } else if rl > 0 {
            let hl = if bytes <= rl {
                bytes
            } else {
                rl
            };
            r = line_with_section_exec(chars, 0, hl);
            rl = rl.saturating_sub(hl).saturating_sub(1);
        } else {
            r = LineRender::Numbered;
        }
        proof {
            assert(step == (r, ro, rl));
        }
        let ghost before = out@;
        out.push(r);
        proof {
            assert(out@ + plan(ls.skip(i + 1), ro, rl) =~= before + (seq![r] + plan(ls.skip(i + 1), ro, rl)));
        }
        i = i + 1;
    }
    proof {
        assert(ls.skip(i as int) =~= Seq::<Seq<char>>::empty());
        assert(out@ + Seq::<LineRender>::empty() =~= out@);
    }
    out
}

/// How a line is rendered with characters `start` to `end` (exclusive)
/// highlighted: with that section when it is a proper range within the
/// line, else as the bare line.
pub fn highlight_line_section(line: &str, start: u16, end: u16) -> (res: LineRender)
    ensures
        res == section(line@.len(), start as usize, end as usize),
{
    let n = chars_of(line).len();
    section_exec(n, start as usize, end as usize)
}

/// A line with a possibly empty section to highlight (see
/// `line_with_section`).
fn line_with_section_exec(chars: usize, start: usize, end: usize) -> (res: LineRender)
    ensures
        res == line_with_section(chars as nat, start, end),
{
    if start < end {
        section_exec(chars, start, end)
    } else {
        LineRender::Numbered
    }
}

/// A highlighted section of a line of `chars` characters (see `section`).
fn section_exec(chars: usize, start: usize, end: usize) -> (res: LineRender)
    ensures
        res == section(chars as nat, start, end),
{
    if start < end && start < chars && end <= chars {
        LineRender::Highlighted { start, end }
    } else {
        LineRender::Bare
    }
}

/// Lines shown of a list: from `first`, `count` of them.
#[derive(Debug, Clone, Copy, PartialEq, Eq, Structural)]
pub struct LineWindow {
    pub first: usize,
    pub count: usize,
}

/// The lines of `n_lines` that fit a window of `height` rows (less the
/// borders) while keeping the selected line and `bottom_padding` lines
/// below it in view: when they do not all fit and the selection would fall
/// below the window, the view scrolls down; else all lines are shown.
pub open spec fn fit_spec(n_lines: usize, selected: u16, height: u16, has_borders: bool, bottom_padding: u16) -> LineWindow {
    let border: int = if has_borders {
        2
    } else {
        0
    };
    let rows: int = height - border;
    let need: int = selected + 1 + bottom_padding;
    if n_lines > rows && need > rows {
        let skip = sat_sub(need, height as int) + border;
        LineWindow {
            first: skip as usize,
            count: (if n_lines - skip < rows {
                sat_sub(n_lines as int, skip)
            } else {
                rows as usize
            }) as usize,
        }
    } else {
        LineWindow { first: 0, count: n_lines }
    }
}

/// Determines which lines to render in a window, keeping the selected line
/// in view; the window must hold its borders.
pub fn fit_lines_to_window(n_lines: usize, selected: u16, height: u16, has_borders: bool, bottom_padding: u16) -> (res: LineWindow)
    requires
        height >= (if has_borders {
            2u16
        } else {
            0u16
        }),
    ensures
        res == fit_spec(n_lines, selected, height, has_borders, bottom_padding),
{
    let border: usize = if has_borders {
        2
    } else {
        0
    };
    let rows = height as usize - border;
    let need = selected as usize + 1 + bottom_padding as usize;
    if n_lines > rows && need > rows {
        let skip = need.saturating_sub(height as usize) + border;
        let left = n_lines.saturating_sub(skip);
        LineWindow {
            first: skip,
            count: if left < rows {
                left
            } else {
                rows
            },
        }
    } else {
        LineWindow { first: 0, count: n_lines }
    }
}

/// Entries of a directory listing shown in the tree, with the row of the
/// selection among them.
#[derive(Debug, Clone, Copy, PartialEq, Eq, Structural)]
pub struct TreeWindow {
    pub first: usize,
    pub count: usize,
    pub selected_row: usize,
}

/// The entries of `n` shown in a tree of `height` rows (two of them
/// borders) with entry `selection` selected: when not all fit and the
/// selection lies below the window, the rows ending at the selection are
/// shown and it takes the last row; else all entries, the selection where
/// it is.
pub open spec fn tree_window_spec(n: usize, selection: usize, height: u16) -> TreeWindow {
    let rows: int = height - 2;
    if n > rows && selection + 1 > rows {
        let end: int = if selection + 1 <= n {
            selection + 1
        } else {
            n as int
        };
        let first: int = if end >= rows {
            end - rows
        } else {
            0
        };
        TreeWindow { first: first as usize, count: (end - first) as usize, selected_row: (height - 3) as usize }
    } else {
        TreeWindow { first: 0, count: n, selected_row: selection }
    }
}

/// Determines which entries of a listing the tree shows; a tree with
/// entries has room for at least one.
pub fn tree_window(n: usize, selection: usize, height: u16) -> (res: TreeWindow)
    requires
        height >= 2,
        height >= 3 || n == 0,
        selection < usize::MAX,
    ensures
        res == tree_window_spec(n, selection, height),
{
    let rows = height as usize - 2;
    if n > rows && selection + 1 > rows {
        let end = if selection + 1 <= n {
            selection + 1
        } else {
            n
        };
        let first = if end >= rows {
            end - rows
        } else {
            0
        };
        TreeWindow { first, count: end - first, selected_row: height as usize - 3 }
    } else {
        TreeWindow { first: 0, count: n, selected_row: selection }
    }
}

} // verus!
