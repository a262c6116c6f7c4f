//! The text cells a line of the content window is drawn from: its number
//! with an indicator, and the pieces of its text with how each is styled.

use vstd::prelude::*;

use crate::client::render::LineRender;
use crate::text::chars_of;

verus! {

/// How a cell of a drawn line is styled.
#[derive(Debug, Clone, Copy, PartialEq, Eq, Structural)]
pub enum CellStyle {
    /// A line number.
    Number,
    /// The number of the line under the cursor.
    CursorNumber,
    /// Text as it is.
    Plain,
    /// Highlighted text.
    Highlight,
    /// The character under the cursor.
    Cursor,
}

/// One cell of a drawn line.
#[derive(Debug, PartialEq, Eq)]
pub struct Cell {
    pub text: String,
    pub style: CellStyle,
}

/// The text and style of each cell.
pub open spec fn cells_view(v: Seq<Cell>) -> Seq<(Seq<char>, CellStyle)> {
    v.map_values(|c: Cell| (c.text@, c.style))
}

/// The character of a decimal digit.
pub open spec fn digit_char(d: nat) -> char {
    if d == 0 {
        '0'
    } else if d == 1 {
        '1'
    } else if d == 2 {
        '2'
    } else if d == 3 {
        '3'
    } else if d == 4 {
        '4'
    } else if d == 5 {
        '5'
    } else if d == 6 {
        '6'
    } else if d == 7 {
        '7'
    } else if d == 8 {
        '8'
    } else {
        '9'
    }
}

/// The decimal digits of `n`, most significant first (`0` for zero).
pub open spec fn decimal_digits(n: nat) -> Seq<char>
    decreases n,
{
    if n < 10 {
        seq![digit_char(n)]
    } else {
        decimal_digits(n / 10).push(digit_char(n % 10))
    }
}

/// `s` filled with spaces on the right to `width` characters.
pub open spec fn padded(s: Seq<char>, width: nat) -> Seq<char> {
    if s.len() < width {
        s + Seq::new((width - s.len()) as nat, |_i: int| ' ')
    } else {
        s
    }
}

/// A line number left-aligned in `padding` columns, then a space, the
/// indicator and a space.
pub open spec fn line_number_text(num: nat, padding: nat, indicator: char) -> Seq<char> {
    padded(decimal_digits(num), padding) + seq![' ', indicator, ' ']
}

/// The number cell of line `idx` (counted from zero, shown from one):
/// marked `>` on the cursor's line, else `|`.
pub open spec fn number_cell(idx: nat, padding: nat, on_cursor: bool) -> (Seq<char>, CellStyle) {
    if on_cursor {
        (line_number_text(idx + 1, padding, '>'), CellStyle::CursorNumber)
    } else {
        (line_number_text(idx + 1, padding, '|'), CellStyle::Number)
    }
}

/// The cells of line `idx` rendered as `how`: its number unless bare, then
/// its text, split around a highlighted section that lies within it.
pub open spec fn line_cells_spec(line: Seq<char>, idx: nat, padding: nat, how: LineRender, on_cursor: bool) -> Seq<
    (Seq<char>, CellStyle),
> {
    let number = number_cell(idx, padding, on_cursor);
    match how {
        LineRender::Highlighted { start, end } => if start < end && end <= line.len() {
            seq![
                number,
                (line.subrange(0, start as int), CellStyle::Plain),
                (line.subrange(start as int, end as int), CellStyle::Highlight),
                (line.subrange(end as int, line.len() as int), CellStyle::Plain),
            ]
        } else {
            seq![number, (line, CellStyle::Plain)]
        },
        LineRender::Numbered => seq![number, (line, CellStyle::Plain)],
        LineRender::Bare => seq![(line, CellStyle::Plain)],
    }
}

/// The cells of the cursor's line `idx` with the cursor in column `col`:
/// its number, then each character in a cell of its own.
pub open spec fn cursor_cells_spec(line: Seq<char>, idx: nat, padding: nat, col: u16) -> Seq<(Seq<char>, CellStyle)> {
    seq![number_cell(idx, padding, true)] + Seq::new(line.len(), |i: int| char_cell(line, i, col))
}

/// The cell of character `i` of a line with the cursor in column `col`.
pub open spec fn char_cell(line: Seq<char>, i: int, col: u16) -> (Seq<char>, CellStyle) {
    (seq![line[i]], if i == col {
        CellStyle::Cursor
    } else {
        CellStyle::Plain
    })
}

/// The character of the decimal digit `d`.
fn digit_char_exec(d: usize) -> (res: char)
    requires
        d < 10,
    ensures
        res == digit_char(d as nat),
{
    if d == 0 {
        '0'
    } else if d == 1 {
        '1'
    } else if d == 2 {
        '2'
    } else if d == 3 {
        '3'
    } else if d == 4 {
        '4'
    } else if d == 5 {
        '5'
    } else if d == 6 {
        '6'
    } else if d == 7 {
        '7'
    } else if d == 8 {
        '8'
    } else {
        '9'
    }
}

/// Appends the decimal digits of `n` to `out`.
fn push_decimal(out: &mut String, n: usize)
    ensures
        final(out)@ == old(out)@ + decimal_digits(n as nat),
    decreases n,
{
    if n >= 10 {
        push_decimal(out, n / 10);
    }
    out.push(digit_char_exec(n % 10));
    proof {
        if n >= 10 {
            assert(decimal_digits(n as nat) == decimal_digits((n / 10) as nat).push(digit_char((n % 10) as nat)));
        }
    }
}

/// The number of decimal digits of `n` (one for zero).
pub fn digit_count(n: usize) -> (res: usize)
    ensures
        res == decimal_digits(n as nat).len(),
    decreases n,
{
    if n < 10 {
        1
    } else {
        let d = digit_count(n / 10);
        proof {
            lemma_digits_le((n / 10) as nat);
        }
        d + 1
    }
}

/// A number has no more digits than one more than itself.
proof fn lemma_digits_le(n: nat)
    ensures
        1 <= decimal_digits(n).len() <= n + 1,
    decreases n,
{
    if n >= 10 {
        lemma_digits_le(n / 10);
    }
}

/// Formats the line number with padding and an indicator.
pub fn line_number(num: usize, padding: usize, indicator: char) -> (res: String)
    ensures
        res@ == line_number_text(num as nat, padding as nat, indicator),
{
    let mut out = String::new();
    push_decimal(&mut out, num);
    let digits = digit_count(num);
    let ghost ds = decimal_digits(num as nat);
    let mut k: usize = digits;
    while k < padding
        invariant
            digits == ds.len(),
            digits <= k <= padding || (k == digits && padding < digits),
            out@ == ds + Seq::new((k - digits) as nat, |_i: int| ' '),
        decreases padding - k,
    {
        out.push(' ');
        k = k + 1;
        proof {
            assert(out@ =~= ds + Seq::new((k - digits) as nat, |_i: int| ' '));
        }
    }
    proof {
        if padding > digits {
            assert(out@ =~= padded(ds, padding as nat));
        } else {
            assert(out@ =~= ds);
        }
    }
    out.push(' ');
    out.push(indicator);
    out.push(' ');
    assert(out@ =~= line_number_text(num as nat, padding as nat, indicator));
    out
}

/// The characters `a` to `b` (exclusive) of `cs` as a string.
fn string_of_range(cs: &Vec<char>, a: usize, b: usize) -> (res: String)
    requires
        a <= b <= cs@.len(),
    ensures
        res@ == cs@.subrange(a as int, b as int),
{
    let mut out = String::new();
    let mut i: usize = a;
    while i < b
        invariant
            a <= i <= b <= cs@.len(),
            out@ == cs@.subrange(a as int, i as int),
        decreases b - i,
    {
        out.push(cs[i]);
        i = i + 1;
        proof {
            assert(out@ =~= cs@.subrange(a as int, i as int));
        }
    }
    out
}

/// The number cell of line `idx`.
fn number_cell_exec(idx: usize, padding: usize, on_cursor: bool) -> (res: Cell)
    requires
        idx < usize::MAX,
    ensures
        (res.text@, res.style) == number_cell(idx as nat, padding as nat, on_cursor),
{
    if on_cursor {
        Cell { text: line_number(idx + 1, padding, '>'), style: CellStyle::CursorNumber }
    } else {
        Cell { text: line_number(idx + 1, padding, '|'), style: CellStyle::Number }
    }
}

/// The cells of line `idx` of the content window, rendered as `how`.
pub fn line_cells(line: &str, idx: usize, padding: usize, how: LineRender, on_cursor: bool) -> (res: Vec<Cell>)
    requires
        idx < usize::MAX,
    ensures
        cells_view(res@) == line_cells_spec(line@, idx as nat, padding as nat, how, on_cursor),
{
    let cs = chars_of(line);
    let n = cs.len();
    let mut out: Vec<Cell> = Vec::new();
    let ghost number = number_cell(idx as nat, padding as nat, on_cursor);
    match how {
        LineRender::Bare => {
            out.push(Cell { text: string_of_range(&cs, 0, n), style: CellStyle::Plain });
            proof {
                assert(cs@.subrange(0, n as int) =~= line@);
                assert(cells_view(out@) =~= seq![(line@, CellStyle::Plain)]);
            }
        },
        LineRender::Highlighted { start, end } if start < end && end <= n => {
            out.push(number_cell_exec(idx, padding, on_cursor));
            out.push(Cell { text: string_of_range(&cs, 0, start), style: CellStyle::Plain });
            out.push(
                Cell { text: string_of_range(&cs, start, end), style: CellStyle::Highlight },
            );
            out.push(Cell { text: string_of_range(&cs, end, n), style: CellStyle::Plain });
            proof {
                assert(cells_view(out@) =~= line_cells_spec(line@, idx as nat, padding as nat, how, on_cursor));
            }
        },
        _ => {
            out.push(number_cell_exec(idx, padding, on_cursor));
            out.push(Cell { text: string_of_range(&cs, 0, n), style: CellStyle::Plain });
            proof {
                assert(cs@.subrange(0, n as int) =~= line@);
                assert(cells_view(out@) =~= line_cells_spec(line@, idx as nat, padding as nat, how, on_cursor));
            }
        },
    }
    out
}

/// The cells of the cursor's line `idx`, with the cursor in column `col`.
pub fn cursor_line_cells(line: &str, idx: usize, padding: usize, col: u16) -> (res: Vec<Cell>)
    requires
        idx < usize::MAX,
    ensures
        cells_view(res@) == cursor_cells_spec(line@, idx as nat, padding as nat, col),
{
    let cs = chars_of(line);
    let mut out: Vec<Cell> = Vec::new();
    out.push(number_cell_exec(idx, padding, true));
    let ghost head = seq![number_cell(idx as nat, padding as nat, true)];
    proof {
        assert(cells_view(out@) =~= head + Seq::new(0, |k: int| char_cell(line@, k, col)));
    }
    let mut i: usize = 0;
    while i < cs.len()
        invariant
            i <= cs@.len(),
            cs@ == line@,
            cells_view(out@) == head + Seq::new(i as nat, |k: int| char_cell(line@, k, col)),
        decreases cs@.len() - i,
    {
        let mut text = String::new();
        text.push(cs[i]);
        let style = if i == col as usize {
            CellStyle::Cursor
        } else {
            CellStyle::Plain
        };
        let ghost prev = out@;
        let ghost cell_view = (text@, style);
        proof {
            assert(text@ =~= seq![line@[i as int]]);
            assert(cell_view == char_cell(line@, i as int, col));
        }
        out.push(Cell { text, style });
        i = i + 1;
        proof {
            assert(cells_view(out@) =~= cells_view(prev).push(cell_view));
            assert(head + Seq::new(i as nat, |k: int| char_cell(line@, k, col)) =~= (head + Seq::new((i - 1) as nat, |k: int| char_cell(line@, k, col))).push(cell_view));
        }
    }
    proof {
        assert(cursor_cells_spec(line@, idx as nat, padding as nat, col) =~= head + Seq::new(line@.len(), |k: int| char_cell(line@, k, col)));
    }
    out
}

} // verus!
