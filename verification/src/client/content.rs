//! The content window: file contents, the cursor and its moves, the
//! highlighted region, notifications and errors.

use vstd::prelude::*;

use crate::client::widgets::FocusedWidget;
use crate::text::{char_views, split_chars, split_on, utf8_len, utf8_len_of};

verus! {

/// The lines of a text: its pieces between newlines.
pub open spec fn lines_of(text: Seq<char>) -> Seq<Seq<char>> {
    split_on(text, '\n')
}

/// Total UTF-8 length of some lines.
pub open spec fn lines_len_sum(lines: Seq<Seq<char>>) -> nat
    decreases lines.len(),
{
    if lines.len() == 0 {
        0
    } else {
        lines_len_sum(lines.drop_last()) + utf8_len(lines.last())
    }
}

/// The offset that the cursor at column `x` of row `y` stands for: the
/// UTF-8 lengths of the rows above it (as many as there are), one per row
/// above it, and then, on an existing row, the column plus one from the
/// third row on.
pub open spec fn offset_in(text: Seq<char>, x: u16, y: u16) -> nat {
    let lines = lines_of(text);
    let above: int = if (y as int) < lines.len() {
        y as int
    } else {
        lines.len() as int
    };
    let on_row: nat = if (y as int) < lines.len() {
        (x + if y >= 2 {
            1nat
        } else {
            0nat
        }) as nat
    } else {
        0
    };
    lines_len_sum(lines.take(above)) + (y as nat) + on_row
}

/// `n - 1`, or `0` for `0`.
pub open spec fn sat_dec(n: nat) -> nat {
    if n == 0 {
        0
    } else {
        (n - 1) as nat
    }
}

/// `n` as a column or row number, capped at `u16::MAX`.
pub open spec fn cap16(n: nat) -> u16 {
    if n <= u16::MAX {
        n as u16
    } else {
        u16::MAX
    }
}

/// The column kept within a row of `len` characters: `x` when it lies
/// before the row's end, else the last column.
pub open spec fn clamp_col(x: u16, len: nat) -> u16 {
    if (x as int) < len {
        x
    } else {
        cap16(sat_dec(len))
    }
}

/// Where a cursor on a row past the end goes: the last row, its column
/// kept within that row.
pub open spec fn snap_to_last(lines: Seq<Seq<char>>, x: u16) -> (u16, u16) {
    (clamp_col(x, lines.last().len()), cap16(sat_dec(lines.len())))
}

/// The cursor after a move left.
pub open spec fn moved_left(lines: Seq<Seq<char>>, x: u16, y: u16) -> (u16, u16) {
    if (y as int) >= lines.len() {
        snap_to_last(lines, x)
    } else if (x as int) < lines[y as int].len() {
        (sat_dec(x as nat) as u16, y)
    } else {
        (cap16(sat_dec(lines[y as int].len())), y)
    }
}

/// The cursor after a move right.
pub open spec fn moved_right(lines: Seq<Seq<char>>, x: u16, y: u16) -> (u16, u16) {
    if (y as int) >= lines.len() {
        snap_to_last(lines, x)
    } else if lines[y as int].len() == 0 {
        (0, y)
    } else if (x as int) + 1 < lines[y as int].len() {
        (cap16((x + 1) as nat), y)
    } else {
        (cap16(sat_dec(lines[y as int].len())), y)
    }
}

/// The column kept within a row by a vertical move: `x` when the row has a
/// character there, else the row's last column.
pub open spec fn keep_col(x: u16, len: nat) -> u16 {
    if (x as int) < len {
        x
    } else {
        cap16(sat_dec(len))
    }
}

/// The cursor after a move up.
pub open spec fn moved_up(lines: Seq<Seq<char>>, x: u16, y: u16) -> (u16, u16) {
    if (y as int) >= lines.len() {
        snap_to_last(lines, x)
    } else {
        let y2 = sat_dec(y as nat) as u16;
        (keep_col(x, lines[y2 as int].len()), y2)
    }
}

/// The cursor after a move down.
pub open spec fn moved_down(lines: Seq<Seq<char>>, x: u16, y: u16) -> (u16, u16) {
    if (y as int) >= lines.len() {
        snap_to_last(lines, x)
    } else if (y as int) + 1 < lines.len() {
        (keep_col(x, lines[y + 1].len()), (y + 1) as u16)
    } else {
        (x, y)
    }
}

/// Whether column `x` of a row of `len` characters holds the cursor: on a
/// character, or at the start of an empty row.
pub open spec fn col_in_row(x: u16, len: nat) -> bool {
    (x as int) < len || (len == 0 && x == 0)
}

/// A move up from a row of the text goes to the row above (the first row
/// stays) and keeps the column when that row reaches it, else puts the
/// cursor on that row's last character (its start when it is empty); the
/// cursor never lands past the end of its row.
pub proof fn lemma_move_up(lines: Seq<Seq<char>>, x: u16, y: u16)
    requires
        (y as int) < lines.len(),
    ensures
        ({
            let (c, r) = moved_up(lines, x, y);
            let len = lines[r as int].len();
            &&& r as int == if y == 0 {
                0
            } else {
                y - 1
            }
            &&& (x as int) < len ==> c == x
            &&& (x as int) >= len ==> c as int == if len == 0 {
                0
            } else {
                len - 1
            }
            &&& col_in_row(c, len)
        }),
{
}

/// A move down from a row with a row below goes to that row and keeps the
/// column when that row reaches it, else puts the cursor on its last
/// character (its start when it is empty); on the last row nothing moves.
pub proof fn lemma_move_down(lines: Seq<Seq<char>>, x: u16, y: u16)
    requires
        (y as int) < lines.len(),
    ensures
        ({
            let (c, r) = moved_down(lines, x, y);
            &&& (y as int) + 1 < lines.len() && y < u16::MAX ==> {
                let len = lines[y + 1].len();
                &&& r == y + 1
                &&& (x as int) < len ==> c == x
                &&& (x as int) >= len ==> c as int == if len == 0 {
                    0
                } else {
                    len - 1
                }
                &&& col_in_row(c, len)
            }
            &&& (y as int) + 1 == lines.len() ==> c == x && r == y
        }),
{
}

/// A move left stays on its row: it steps one character back (the first
/// column stays), and a cursor past the row's end goes to its last
/// character (its start when it is empty).
pub proof fn lemma_move_left(lines: Seq<Seq<char>>, x: u16, y: u16)
    requires
        (y as int) < lines.len(),
    ensures
        ({
            let (c, r) = moved_left(lines, x, y);
            let len = lines[y as int].len();
            &&& r == y
            &&& (x as int) < len ==> c as int == if x == 0 {
                0
            } else {
                x - 1
            }
            &&& (x as int) >= len ==> c as int == if len == 0 {
                0
            } else {
                len - 1
            }
            &&& col_in_row(c, len)
        }),
{
}

/// A move right stays on its row: it steps one character on while there is
/// one (up to the largest column a cursor holds), else stays on the row's
/// last character; on an empty row the cursor stays at its start.
pub proof fn lemma_move_right(lines: Seq<Seq<char>>, x: u16, y: u16)
    requires
        (y as int) < lines.len(),
    ensures
        ({
            let (c, r) = moved_right(lines, x, y);
            let len = lines[y as int].len();
            &&& r == y
            &&& len == 0 ==> c == 0
            &&& (x as int) + 1 < len ==> c as int == if x < u16::MAX {
                x + 1
            } else {
                u16::MAX as int
            }
            &&& len > 0 && (x as int) + 1 >= len ==> c as int == if len - 1 <= u16::MAX {
                len - 1
            } else {
                u16::MAX as int
            }
            &&& col_in_row(c, len)
            &&& c >= x || (x as int) >= len
        }),
{
}

/// From a row past the end of the text, every move goes to the last row,
/// keeping the column when that row reaches it, else on its last character.
pub proof fn lemma_moves_past_end_snap(lines: Seq<Seq<char>>, x: u16, y: u16)
    requires
        lines.len() > 0,
        (y as int) >= lines.len(),
    ensures
        ({
            let len = lines.last().len();
            let snapped = (if (x as int) < len {
                x
            } else {
                (if len == 0 {
                    0
                } else {
                    len - 1
                }) as u16
            }, (lines.len() - 1) as u16);
            &&& moved_up(lines, x, y) == snapped
            &&& moved_down(lines, x, y) == snapped
            &&& moved_left(lines, x, y) == snapped
            &&& moved_right(lines, x, y) == snapped
            &&& col_in_row(snapped.0, len)
        }),
{
}

/// How the content window draws its contents.
#[derive(Debug, Clone, Copy, PartialEq, Eq, Structural)]
pub enum ContentMode {
    /// No contents: a blank window.
    Blank,
    /// Every line with its number.
    Numbered,
    /// A region highlighted, with line numbers.
    Highlighted,
    /// The cursor's line and character marked, with line numbers.
    WithCursor,
}

/// This widget is used to display file contents, as well as any error messages.
#[derive(Clone, Debug)]
pub struct ContentWindow {
    /// File contents to display; lines are separated by '\n'.
    contents: Option<String>,
    /// Cursor position in the file: (x_col, y_row)
    cursor_pos: Option<(u16, u16)>,
    /// Area of text to highlight, from an offset and a length.
    highlight: Option<(usize, usize)>,
    /// Notifications are displayed over the main contents like a pop-up.
    notification: Option<String>,
    /// Error messages are displayed over the main contents like a pop-up.
    error_message: Option<String>,
    /// Render the widget with a brighter border when focused
    focused: bool,
}

/// The contents of an optional string.
pub open spec fn opt_view(s: Option<String>) -> Option<Seq<char>> {
    match s {
        Some(t) => Some(t@),
        None => None,
    }
}

/// The contents of an optional string slice.
pub open spec fn opt_str_view(s: Option<&str>) -> Option<Seq<char>> {
    match s {
        Some(t) => Some(t@),
        None => None,
    }
}

impl ContentWindow {
    /// The displayed contents.
    pub closed spec fn contents_spec(&self) -> Option<Seq<char>> {
        opt_view(self.contents)
    }

    /// The cursor position (column, row).
    pub closed spec fn cursor_spec(&self) -> Option<(u16, u16)> {
        self.cursor_pos
    }

    /// The highlighted region (offset, length).
    pub closed spec fn highlight_spec(&self) -> Option<(usize, usize)> {
        self.highlight
    }

    /// The notification shown.
    pub closed spec fn notification_spec(&self) -> Option<Seq<char>> {
        opt_view(self.notification)
    }

    /// The error message shown.
    pub closed spec fn error_spec(&self) -> Option<Seq<char>> {
        opt_view(self.error_message)
    }

    /// Whether the widget is focused.
    pub closed spec fn focused_spec(&self) -> bool {
        self.focused
    }

    /// Whether `other` differs from `self` in the cursor at most.
    pub open spec fn same_but_cursor(&self, other: &Self) -> bool {
        &&& other.contents_spec() == self.contents_spec()
        &&& other.highlight_spec() == self.highlight_spec()
        &&& other.notification_spec() == self.notification_spec()
        &&& other.error_spec() == self.error_spec()
        &&& other.focused_spec() == self.focused_spec()
    }

    /// The cursor after a move, given the move on the lines.
    pub open spec fn after_move(&self, moved: spec_fn(Seq<Seq<char>>, u16, u16) -> (u16, u16)) -> Option<(u16, u16)> {
        match (self.contents_spec(), self.cursor_spec()) {
            (Some(c), Some((x, y))) => Some(moved(lines_of(c), x, y)),
            _ => self.cursor_spec(),
        }
    }

    /// An empty, unfocused window.
    pub fn new() -> (res: Self)
        ensures
            res.contents_spec() is None,
            res.cursor_spec() is None,
            res.highlight_spec() is None,
            res.notification_spec() is None,
            res.error_spec() is None,
            !res.focused_spec(),
    {
        Self {
            contents: None,
            cursor_pos: None,
            highlight: None,
            notification: None,
            error_message: None,
            focused: false,
        }
    }

    /// Set the contents of the content window
    pub fn set_contents(&mut self, contents: Option<&str>)
        ensures
            final(self).contents_spec() == opt_str_view(contents),
            final(self).cursor_spec() == old(self).cursor_spec(),
            final(self).highlight_spec() == old(self).highlight_spec(),
            final(self).notification_spec() == old(self).notification_spec(),
            final(self).error_spec() == old(self).error_spec(),
            final(self).focused_spec() == old(self).focused_spec(),
    {
        self.contents = match contents {
            Some(c) => Some(c.to_owned()),
            None => None,
        };
    }

    /// Set the notification shown over the contents.
    pub fn set_notification(&mut self, notif: Option<&str>)
        ensures
            final(self).notification_spec() == opt_str_view(notif),
            final(self).contents_spec() == old(self).contents_spec(),
            final(self).cursor_spec() == old(self).cursor_spec(),
            final(self).highlight_spec() == old(self).highlight_spec(),
            final(self).error_spec() == old(self).error_spec(),
            final(self).focused_spec() == old(self).focused_spec(),
    {
        self.notification = match notif {
            Some(n) => Some(n.to_owned()),
            None => None,
        };
    }

    /// Set the error message shown over the contents.
    pub fn set_error_message(&mut self, err: Option<&str>)
        ensures
            final(self).error_spec() == opt_str_view(err),
            final(self).contents_spec() == old(self).contents_spec(),
            final(self).cursor_spec() == old(self).cursor_spec(),
            final(self).highlight_spec() == old(self).highlight_spec(),
            final(self).notification_spec() == old(self).notification_spec(),
            final(self).focused_spec() == old(self).focused_spec(),
    {
        self.error_message = match err {
            Some(e) => Some(e.to_owned()),
            None => None,
        };
    }

    /// Set the cursor position (column, row).
    pub fn set_cursor_pos(&mut self, pos: Option<(u16, u16)>)
        ensures
            final(self).cursor_spec() == pos,
            old(self).same_but_cursor(&*final(self)),
    {
        self.cursor_pos = pos;
    }

    /// Highlight a section of text given a starting point and a length.
    ///
    /// Depending on the contents of the file, the highlighted region can
    /// span multiple lines.
    pub fn set_highlight(&mut self, offset: usize, len: usize)
        ensures
            final(self).highlight_spec() == Some((offset, len)),
            final(self).contents_spec() == old(self).contents_spec(),
            final(self).cursor_spec() == old(self).cursor_spec(),
            final(self).notification_spec() == old(self).notification_spec(),
            final(self).error_spec() == old(self).error_spec(),
            final(self).focused_spec() == old(self).focused_spec(),
    {
        self.highlight = Some((offset, len));
    }

    /// Clears highlighting
    pub fn clear_highlight(&mut self)
        ensures
            final(self).highlight_spec() is None,
            final(self).contents_spec() == old(self).contents_spec(),
            final(self).cursor_spec() == old(self).cursor_spec(),
            final(self).notification_spec() == old(self).notification_spec(),
            final(self).error_spec() == old(self).error_spec(),
            final(self).focused_spec() == old(self).focused_spec(),
    {
        self.highlight = None;
    }

    /// The cursor position (column, row).
    pub fn pos(&self) -> (res: Option<(u16, u16)>)
        ensures
            res == self.cursor_spec(),
    {
        self.cursor_pos
    }

    /// The displayed contents.
    pub fn contents(&self) -> (res: Option<&String>)
        ensures
            self.contents_spec() is None ==> res is None,
            self.contents_spec() matches Some(c) ==> (res matches Some(r) && r@ == c),
    {
        match &self.contents {
            Some(c) => Some(c),
            None => None,
        }
    }

    /// The highlighted region (offset, length).
    pub fn highlight(&self) -> (res: Option<(usize, usize)>)
        ensures
            res == self.highlight_spec(),
    {
        self.highlight
    }

    /// How the window draws its contents: blank without contents, else
    /// with the highlight when there is one, else with the cursor when
    /// there is one, else with plain numbered lines.
    pub fn render_mode(&self) -> (res: ContentMode)
        ensures
            res == (if self.contents_spec() is None {
                ContentMode::Blank
            } else if self.highlight_spec() is Some {
                ContentMode::Highlighted
            } else if self.cursor_spec() is Some {
                ContentMode::WithCursor
            } else {
                ContentMode::Numbered
            }),
    {
        if self.contents.is_none() {
            ContentMode::Blank
        } else if self.highlight.is_some() {
            ContentMode::Highlighted
        } else if self.cursor_pos.is_some() {
            ContentMode::WithCursor
        } else {
            ContentMode::Numbered
        }
    }

    /// The notification shown.
    pub fn notification(&self) -> (res: Option<&String>)
        ensures
            self.notification_spec() is None ==> res is None,
            self.notification_spec() matches Some(c) ==> (res matches Some(r) && r@ == c),
    {
        match &self.notification {
            Some(c) => Some(c),
            None => None,
        }
    }

    /// The error message shown.
    pub fn error_message(&self) -> (res: Option<&String>)
        ensures
            self.error_spec() is None ==> res is None,
            self.error_spec() matches Some(c) ==> (res matches Some(r) && r@ == c),
    {
        match &self.error_message {
            Some(c) => Some(c),
            None => None,
        }
    }

    /// Whether the widget is focused.
    pub fn is_focused(&self) -> (res: bool)
        ensures
            res == self.focused_spec(),
    {
        self.focused
    }

    /// Whether a move down is possible: the row below is numbered within
    /// `u16`.
    pub open spec fn down_ok(&self) -> bool {
        match (self.contents_spec(), self.cursor_spec()) {
            (Some(c), Some((x, y))) => (y as int) + 1 < lines_of(c).len() ==> y < u16::MAX,
            _ => true,
        }
    }

    /// The offset `cursor_offset` gives.
    pub open spec fn offset_spec(&self) -> Option<usize> {
        match (self.contents_spec(), self.cursor_spec()) {
            (Some(c), Some((x, y))) => Some(offset_in(c, x, y) as usize),
            _ => None::<usize>,
        }
    }

    /// Whether the offset of the cursor fits in a `usize`.
    pub open spec fn offset_fits(&self) -> bool {
        match (self.contents_spec(), self.cursor_spec()) {
            (Some(c), Some((x, y))) => offset_in(c, x, y) <= usize::MAX,
            _ => true,
        }
    }

    /// Returns the current cursor position in the file relative to the
    /// entire block of text; `None` without contents or cursor.
    pub fn cursor_offset(&self) -> (res: Option<usize>)
        requires
            self.offset_fits(),
        ensures
            res == self.offset_spec(),
    {
        let contents = match &self.contents {
            Some(c) => c,
            None => return None,
        };
        let (cursor_x, cursor_y) = match self.cursor_pos {
            Some(p) => p,
            None => return None,
        };
        let lines = split_chars(contents.as_str(), '\n');
        let ghost ls = char_views(lines@);
        let n: usize = if (cursor_y as usize) < lines.len() {
            cursor_y as usize
        } else {
            lines.len()
        };
        let mut total: usize = 0;
        let mut k: usize = 0;
        proof {
            assert(ls.take(0) =~= Seq::<Seq<char>>::empty());
            lemma_lines_len_sum_prefix_le(ls, 0, n as int);
        }
        while k < n
            invariant
                k <= n <= lines@.len(),
                ls == char_views(lines@),
                total == lines_len_sum(ls.take(k as int)),
                lines_len_sum(ls.take(n as int)) <= usize::MAX,
            decreases n - k,
        {
            proof {
                assert(ls.take(k + 1).drop_last() =~= ls.take(k as int));
                lemma_lines_len_sum_prefix_le(ls, k + 1, n as int);
                assert(ls[k as int] == lines@[k as int]@);
            }
            total = total + utf8_len_of(lines[k].as_slice());
            k = k + 1;
        }
        let on_row: usize = if (cursor_y as usize) < lines.len() {
            cursor_x as usize + if cursor_y >= 2 {
                1usize
            } else {
                0usize
            }
        } else {
            0
        };
        Some(total + cursor_y as usize + on_row)
    }

    /// Attempt to move the cursor left by one character.
    pub fn cursor_left(&mut self)
        ensures
            final(self).cursor_spec() == old(self).after_move(|l, x, y| moved_left(l, x, y)),
            old(self).same_but_cursor(&*final(self)),
    {
        let (x, y) = match self.cursor_pos {
            Some(p) => p,
            None => return,
        };
        let lines = match &self.contents {
            Some(c) => split_chars(c.as_str(), '\n'),
            None => return,
        };
        let last = lines.len() - 1;
        let pos = if (y as usize) >= lines.len() {
            (clamp_col_exec(x, lines[last].len()), cap16_exec(last))
        } else {
            let len = lines[y as usize].len();
            if (x as usize) < len {
                (x.saturating_sub(1), y)
            } else {
                (cap16_exec(len.saturating_sub(1)), y)
            }
        };
        self.cursor_pos = Some(pos);
    }

    /// Attempt to move the cursor right by one character; on an empty row
    /// the cursor stays at its start.
    pub fn cursor_right(&mut self)
        ensures
            final(self).cursor_spec() == old(self).after_move(|l, x, y| moved_right(l, x, y)),
            old(self).same_but_cursor(&*final(self)),
    {
        let (x, y) = match self.cursor_pos {
            Some(p) => p,
            None => return,
        };
        let lines = match &self.contents {
            Some(c) => split_chars(c.as_str(), '\n'),
            None => return,
        };
        let last = lines.len() - 1;
        let pos = if (y as usize) >= lines.len() {
            (clamp_col_exec(x, lines[last].len()), cap16_exec(last))
        } else {
            let len = lines[y as usize].len();
            if len == 0 {
                (0, y)
            } else if (x as usize) + 1 < len {
                (cap16_exec(x as usize + 1), y)
            } else {
                (cap16_exec(len - 1), y)
            }
        };
        self.cursor_pos = Some(pos);
    }

    /// Attempt to move the cursor up by one line
    pub fn cursor_up(&mut self)
        ensures
            final(self).cursor_spec() == old(self).after_move(|l, x, y| moved_up(l, x, y)),
            old(self).same_but_cursor(&*final(self)),
    {
        let (x, y) = match self.cursor_pos {
            Some(p) => p,
            None => return,
        };
        let lines = match &self.contents {
            Some(c) => split_chars(c.as_str(), '\n'),
            None => return,
        };
        let last = lines.len() - 1;
        let pos = if (y as usize) >= lines.len() {
            (clamp_col_exec(x, lines[last].len()), cap16_exec(last))
        } else {
            let y2 = y.saturating_sub(1);
            (keep_col_exec(x, lines[y2 as usize].len()), y2)
        };
        self.cursor_pos = Some(pos);
    }

    /// Attempt to move the cursor down by one line; the row below must be
    /// numbered within `u16`.
    pub fn cursor_down(&mut self)
        requires
            old(self).down_ok(),
        ensures
            final(self).cursor_spec() == old(self).after_move(|l, x, y| moved_down(l, x, y)),
            old(self).same_but_cursor(&*final(self)),
    {
        let (x, y) = match self.cursor_pos {
            Some(p) => p,
            None => return,
        };
        let lines = match &self.contents {
            Some(c) => split_chars(c.as_str(), '\n'),
            None => return,
        };
        let last = lines.len() - 1;
        let pos = if (y as usize) >= lines.len() {
            (clamp_col_exec(x, lines[last].len()), cap16_exec(last))
        } else if (y as usize) + 1 < lines.len() {
            (keep_col_exec(x, lines[y as usize + 1].len()), y + 1)
        } else {
            (x, y)
        };
        self.cursor_pos = Some(pos);
    }
}

impl FocusedWidget for ContentWindow {
    fn focus(&mut self, selected: bool)
        ensures
            final(self).focused_spec() == selected,
            final(self).contents_spec() == old(self).contents_spec(),
            final(self).cursor_spec() == old(self).cursor_spec(),
            final(self).highlight_spec() == old(self).highlight_spec(),
            final(self).notification_spec() == old(self).notification_spec(),
            final(self).error_spec() == old(self).error_spec(),
    {
        self.focused = selected;
    }
}

/// `n` capped at `u16::MAX` (see `cap16`).
fn cap16_exec(n: usize) -> (res: u16)
    ensures
        res == cap16(n as nat),
{
    if n <= u16::MAX as usize {
        n as u16
    } else {
        u16::MAX
    }
}

/// The column kept within a row of `len` characters (see `clamp_col`).
fn clamp_col_exec(x: u16, len: usize) -> (res: u16)
    ensures
        res == clamp_col(x, len as nat),
{
    if (x as usize) < len {
        x
    } else {
        cap16_exec(len.saturating_sub(1))
    }
}

/// The column kept within a row by a vertical move (see `keep_col`).
fn keep_col_exec(x: u16, len: usize) -> (res: u16)
    ensures
        res == keep_col(x, len as nat),
{
    if (x as usize) < len {
        x
    } else {
        cap16_exec(len.saturating_sub(1))
    }
}

/// The lines of a text with the newlines between them make up its UTF-8
/// length.
pub proof fn lemma_lines_make_up_text(text: Seq<char>)
    ensures
        lines_len_sum(lines_of(text)) + lines_of(text).len() - 1 == utf8_len(text),
    decreases text.len(),
{
    crate::text::lemma_split_on_nonempty(text, '\n');
    if text.len() > 0 {
        let init = lines_of(text.drop_last());
        lemma_lines_make_up_text(text.drop_last());
        crate::text::lemma_split_on_nonempty(text.drop_last(), '\n');
        assert(utf8_len(text) == utf8_len(text.drop_last()) + crate::text::utf8_width(text.last()));
        if text.last() == '\n' {
            let pushed = init.push(Seq::<char>::empty());
            assert(pushed.drop_last() =~= init);
            assert(lines_of(text) == pushed);
            assert(lines_len_sum(pushed) == lines_len_sum(init) + utf8_len(Seq::<char>::empty()));
            assert(('\n' as u32) == 10u32);
        } else {
            let l = init.last().push(text.last());
            let upd = init.update(init.len() - 1, l);
            assert(lines_of(text) == upd);
            assert(upd.drop_last() =~= init.drop_last());
            assert(upd.last() == l);
            assert(l.drop_last() =~= init.last());
            assert(utf8_len(l) == utf8_len(init.last()) + crate::text::utf8_width(text.last()));
            assert(lines_len_sum(upd) == lines_len_sum(init.drop_last()) + utf8_len(l));
            assert(lines_len_sum(init) == lines_len_sum(init.drop_last()) + utf8_len(init.last()));
        }
    } else {
        let one = seq![Seq::<char>::empty()];
        assert(lines_of(text) == one);
        assert(one.drop_last() =~= Seq::<Seq<char>>::empty());
        assert(lines_len_sum(one) == lines_len_sum(one.drop_last()) + utf8_len(one.last()));
    }
}

/// A line is no longer than all lines together.
pub proof fn lemma_line_le_sum(lines: Seq<Seq<char>>, i: int)
    requires
        0 <= i < lines.len(),
    ensures
        utf8_len(lines[i]) <= lines_len_sum(lines),
    decreases lines.len(),
{
    if i < lines.len() - 1 {
        lemma_line_le_sum(lines.drop_last(), i);
    }
}

/// Sums over shorter prefixes are no larger.
proof fn lemma_lines_len_sum_prefix_le(ls: Seq<Seq<char>>, i: int, j: int)
    requires
        0 <= i <= j <= ls.len(),
    ensures
        lines_len_sum(ls.take(i)) <= lines_len_sum(ls.take(j)),
    decreases j - i,
{
    if i < j {
        lemma_lines_len_sum_prefix_le(ls, i, j - 1);
        assert(ls.take(j).drop_last() =~= ls.take(j - 1));
    }
}

} // verus!
