//! Application state of the client and the decisions it takes on each key:
//! which state comes next, what the widgets show, and which remote work the
//! application has to do (and report back) before the step completes.

use vstd::prelude::*;
use vstd::string::StringSliceAdditionalSpecFns;
use vstd::utf8::{encode_utf8, valid_utf8};

use crate::client::content::{lines_of, moved_down, moved_left, moved_right, moved_up, offset_in, ContentWindow};
use crate::client::screen::{FocusMode, UiWidgets};
use crate::client::stack::FixedSizeStack;
use crate::fs::{VirtDirEntry, VirtReadDir};
use crate::interfaces::FileUpdate;
use crate::text::chars_of;

verus! {

/// Key that starts naming a file to create.
pub const FS_CREATE_FILE: char = 'f';

/// Key that starts naming a directory to create.
pub const FS_CREATE_DIR: char = 'd';

/// Key reserved for deletion (not acted upon).
pub const FS_DELETE: char = 'x';

/// Key reserved for renaming (not acted upon).
pub const FS_RENAME: char = 'r';

/// Application state
#[derive(Clone, Debug)]
pub enum AppState {
    /// User is on the content widget
    OnContent,
    /// User has entered cursor in content widget.
    InContent(ContentState),
    /// User is on the filessystem widget
    OnFileSystem,
    /// User has entered the filesystem widget.
    InFileSystem(FsState),
}

/// Content widget state
#[derive(Clone, Copy, Debug, PartialEq, Eq, Structural)]
pub enum ContentState {
    /// Arrow key navigation
    Navigate,
    /// Content insert
    Insert,
    /// File watch
    Watch,
}

/// Filesystem inner state
#[derive(Clone, Debug)]
pub enum FsState {
    Navigate,
    CreateFile(String),
    CreateDir(String),
}

/// App events are a subset of key events
#[derive(Clone, Copy, Debug, PartialEq, Eq, Structural)]
pub enum AppEvents {
    EnterKey,
    EscKey,
    LeftArrowKey,
    RightArrowKey,
    Char(char),
}

/// The keys the application reacts to.
#[derive(Clone, Copy, Debug, PartialEq, Eq, Structural)]
pub enum KeyInput {
    Enter,
    Esc,
    Left,
    Right,
    Up,
    Down,
    Backspace,
    Char(char),
    /// Any other key.
    Other,
}

impl Default for AppState {
    fn default() -> (res: Self)
        ensures
            res is OnContent,
    {
        AppState::OnContent
    }
}

impl Default for ContentState {
    fn default() -> (res: Self)
        ensures
            res is Navigate,
    {
        ContentState::Navigate
    }
}

impl Default for FsState {
    fn default() -> (res: Self)
        ensures
            res is Navigate,
    {
        FsState::Navigate
    }
}

impl AppEvents {
    /// The state event a key stands for, if any.
    pub fn from_key(key: KeyInput) -> (res: Option<AppEvents>)
        ensures
            key is Enter ==> res == Some(AppEvents::EnterKey),
            key is Left ==> res == Some(AppEvents::LeftArrowKey),
            key is Right ==> res == Some(AppEvents::RightArrowKey),
            key is Esc ==> res == Some(AppEvents::EscKey),
            !(key is Enter || key is Left || key is Right || key is Esc) ==> res is None,
    {
        match key {
            KeyInput::Enter => Some(AppEvents::EnterKey),
            KeyInput::Left => Some(AppEvents::LeftArrowKey),
            KeyInput::Right => Some(AppEvents::RightArrowKey),
            KeyInput::Esc => Some(AppEvents::EscKey),
            _ => None,
        }
    }
}

/// Whether a character may stand in a file or directory name.
pub open spec fn is_segment_char(c: char) -> bool {
    ('a' <= c <= 'z') || ('A' <= c <= 'Z') || ('0' <= c <= '9') || c == '.' || c == '_'
}

/// Whether a name is a valid path segment.
pub open spec fn valid_segment(s: Seq<char>) -> bool {
    &&& s.len() > 0
    &&& forall|i: int| 0 <= i < s.len() ==> is_segment_char(#[trigger] s[i])
}

/// Checks if a string is a valid path segment (filename or directory name):
/// not empty, and ASCII letters and digits, `.` and `_` only.
pub fn is_valid_fs_path_segment(s: &str) -> (res: bool)
    ensures
        res == valid_segment(s@),
{
    let cs = chars_of(s);
    if cs.len() == 0 {
        return false;
    }
    let mut i: usize = 0;
    while i < cs.len()
        invariant
            i <= cs@.len(),
            cs@ == s@,
            forall|j: int| 0 <= j < i ==> is_segment_char(#[trigger] cs@[j]),
        decreases cs@.len() - i,
    {
        let c = cs[i];
        let ok = ('a' <= c && c <= 'z') || ('A' <= c && c <= 'Z') || ('0' <= c && c <= '9') || c
            == '.' || c == '_';
        if !ok {
            return false;
        }
        i = i + 1;
    }
    true
}

/// Remote work the application has to do for a key, and hand back.
#[derive(Debug)]
pub enum AppEffect {
    /// Nothing to do.
    Nothing,
    /// Quit the application.
    Quit,
    /// Open the file at `path` (or take it from the opened ones), then hand
    /// its contents to `file_opened`.
    OpenFile { path: String },
    /// Read the directory at `path`, then hand it to `dir_entered`.
    EnterDir { path: String },
    /// Read the directory at `path` again, then hand it to `parent_reloaded`.
    ReloadParent { path: String },
    /// Create the file at `path` (or take it from the opened ones), then
    /// call `file_created`.
    CreateFile { path: String },
    /// Create the directory at `path` and read it, then hand it to
    /// `dir_created`.
    CreateDir { path: String },
    /// Write `bytes` into the open file at byte `offset`.
    WriteInsert { offset: usize, bytes: Vec<u8> },
    /// Watch the open file for updates.
    StartWatch,
}


/// The contents of a directory stack.
pub open spec fn dir_views(v: Seq<(String, VirtReadDir)>) -> Seq<(Seq<char>, VirtReadDir)> {
    v.map_values(|p: (String, VirtReadDir)| (p.0@, p.1))
}

/// The text of a name being typed in a filesystem state.
pub open spec fn fs_buf(s: AppState) -> Seq<char> {
    match s {
        AppState::InFileSystem(FsState::CreateFile(b)) => b@,
        AppState::InFileSystem(FsState::CreateDir(b)) => b@,
        _ => Seq::empty(),
    }
}

/// The path of `name` inside the innermost directory of `dirs` (`name`
/// alone when there is none).
pub open spec fn join_path(dirs: Seq<(Seq<char>, VirtReadDir)>, name: Seq<char>) -> Seq<char> {
    if dirs.len() > 0 {
        dirs.last().0 + seq!['/'] + name
    } else {
        name
    }
}

/// The bytes shown while inserting: `unsaved` inserted at byte `offset` of
/// the contents.
pub open spec fn shown_bytes(content: Option<Seq<char>>, offset: usize, unsaved: Seq<char>) -> Seq<u8> {
    let base = match content {
        Some(c) => encode_utf8(c),
        None => Seq::empty(),
    };
    let k = crate::interfaces::insert_point(offset, base.len());
    base.subrange(0, k) + encode_utf8(unsaved) + base.subrange(k, base.len() as int)
}


/// `post` and `ui1` are `pre` and `ui0` moved to state `st`, the widgets
/// showing mode `m`.
pub open spec fn moved_to(pre: AppCore, ui0: UiWidgets, post: AppCore, ui1: UiWidgets, st: AppState, m: FocusMode) -> bool {
    &&& post.state_spec() == st
    &&& pre.same_data(&post)
    &&& ui1.shows(m)
    &&& ui0.same_data(&ui1)
    &&& ui1.fs_widget.dialogue_spec() == ui0.fs_widget.dialogue_spec()
}

/// Nothing changed.
pub open spec fn unchanged(pre: AppCore, ui0: UiWidgets, post: AppCore, ui1: UiWidgets) -> bool {
    post == pre && ui1 == ui0
}

/// `ui1` is `ui0` with only the filesystem tree's selection changed, to
/// what selecting `idx` gives.
pub open spec fn selected(ui0: UiWidgets, ui1: UiWidgets, idx: usize) -> bool {
    &&& ui1.fs_widget.selection_spec() == if ui0.fs_widget.listings_spec().len() > 0 && idx
        < ui0.fs_widget.listings_spec().last().entries_spec().len() {
        Some(idx)
    } else {
        None
    }
    &&& ui1.fs_widget.listings_spec() == ui0.fs_widget.listings_spec()
    &&& ui1.fs_widget.dirs_spec() == ui0.fs_widget.dirs_spec()
    &&& ui1.fs_widget.focused_spec() == ui0.fs_widget.focused_spec()
    &&& ui1.fs_widget.dialogue_spec() == ui0.fs_widget.dialogue_spec()
    &&& ui1.content_widget == ui0.content_widget
    &&& ui1.commands_widget == ui0.commands_widget
    &&& ui1.logs_widget == ui0.logs_widget
    &&& ui1.title_widget == ui0.title_widget
}

/// `ui1` is `ui0` with only the tree's dialogue changed, to `d`.
pub open spec fn dialogue_set(ui0: UiWidgets, ui1: UiWidgets, d: Option<(Seq<char>, bool)>) -> bool {
    &&& ui1.fs_widget.dialogue_spec() == d
    &&& ui1.fs_widget.selection_spec() == ui0.fs_widget.selection_spec()
    &&& ui1.fs_widget.listings_spec() == ui0.fs_widget.listings_spec()
    &&& ui1.fs_widget.dirs_spec() == ui0.fs_widget.dirs_spec()
    &&& ui1.fs_widget.focused_spec() == ui0.fs_widget.focused_spec()
    &&& ui1.content_widget == ui0.content_widget
    &&& ui1.commands_widget == ui0.commands_widget
    &&& ui1.logs_widget == ui0.logs_widget
    &&& ui1.title_widget == ui0.title_widget
}

/// A step on the content window (not entered).
pub open spec fn on_content_step(pre: AppCore, ui0: UiWidgets, key: KeyInput, post: AppCore, ui1: UiWidgets, eff: AppEffect) -> bool {
    match key {
        KeyInput::Enter => moved_to(pre, ui0, post, ui1, AppState::InContent(ContentState::Navigate), FocusMode::InContentNavi) && eff is Nothing,
        KeyInput::Left => moved_to(pre, ui0, post, ui1, AppState::OnFileSystem, FocusMode::OnFilesystem) && eff is Nothing,
        _ => unchanged(pre, ui0, post, ui1) && eff is Nothing,
    }
}

/// A step on the filesystem tree (not entered).
pub open spec fn on_filesystem_step(pre: AppCore, ui0: UiWidgets, key: KeyInput, post: AppCore, ui1: UiWidgets, eff: AppEffect) -> bool {
    match key {
        KeyInput::Esc => unchanged(pre, ui0, post, ui1) && eff is Quit,
        KeyInput::Enter => moved_to(pre, ui0, post, ui1, AppState::InFileSystem(FsState::Navigate), FocusMode::InFilesystem) && eff is Nothing,
        KeyInput::Right => moved_to(pre, ui0, post, ui1, AppState::OnContent, FocusMode::OnContent) && eff is Nothing,
        _ => unchanged(pre, ui0, post, ui1) && eff is Nothing,
    }
}

/// The selection after a move down: one further when the innermost
/// listing has an entry there, else where it was; `0` without a listing.
pub open spec fn pos_down(pre: AppCore) -> usize {
    match pre.top_listing() {
        Some(l) => if pre.pos_spec() + 1 < l.entries_spec().len() {
            (pre.pos_spec() + 1) as usize
        } else {
            pre.pos_spec()
        },
        None => 0,
    }
}

/// A step while browsing the filesystem tree.
pub open spec fn fs_navigate_step(pre: AppCore, ui0: UiWidgets, key: KeyInput, post: AppCore, ui1: UiWidgets, eff: AppEffect) -> bool {
    match key {
        KeyInput::Esc => moved_to(pre, ui0, post, ui1, AppState::OnFileSystem, FocusMode::OnFilesystem) && eff is Nothing,
        KeyInput::Enter => unchanged(pre, ui0, post, ui1) && match pre.selected_entry() {
            Some(e) => if e.file_spec() {
                eff matches AppEffect::OpenFile { path } && path@ == e.path_spec()
            } else {
                eff matches AppEffect::EnterDir { path } && path@ == e.path_spec()
            },
            None => eff is Nothing,
        },
        KeyInput::Backspace => if pre.dirs_spec().len() > 1 {
            &&& eff matches AppEffect::ReloadParent { path } && path@ == pre.dirs_spec()[pre.dirs_spec().len() - 2].0
            &&& post.dirs_spec() == pre.dirs_spec().drop_last().drop_last()
            &&& post.state_spec() == pre.state_spec()
            &&& post.pos_spec() == pre.pos_spec()
            &&& post.content_spec() == pre.content_spec()
            &&& post.cursor_spec() == pre.cursor_spec()
            &&& post.unsaved_spec() == pre.unsaved_spec()
            &&& post.unsaved_offset_spec() == pre.unsaved_offset_spec()
            &&& post.has_file_spec() == pre.has_file_spec()
            &&& ui1.fs_widget.listings_spec() == if ui0.fs_widget.listings_spec().len() > 0 {
                ui0.fs_widget.listings_spec().drop_last()
            } else {
                ui0.fs_widget.listings_spec()
            }
            &&& ui1.fs_widget.dirs_spec() == if ui0.fs_widget.dirs_spec().len() > 0 {
                ui0.fs_widget.dirs_spec().drop_last()
            } else {
                ui0.fs_widget.dirs_spec()
            }
            &&& ui1.fs_widget.selection_spec() == ui0.fs_widget.selection_spec()
            &&& ui1.fs_widget.focused_spec() == ui0.fs_widget.focused_spec()
            &&& ui1.fs_widget.dialogue_spec() == ui0.fs_widget.dialogue_spec()
            &&& ui1.content_widget == ui0.content_widget
            &&& ui1.commands_widget == ui0.commands_widget
        } else {
            unchanged(pre, ui0, post, ui1) && eff is Nothing
        },
        KeyInput::Up => {
            let p = if pre.pos_spec() == 0 { 0usize } else { (pre.pos_spec() - 1) as usize };
            &&& post.pos_spec() == p
            &&& post.state_spec() == pre.state_spec()
            &&& post.dirs_spec() == pre.dirs_spec()
            &&& post.content_spec() == pre.content_spec()
            &&& post.cursor_spec() == pre.cursor_spec()
            &&& post.unsaved_spec() == pre.unsaved_spec()
            &&& post.unsaved_offset_spec() == pre.unsaved_offset_spec()
            &&& post.has_file_spec() == pre.has_file_spec()
            &&& selected(ui0, ui1, p)
            &&& eff is Nothing
        },
        KeyInput::Down => {
            &&& post.pos_spec() == pos_down(pre)
            &&& post.state_spec() == pre.state_spec()
            &&& post.dirs_spec() == pre.dirs_spec()
            &&& post.content_spec() == pre.content_spec()
            &&& post.cursor_spec() == pre.cursor_spec()
            &&& post.unsaved_spec() == pre.unsaved_spec()
            &&& post.unsaved_offset_spec() == pre.unsaved_offset_spec()
            &&& post.has_file_spec() == pre.has_file_spec()
            &&& selected(ui0, ui1, pos_down(pre))
            &&& eff is Nothing
        },
        KeyInput::Char(c) => if c == FS_CREATE_FILE || c == FS_CREATE_DIR {
            &&& post.state_spec() matches AppState::InFileSystem(fs) && (if c == FS_CREATE_FILE {
                fs is CreateFile
            } else {
                fs is CreateDir
            })
            &&& fs_buf(post.state_spec()) == Seq::<char>::empty()
            &&& pre.same_data(&post)
            &&& ui1.shows(FocusMode::InFilesystemCreate)
            &&& ui0.same_data(&ui1)
            &&& ui1.fs_widget.dialogue_spec() == Some((Seq::<char>::empty(), false))
            &&& eff is Nothing
        } else {
            unchanged(pre, ui0, post, ui1) && eff is Nothing
        },
        _ => unchanged(pre, ui0, post, ui1) && eff is Nothing,
    }
}

/// A step while naming a file (`file`) or a directory to create.
pub open spec fn fs_create_step(pre: AppCore, ui0: UiWidgets, key: KeyInput, post: AppCore, ui1: UiWidgets, eff: AppEffect, file: bool) -> bool {
    let buf = fs_buf(pre.state_spec());
    let typed = |b: Seq<char>| {
        &&& post.state_spec() matches AppState::InFileSystem(fs) && (if file {
            fs is CreateFile
        } else {
            fs is CreateDir
        })
        &&& fs_buf(post.state_spec()) == b
        &&& pre.same_data(&post)
        &&& dialogue_set(ui0, ui1, Some((b, !valid_segment(b))))
        &&& eff is Nothing
    };
    match key {
        KeyInput::Esc => {
            &&& post.state_spec() == AppState::InFileSystem(FsState::Navigate)
            &&& pre.same_data(&post)
            &&& ui1.shows(FocusMode::InFilesystem)
            &&& ui0.same_data(&ui1)
            &&& ui1.fs_widget.dialogue_spec() is None
            &&& eff is Nothing
        },
        KeyInput::Enter => if valid_segment(buf) {
            &&& unchanged(pre, ui0, post, ui1)
            &&& if file {
                eff matches AppEffect::CreateFile { path } && path@ == join_path(pre.dirs_spec(), buf)
            } else {
                eff matches AppEffect::CreateDir { path } && path@ == join_path(pre.dirs_spec(), buf)
            }
        } else if file {
            &&& post.state_spec() == AppState::InContent(ContentState::Navigate)
            &&& pre.same_data(&post)
            &&& ui1.shows(FocusMode::InContentNavi)
            &&& ui0.same_data(&ui1)
            &&& ui1.fs_widget.dialogue_spec() is None
            &&& eff is Nothing
        } else {
            unchanged(pre, ui0, post, ui1) && eff is Nothing
        },
        KeyInput::Backspace => typed(if buf.len() > 0 { buf.drop_last() } else { buf }),
        KeyInput::Char(c) => typed(buf.push(c)),
        _ => typed(buf),
    }
}


/// Whether the cursor of contents `c` at `cur` gives an offset that fits
/// in a `usize`.
pub open spec fn offset_fits_at(c: Option<Seq<char>>, cur: Option<(u16, u16)>) -> bool {
    match (c, cur) {
        (Some(t), Some((x, y))) => offset_in(t, x, y) <= usize::MAX,
        _ => true,
    }
}

/// The content window's cursor after a move, by the move on the lines.
pub open spec fn cursor_after(w: ContentWindow, moved: spec_fn(Seq<Seq<char>>, u16, u16) -> (u16, u16)) -> Option<(u16, u16)> {
    w.after_move(moved)
}

/// Keys that the content window takes without a panic while moving
/// through the content: a move right needs a non-empty row, a move down a
/// row number within `u16`, and the offset of the cursor must fit.
pub open spec fn navigate_accepts(w: ContentWindow, key: KeyInput) -> bool {
    let c = w.contents_spec();
    match key {
        KeyInput::Up => offset_fits_at(c, cursor_after(w, |l, x, y| moved_up(l, x, y))),
        KeyInput::Down => w.down_ok() && offset_fits_at(c, cursor_after(w, |l, x, y| moved_down(l, x, y))),
        KeyInput::Left => offset_fits_at(c, cursor_after(w, |l, x, y| moved_left(l, x, y))),
        KeyInput::Right => offset_fits_at(c, cursor_after(w, |l, x, y| moved_right(l, x, y))),
        _ => offset_fits_at(c, w.cursor_spec()),
    }
}

/// Keys taken without a panic while inserting: the cursor must stay within
/// `usize`, and the text shown must stay valid UTF-8.
pub open spec fn insert_accepts(pre: AppCore, key: KeyInput) -> bool {
    let cur: usize = match pre.cursor_spec() {
        Some(p) => p,
        None => 0,
    };
    match key {
        KeyInput::Char(c) => cur < usize::MAX && valid_utf8(
            shown_bytes(pre.content_spec(), pre.unsaved_offset_spec(), pre.unsaved_spec().push(c)),
        ),
        KeyInput::Enter => cur < usize::MAX && valid_utf8(
            shown_bytes(pre.content_spec(), pre.unsaved_offset_spec(), pre.unsaved_spec().push('\n')),
        ),
        KeyInput::Backspace => cur > 0 && valid_utf8(
            shown_bytes(
                pre.content_spec(),
                pre.unsaved_offset_spec(),
                if pre.unsaved_spec().len() > 0 {
                    pre.unsaved_spec().drop_last()
                } else {
                    pre.unsaved_spec()
                },
            ),
        ),
        _ => true,
    }
}

/// Keys the application takes without a panic in its current state.
pub open spec fn accepts(pre: AppCore, ui0: UiWidgets, key: KeyInput) -> bool {
    match pre.state_spec() {
        AppState::InContent(ContentState::Navigate) => navigate_accepts(ui0.content_widget, key),
        AppState::InContent(ContentState::Insert) => insert_accepts(pre, key),
        _ => true,
    }
}

/// `post` is `pre` with at most the state, the cursor, the unsaved text and
/// its offset changed.
pub open spec fn same_files(pre: AppCore, post: AppCore) -> bool {
    &&& post.dirs_spec() == pre.dirs_spec()
    &&& post.pos_spec() == pre.pos_spec()
    &&& post.content_spec() == pre.content_spec()
    &&& post.has_file_spec() == pre.has_file_spec()
}

/// A step while moving through the content.
pub open spec fn content_navigate_step(pre: AppCore, ui0: UiWidgets, key: KeyInput, post: AppCore, ui1: UiWidgets, eff: AppEffect) -> bool {
    let w0 = ui0.content_widget;
    let w1 = ui1.content_widget;
    &&& same_files(pre, post)
    &&& post.cursor_spec() == w1.offset_spec()
    &&& post.unsaved_offset_spec() == match w1.offset_spec() {
        Some(p) => p,
        None => 0,
    }
    &&& eff is Nothing
    &&& match key {
        KeyInput::Esc => {
            &&& post.state_spec() == AppState::OnContent
            &&& ui1.shows(FocusMode::OnContent)
            &&& ui0.same_data(&ui1)
            &&& ui1.fs_widget.dialogue_spec() == ui0.fs_widget.dialogue_spec()
            &&& post.unsaved_spec() == pre.unsaved_spec()
        },
        KeyInput::Enter => {
            &&& post.state_spec() == AppState::InContent(ContentState::Insert)
            &&& ui1.shows(FocusMode::InContentInsert)
            &&& ui0.same_data(&ui1)
            &&& ui1.fs_widget.dialogue_spec() == ui0.fs_widget.dialogue_spec()
            &&& post.unsaved_spec() == Seq::<char>::empty()
        },
        KeyInput::Up | KeyInput::Down | KeyInput::Left | KeyInput::Right => {
            &&& post.state_spec() == pre.state_spec()
            &&& post.unsaved_spec() == pre.unsaved_spec()
            &&& w1.cursor_spec() == match key {
                KeyInput::Up => cursor_after(w0, |l, x, y| moved_up(l, x, y)),
                KeyInput::Down => cursor_after(w0, |l, x, y| moved_down(l, x, y)),
                KeyInput::Left => cursor_after(w0, |l, x, y| moved_left(l, x, y)),
                _ => cursor_after(w0, |l, x, y| moved_right(l, x, y)),
            }
            &&& w0.same_but_cursor(&w1)
            &&& ui1.fs_widget == ui0.fs_widget
            &&& ui1.commands_widget == ui0.commands_widget
            &&& ui1.logs_widget == ui0.logs_widget
            &&& ui1.title_widget == ui0.title_widget
        },
        _ => {
            &&& post.state_spec() == pre.state_spec()
            &&& post.unsaved_spec() == pre.unsaved_spec()
            &&& ui1 == ui0
        },
    }
}

/// After typing while inserting: the unsaved text is `text`, the cursor is
/// at `cursor`, and the window shows the contents with the unsaved text
/// inserted.
pub open spec fn typed_in(pre: AppCore, ui0: UiWidgets, post: AppCore, ui1: UiWidgets, text: Seq<char>, cursor: usize) -> bool {
    &&& post.state_spec() == pre.state_spec()
    &&& same_files(pre, post)
    &&& post.unsaved_offset_spec() == pre.unsaved_offset_spec()
    &&& post.unsaved_spec() == text
    &&& post.cursor_spec() == Some(cursor)
    &&& ui1.content_widget.contents_spec() matches Some(t) && encode_utf8(t) == shown_bytes(
        pre.content_spec(),
        pre.unsaved_offset_spec(),
        text,
    )
    &&& ui1.content_widget.cursor_spec() == ui0.content_widget.cursor_spec()
    &&& ui1.content_widget.highlight_spec() == ui0.content_widget.highlight_spec()
    &&& ui1.content_widget.notification_spec() == ui0.content_widget.notification_spec()
    &&& ui1.content_widget.error_spec() == ui0.content_widget.error_spec()
    &&& ui1.content_widget.focused_spec() == ui0.content_widget.focused_spec()
    &&& ui1.fs_widget == ui0.fs_widget
    &&& ui1.commands_widget == ui0.commands_widget
    &&& ui1.logs_widget == ui0.logs_widget
    &&& ui1.title_widget == ui0.title_widget
}

/// A step while inserting into the content.
pub open spec fn content_insert_step(pre: AppCore, ui0: UiWidgets, key: KeyInput, post: AppCore, ui1: UiWidgets, eff: AppEffect) -> bool {
    let cur: usize = match pre.cursor_spec() {
        Some(p) => p,
        None => 0,
    };
    let kept = {
        &&& post.state_spec() == pre.state_spec()
        &&& same_files(pre, post)
        &&& post.unsaved_spec() == pre.unsaved_spec()
        &&& post.unsaved_offset_spec() == pre.unsaved_offset_spec()
        &&& post.cursor_spec() == Some(cur)
        &&& ui1 == ui0
        &&& eff is Nothing
    };
    match key {
        KeyInput::Esc => if pre.has_file_spec() {
            &&& post.state_spec() == AppState::InContent(ContentState::Navigate)
            &&& same_files(pre, post)
            &&& post.unsaved_spec() == pre.unsaved_spec()
            &&& post.unsaved_offset_spec() == pre.unsaved_offset_spec()
            &&& post.cursor_spec() == Some(cur)
            &&& ui1.shows(FocusMode::InContentNavi)
            &&& ui0.same_data(&ui1)
            &&& ui1.fs_widget.dialogue_spec() == ui0.fs_widget.dialogue_spec()
            &&& eff matches AppEffect::WriteInsert { offset, bytes } && offset
                == pre.unsaved_offset_spec() && bytes@ == encode_utf8(pre.unsaved_spec())
        } else {
            kept
        },
        KeyInput::Char(c) => typed_in(pre, ui0, post, ui1, pre.unsaved_spec().push(c), (cur + 1) as usize) && eff is Nothing,
        KeyInput::Enter => typed_in(pre, ui0, post, ui1, pre.unsaved_spec().push('\n'), (cur + 1) as usize) && eff is Nothing,
        KeyInput::Backspace => typed_in(
            pre,
            ui0,
            post,
            ui1,
            if pre.unsaved_spec().len() > 0 {
                pre.unsaved_spec().drop_last()
            } else {
                pre.unsaved_spec()
            },
            (cur - 1) as usize,
        ) && eff is Nothing,
        _ => kept,
    }
}

/// A step of the application on a key.
pub open spec fn key_step(pre: AppCore, ui0: UiWidgets, key: KeyInput, post: AppCore, ui1: UiWidgets, eff: AppEffect) -> bool {
    match pre.state_spec() {
        AppState::OnContent => on_content_step(pre, ui0, key, post, ui1, eff),
        AppState::OnFileSystem => on_filesystem_step(pre, ui0, key, post, ui1, eff),
        AppState::InFileSystem(FsState::Navigate) => fs_navigate_step(pre, ui0, key, post, ui1, eff),
        AppState::InFileSystem(FsState::CreateFile(_)) => fs_create_step(pre, ui0, key, post, ui1, eff, true),
        AppState::InFileSystem(FsState::CreateDir(_)) => fs_create_step(pre, ui0, key, post, ui1, eff, false),
        AppState::InContent(ContentState::Navigate) => content_navigate_step(pre, ui0, key, post, ui1, eff),
        AppState::InContent(ContentState::Insert) => content_insert_step(pre, ui0, key, post, ui1, eff),
        AppState::InContent(ContentState::Watch) => unchanged(pre, ui0, post, ui1) && if pre.has_file_spec() {
            eff is StartWatch
        } else {
            eff is Nothing
        },
    }
}

/// The client's own data, beside the widgets and the opened files.
#[derive(Debug)]
pub struct AppCore {
    state: AppState,
    /// Stack of open filesystem dirs
    fs_dirs: FixedSizeStack<(String, VirtReadDir)>,
    /// Current selection index in the filesystem
    filesystem_pos: usize,
    /// Contents of the open file
    content: Option<String>,
    /// Cursor offset in the contents
    cursor_pos: Option<usize>,
    /// Text typed and not yet written to the file
    unsaved_buf: String,
    /// Where the unsaved text goes
    unsaved_offset: usize,
    /// Whether a file is open
    has_file: bool,
}

impl AppCore {
    /// The application state.
    pub closed spec fn state_spec(&self) -> AppState {
        self.state
    }

    /// The open directories (path, listing), outermost first.
    pub closed spec fn dirs_spec(&self) -> Seq<(Seq<char>, VirtReadDir)> {
        dir_views(self.fs_dirs.items())
    }

    /// The selection index in the filesystem.
    pub closed spec fn pos_spec(&self) -> usize {
        self.filesystem_pos
    }

    /// The contents of the open file.
    pub closed spec fn content_spec(&self) -> Option<Seq<char>> {
        match self.content {
            Some(c) => Some(c@),
            None => None,
        }
    }

    /// The cursor offset.
    pub closed spec fn cursor_spec(&self) -> Option<usize> {
        self.cursor_pos
    }

    /// The unsaved text.
    pub closed spec fn unsaved_spec(&self) -> Seq<char> {
        self.unsaved_buf@
    }

    /// Where the unsaved text goes.
    pub closed spec fn unsaved_offset_spec(&self) -> usize {
        self.unsaved_offset
    }

    /// Whether a file is open.
    pub closed spec fn has_file_spec(&self) -> bool {
        self.has_file
    }

    /// Well-formedness: the directory stack is unbounded, and the selection
    /// can move down.
    pub closed spec fn wf(&self) -> bool {
        &&& self.fs_dirs.wf()
        &&& self.fs_dirs.capacity() is None
        &&& self.filesystem_pos < usize::MAX
    }

    /// Whether `other` holds the same data as `self`, the state aside.
    pub open spec fn same_data(&self, other: &Self) -> bool {
        &&& other.dirs_spec() == self.dirs_spec()
        &&& other.pos_spec() == self.pos_spec()
        &&& other.content_spec() == self.content_spec()
        &&& other.cursor_spec() == self.cursor_spec()
        &&& other.unsaved_spec() == self.unsaved_spec()
        &&& other.unsaved_offset_spec() == self.unsaved_offset_spec()
        &&& other.has_file_spec() == self.has_file_spec()
    }

    /// The innermost listing.
    pub open spec fn top_listing(&self) -> Option<VirtReadDir> {
        if self.dirs_spec().len() > 0 {
            Some(self.dirs_spec().last().1)
        } else {
            None
        }
    }

    /// The entry under the selection, if any.
    pub open spec fn selected_entry(&self) -> Option<VirtDirEntry> {
        match self.top_listing() {
            Some(l) => if self.pos_spec() < l.entries_spec().len() {
                Some(l.entries_spec()[self.pos_spec() as int])
            } else {
                None
            },
            None => None,
        }
    }

    /// Fresh data: on the content window, nothing open.
    pub fn new() -> (res: Self)
        ensures
            res.wf(),
            res.state_spec() is OnContent,
            res.dirs_spec() == Seq::<(Seq<char>, VirtReadDir)>::empty(),
            res.pos_spec() == 0,
            res.content_spec() is None,
            res.cursor_spec() is None,
            res.unsaved_spec() == Seq::<char>::empty(),
            res.unsaved_offset_spec() == 0,
            !res.has_file_spec(),
    {
        let res = Self {
            state: AppState::default(),
            fs_dirs: FixedSizeStack::new(None),
            filesystem_pos: 0,
            content: None,
            cursor_pos: None,
            unsaved_buf: String::new(),
            unsaved_offset: 0,
            has_file: false,
        };
        assert(res.dirs_spec() =~= Seq::<(Seq<char>, VirtReadDir)>::empty());
        res
    }

    /// The application state.
    pub fn state(&self) -> (res: &AppState)
        ensures
            *res == self.state_spec(),
    {
        &self.state
    }

    /// Whether a file is open.
    pub fn has_file(&self) -> (res: bool)
        ensures
            res == self.has_file_spec(),
    {
        self.has_file
    }

    /// The selection index in the filesystem.
    pub fn filesystem_pos(&self) -> (res: usize)
        ensures
            res == self.pos_spec(),
    {
        self.filesystem_pos
    }

    /// The cursor position in the whole contents, if any.
    pub fn cursor_pos(&self) -> (res: Option<usize>)
        ensures
            res == self.cursor_spec(),
    {
        self.cursor_pos
    }

    /// Pushes a directory onto the stack.
    fn push_dir(&mut self, path: String, listing: VirtReadDir)
        requires
            old(self).wf(),
        ensures
            final(self).wf(),
            final(self).dirs_spec() == old(self).dirs_spec().push((path@, listing)),
            final(self).state_spec() == old(self).state_spec(),
            final(self).pos_spec() == old(self).pos_spec(),
            final(self).content_spec() == old(self).content_spec(),
            final(self).cursor_spec() == old(self).cursor_spec(),
            final(self).unsaved_spec() == old(self).unsaved_spec(),
            final(self).unsaved_offset_spec() == old(self).unsaved_offset_spec(),
            final(self).has_file_spec() == old(self).has_file_spec(),
    {
        let ghost before = self.fs_dirs.items();
        self.fs_dirs.push((path, listing));
        assert(dir_views(self.fs_dirs.items()) =~= dir_views(before).push((path@, listing)));
    }

    /// The path of `name` inside the innermost open directory.
    fn path_in_top(&self, name: &String) -> (res: String)
        ensures
            res@ == join_path(self.dirs_spec(), name@),
    {
        match self.fs_dirs.top() {
            Some(top) => {
                let mut p = top.0.clone();
                p.push('/');
                p.push_str(name.as_str());
                p
            },
            None => name.clone(),
        }
    }

    /// Handles a key while browsing the filesystem tree.
    fn fs_navigate(&mut self, ui: &mut UiWidgets, key: KeyInput) -> (eff: AppEffect)
        requires
            old(self).wf(),
            old(ui).wf(),
            old(self).state_spec() == AppState::InFileSystem(FsState::Navigate),
        ensures
            final(self).wf(),
            final(ui).wf(),
            fs_navigate_step(*old(self), *old(ui), key, *final(self), *final(ui), eff),
    {
        match key {
            KeyInput::Esc => {
                self.state = AppState::OnFileSystem;
                ui.on_filesystem();
                AppEffect::Nothing
            },
            KeyInput::Enter => {
                match self.fs_dirs.top() {
                    Some(top) => match top.1.get(self.filesystem_pos) {
                        Some(entry) => {
                            let path = entry.path();
                            if entry.is_file() {
                                AppEffect::OpenFile { path }
                            } else {
                                AppEffect::EnterDir { path }
                            }
                        },
                        None => AppEffect::Nothing,
                    },
                    None => AppEffect::Nothing,
                }
            },
            KeyInput::Backspace => {
                if self.fs_dirs.depth() > 1 {
                    let ghost before = self.fs_dirs.items();
                    self.fs_dirs.pop();
                    ui.fs_widget.pop();
                    let parent = self.fs_dirs.pop();
                    proof {
                        assert(dir_views(self.fs_dirs.items()) =~= dir_views(before).drop_last().drop_last());
                        assert(dir_views(before)[before.len() - 2].0 == before[before.len() - 2].0@);
                    }
                    match parent {
                        Some((path, _)) => AppEffect::ReloadParent { path },
                        None => AppEffect::Nothing,
                    }
                } else {
                    AppEffect::Nothing
                }
            },
            KeyInput::Up => {
                self.filesystem_pos = self.filesystem_pos.saturating_sub(1);
                ui.fs_widget.select(Some(self.filesystem_pos));
                AppEffect::Nothing
            },
            KeyInput::Down => {
                self.filesystem_pos = match self.fs_dirs.top() {
                    Some(dir) => if self.filesystem_pos + 1 < dir.1.len() {
                        self.filesystem_pos + 1
                    } else {
                        self.filesystem_pos
                    },
                    None => 0,
                };
                ui.fs_widget.select(Some(self.filesystem_pos));
                AppEffect::Nothing
            },
            KeyInput::Char(c) => {
                if c == FS_CREATE_FILE {
                    self.state = AppState::InFileSystem(FsState::CreateFile(String::new()));
                    ui.in_filesystem_create();
                } else if c == FS_CREATE_DIR {
                    self.state = AppState::InFileSystem(FsState::CreateDir(String::new()));
                    ui.in_filesystem_create();
                }
                AppEffect::Nothing
            },
            _ => AppEffect::Nothing,
        }
    }

    /// The name being typed and whether it names a file.
    fn create_buffer(&self) -> (res: (String, bool))
        requires
            self.state_spec() matches AppState::InFileSystem(fs) && !(fs is Navigate),
        ensures
            res.0@ == fs_buf(self.state_spec()),
            res.1 == (self.state_spec() matches AppState::InFileSystem(fs) && fs is CreateFile),
    {
        match &self.state {
            AppState::InFileSystem(FsState::CreateFile(b)) => (b.clone(), true),
            AppState::InFileSystem(FsState::CreateDir(b)) => (b.clone(), false),
            _ => (String::new(), false),
        }
    }

    /// Handles a key while naming a file or directory to create.
    fn fs_create(&mut self, ui: &mut UiWidgets, key: KeyInput) -> (eff: AppEffect)
        requires
            old(self).wf(),
            old(ui).wf(),
            old(self).state_spec() matches AppState::InFileSystem(fs) && !(fs is Navigate),
        ensures
            final(self).wf(),
            final(ui).wf(),
            fs_create_step(
                *old(self),
                *old(ui),
                key,
                *final(self),
                *final(ui),
                eff,
                old(self).state_spec() matches AppState::InFileSystem(fs) && fs is CreateFile,
            ),
    {
        let (mut buf, file) = self.create_buffer();
        match key {
            KeyInput::Esc => {
                ui.fs_widget.dialogue_box(None, false);
                self.state = AppState::InFileSystem(FsState::Navigate);
                ui.in_filesystem();
                return AppEffect::Nothing;
            },
            KeyInput::Enter => {
                if is_valid_fs_path_segment(buf.as_str()) {
                    let path = self.path_in_top(&buf);
                    return if file {
                        AppEffect::CreateFile { path }
                    } else {
                        AppEffect::CreateDir { path }
                    };
                } else if file {
                    self.state = AppState::InContent(ContentState::Navigate);
                    ui.in_content_navi();
                    ui.fs_widget.dialogue_box(None, false);
                    return AppEffect::Nothing;
                } else {
                    return AppEffect::Nothing;
                }
            },
            KeyInput::Backspace => {
                buf.pop();
            },
            KeyInput::Char(c) => {
                buf.push(c);
            },
            _ => {},
        }
        let invalid = !is_valid_fs_path_segment(buf.as_str());
        ui.fs_widget.dialogue_box(Some(buf.as_str()), invalid);
        self.state = if file {
            AppState::InFileSystem(FsState::CreateFile(buf))
        } else {
            AppState::InFileSystem(FsState::CreateDir(buf))
        };
        AppEffect::Nothing
    }

    /// Handles a key while the filesystem tree is entered.
    pub fn handle_fs_state(&mut self, ui: &mut UiWidgets, key: KeyInput) -> (eff: AppEffect)
        requires
            old(self).wf(),
            old(ui).wf(),
            old(self).state_spec() is InFileSystem,
        ensures
            final(self).wf(),
            final(ui).wf(),
            key_step(*old(self), *old(ui), key, *final(self), *final(ui), eff),
    {
        let navigating = match &self.state {
            AppState::InFileSystem(FsState::Navigate) => true,
            _ => false,
        };
        if navigating {
            self.fs_navigate(ui, key)
        } else {
            self.fs_create(ui, key)
        }
    }

    /// Shows the contents with the unsaved text inserted at its offset.
    fn update_content_disp(&mut self, ui: &mut UiWidgets)
        requires
            old(ui).wf(),
            valid_utf8(shown_bytes(old(self).content_spec(), old(self).unsaved_offset_spec(), old(self).unsaved_spec())),
        ensures
            *final(self) == *old(self),
            final(ui).wf(),
            final(ui).content_widget.contents_spec() matches Some(t) && encode_utf8(t) == shown_bytes(
                old(self).content_spec(),
                old(self).unsaved_offset_spec(),
                old(self).unsaved_spec(),
            ),
            final(ui).content_widget.cursor_spec() == old(ui).content_widget.cursor_spec(),
            final(ui).content_widget.highlight_spec() == old(ui).content_widget.highlight_spec(),
            final(ui).content_widget.notification_spec() == old(ui).content_widget.notification_spec(),
            final(ui).content_widget.error_spec() == old(ui).content_widget.error_spec(),
            final(ui).content_widget.focused_spec() == old(ui).content_widget.focused_spec(),
            final(ui).fs_widget == old(ui).fs_widget,
            final(ui).commands_widget == old(ui).commands_widget,
            final(ui).logs_widget == old(ui).logs_widget,
            final(ui).title_widget == old(ui).title_widget,
    {
        let mut ins: Vec<u8> = Vec::new();
        crate::ser_de::extend_bytes(&mut ins, self.unsaved_buf.as_str().as_bytes());
        let upd = FileUpdate::Insert((self.unsaved_offset, ins));
        let empty: Vec<u8> = Vec::new();
        let disp = match &self.content {
            Some(c) => upd.update_file(c.as_str().as_bytes()),
            None => upd.update_file(empty.as_slice()),
        };
        proof {
            assert(disp@ =~= shown_bytes(self.content_spec(), self.unsaved_offset_spec(), self.unsaved_spec()));
        }
        match crate::text::str_from_utf8(disp.as_slice()) {
            Some(shown) => {
                ui.content_widget.set_contents(Some(shown));
            },
            None => {},
        }
    }

    /// Handles a key while moving through the content.
    fn content_navigate(&mut self, ui: &mut UiWidgets, key: KeyInput) -> (eff: AppEffect)
        requires
            old(self).wf(),
            old(ui).wf(),
            old(self).state_spec() == AppState::InContent(ContentState::Navigate),
            navigate_accepts(old(ui).content_widget, key),
        ensures
            final(self).wf(),
            final(ui).wf(),
            content_navigate_step(*old(self), *old(ui), key, *final(self), *final(ui), eff),
    {
        match key {
            KeyInput::Esc => {
                self.state = AppState::OnContent;
                ui.on_content();
            },
            KeyInput::Up => {
                ui.content_widget.cursor_up();
            },
            KeyInput::Down => {
                ui.content_widget.cursor_down();
            },
            KeyInput::Left => {
                ui.content_widget.cursor_left();
            },
            KeyInput::Right => {
                ui.content_widget.cursor_right();
            },
            KeyInput::Enter => {
                self.state = AppState::InContent(ContentState::Insert);
                ui.in_content_insert();
                self.unsaved_buf = String::new();
            },
            _ => {},
        }
        self.cursor_pos = ui.content_widget.cursor_offset();
        self.unsaved_offset = match self.cursor_pos {
            Some(p) => p,
            None => 0,
        };
        AppEffect::Nothing
    }

    /// Handles a key while inserting into the content.
    fn content_insert(&mut self, ui: &mut UiWidgets, key: KeyInput) -> (eff: AppEffect)
        requires
            old(self).wf(),
            old(ui).wf(),
            old(self).state_spec() == AppState::InContent(ContentState::Insert),
            insert_accepts(*old(self), key),
        ensures
            final(self).wf(),
            final(ui).wf(),
            content_insert_step(*old(self), *old(ui), key, *final(self), *final(ui), eff),
    {
        let cur: usize = match self.cursor_pos {
            Some(p) => p,
            None => 0,
        };
        self.cursor_pos = Some(cur);
        match key {
            KeyInput::Esc => {
                if !self.has_file {
                    return AppEffect::Nothing;
                }
                let mut bytes: Vec<u8> = Vec::new();
                crate::ser_de::extend_bytes(&mut bytes, self.unsaved_buf.as_str().as_bytes());
                proof {
                    assert(bytes@ =~= encode_utf8(self.unsaved_spec()));
                }
                self.state = AppState::InContent(ContentState::Navigate);
                ui.in_content_navi();
                AppEffect::WriteInsert { offset: self.unsaved_offset, bytes }
            },
            KeyInput::Char(c) => {
                self.unsaved_buf.push(c);
                self.cursor_pos = Some(cur + 1);
                self.update_content_disp(ui);
                AppEffect::Nothing
            },
            KeyInput::Enter => {
                self.unsaved_buf.push('\n');
                self.cursor_pos = Some(cur + 1);
                self.update_content_disp(ui);
                AppEffect::Nothing
            },
            KeyInput::Backspace => {
                self.unsaved_buf.pop();
                self.cursor_pos = Some(cur - 1);
                self.update_content_disp(ui);
                AppEffect::Nothing
            },
            _ => AppEffect::Nothing,
        }
    }

    /// Handles a key while the content window is entered.
    pub fn handle_content_state(&mut self, ui: &mut UiWidgets, key: KeyInput) -> (eff: AppEffect)
        requires
            old(self).wf(),
            old(ui).wf(),
            old(self).state_spec() is InContent,
            accepts(*old(self), *old(ui), key),
        ensures
            final(self).wf(),
            final(ui).wf(),
            key_step(*old(self), *old(ui), key, *final(self), *final(ui), eff),
    {
        let cs = match &self.state {
            AppState::InContent(cs) => *cs,
            _ => ContentState::Navigate,
        };
        match cs {
            ContentState::Navigate => self.content_navigate(ui, key),
            ContentState::Insert => self.content_insert(ui, key),
            ContentState::Watch => if self.has_file {
                AppEffect::StartWatch
            } else {
                AppEffect::Nothing
            },
        }
    }

    /// Handles a key in any state: the application's step on a key press.
    pub fn handle_app_state(&mut self, ui: &mut UiWidgets, key: KeyInput) -> (eff: AppEffect)
        requires
            old(self).wf(),
            old(ui).wf(),
            accepts(*old(self), *old(ui), key),
        ensures
            final(self).wf(),
            final(ui).wf(),
            key_step(*old(self), *old(ui), key, *final(self), *final(ui), eff),
    {
        let tag: u8 = match &self.state {
            AppState::OnContent => 0,
            AppState::OnFileSystem => 1,
            AppState::InContent(_) => 2,
            AppState::InFileSystem(_) => 3,
        };
        if tag == 0 {
            match key {
                KeyInput::Enter => {
                    self.state = AppState::InContent(ContentState::Navigate);
                    ui.in_content_navi();
                },
                KeyInput::Left => {
                    self.state = AppState::OnFileSystem;
                    ui.on_filesystem();
                },
                _ => {},
            }
            AppEffect::Nothing
        } else if tag == 1 {
            match key {
                KeyInput::Esc => AppEffect::Quit,
                KeyInput::Enter => {
                    self.state = AppState::InFileSystem(FsState::Navigate);
                    ui.in_filesystem();
                    AppEffect::Nothing
                },
                KeyInput::Right => {
                    self.state = AppState::OnContent;
                    ui.on_content();
                    AppEffect::Nothing
                },
                _ => AppEffect::Nothing,
            }
        } else if tag == 2 {
            self.handle_content_state(ui, key)
        } else {
            self.handle_fs_state(ui, key)
        }
    }

    /// Completes opening a file: its contents are shown with the cursor at
    /// the start, and the content window is entered.
    pub fn file_opened(&mut self, ui: &mut UiWidgets, contents: String)
        requires
            old(self).wf(),
            old(ui).wf(),
        ensures
            final(self).wf(),
            final(ui).wf(),
            final(self).state_spec() == AppState::InContent(ContentState::Navigate),
            final(self).content_spec() == Some(contents@),
            final(self).has_file_spec(),
            final(self).dirs_spec() == old(self).dirs_spec(),
            final(self).pos_spec() == old(self).pos_spec(),
            final(self).cursor_spec() == old(self).cursor_spec(),
            final(self).unsaved_spec() == old(self).unsaved_spec(),
            final(self).unsaved_offset_spec() == old(self).unsaved_offset_spec(),
            final(ui).content_widget.contents_spec() == Some(contents@),
            final(ui).content_widget.cursor_spec() == Some((0u16, 0u16)),
            final(ui).shows(FocusMode::InContentNavi),
            final(ui).fs_widget.listings_spec() == old(ui).fs_widget.listings_spec(),
            final(ui).fs_widget.selection_spec() == old(ui).fs_widget.selection_spec(),
            final(ui).fs_widget.dialogue_spec() == old(ui).fs_widget.dialogue_spec(),
    {
        ui.content_widget.set_contents(Some(contents.as_str()));
        ui.content_widget.set_cursor_pos(Some((0, 0)));
        self.content = Some(contents);
        self.has_file = true;
        self.state = AppState::InContent(ContentState::Navigate);
        ui.in_content_navi();
    }

    /// Completes entering a directory: its listing goes on the stack and
    /// into the tree under `name`, and the first entry is selected.
    pub fn dir_entered(&mut self, ui: &mut UiWidgets, path: String, name: &str, listing: VirtReadDir)
        requires
            old(self).wf(),
            old(ui).wf(),
        ensures
            final(self).wf(),
            final(ui).wf(),
            final(self).dirs_spec() == old(self).dirs_spec().push((path@, listing)),
            final(self).pos_spec() == 0,
            final(self).state_spec() == old(self).state_spec(),
            final(ui).fs_widget.listings_spec().len() == old(ui).fs_widget.listings_spec().len() + 1,
            final(ui).fs_widget.listings_spec().last().entries_spec() == listing.entries_spec(),
            final(ui).fs_widget.dirs_spec() == old(ui).fs_widget.dirs_spec().push(name@),
            final(ui).fs_widget.selection_spec() == if listing.entries_spec().len() > 0 {
                Some(0usize)
            } else {
                None
            },
            final(ui).content_widget == old(ui).content_widget,
            final(ui).commands_widget == old(ui).commands_widget,
    {
        let shown = listing.duplicate();
        self.push_dir(path, listing);
        self.filesystem_pos = 0;
        ui.fs_widget.push(shown, name);
        ui.fs_widget.select(Some(0));
    }

    /// Completes going up a directory: the parent's fresh listing goes back
    /// on the stack and replaces the tree's innermost listing, and the
    /// first entry is selected.
    pub fn parent_reloaded(&mut self, ui: &mut UiWidgets, path: String, listing: VirtReadDir)
        requires
            old(self).wf(),
            old(ui).wf(),
        ensures
            final(self).wf(),
            final(ui).wf(),
            final(self).dirs_spec() == old(self).dirs_spec().push((path@, listing)),
            final(self).pos_spec() == 0,
            final(self).state_spec() == old(self).state_spec(),
            final(ui).fs_widget.listings_spec().last().entries_spec() == listing.entries_spec(),
            final(ui).fs_widget.dirs_spec() == old(ui).fs_widget.dirs_spec(),
            final(ui).fs_widget.selection_spec() == if listing.entries_spec().len() > 0 {
                Some(0usize)
            } else {
                None
            },
            final(ui).content_widget == old(ui).content_widget,
            final(ui).commands_widget == old(ui).commands_widget,
    {
        let shown = listing.duplicate();
        self.push_dir(path, listing);
        ui.fs_widget.update(shown);
        self.filesystem_pos = 0;
        ui.fs_widget.select(Some(0));
    }

    /// Completes creating (or reopening) a file: the content window is
    /// entered and the dialogue closed.
    pub fn file_created(&mut self, ui: &mut UiWidgets)
        requires
            old(self).wf(),
            old(ui).wf(),
        ensures
            final(self).wf(),
            final(ui).wf(),
            final(self).state_spec() == AppState::InContent(ContentState::Navigate),
            final(self).has_file_spec(),
            final(self).dirs_spec() == old(self).dirs_spec(),
            final(self).content_spec() == old(self).content_spec(),
            final(ui).shows(FocusMode::InContentNavi),
            final(ui).fs_widget.dialogue_spec() is None,
            old(ui).same_data(&*final(ui)),
    {
        self.has_file = true;
        self.state = AppState::InContent(ContentState::Navigate);
        ui.in_content_navi();
        ui.fs_widget.dialogue_box(None, false);
    }

    /// Completes creating a directory: its listing goes on the stack and
    /// replaces the tree's innermost listing, the dialogue is closed and
    /// browsing resumes.
    pub fn dir_created(&mut self, ui: &mut UiWidgets, path: String, listing: VirtReadDir)
        requires
            old(self).wf(),
            old(ui).wf(),
        ensures
            final(self).wf(),
            final(ui).wf(),
            final(self).state_spec() == AppState::InFileSystem(FsState::Navigate),
            final(self).dirs_spec() == old(self).dirs_spec().push((path@, listing)),
            final(self).pos_spec() == old(self).pos_spec(),
            final(ui).shows(FocusMode::InFilesystem),
            final(ui).fs_widget.dialogue_spec() is None,
            final(ui).fs_widget.listings_spec().last().entries_spec() == listing.entries_spec(),
            final(ui).fs_widget.selection_spec() == if listing.entries_spec().len() > 0 {
                Some(0usize)
            } else {
                None
            },
    {
        let shown = listing.duplicate();
        self.push_dir(path, listing);
        ui.fs_widget.dialogue_box(None, false);
        ui.fs_widget.update(shown);
        ui.fs_widget.select(Some(0));
        self.state = AppState::InFileSystem(FsState::Navigate);
        ui.in_filesystem();
    }

    /// Enters the filesystem at the start: the listing of `.` is opened.
    pub fn init(&mut self, ui: &mut UiWidgets, listing: VirtReadDir)
        requires
            old(self).wf(),
            old(ui).wf(),
        ensures
            final(self).wf(),
            final(ui).wf(),
            final(self).state_spec() == AppState::InFileSystem(FsState::Navigate),
            final(self).dirs_spec() == old(self).dirs_spec().push((seq!['.'], listing)),
            final(ui).shows(FocusMode::InFilesystem),
            final(ui).fs_widget.listings_spec().last().entries_spec() == listing.entries_spec(),
            final(ui).fs_widget.dirs_spec() == old(ui).fs_widget.dirs_spec().push(seq!['.']),
    {
        self.state = AppState::InFileSystem(FsState::Navigate);
        let shown = listing.duplicate();
        let dot = ".";
        proof {
            reveal_strlit(".");
            assert(dot@ =~= seq!['.']);
        }
        self.push_dir(dot.to_owned(), listing);
        ui.fs_widget.push(shown, dot);
        ui.in_filesystem();
    }
}

} // verus!
