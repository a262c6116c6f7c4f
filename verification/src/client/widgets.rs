//! State of the terminal widgets: title bar, filesystem tree, error logs
//! and the list of available commands.

use vstd::prelude::*;
use std::collections::VecDeque;

use crate::fs::VirtReadDir;
use crate::text::{
    chars_lt, char_views, lemma_chars_lt_total, lemma_chars_lt_transitive, split_chars, split_on, str_lt,
    string_from_chars,
};

verus! {

/// If a widget can be in focus, it should implement this trait.
///
/// Focused widget should visually distinguish itself from other widgets.
pub trait FocusedWidget {
    /// Toggle focus for a widget
    fn focus(&mut self, selected: bool);
}

/// The contents of each string.
pub open spec fn string_views(v: Seq<String>) -> Seq<Seq<char>> {
    v.map_values(|s: String| s@)
}

/// Title bar
#[derive(Clone, Debug)]
pub struct TitleBar {
    title: Option<String>,
}

impl TitleBar {
    /// The title, if any.
    pub closed spec fn title_spec(&self) -> Option<Seq<char>> {
        match self.title {
            Some(t) => Some(t@),
            None => None,
        }
    }

    /// A title bar without a title.
    pub fn new() -> (res: Self)
        ensures
            res.title_spec() is None,
    {
        Self { title: None }
    }

    /// Set the title of the title bar
    pub fn set_title(&mut self, title: Option<&str>)
        ensures
            final(self).title_spec() == match title {
                Some(t) => Some(t@),
                None => None::<Seq<char>>,
            },
    {
        self.title = match title {
            Some(t) => Some(t.to_owned()),
            None => None,
        };
    }

    /// The title, if any.
    pub fn title(&self) -> (res: Option<&String>)
        ensures
            self.title_spec() is None ==> res is None,
            self.title_spec() matches Some(t) ==> (res matches Some(r) && r@ == t),
    {
        match &self.title {
            Some(t) => Some(t),
            None => None,
        }
    }
}

/// Filesystem tree widget
#[derive(Clone, Debug)]
pub struct FsTree {
    /// The names of the directories entered, outermost first
    parent_dir: Vec<String>,
    /// Listings of the directories entered
    entries: Vec<VirtReadDir>,
    /// Current selection, if any
    selection: Option<usize>,
    /// Render the widget with a brighter border when focused
    focused: bool,
    /// Dialogue contents and error flag
    dialogue: Option<(String, bool)>,
}

impl FsTree {
    /// Names of the directories entered.
    pub closed spec fn dirs_spec(&self) -> Seq<Seq<char>> {
        string_views(self.parent_dir@)
    }

    /// Listings of the directories entered, innermost last.
    pub closed spec fn listings_spec(&self) -> Seq<VirtReadDir> {
        self.entries@
    }

    /// The selected entry.
    pub closed spec fn selection_spec(&self) -> Option<usize> {
        self.selection
    }

    /// Whether the widget is focused.
    pub closed spec fn focused_spec(&self) -> bool {
        self.focused
    }

    /// The dialogue text and its error flag.
    pub closed spec fn dialogue_spec(&self) -> Option<(Seq<char>, bool)> {
        match self.dialogue {
            Some((m, e)) => Some((m@, e)),
            None => None,
        }
    }

    /// An empty tree.
    pub fn new() -> (res: Self)
        ensures
            res.dirs_spec() == Seq::<Seq<char>>::empty(),
            res.listings_spec() == Seq::<VirtReadDir>::empty(),
            res.selection_spec() is None,
            !res.focused_spec(),
            res.dialogue_spec() is None,
    {
        let res = Self {
            parent_dir: Vec::new(),
            entries: Vec::new(),
            selection: None,
            focused: false,
            dialogue: None,
        };
        assert(res.dirs_spec() =~= Seq::<Seq<char>>::empty());
        res
    }

    /// Push a virtual directory into the stack.
    ///
    /// This should be called when entering directories
    pub fn push(&mut self, entries: VirtReadDir, dir: &str)
        ensures
            final(self).listings_spec() == old(self).listings_spec().push(entries),
            final(self).dirs_spec() == old(self).dirs_spec().push(dir@),
            final(self).selection_spec() == old(self).selection_spec(),
            final(self).focused_spec() == old(self).focused_spec(),
            final(self).dialogue_spec() == old(self).dialogue_spec(),
    {
        self.entries.push(entries);
        let name = dir.to_owned();
        let ghost before = self.parent_dir@;
        self.parent_dir.push(name);
        assert(string_views(self.parent_dir@) =~= string_views(before).push(dir@));
    }

    /// Pop the last virtual directory from the stack
    ///
    /// This should be called when leaving directories
    pub fn pop(&mut self)
        ensures
            final(self).listings_spec() == if old(self).listings_spec().len() > 0 {
                old(self).listings_spec().drop_last()
            } else {
                old(self).listings_spec()
            },
            final(self).dirs_spec() == if old(self).dirs_spec().len() > 0 {
                old(self).dirs_spec().drop_last()
            } else {
                old(self).dirs_spec()
            },
            final(self).selection_spec() == old(self).selection_spec(),
            final(self).focused_spec() == old(self).focused_spec(),
            final(self).dialogue_spec() == old(self).dialogue_spec(),
    {
        self.entries.pop();
        let ghost before = self.parent_dir@;
        self.parent_dir.pop();
        assert(before.len() > 0 ==> string_views(self.parent_dir@) =~= string_views(
            before,
        ).drop_last());
    }

    /// Replace the innermost listing (or add one when there is none); the
    /// directory names stay.
    pub fn update(&mut self, entries: VirtReadDir)
        ensures
            final(self).listings_spec() == if old(self).listings_spec().len() > 0 {
                old(self).listings_spec().drop_last().push(entries)
            } else {
                old(self).listings_spec().push(entries)
            },
            final(self).dirs_spec() == old(self).dirs_spec(),
            final(self).selection_spec() == old(self).selection_spec(),
            final(self).focused_spec() == old(self).focused_spec(),
            final(self).dialogue_spec() == old(self).dialogue_spec(),
    {
        self.entries.pop();
        self.entries.push(entries);
    }

    /// Select an entry by its index: kept only when the innermost listing
    /// has an entry there.
    pub fn select(&mut self, idx: Option<usize>)
        ensures
            final(self).selection_spec() == match idx {
                Some(offset) => if old(self).listings_spec().len() > 0 && offset
                    < old(self).listings_spec().last().entries_spec().len() {
                    Some(offset)
                } else {
                    None
                },
                None => None,
            },
            final(self).listings_spec() == old(self).listings_spec(),
            final(self).dirs_spec() == old(self).dirs_spec(),
            final(self).focused_spec() == old(self).focused_spec(),
            final(self).dialogue_spec() == old(self).dialogue_spec(),
    {
        self.selection = match idx {
            Some(offset) => {
                if self.entries.len() > 0 {
                    let n = self.entries.len();
                    if offset < self.entries[n - 1].len() {
                        Some(offset)
                    } else {
                        None
                    }
                } else {
                    None
                }
            },
            None => None,
        }
    }

    /// Show a dialogue box with a message. Used for file/dir creation
    pub fn dialogue_box(&mut self, message: Option<&str>, error: bool)
        ensures
            final(self).dialogue_spec() == match message {
                Some(m) => Some((m@, error)),
                None => None::<(Seq<char>, bool)>,
            },
            final(self).listings_spec() == old(self).listings_spec(),
            final(self).dirs_spec() == old(self).dirs_spec(),
            final(self).selection_spec() == old(self).selection_spec(),
            final(self).focused_spec() == old(self).focused_spec(),
    {
        self.dialogue = match message {
            Some(m) => Some((m.to_owned(), error)),
            None => None,
        };
    }

    /// The selected entry, if any.
    pub fn selection(&self) -> (res: Option<usize>)
        ensures
            res == self.selection_spec(),
    {
        self.selection
    }

    /// The innermost listing, if any.
    pub fn listing(&self) -> (res: Option<&VirtReadDir>)
        ensures
            self.listings_spec().len() == 0 ==> res is None,
            self.listings_spec().len() > 0 ==> res == Some(&self.listings_spec().last()),
    {
        if self.entries.len() == 0 {
            None
        } else {
            Some(&self.entries[self.entries.len() - 1])
        }
    }

    /// Names of the directories entered, outermost first.
    pub fn dirs(&self) -> (res: &[String])
        ensures
            string_views(res@) == self.dirs_spec(),
    {
        self.parent_dir.as_slice()
    }

    /// Whether the widget is focused.
    pub fn is_focused(&self) -> (res: bool)
        ensures
            res == self.focused_spec(),
    {
        self.focused
    }

    /// The dialogue text and its error flag, if a dialogue is shown.
    pub fn dialogue(&self) -> (res: Option<(&str, bool)>)
        ensures
            self.dialogue_spec() is None ==> res is None,
            self.dialogue_spec() matches Some((m, e)) ==> (res matches Some((r, e2)) && r@ == m
                && e2 == e),
    {
        match &self.dialogue {
            Some((m, e)) => Some((m.as_str(), *e)),
            None => None,
        }
    }
}

impl FocusedWidget for FsTree {
    fn focus(&mut self, selected: bool)
        ensures
            final(self).focused_spec() == selected,
            final(self).listings_spec() == old(self).listings_spec(),
            final(self).dirs_spec() == old(self).dirs_spec(),
            final(self).selection_spec() == old(self).selection_spec(),
            final(self).dialogue_spec() == old(self).dialogue_spec(),
    {
        self.focused = selected;
    }
}

/// Most log lines the log widget keeps.
pub const MAX_LOG_LINES: usize = 100;

/// The pieces that are not empty, in order.
pub open spec fn nonempty_pieces(p: Seq<Seq<char>>) -> Seq<Seq<char>>
    decreases p.len(),
{
    if p.len() == 0 {
        Seq::empty()
    } else if p.last().len() == 0 {
        nonempty_pieces(p.drop_last())
    } else {
        nonempty_pieces(p.drop_last()).push(p.last())
    }
}

/// The lines of a log message that are not empty.
pub open spec fn log_lines(log: Seq<char>) -> Seq<Seq<char>> {
    nonempty_pieces(split_on(log, '\n'))
}

/// The log after appending `lines`: the last (at most) hundred lines.
pub open spec fn logs_after(old_logs: Seq<Seq<char>>, lines: Seq<Seq<char>>) -> Seq<Seq<char>> {
    let all = old_logs + lines;
    if all.len() > MAX_LOG_LINES {
        all.subrange(all.len() - MAX_LOG_LINES, all.len() as int)
    } else {
        all
    }
}

/// Error log widget.
///
/// Logs are pushed in from the captured standard error stream.
#[derive(Debug)]
pub struct StderrLogs {
    logs: VecDeque<String>,
}

impl StderrLogs {
    /// No more than the most lines are kept.
    #[verifier::type_invariant]
    spec fn bounded(&self) -> bool {
        self.logs@.len() <= MAX_LOG_LINES
    }

    /// The kept lines, oldest first.
    pub closed spec fn logs_spec(&self) -> Seq<Seq<char>> {
        string_views(self.logs@)
    }

    /// An empty log.
    pub fn new() -> (res: Self)
        ensures
            res.logs_spec() == Seq::<Seq<char>>::empty(),
    {
        let res = Self { logs: VecDeque::new() };
        assert(res.logs_spec() =~= Seq::<Seq<char>>::empty());
        res
    }

    /// Push additional logs to the ring buffer: the non-empty lines of `log`
    /// are appended and only the last hundred lines are kept.
    pub fn push(&mut self, log: &str)
        requires
            log_lines(log@).len() <= MAX_LOG_LINES,
        ensures
            final(self).logs_spec() == logs_after(old(self).logs_spec(), log_lines(log@)),
    {
        proof {
            use_type_invariant(&*self);
        }
        let pieces = split_chars(log, '\n');
        let mut lines: VecDeque<String> = VecDeque::new();
        let mut i: usize = 0;
        proof {
            assert(char_views(pieces@).take(0) =~= Seq::<Seq<char>>::empty());
            assert(string_views(lines@) =~= Seq::<Seq<char>>::empty());
        }
        while i < pieces.len()
            invariant
                i <= pieces@.len(),
                string_views(lines@) == nonempty_pieces(char_views(pieces@).take(i as int)),
            decreases pieces@.len() - i,
        {
            let ghost before = string_views(lines@);
            proof {
                assert(char_views(pieces@).take(i + 1).drop_last() =~= char_views(pieces@).take(
                    i as int,
                ));
            }
            if pieces[i].len() > 0 {
                let s = string_from_chars(pieces[i].as_slice());
                lines.push_back(s);
                proof {
                    assert(string_views(lines@) =~= before.push(pieces@[i as int]@));
                }
            }
            i = i + 1;
        }
        proof {
            assert(char_views(pieces@).take(i as int) =~= char_views(pieces@));
        }
        let ghost old_logs = string_views(self.logs@);
        let ghost new_lines = string_views(lines@);
        assert(new_lines.len() == lines@.len());
        assert(old_logs.len() == self.logs@.len());
        let k = lines.len();
        let mut logs: VecDeque<String> = VecDeque::new();
        std::mem::swap(&mut logs, &mut self.logs);
        let drop: usize = if logs.len() + k > MAX_LOG_LINES {
            logs.len() - (MAX_LOG_LINES - k)
        } else {
            0
        };
        let mut dropped: usize = 0;
        while dropped < drop
            invariant
                drop <= old_logs.len(),
                dropped <= drop,
                logs@.len() == old_logs.len() - dropped,
                string_views(logs@) == old_logs.subrange(dropped as int, old_logs.len() as int),
            decreases drop - dropped,
        {
            let ghost before = logs@;
            let _ = logs.pop_front();
            dropped = dropped + 1;
            proof {
                assert(logs@ == before.subrange(1, before.len() as int));
                assert forall|j: int| 0 <= j < logs@.len() implies #[trigger] string_views(logs@)[j]
                    == old_logs[dropped + j] by {
                    assert(string_views(logs@)[j] == logs@[j]@);
                    assert(logs@[j] == before[j + 1]);
                    assert(string_views(before)[j + 1] == before[j + 1]@);
                    assert(string_views(before)[j + 1] == old_logs.subrange(dropped - 1, old_logs.len() as int)[j + 1]);
                }
                assert(string_views(logs@) =~= old_logs.subrange(dropped as int, old_logs.len() as int));
            }
        }
        let ghost mid = string_views(logs@);
        logs.append(&mut lines);
        proof {
            assert(string_views(logs@) =~= mid + new_lines);
            assert(string_views(logs@) =~= logs_after(old_logs, new_lines));
            assert(string_views(logs@).len() == logs@.len());
        }
        self.logs = logs;
    }

    /// The kept lines, oldest first.
    pub fn logs(&self) -> (res: &VecDeque<String>)
        ensures
            string_views(res@) == self.logs_spec(),
    {
        &self.logs
    }

    /// The last `rows` kept lines (all of them when fewer are kept): what a
    /// window of that many rows shows.
    pub fn last_lines(&self, rows: usize) -> (res: Vec<String>)
        ensures
            string_views(res@) == if self.logs_spec().len() > rows {
                self.logs_spec().subrange(self.logs_spec().len() - rows, self.logs_spec().len() as int)
            } else {
                self.logs_spec()
            },
    {
        let n = self.logs.len();
        let skip = if n > rows {
            n - rows
        } else {
            0
        };
        let ghost all = self.logs_spec();
        let mut out: Vec<String> = Vec::new();
        let mut i: usize = skip;
        while i < n
            invariant
                skip <= i <= n,
                n == self.logs@.len(),
                all == string_views(self.logs@),
                string_views(out@) == all.subrange(skip as int, i as int),
            decreases n - i,
        {
            let line = self.logs[i].clone();
            let ghost before = string_views(out@);
            proof {
                assert(line@ == all[i as int]);
            }
            out.push(line);
            i = i + 1;
            proof {
                assert(string_views(out@) =~= before.push(all[i - 1]));
                assert(string_views(out@) =~= all.subrange(skip as int, i as int));
            }
        }
        proof {
            assert(all.subrange(0, n as int) =~= all);
        }
        out
    }
}

/// The description recorded last for command key `k` in `es`.
pub open spec fn command_lookup(es: Seq<(Seq<char>, Seq<char>)>, k: Seq<char>) -> Option<Seq<char>>
    decreases es.len(),
{
    if es.len() == 0 {
        None
    } else if es.last().0 == k {
        Some(es.last().1)
    } else {
        command_lookup(es.drop_last(), k)
    }
}

/// The contents of each (key, description) pair.
pub open spec fn pair_views(v: Seq<(String, String)>) -> Seq<(Seq<char>, Seq<char>)> {
    v.map_values(|p: (String, String)| (p.0@, p.1@))
}

/// The contents of each (key, description) pair of string slices.
pub open spec fn str_pair_views(v: Seq<(&str, &str)>) -> Seq<(Seq<char>, Seq<char>)> {
    v.map_values(|p: (&str, &str)| (p.0@, p.1@))
}

/// Appending a record makes it the one found for its key.
pub proof fn lemma_command_lookup_push(es: Seq<(Seq<char>, Seq<char>)>, e: (Seq<char>, Seq<char>))
    ensures
        forall|k: Seq<char>|
            #[trigger] command_lookup(es.push(e), k) == if k == e.0 {
                Some(e.1)
            } else {
                command_lookup(es, k)
            },
{
    assert(es.push(e).drop_last() =~= es);
}

/// A key that occurs once finds its own record.
pub proof fn lemma_command_lookup_unique(es: Seq<(Seq<char>, Seq<char>)>, m: int)
    requires
        0 <= m < es.len(),
        forall|i: int| 0 <= i < es.len() && i != m ==> es[i].0 != es[m].0,
    ensures
        command_lookup(es, es[m].0) == Some(es[m].1),
    decreases es.len(),
{
    if m < es.len() - 1 {
        let init = es.drop_last();
        assert(es[es.len() - 1].0 != es[m].0);
        assert forall|i: int| 0 <= i < init.len() && i != m implies init[i].0 != init[m].0 by {
            assert(es[i].0 != es[m].0);
        }
        lemma_command_lookup_unique(init, m);
    }
}

/// Replacing the record of a key that occurs once changes only what that
/// key finds.
pub proof fn lemma_command_lookup_update(es: Seq<(Seq<char>, Seq<char>)>, j: int, d: Seq<char>)
    requires
        0 <= j < es.len(),
        forall|i: int| 0 <= i < es.len() && i != j ==> es[i].0 != es[j].0,
    ensures
        forall|k: Seq<char>|
            #[trigger] command_lookup(es.update(j, (es[j].0, d)), k) == if k == es[j].0 {
                Some(d)
            } else {
                command_lookup(es, k)
            },
    decreases es.len(),
{
    let es2 = es.update(j, (es[j].0, d));
    if j == es.len() - 1 {
        assert(es2.drop_last() =~= es.drop_last());
        assert forall|k: Seq<char>| #[trigger] command_lookup(es2, k) == if k == es[j].0 {
            Some(d)
        } else {
            command_lookup(es, k)
        } by {
            if k != es[j].0 {
                assert(command_lookup(es2, k) == command_lookup(es2.drop_last(), k));
            }
        }
    } else {
        let init = es.drop_last();
        assert forall|i: int| 0 <= i < init.len() && i != j implies init[i].0 != init[j].0 by {
            assert(es[i].0 != es[j].0);
        }
        lemma_command_lookup_update(init, j, d);
        assert(es2.drop_last() =~= init.update(j, (init[j].0, d)));
        assert forall|k: Seq<char>| #[trigger] command_lookup(es2, k) == if k == es[j].0 {
            Some(d)
        } else {
            command_lookup(es, k)
        } by {
            assert(es2.last() == es.last());
            assert(es[es.len() - 1].0 != es[j].0);
            assert(command_lookup(init.update(j, (init[j].0, d)), k) == if k == es[j].0 {
                Some(d)
            } else {
                command_lookup(init, k)
            });
            if es.last().0 != k {
                assert(command_lookup(es2, k) == command_lookup(es2.drop_last(), k));
                assert(command_lookup(es, k) == command_lookup(init, k));
            }
        }
    }
}

/// Widget that displays available commands.
#[derive(Clone, Debug)]
pub struct AvailableCommands {
    /// A command key and its description; no key occurs twice
    commands: Vec<(String, String)>,
}

impl AvailableCommands {
    /// The description of command key `k`, if it is listed.
    pub closed spec fn command(&self, k: Seq<char>) -> Option<Seq<char>> {
        command_lookup(pair_views(self.commands@), k)
    }

    /// Well-formedness: no key is listed twice.
    pub closed spec fn wf(&self) -> bool {
        forall|i: int, j: int|
            0 <= i < j < self.commands@.len() ==> #[trigger] self.commands@[i].0@
                != #[trigger] self.commands@[j].0@
    }

    /// The listed (key, description) pairs.
    pub closed spec fn entries_spec(&self) -> Seq<(Seq<char>, Seq<char>)> {
        pair_views(self.commands@)
    }

    /// An empty list.
    pub fn new() -> (res: Self)
        ensures
            res.wf(),
            forall|k: Seq<char>| res.command(k) is None,
    {
        let res = Self { commands: Vec::new() };
        assert(pair_views(res.commands@) =~= Seq::<(Seq<char>, Seq<char>)>::empty());
        res
    }

    /// Add a bunch of commands to the list; a key that is listed already
    /// gets the new description, and the last one given wins.
    pub fn add(&mut self, commands: &[(&str, &str)])
        requires
            old(self).wf(),
        ensures
            final(self).wf(),
            forall|k: Seq<char>|
                #[trigger] final(self).command(k) == command_lookup(
                    old(self).entries_spec() + str_pair_views(commands@),
                    k,
                ),
    {
        let ghost old_es = pair_views(self.commands@);
        let mut i: usize = 0;
        proof {
            assert(old_es + str_pair_views(commands@).take(0) =~= old_es);
        }
        while i < commands.len()
            invariant
                i <= commands@.len(),
                self.wf(),
                forall|k: Seq<char>|
                    #[trigger] self.command(k) == command_lookup(
                        old_es + str_pair_views(commands@).take(i as int),
                        k,
                    ),
            decreases commands@.len() - i,
        {
            let key = commands[i].0.to_owned();
            let desc = commands[i].1.to_owned();
            let ghost cur_es = pair_views(self.commands@);
            let ghost e = (key@, desc@);
            proof {
                assert forall|k: Seq<char>|
                    #[trigger] command_lookup(cur_es, k) == command_lookup(
                        old_es + str_pair_views(commands@).take(i as int),
                        k,
                    ) by {
                    assert(self.command(k) == command_lookup(cur_es, k));
                }
                assert(old_es + str_pair_views(commands@).take(i + 1) =~= (old_es
                    + str_pair_views(commands@).take(i as int)).push(e));
                lemma_command_lookup_push(old_es + str_pair_views(commands@).take(i as int), e);
            }
            let mut j: usize = 0;
            let mut found = false;
            while j < self.commands.len()
                invariant_except_break
                    !found,
                invariant
                    j <= self.commands@.len(),
                    forall|m: int| 0 <= m < j ==> self.commands@[m].0@ != key@,
                ensures
                    found ==> j < self.commands@.len() && self.commands@[j as int].0@ == key@,
                    !found ==> j == self.commands@.len(),
                    forall|m: int| 0 <= m < j ==> self.commands@[m].0@ != key@,
                decreases self.commands@.len() - j,
            {
                if self.commands[j].0 == key {
                    found = true;
                    break;
                }
                j = j + 1;
            }
            if found {
                proof {
                    assert forall|m: int| 0 <= m < cur_es.len() && m != j implies cur_es[m].0
                        != cur_es[j as int].0 by {
                        assert(cur_es[m].0 == self.commands@[m].0@);
                        assert(cur_es[j as int].0 == self.commands@[j as int].0@);
                        if m > j {
                            assert(self.commands@[j as int].0@ != self.commands@[m].0@);
                        }
                    }
                    lemma_command_lookup_update(cur_es, j as int, desc@);
                }
                let ghost before = self.commands@;
                let entry = (key, desc);
                self.commands.set(j, entry);
                proof {
                    assert(pair_views(self.commands@) =~= cur_es.update(
                        j as int,
                        (cur_es[j as int].0, e.1),
                    ));
                    assert forall|a: int, b: int|
                        0 <= a < b < self.commands@.len() implies #[trigger] self.commands@[a].0@
                        != #[trigger] self.commands@[b].0@ by {
                        assert(before[a].0@ != before[b].0@);
                    }
                }
            } else {
                let ghost before = self.commands@;
                self.commands.push((key, desc));
                proof {
                    assert(pair_views(self.commands@) =~= cur_es.push(e));
                    lemma_command_lookup_push(cur_es, e);
                    assert forall|a: int, b: int|
                        0 <= a < b < self.commands@.len() implies #[trigger] self.commands@[a].0@
                        != #[trigger] self.commands@[b].0@ by {
                        if b < before.len() {
                            assert(before[a].0@ != before[b].0@);
                        }
                    }
                }
            }
            proof {
                assert forall|k: Seq<char>|
                    #[trigger] self.command(k) == command_lookup(
                        old_es + str_pair_views(commands@).take(i + 1),
                        k,
                    ) by {
                    assert(command_lookup(pair_views(self.commands@), k) == if k == e.0 {
                        Some(e.1)
                    } else {
                        command_lookup(cur_es, k)
                    });
                }
            }
            i = i + 1;
        }
        proof {
            assert(str_pair_views(commands@).take(i as int) =~= str_pair_views(commands@));
        }
    }

    /// Clears the current list of commands
    pub fn clear(&mut self)
        ensures
            final(self).wf(),
            final(self).entries_spec() == Seq::<(Seq<char>, Seq<char>)>::empty(),
            forall|k: Seq<char>| final(self).command(k) is None,
    {
        self.commands.clear();
        assert(pair_views(self.commands@) =~= Seq::<(Seq<char>, Seq<char>)>::empty());
    }

    /// The listed commands in the order they are shown: sorted by key.
    pub fn sorted_commands(&self) -> (res: Vec<(String, String)>)
        requires
            self.wf(),
        ensures
            res@.len() == self.entries_spec().len(),
            forall|j: int|
                0 <= j < res@.len() ==> #[trigger] self.command(res@[j].0@) == Some(res@[j].1@),
            forall|a: int, b: int|
                0 <= a < b < res@.len() ==> chars_lt(#[trigger] res@[a].0@, #[trigger] res@[b].0@),
    {
        let mut res: Vec<(String, String)> = Vec::new();
        let ghost mut src: Seq<int> = Seq::empty();
        let mut i: usize = 0;
        while i < self.commands.len()
            invariant
                self.wf(),
                i <= self.commands@.len(),
                res@.len() == i,
                src.len() == i,
                forall|j: int|
                    0 <= j < i ==> 0 <= #[trigger] src[j] < i && res@[j].0@
                        == self.commands@[src[j]].0@ && res@[j].1@ == self.commands@[src[j]].1@,
                forall|a: int, b: int|
                    0 <= a < b < i ==> chars_lt(#[trigger] res@[a].0@, #[trigger] res@[b].0@),
            decreases self.commands@.len() - i,
        {
            let key = self.commands[i].0.clone();
            let desc = self.commands[i].1.clone();
            let mut p: usize = 0;
            loop
                invariant
                    p <= res@.len(),
                    forall|j: int| 0 <= j < p ==> !chars_lt(key@, #[trigger] res@[j].0@),
                ensures
                    p <= res@.len(),
                    forall|j: int| 0 <= j < p ==> !chars_lt(key@, #[trigger] res@[j].0@),
                    p < res@.len() ==> chars_lt(key@, res@[p as int].0@),
                decreases res@.len() - p,
            {
                if p == res.len() {
                    break;
                }
                if str_lt(key.as_str(), res[p].0.as_str()) {
                    break;
                }
                p = p + 1;
            }
            let ghost old_res = res@;
            proof {
                assert forall|j: int| 0 <= j < p implies chars_lt(#[trigger] old_res[j].0@, key@) by {
                    assert(self.commands@[src[j]].0@ != self.commands@[i as int].0@);
                    lemma_chars_lt_total(old_res[j].0@, key@);
                }
                assert forall|j: int| p <= j < old_res.len() implies chars_lt(key@, #[trigger] old_res[j].0@) by {
                    if j > p {
                        lemma_chars_lt_transitive(key@, old_res[p as int].0@, old_res[j].0@);
                    }
                }
            }
            res.insert(p, (key, desc));
            proof {
                old_res.insert_ensures(p as int, res@[p as int]);
                src.insert_ensures(p as int, i as int);
                src = src.insert(p as int, i as int);
                assert forall|j: int| 0 <= j < i + 1 implies 0 <= #[trigger] src[j] < i + 1 && res@[j].0@
                    == self.commands@[src[j]].0@ && res@[j].1@ == self.commands@[src[j]].1@ by {
                    if j > p {
                        assert(res@[j] == old_res[j - 1]);
                    }
                }
                assert forall|a: int, b: int| 0 <= a < b < i + 1 implies chars_lt(
                    #[trigger] res@[a].0@,
                    #[trigger] res@[b].0@,
                ) by {
                    if b < p {
                    } else if b == p {
                    } else if a < p {
                        assert(res@[b] == old_res[b - 1]);
                        lemma_chars_lt_transitive(res@[a].0@, key@, res@[b].0@);
                    } else if a == p {
                        assert(res@[b] == old_res[b - 1]);
                    } else {
                        assert(res@[a] == old_res[a - 1]);
                        assert(res@[b] == old_res[b - 1]);
                    }
                }
            }
            i = i + 1;
        }
        proof {
            assert forall|j: int| 0 <= j < res@.len() implies #[trigger] self.command(res@[j].0@)
                == Some(res@[j].1@) by {
                let m = src[j];
                let es = pair_views(self.commands@);
                assert forall|x: int| 0 <= x < es.len() && x != m implies es[x].0 != es[m].0 by {
                    if x < m {
                        assert(self.commands@[x].0@ != self.commands@[m].0@);
                    } else {
                        assert(self.commands@[m].0@ != self.commands@[x].0@);
                    }
                }
                lemma_command_lookup_unique(es, m);
            }
        }
        res
    }

    /// The listed commands, each key once.
    pub fn commands(&self) -> (res: &[(String, String)])
        requires
            self.wf(),
        ensures
            pair_views(res@) == self.entries_spec(),
    {
        self.commands.as_slice()
    }
}

} // verus!
