//! The widgets on screen together, and the focus each interaction mode
//! gives them, with the commands it lists.

use vstd::prelude::*;

use crate::client::content::ContentWindow;
use crate::client::widgets::{
    command_lookup, str_pair_views, AvailableCommands, FocusedWidget, FsTree, StderrLogs, TitleBar,
};

verus! {

/// Which window is selected.
#[derive(Debug, Clone, Copy, PartialEq, Eq, Structural)]
pub enum SelectedScreen {
    /// Main content window
    ContentWindow,
    /// Filesystem widget
    FilesystemTree,
    /// Logs redirected from stderr
    StderrLogs,
}

/// Render the contents of a type to the terminal
pub trait ToTerminal {
    type Context;

    fn to_terminal(&self, context: Self::Context) -> String;
}

/// The interaction modes of the screen, each with its focus and commands.
#[derive(Debug, Clone, Copy, PartialEq, Eq, Structural)]
pub enum FocusMode {
    /// On the filesystem tree.
    OnFilesystem,
    /// On the content window.
    OnContent,
    /// Browsing the filesystem tree.
    InFilesystem,
    /// Moving through the content.
    InContentNavi,
    /// Inserting into the content.
    InContentInsert,
    /// Naming a file or directory to create.
    InFilesystemCreate,
}

/// Whether the filesystem tree has the focus in a mode.
pub open spec fn fs_focused(m: FocusMode) -> bool {
    m is OnFilesystem || m is InFilesystem || m is InFilesystemCreate
}

/// The commands listed in a mode, as (key, description) pairs.
pub open spec fn mode_commands(m: FocusMode) -> Seq<(Seq<char>, Seq<char>)> {
    match m {
        FocusMode::OnFilesystem => seq![
            ("ESC"@, "exit"@),
            ("ENTER"@, "enter filesystem browse"@),
            ("RIGHT"@, "go to content"@),
        ],
        FocusMode::OnContent => seq![("ENTER"@, "enter content"@), ("LEFT"@, "filesystem tree"@)],
        FocusMode::InFilesystem => seq![
            ("ESC"@, "exit filesystem browse"@),
            ("ENTER"@, "enter file/dir"@),
            ("BACKSPACE"@, "go to parent dir"@),
            ("UP/DOWN"@, "navigate"@),
            ("f"@, "create file"@),
            ("d"@, "create directory"@),
            ("x"@, "delete file/dir"@),
        ],
        FocusMode::InContentNavi => seq![
            ("ESC"@, "exit content"@),
            ("ENTER"@, "enter insert mode"@),
            ("DEL"@, "delete a character"@),
            ("arrow keys"@, "navigate"@),
            ("w"@, "watch file for changes"@),
        ],
        FocusMode::InContentInsert => seq![("ESC"@, "exit insert mode and save changes"@)],
        FocusMode::InFilesystemCreate => seq![("ESC"@, "cancel"@), ("ENTER"@, "create file/dir"@)],
    }
}

/// The state widgets of the terminal interface.
#[derive(Debug)]
pub struct UiWidgets {
    pub title_widget: TitleBar,
    pub fs_widget: FsTree,
    pub logs_widget: StderrLogs,
    pub commands_widget: AvailableCommands,
    pub content_widget: ContentWindow,
}

impl UiWidgets {
    /// Well-formedness of the widgets.
    pub open spec fn wf(&self) -> bool {
        self.commands_widget.wf()
    }

    /// Whether the widgets show mode `m`: the focus of the tree and of the
    /// content window, and exactly the mode's commands.
    pub open spec fn shows(&self, m: FocusMode) -> bool {
        &&& self.fs_widget.focused_spec() == fs_focused(m)
        &&& self.content_widget.focused_spec() == !fs_focused(m)
        &&& forall|k: Seq<char>|
            #[trigger] self.commands_widget.command(k) == command_lookup(mode_commands(m), k)
    }

    /// Fresh widgets: nothing focused, no commands.
    pub fn new() -> (res: Self)
        ensures
            res.wf(),
    {
        Self {
            title_widget: TitleBar::new(),
            fs_widget: FsTree::new(),
            logs_widget: StderrLogs::new(),
            commands_widget: AvailableCommands::new(),
            content_widget: ContentWindow::new(),
        }
    }

    /// Whether `other` holds the same data as `self`, focus, commands and
    /// the tree's dialogue aside.
    pub open spec fn same_data(&self, other: &Self) -> bool {
        &&& other.fs_widget.listings_spec() == self.fs_widget.listings_spec()
        &&& other.fs_widget.dirs_spec() == self.fs_widget.dirs_spec()
        &&& other.fs_widget.selection_spec() == self.fs_widget.selection_spec()
        &&& other.content_widget.contents_spec() == self.content_widget.contents_spec()
        &&& other.content_widget.cursor_spec() == self.content_widget.cursor_spec()
        &&& other.content_widget.highlight_spec() == self.content_widget.highlight_spec()
        &&& other.content_widget.notification_spec() == self.content_widget.notification_spec()
        &&& other.content_widget.error_spec() == self.content_widget.error_spec()
        &&& other.logs_widget == self.logs_widget
        &&& other.title_widget == self.title_widget
    }

    /// Focus and list commands for mode `m`.
    fn show(&mut self, m: FocusMode, commands: &[(&str, &str)])
        requires
            old(self).wf(),
            str_pair_views(commands@) == mode_commands(m),
        ensures
            final(self).wf(),
            final(self).shows(m),
            old(self).same_data(&*final(self)),
            final(self).fs_widget.dialogue_spec() == old(self).fs_widget.dialogue_spec(),
    {
        let fs_exec = match m {
            FocusMode::OnFilesystem | FocusMode::InFilesystem | FocusMode::InFilesystemCreate => true,
            _ => false,
        };
        self.fs_widget.focus(fs_exec);
        self.content_widget.focus(!fs_exec);
        self.commands_widget.clear();
        self.commands_widget.add(commands);
        proof {
            assert(Seq::<(Seq<char>, Seq<char>)>::empty() + str_pair_views(commands@) =~= mode_commands(m));
        }
    }

    /// Focus the filesystem tree.
    pub fn on_filesystem(&mut self)
        requires
            old(self).wf(),
        ensures
            final(self).wf(),
            final(self).shows(FocusMode::OnFilesystem),
            old(self).same_data(&*final(self)),
            final(self).fs_widget.dialogue_spec() == old(self).fs_widget.dialogue_spec(),
    {
        let cmds = [("ESC", "exit"), ("ENTER", "enter filesystem browse"), ("RIGHT", "go to content")];
        assert(str_pair_views(cmds@) =~= mode_commands(FocusMode::OnFilesystem));
        self.show(FocusMode::OnFilesystem, &cmds);
    }

    /// Focus the content window.
    pub fn on_content(&mut self)
        requires
            old(self).wf(),
        ensures
            final(self).wf(),
            final(self).shows(FocusMode::OnContent),
            old(self).same_data(&*final(self)),
            final(self).fs_widget.dialogue_spec() == old(self).fs_widget.dialogue_spec(),
    {
        let cmds = [("ENTER", "enter content"), ("LEFT", "filesystem tree")];
        assert(str_pair_views(cmds@) =~= mode_commands(FocusMode::OnContent));
        self.show(FocusMode::OnContent, &cmds);
    }

    /// Browse the filesystem tree.
    pub fn in_filesystem(&mut self)
        requires
            old(self).wf(),
        ensures
            final(self).wf(),
            final(self).shows(FocusMode::InFilesystem),
            old(self).same_data(&*final(self)),
            final(self).fs_widget.dialogue_spec() == old(self).fs_widget.dialogue_spec(),
    {
        let cmds = [
            ("ESC", "exit filesystem browse"),
            ("ENTER", "enter file/dir"),
            ("BACKSPACE", "go to parent dir"),
            ("UP/DOWN", "navigate"),
            ("f", "create file"),
            ("d", "create directory"),
            ("x", "delete file/dir"),
        ];
        assert(str_pair_views(cmds@) =~= mode_commands(FocusMode::InFilesystem));
        self.show(FocusMode::InFilesystem, &cmds);
    }

    /// Move through the content.
    pub fn in_content_navi(&mut self)
        requires
            old(self).wf(),
        ensures
            final(self).wf(),
            final(self).shows(FocusMode::InContentNavi),
            old(self).same_data(&*final(self)),
            final(self).fs_widget.dialogue_spec() == old(self).fs_widget.dialogue_spec(),
    {
        let cmds = [
            ("ESC", "exit content"),
            ("ENTER", "enter insert mode"),
            ("DEL", "delete a character"),
            ("arrow keys", "navigate"),
            ("w", "watch file for changes"),
        ];
        assert(str_pair_views(cmds@) =~= mode_commands(FocusMode::InContentNavi));
        self.show(FocusMode::InContentNavi, &cmds);
    }

    /// Insert into the content.
    pub fn in_content_insert(&mut self)
        requires
            old(self).wf(),
        ensures
            final(self).wf(),
            final(self).shows(FocusMode::InContentInsert),
            old(self).same_data(&*final(self)),
            final(self).fs_widget.dialogue_spec() == old(self).fs_widget.dialogue_spec(),
    {
        let cmds = [("ESC", "exit insert mode and save changes")];
        assert(str_pair_views(cmds@) =~= mode_commands(FocusMode::InContentInsert));
        self.show(FocusMode::InContentInsert, &cmds);
    }

    /// Name a file or directory to create: an empty dialogue is shown.
    pub fn in_filesystem_create(&mut self)
        requires
            old(self).wf(),
        ensures
            final(self).wf(),
            final(self).shows(FocusMode::InFilesystemCreate),
            old(self).same_data(&*final(self)),
            final(self).fs_widget.dialogue_spec() == Some((Seq::<char>::empty(), false)),
    {
        let cmds = [("ESC", "cancel"), ("ENTER", "create file/dir")];
        assert(str_pair_views(cmds@) =~= mode_commands(FocusMode::InFilesystemCreate));
        self.show(FocusMode::InFilesystemCreate, &cmds);
        let empty = "";
        proof {
            reveal_strlit("");
        }
        self.fs_widget.dialogue_box(Some(empty), false);
    }
}

} // verus!
