use vstd::prelude::*;

use tui_tree_widget::TreeState;

use crate::chars::is_space;
use crate::chars::joined;
use crate::chars::lemma_blank_trims_to_empty;
use crate::chars::pop_char;
use crate::chars::push_char;
use crate::chars::trim_white_space;
use crate::chars::trimmed;
use crate::content::expand_tabs;
use crate::content::ContentState;
use crate::library::Snippet;
use crate::library::SnippetLibrary;
use crate::library::SnippetView;
use crate::model::SourceRoot;
use crate::tree::after_key_left;
use crate::tree::after_key_right;
use crate::tree::after_toggle;
use crate::tree::ids_view;
use crate::tree::new_tree_state;
use crate::tree::open_node;
use crate::tree::select_first_node;
use crate::tree::select_node;
use crate::tree::selected_ids;
use crate::tree::toggle_selected_node;
use crate::tree::tree_key_down;
use crate::tree::tree_key_left;
use crate::tree::tree_key_right;
use crate::tree::tree_key_up;
use crate::tree::tree_opened;
use crate::tree::tree_rendered;
use crate::tree::tree_selected;

verus! {

/// The pane that takes navigation keys.
#[derive(Debug, Clone, Copy, PartialEq, Eq, Structural)]
pub enum Pane {
    FileList,
    Content,
}

/// The session's mode; it decides which keys do what.
#[derive(Debug, Clone, Copy, PartialEq, Eq, Structural)]
pub enum Mode {
    Normal,
    VisualSelect,
    TitleInput,
    LibraryBrowse,
    RenameInput,
}

/// A key as the session reads it.
#[derive(Debug, Clone, Copy, PartialEq, Eq, Structural)]
pub enum KeyCode {
    Char(char),
    Tab,
    Enter,
    Esc,
    Backspace,
    Up,
    Down,
    Left,
    Right,
    PageUp,
    PageDown,
    Other,
}

/// A key press, with whether Control was held.
#[derive(Debug, Clone, Copy, PartialEq, Eq, Structural)]
pub struct KeyEvent {
    pub code: KeyCode,
    pub ctrl: bool,
}

/// A node of the file tree: a root directory, or a file under a root.
#[derive(Debug, Clone, PartialEq, Eq)]
pub enum TreeNode {
    Root(String),
    File(String, String),
}

/// Reading or writing that the session asks its driver to do; the driver
/// hands the outcome back through the matching method.
#[derive(Debug, Clone, PartialEq, Eq)]
pub enum Request {
    /// Read a file's text, then call `file_loaded`.
    ReadFile { path: String },
    /// Load the snippet library, then call `enter_library_browse_from`.
    LoadLibrary { path: String },
    /// Append a snippet to the stored library, then call `snippet_saved`.
    AppendSnippet { path: String, snippet: Snippet },
    /// Delete a stored snippet, reload the library, then call
    /// `delete_library_snippet_from`.
    DeleteSnippet { path: String, index: usize },
    /// Rename a stored snippet, reload the library, then call
    /// `rename_library_snippet_from`.
    RenameSnippet { path: String, index: usize, title: String },
}

/// The interactive session: the file tree, the content pane, the mode and
/// the snippet library while it is browsed.
#[derive(Debug)]
pub struct App {
    pub exit: bool,
    pub mode: Mode,
    pub tree_state: TreeState<String>,
    pub active_pane: Pane,
    pub content: ContentState,
    pub title_input: String,
    pub status_message: Option<String>,
    /// The library while it is browsed; `None` in every other mode.
    pub library: Option<SnippetLibrary>,
    pub library_selected: usize,
    /// Where the library is stored; `None` when it cannot be determined.
    pub library_path: Option<String>,
}

impl App {
    /// The library view exists exactly while the library is browsed or one of
    /// its snippets is renamed, and a selection anchor only while a selection
    /// is made or given a title.
    pub open spec fn wf(&self) -> bool {
        &&& (self.mode == Mode::LibraryBrowse || self.mode == Mode::RenameInput) <==> self.library is Some
        &&& self.content.visual_anchor is Some ==> (self.mode == Mode::VisualSelect || self.mode
            == Mode::TitleInput)
    }
}

/// The node that an identifier path names: one segment is a root, two are a
/// file under a root.
pub open spec fn node_of(ids: Seq<Seq<char>>) -> Option<(Seq<char>, Option<Seq<char>>)> {
    if ids.len() == 1 {
        Some((ids[0], None))
    } else if ids.len() == 2 {
        Some((ids[0], Some(ids[1])))
    } else {
        None
    }
}

/// `r` asks to read the file that `ids` names, or is `None` when `ids` names
/// no file.
pub open spec fn reads_file_of(ids: Seq<Seq<char>>, r: Option<Request>) -> bool {
    if ids.len() == 2 {
        r matches Some(Request::ReadFile { path }) && path@ == ids[1]
    } else {
        r is None
    }
}

pub open spec fn status_is(t: App, msg: Seq<char>) -> bool {
    t.status_message matches Some(m) && m@ == msg
}

/// The number of snippets in the browsed library, 0 when none is loaded.
pub open spec fn library_len(s: App) -> nat {
    match s.library {
        Some(l) => l@.len(),
        None => 0,
    }
}

/// Where the selection goes after a delete leaves `n` snippets: it stays,
/// unless it is now past the end, then it goes to the last one (to 0 when
/// none is left).
pub open spec fn selection_after_delete(i: int, n: int) -> int {
    if n == 0 {
        0
    } else if i >= n {
        n - 1
    } else {
        i
    }
}

/// The identity of the selected file, the source of a saved snippet: the last
/// segment of the selected path, empty when nothing is selected.
pub open spec fn source_of(s: App) -> Seq<char> {
    let sel = tree_selected(s.tree_state);
    if sel.len() > 0 {
        sel.last()
    } else {
        Seq::<char>::empty()
    }
}

/// The text loaded for a file: its contents, or a note on why it could not be
/// read.
pub open spec fn loaded_text(path: Seq<char>, result: Result<String, String>) -> Seq<char> {
    match result {
        Ok(text) => text@,
        Err(e) => "Error reading "@ + path + ": "@ + e@,
    }
}

/// `t` is `s` back in `Normal` mode with no selection, an empty title and the
/// status `msg`.
pub open spec fn reset_with_status(s: App, t: App, msg: Seq<char>) -> bool {
    &&& t == App {
        mode: Mode::Normal,
        content: ContentState { visual_anchor: None, ..s.content },
        title_input: t.title_input,
        status_message: t.status_message,
        ..s
    }
    &&& t.title_input@.len() == 0
    &&& status_is(t, msg)
}

/// `t` is `s` with the status `msg` and nothing else changed.
pub open spec fn only_status(s: App, t: App, msg: Seq<char>) -> bool {
    &&& t == App { status_message: t.status_message, ..s }
    &&& status_is(t, msg)
}

/// What saving from `s` to the library at `p` does: a blank title is reported
/// and nothing else changes; without a selection the attempt ends in `Normal`
/// mode; otherwise the state stays and `r` asks to append the snippet with
/// the trimmed title, the selected lines and the selected file as source.
pub open spec fn saves_to(s: App, p: Seq<char>, t: App, r: Option<Request>) -> bool {
    if trimmed(s.title_input@).len() == 0 {
        r is None && only_status(s, t, "Title cannot be empty."@)
    } else if s.content.spec_selected_text() is None {
        r is None && reset_with_status(s, t, "No text selected."@)
    } else {
        &&& t == s
        &&& r matches Some(Request::AppendSnippet { path, snippet })
        &&& path@ == p
        &&& snippet@ == SnippetView {
            title: trimmed(s.title_input@),
            content: s.content.spec_selected_text()->0,
            source: source_of(s),
        }
    }
}

/// What a tree move leaves: only the tree state changes, and `r` asks to read
/// the file that is then selected, if one is.
pub open spec fn tree_moved(s: App, t: App, r: Option<Request>) -> bool {
    &&& t == (App { tree_state: t.tree_state, ..s })
    &&& reads_file_of(tree_selected(t.tree_state), r)
}

/// The keys that move in the file tree.
pub open spec fn is_tree_move(k: KeyCode) -> bool {
    match k {
        KeyCode::Down | KeyCode::Char('j') | KeyCode::Up | KeyCode::Char('k') | KeyCode::Left
        | KeyCode::Char('h') | KeyCode::Right | KeyCode::Char('l') => true,
        _ => false,
    }
}

/// What a key does in `Normal` mode with the file tree active.
pub open spec fn file_list_step(s: App, k: KeyCode, t: App, r: Option<Request>) -> bool {
    match k {
        KeyCode::Enter => if tree_selected(s.tree_state).len() == 1 {
            &&& t == (App { tree_state: t.tree_state, ..s })
            &&& after_toggle(s.tree_state, t.tree_state)
            &&& r is None
        } else {
            t == s && reads_file_of(tree_selected(s.tree_state), r)
        },
        KeyCode::Down | KeyCode::Char('j') | KeyCode::Up | KeyCode::Char('k') => {
            &&& tree_moved(s, t, r)
            &&& tree_opened(t.tree_state) == tree_opened(s.tree_state)
        },
        KeyCode::Left | KeyCode::Char('h') => {
            &&& tree_moved(s, t, r)
            &&& after_key_left(s.tree_state, t.tree_state)
        },
        KeyCode::Right | KeyCode::Char('l') => {
            &&& tree_moved(s, t, r)
            &&& after_key_right(s.tree_state, t.tree_state)
        },
        _ => t == s && r is None,
    }
}

/// What a key does in `Normal` mode with the content pane active.
pub open spec fn content_pane_step(s: App, k: KeyCode, t: App, r: Option<Request>) -> bool {
    match k {
        KeyCode::Down | KeyCode::Char('j') => t == (App { content: s.content.after_down(), ..s })
            && r is None,
        KeyCode::Up | KeyCode::Char('k') => t == (App { content: s.content.after_up(), ..s })
            && r is None,
        KeyCode::PageDown => t == (App { content: s.content.after_page_down(), ..s }) && r is None,
        KeyCode::PageUp => t == (App { content: s.content.after_page_up(), ..s }) && r is None,
        KeyCode::Char('v') => r is None && t == (App {
            content: ContentState { visual_anchor: Some(s.content.cursor), ..s.content },
            mode: Mode::VisualSelect,
            ..s
        }),
        KeyCode::Char('L') => match s.library_path {
            None => r is None && only_status(s, t, "Cannot determine library path."@),
            Some(p) => t == s && (r matches Some(Request::LoadLibrary { path }) && path@ == p@),
        },
        _ => t == s && r is None,
    }
}

/// What a key does in `Normal` mode: q quits, Tab switches panes, and the
/// rest depends on the active pane.
pub open spec fn normal_step(s: App, k: KeyCode, t: App, r: Option<Request>) -> bool {
    match k {
        KeyCode::Char('q') => t == (App { exit: true, ..s }) && r is None,
        KeyCode::Tab => r is None && t == (App {
            active_pane: if s.active_pane == Pane::FileList {
                Pane::Content
            } else {
                Pane::FileList
            },
            ..s
        }),
        _ => if s.active_pane == Pane::FileList {
            file_list_step(s, k, t, r)
        } else {
            content_pane_step(s, k, t, r)
        },
    }
}

/// What a key does in `VisualSelect` mode.
pub open spec fn visual_select_step(s: App, k: KeyCode, t: App, r: Option<Request>) -> bool {
    &&& r is None
    &&& match k {
        KeyCode::Esc => t == (App {
            content: ContentState { visual_anchor: None, ..s.content },
            mode: Mode::Normal,
            ..s
        }),
        KeyCode::Down | KeyCode::Char('j') => t == (App { content: s.content.after_down(), ..s }),
        KeyCode::Up | KeyCode::Char('k') => t == (App { content: s.content.after_up(), ..s }),
        KeyCode::Char('s') => t == (App {
            title_input: t.title_input,
            mode: Mode::TitleInput,
            ..s
        }) && t.title_input@.len() == 0,
        _ => t == s,
    }
}

/// What an editing key does to the typed title: Backspace removes the last
/// character, a character is appended.
pub open spec fn edits_title(s: App, k: KeyCode, t: App) -> bool {
    &&& t == (App { title_input: t.title_input, ..s })
    &&& match k {
        KeyCode::Backspace => t.title_input@ == (if s.title_input@.len() > 0 {
            s.title_input@.drop_last()
        } else {
            s.title_input@
        }),
        KeyCode::Char(c) => t.title_input@ == s.title_input@.push(c),
        _ => t.title_input == s.title_input,
    }
}

/// What a key does in `TitleInput` mode.
pub open spec fn title_input_step(s: App, k: KeyCode, t: App, r: Option<Request>) -> bool {
    match k {
        KeyCode::Esc => r is None && t == (App {
            title_input: t.title_input,
            mode: Mode::VisualSelect,
            ..s
        }) && t.title_input@.len() == 0,
        KeyCode::Enter => match s.library_path {
            None => r is None && reset_with_status(s, t, "Cannot determine library path."@),
            Some(p) => saves_to(s, p@, t, r),
        },
        _ => r is None && edits_title(s, k, t),
    }
}

/// What a key does in `LibraryBrowse` mode.
pub open spec fn library_browse_step(s: App, k: KeyCode, t: App, r: Option<Request>) -> bool {
    match k {
        KeyCode::Esc | KeyCode::Char('q') => r is None && t == (App {
            library: None,
            mode: Mode::Normal,
            ..s
        }),
        KeyCode::Down | KeyCode::Char('j') => r is None && t == (App {
            library_selected: if s.library_selected + 1 < library_len(s) {
                (s.library_selected + 1) as usize
            } else {
                s.library_selected
            },
            ..s
        }),
        KeyCode::Up | KeyCode::Char('k') => r is None && t == (App {
            library_selected: if s.library_selected > 0 {
                (s.library_selected - 1) as usize
            } else {
                0
            },
            ..s
        }),
        KeyCode::Char('d') => match s.library_path {
            None => r is None && only_status(s, t, "Cannot determine library path."@),
            Some(p) => t == s && (if library_len(s) == 0 {
                r is None
            } else {
                r matches Some(Request::DeleteSnippet { path, index }) && path@ == p@ && index
                    == s.library_selected
            }),
        },
        KeyCode::Char('r') => r is None && if s.library_selected < library_len(s) {
            &&& t == (App { title_input: t.title_input, mode: Mode::RenameInput, ..s })
            &&& t.title_input@ == s.library->0@[s.library_selected as int].title
        } else {
            t == s
        },
        _ => t == s && r is None,
    }
}

/// What a key does in `RenameInput` mode.
pub open spec fn rename_input_step(s: App, k: KeyCode, t: App, r: Option<Request>) -> bool {
    match k {
        KeyCode::Esc => r is None && t == (App {
            title_input: t.title_input,
            mode: Mode::LibraryBrowse,
            ..s
        }) && t.title_input@.len() == 0,
        KeyCode::Enter => match s.library_path {
            None => {
                &&& r is None
                &&& t == (App {
                    title_input: t.title_input,
                    status_message: t.status_message,
                    mode: Mode::LibraryBrowse,
                    ..s
                })
                &&& t.title_input@.len() == 0
                &&& status_is(t, "Cannot determine library path."@)
            },
            Some(p) => if trimmed(s.title_input@).len() == 0 {
                r is None && only_status(s, t, "Title cannot be empty."@)
            } else {
                &&& t == s
                &&& r matches Some(Request::RenameSnippet { path, index, title })
                &&& path@ == p@
                &&& index == s.library_selected
                &&& title@ == trimmed(s.title_input@)
            },
        },
        _ => r is None && edits_title(s, k, t),
    }
}

/// What a key press does: Ctrl-C quits from every mode; any other key first
/// clears the status and then acts as the mode says.
pub open spec fn key_step(s: App, key: KeyEvent, t: App, r: Option<Request>) -> bool {
    if key.code == KeyCode::Char('c') && key.ctrl {
        t == (App { exit: true, status_message: None, ..s }) && r is None
    } else {
        let s1 = App { status_message: None, ..s };
        match s.mode {
            Mode::Normal => normal_step(s1, key.code, t, r),
            Mode::VisualSelect => visual_select_step(s1, key.code, t, r),
            Mode::TitleInput => title_input_step(s1, key.code, t, r),
            Mode::LibraryBrowse => library_browse_step(s1, key.code, t, r),
            Mode::RenameInput => rename_input_step(s1, key.code, t, r),
        }
    }
}

/// A title of white space only is refused: saving leaves the mode as it is,
/// reports the empty title and asks for no write.
pub proof fn lemma_blank_title_refused(s: App, p: Seq<char>, t: App, r: Option<Request>)
    requires
        forall|k: int| 0 <= k < s.title_input@.len() ==> is_space(#[trigger] s.title_input@[k]),
        saves_to(s, p, t, r),
    ensures
        t.mode == s.mode,
        status_is(t, "Title cannot be empty."@),
        r is None,
{
    lemma_blank_trims_to_empty(s.title_input@);
}

/// With a title that is not blank and an active selection, saving asks to
/// append one snippet whose content is the selected lines joined by
/// newlines: the stored list grows by exactly that snippet. Once the append
/// is reported the session is back in `Normal` mode with no selection.
pub proof fn lemma_save_appends_one(
    s: App,
    p: Seq<char>,
    t: App,
    r: Option<Request>,
    stored: Seq<SnippetView>,
    u: App,
    msg: Seq<char>,
)
    requires
        trimmed(s.title_input@).len() > 0,
        s.content.spec_selected_text() is Some,
        saves_to(s, p, t, r),
        reset_with_status(t, u, msg),
    ensures
        r matches Some(Request::AppendSnippet { path, snippet }) && {
            &&& path@ == p
            &&& stored.push(snippet@).len() == stored.len() + 1
            &&& stored.push(snippet@).drop_last() == stored
            &&& snippet@.content == s.content.spec_selected_text()->0
            &&& snippet@.title == trimmed(s.title_input@)
        },
        u.mode == Mode::Normal,
        u.content.visual_anchor is None,
        u.title_input@.len() == 0,
{
    assert(r matches Some(Request::AppendSnippet { path, snippet }));
    let snippet = r->0->AppendSnippet_snippet;
    assert(stored.push(snippet@).drop_last() =~= stored);
}

/// Deleting the selected snippet and reading the library back: deleting the
/// only snippet leaves an empty library with the selection at 0; deleting any
/// but the last keeps the selected index, which now holds the snippet that
/// followed; deleting the last of several selects the new last one.
pub proof fn lemma_delete_renormalizes(lib: Seq<SnippetView>, i: int)
    requires
        0 <= i < lib.len(),
    ensures
        lib.len() == 1 ==> lib.remove(i).len() == 0 && selection_after_delete(i, 0) == 0,
        i < lib.len() - 1 ==> {
            &&& selection_after_delete(i, lib.remove(i).len() as int) == i
            &&& lib.remove(i)[i] == lib[i + 1]
        },
        1 < lib.len() && i == lib.len() - 1 ==> selection_after_delete(
            i,
            lib.remove(i).len() as int,
        ) == lib.remove(i).len() - 1,
{
}

/// Every key press keeps the session well formed.
pub proof fn lemma_key_step_keeps_wf(s: App, key: KeyEvent, t: App, r: Option<Request>)
    requires
        s.wf(),
        key_step(s, key, t, r),
    ensures
        t.wf(),
{
}

/// Finds the node that an identifier path names.
pub fn tree_node(ids: &Vec<String>) -> (r: Option<TreeNode>)
    ensures
        match r {
            Some(TreeNode::Root(p)) => node_of(ids_view(ids@)) == Some((p@, None::<Seq<char>>)),
            Some(TreeNode::File(p, f)) => node_of(ids_view(ids@)) == Some((p@, Some(f@))),
            None => node_of(ids_view(ids@)) is None,
        },
{
    if ids.len() == 1 {
        Some(TreeNode::Root(ids[0].clone()))
    } else if ids.len() == 2 {
        Some(TreeNode::File(ids[0].clone(), ids[1].clone()))
    } else {
        None
    }
}

impl App {
    /// A session over `roots`: every root open, the first file of the first
    /// root selected (else the first node of the tree), nothing loaded yet.
    pub fn new(roots: Vec<SourceRoot>, library_path: Option<String>) -> (r: App)
        ensures
            !r.exit,
            r.mode == Mode::Normal,
            r.active_pane == Pane::FileList,
            r.content.text is None,
            r.content.cursor == 0,
            r.content.scroll == 0,
            r.content.visual_anchor is None,
            r.content.viewport_height == 0,
            r.title_input@.len() == 0,
            r.status_message is None,
            r.library is None,
            r.library_selected == 0,
            r.library_path == library_path,
            r.wf(),
            tree_opened(r.tree_state) == Set::new(
                |ids: Seq<Seq<char>>|
                    exists|i: int| 0 <= i < roots@.len() && ids == seq![roots@[i].path@],
            ),
            roots@.len() > 0 && roots@[0].files@.len() > 0 ==> tree_selected(r.tree_state) == seq![
                roots@[0].path@,
                roots@[0].files@[0]@,
            ],
            !(roots@.len() > 0 && roots@[0].files@.len() > 0) ==> tree_selected(r.tree_state).len()
                == 0,
    {
        let mut tree_state = new_tree_state();
        let mut i: usize = 0;
        proof {
            assert(tree_opened(tree_state) =~= Set::new(
                |ids: Seq<Seq<char>>|
                    exists|j: int| 0 <= j < 0 && ids == seq![roots@[j].path@],
            ));
        }
        while i < roots.len()
            invariant
                i <= roots.len(),
                tree_opened(tree_state) == Set::new(
                    |ids: Seq<Seq<char>>|
                        exists|j: int| 0 <= j < i && ids == seq![roots@[j].path@],
                ),
                tree_rendered(tree_state).len() == 0,
            decreases roots.len() - i,
        {
            let id = vec![roots[i].path.clone()];
            let ghost before = tree_opened(tree_state);
            open_node(&mut tree_state, id);
            proof {
                assert(ids_view(id@) =~= seq![roots@[i as int].path@]);
                assert(tree_opened(tree_state) =~= Set::new(
                    |ids: Seq<Seq<char>>|
                        exists|j: int| 0 <= j < i + 1 && ids == seq![roots@[j].path@],
                )) by {
                    assert forall|ids: Seq<Seq<char>>|
                        (exists|j: int| 0 <= j < i + 1 && ids == seq![roots@[j].path@])
                            implies #[trigger] tree_opened(tree_state).contains(ids) by {
                        let j = choose|j: int| 0 <= j < i + 1 && ids == seq![roots@[j].path@];
                        if j < i {
                            assert(before.contains(ids));
                        }
                    }
                }
            }
            i = i + 1;
        }
        if roots.len() > 0 && roots[0].files.len() > 0 {
            let first = vec![roots[0].path.clone(), roots[0].files[0].clone()];
            select_node(&mut tree_state, first);
            proof {
                assert(ids_view(first@) =~= seq![roots@[0].path@, roots@[0].files@[0]@]);
            }
        } else {
            select_first_node(&mut tree_state);
        }
        App {
            exit: false,
            mode: Mode::Normal,
            tree_state,
            active_pane: Pane::FileList,
            content: ContentState::new(),
            title_input: String::new(),
            status_message: None,
            library: None,
            library_selected: 0,
            library_path,
        }
    }

    /// Asks to read the selected file; nothing when a root (or nothing) is
    /// selected.
    pub fn load_selected_content(&self) -> (r: Option<Request>)
        ensures
            reads_file_of(tree_selected(self.tree_state), r),
    {
        let ids = selected_ids(&self.tree_state);
        match tree_node(&ids) {
            Some(TreeNode::File(_, file)) => Some(Request::ReadFile { path: file }),
            _ => None,
        }
    }

    /// Enter on the tree: a selected root is opened or closed, a selected file
    /// is loaded.
    pub fn select_tree_item(&mut self) -> (r: Option<Request>)
        ensures
            tree_selected(old(self).tree_state).len() == 1 ==> {
                &&& *final(self) == (App { tree_state: final(self).tree_state, ..*old(self) })
                &&& after_toggle(old(self).tree_state, final(self).tree_state)
                &&& r is None
            },
            tree_selected(old(self).tree_state).len() != 1 ==> {
                &&& *final(self) == *old(self)
                &&& reads_file_of(tree_selected(old(self).tree_state), r)
            },
    {
        let ids = selected_ids(&self.tree_state);
        match tree_node(&ids) {
            Some(TreeNode::Root(_)) => {
                toggle_selected_node(&mut self.tree_state);
                None
            },
            Some(TreeNode::File(_, file)) => Some(Request::ReadFile { path: file }),
            None => None,
        }
    }

    /// The outcome of reading `path`: its text, or a note on the failure, is
    /// loaded into the content pane, with cursor, scroll and selection reset.
    pub fn file_loaded(&mut self, path: &str, result: Result<String, String>)
        ensures
            *final(self) == (App { content: final(self).content, ..*old(self) }),
            (final(self).content.text matches Some(t) && t@ == expand_tabs(
                loaded_text(path@, result),
            )),
            final(self).content.cursor == 0,
            final(self).content.scroll == 0,
            final(self).content.visual_anchor is None,
            final(self).content.viewport_height == old(self).content.viewport_height,
            old(self).wf() ==> final(self).wf(),
    {
        let ghost outcome = result;
        let text = match result {
            Ok(text) => text,
            Err(e) => {
                let head = joined("Error reading ", path);
                let note = joined(head.as_str(), joined(": ", e.as_str()).as_str());
                proof {
                    assert(note@ =~= loaded_text(path@, outcome));
                }
                note
            },
        };
        self.content.load_text(text);
    }

    /// Back to `Normal` mode with no selection and an empty title.
    pub fn reset_to_normal(&mut self)
        ensures
            *final(self) == (App {
                mode: Mode::Normal,
                content: ContentState { visual_anchor: None, ..old(self).content },
                title_input: final(self).title_input,
                ..*old(self)
            }),
            final(self).title_input@.len() == 0,
    {
        self.mode = Mode::Normal;
        self.content.visual_anchor = None;
        self.title_input = String::new();
    }

    /// The identity of the selected file, stored as a snippet's source.
    pub fn current_source_path(&self) -> (r: String)
        ensures
            r@ == source_of(*self),
    {
        let ids = selected_ids(&self.tree_state);
        if ids.len() > 0 {
            ids[ids.len() - 1].clone()
        } else {
            String::new()
        }
    }

    /// Enter in `TitleInput`: saves the selection under the typed title to the
    /// configured library.
    pub fn save_current_snippet(&mut self) -> (r: Option<Request>)
        ensures
            old(self).library_path is None ==> r is None && reset_with_status(
                *old(self),
                *final(self),
                "Cannot determine library path."@,
            ),
            old(self).library_path matches Some(p) ==> saves_to(*old(self), p@, *final(self), r),
    {
        match &self.library_path {
            Some(path) => {
                let path = path.clone();
                self.save_current_snippet_to(path.as_str())
            },
            None => {
                self.status_message = Some("Cannot determine library path.".to_string());
                self.reset_to_normal();
                None
            },
        }
    }

    /// Checks the title and the selection and asks to append the snippet to
    /// the library at `path`. A blank title leaves the mode as it is so that
    /// it can be corrected; a missing selection ends the attempt.
    pub fn save_current_snippet_to(&mut self, path: &str) -> (r: Option<Request>)
        ensures
            saves_to(*old(self), path@, *final(self), r),
    {
        let title = trim_white_space(self.title_input.as_str());
        if title.unicode_len() == 0 {
            self.status_message = Some("Title cannot be empty.".to_string());
            return None;
        }
        let selected_text = match self.content.selected_text() {
            Some(text) => text,
            None => {
                self.status_message = Some("No text selected.".to_string());
                self.reset_to_normal();
                return None;
            },
        };
        let source = self.current_source_path();
        let snippet = Snippet { title, content: selected_text, source };
        Some(Request::AppendSnippet { path: path.to_string(), snippet })
    }

    /// The outcome of appending the snippet: a status that says whether it
    /// was saved, and back to `Normal` mode.
    pub fn snippet_saved(&mut self, result: Result<(), String>)
        ensures
            result is Ok ==> reset_with_status(*old(self), *final(self), "Snippet saved!"@),
            result matches Err(e) ==> reset_with_status(
                *old(self),
                *final(self),
                "Save failed: "@ + e@,
            ),
            old(self).wf() && old(self).mode == Mode::TitleInput ==> final(self).wf(),
    {
        match result {
            Ok(()) => {
                self.status_message = Some("Snippet saved!".to_string());
            },
            Err(e) => {
                self.status_message = Some(joined("Save failed: ", e.as_str()));
            },
        }
        self.reset_to_normal();
    }

    /// L in the content pane: asks to load the library.
    pub fn enter_library_browse(&mut self) -> (r: Option<Request>)
        ensures
            old(self).library_path is None ==> r is None && only_status(
                *old(self),
                *final(self),
                "Cannot determine library path."@,
            ),
            old(self).library_path matches Some(p) ==> *final(self) == *old(self) && (r matches Some(
                Request::LoadLibrary { path },
            ) && path@ == p@),
    {
        match &self.library_path {
            Some(path) => Some(Request::LoadLibrary { path: path.clone() }),
            None => {
                self.status_message = Some("Cannot determine library path.".to_string());
                None
            },
        }
    }

    /// The outcome of loading the library: browse it from its first snippet,
    /// or stay and report the failure.
    pub fn enter_library_browse_from(&mut self, loaded: Result<SnippetLibrary, String>)
        ensures
            loaded matches Ok(lib) ==> *final(self) == (App {
                library: Some(lib),
                library_selected: 0,
                mode: Mode::LibraryBrowse,
                ..*old(self)
            }),
            loaded matches Err(e) ==> only_status(
                *old(self),
                *final(self),
                "Failed to load library: "@ + e@,
            ),
            old(self).wf() && old(self).mode == Mode::Normal ==> final(self).wf(),
    {
        match loaded {
            Ok(lib) => {
                self.library = Some(lib);
                self.library_selected = 0;
                self.mode = Mode::LibraryBrowse;
            },
            Err(e) => {
                self.status_message = Some(joined("Failed to load library: ", e.as_str()));
            },
        }
    }

    /// d in `LibraryBrowse`: asks to delete the selected snippet; nothing
    /// when the library is empty.
    pub fn delete_library_snippet(&mut self) -> (r: Option<Request>)
        ensures
            old(self).library_path is None ==> r is None && only_status(
                *old(self),
                *final(self),
                "Cannot determine library path."@,
            ),
            old(self).library_path matches Some(p) ==> *final(self) == *old(self) && (if library_len(
                *old(self),
            ) == 0 {
                r is None
            } else {
                r matches Some(Request::DeleteSnippet { path, index }) && path@ == p@ && index
                    == old(self).library_selected
            }),
    {
        match &self.library_path {
            Some(path) => {
                let count = match &self.library {
                    Some(lib) => lib.snippets.len(),
                    None => 0,
                };
                if count == 0 {
                    return None;
                }
                Some(Request::DeleteSnippet { path: path.clone(), index: self.library_selected })
            },
            None => {
                self.status_message = Some("Cannot determine library path.".to_string());
                None
            },
        }
    }

    /// The outcome of deleting a snippet and reading the library back: the
    /// view shows what was read, and the selection stays on its index unless
    /// that is now past the end. On an empty library nothing happens.
    pub fn delete_library_snippet_from(
        &mut self,
        deleted: Result<(), String>,
        reloaded: Option<SnippetLibrary>,
    )
        ensures
            library_len(*old(self)) == 0 ==> *final(self) == *old(self),
            library_len(*old(self)) > 0 && deleted is Ok ==> status_is(
                *final(self),
                "Snippet deleted."@,
            ) && match reloaded {
                Some(lib) => *final(self) == (App {
                    library: Some(lib),
                    library_selected: selection_after_delete(
                        old(self).library_selected as int,
                        lib@.len() as int,
                    ) as usize,
                    status_message: final(self).status_message,
                    ..*old(self)
                }),
                None => *final(self) == (App {
                    status_message: final(self).status_message,
                    ..*old(self)
                }),
            },
            library_len(*old(self)) > 0 && deleted is Err ==> only_status(
                *old(self),
                *final(self),
                "Delete failed: "@ + deleted->Err_0@,
            ),
            old(self).wf() && old(self).mode == Mode::LibraryBrowse ==> final(self).wf(),
    {
        let count = match &self.library {
            Some(lib) => lib.snippets.len(),
            None => 0,
        };
        if count == 0 {
            return;
        }
        match deleted {
            Ok(()) => {
                if let Some(lib) = reloaded {
                    let new_len = lib.snippets.len();
                    self.library = Some(lib);
                    if self.library_selected >= new_len && new_len > 0 {
                        self.library_selected = new_len - 1;
                    } else if new_len == 0 {
                        self.library_selected = 0;
                    }
                }
                self.status_message = Some("Snippet deleted.".to_string());
            },
            Err(e) => {
                self.status_message = Some(joined("Delete failed: ", e.as_str()));
            },
        }
    }

    /// Enter in `RenameInput`: checks the title and asks to rename the
    /// selected snippet.
    pub fn rename_library_snippet(&mut self) -> (r: Option<Request>)
        ensures
            old(self).library_path is None ==> {
                &&& r is None
                &&& *final(self) == (App {
                    title_input: final(self).title_input,
                    status_message: final(self).status_message,
                    mode: Mode::LibraryBrowse,
                    ..*old(self)
                })
                &&& final(self).title_input@.len() == 0
                &&& status_is(*final(self), "Cannot determine library path."@)
            },
            old(self).library_path matches Some(p) ==> if trimmed(old(self).title_input@).len()
                == 0 {
                r is None && only_status(*old(self), *final(self), "Title cannot be empty."@)
            } else {
                &&& *final(self) == *old(self)
                &&& r matches Some(Request::RenameSnippet { path, index, title })
                &&& path@ == p@
                &&& index == old(self).library_selected
                &&& title@ == trimmed(old(self).title_input@)
            },
    {
        let path = match &self.library_path {
            Some(path) => path.clone(),
            None => {
                self.status_message = Some("Cannot determine library path.".to_string());
                self.title_input = String::new();
                self.mode = Mode::LibraryBrowse;
                return None;
            },
        };
        let new_title = trim_white_space(self.title_input.as_str());
        if new_title.unicode_len() == 0 {
            self.status_message = Some("Title cannot be empty.".to_string());
            return None;
        }
        Some(Request::RenameSnippet { path, index: self.library_selected, title: new_title })
    }

    /// The outcome of renaming a snippet and reading the library back: the
    /// view shows what was read, the title is cleared and browsing goes on,
    /// whether or not the write succeeded. A blank title is reported instead,
    /// and the title stays to be corrected.
    pub fn rename_library_snippet_from(
        &mut self,
        renamed: Result<(), String>,
        reloaded: Option<SnippetLibrary>,
    )
        ensures
            trimmed(old(self).title_input@).len() == 0 ==> only_status(
                *old(self),
                *final(self),
                "Title cannot be empty."@,
            ),
            trimmed(old(self).title_input@).len() > 0 ==> {
                &&& *final(self) == (App {
                    library: final(self).library,
                    title_input: final(self).title_input,
                    status_message: final(self).status_message,
                    mode: Mode::LibraryBrowse,
                    ..*old(self)
                })
                &&& final(self).title_input@.len() == 0
                &&& renamed is Ok ==> status_is(*final(self), "Snippet renamed."@)
                    && final(self).library == (match reloaded {
                    Some(lib) => Some(lib),
                    None => old(self).library,
                })
                &&& renamed is Err ==> status_is(
                    *final(self),
                    "Rename failed: "@ + renamed->Err_0@,
                ) && final(self).library == old(self).library
            },
            old(self).wf() && old(self).mode == Mode::RenameInput ==> final(self).wf(),
    {
        let title = trim_white_space(self.title_input.as_str());
        if title.unicode_len() == 0 {
            self.status_message = Some("Title cannot be empty.".to_string());
            return;
        }
        match renamed {
            Ok(()) => {
                if let Some(lib) = reloaded {
                    self.library = Some(lib);
                }
                self.status_message = Some("Snippet renamed.".to_string());
            },
            Err(e) => {
                self.status_message = Some(joined("Rename failed: ", e.as_str()));
            },
        }
        self.title_input = String::new();
        self.mode = Mode::LibraryBrowse;
    }
    /// Handles one key press; see `key_step`.
    pub fn handle_key_event(&mut self, key: KeyEvent) -> (r: Option<Request>)
        ensures
            key_step(*old(self), key, *final(self), r),
    {
        self.status_message = None;
        if key.ctrl {
            if let KeyCode::Char('c') = key.code {
                self.exit = true;
                return None;
            }
        }
        match self.mode {
            Mode::Normal => self.handle_normal_key(key.code),
            Mode::VisualSelect => {
                self.handle_visual_select_key(key.code);
                None
            },
            Mode::TitleInput => self.handle_title_input_key(key.code),
            Mode::LibraryBrowse => self.handle_library_browse_key(key.code),
            Mode::RenameInput => self.handle_rename_input_key(key.code),
        }
    }

    fn move_in_tree(&mut self, code: KeyCode) -> (r: Option<Request>)
        requires
            is_tree_move(code),
        ensures
            file_list_step(*old(self), code, *final(self), r),
    {
        match code {
            KeyCode::Down | KeyCode::Char('j') => tree_key_down(&mut self.tree_state),
            KeyCode::Up | KeyCode::Char('k') => tree_key_up(&mut self.tree_state),
            KeyCode::Left | KeyCode::Char('h') => tree_key_left(&mut self.tree_state),
            _ => tree_key_right(&mut self.tree_state),
        }
        self.load_selected_content()
    }

    pub fn handle_normal_key(&mut self, code: KeyCode) -> (r: Option<Request>)
        ensures
            normal_step(*old(self), code, *final(self), r),
    {
        match code {
            KeyCode::Char('q') => {
                self.exit = true;
                return None;
            },
            KeyCode::Tab => {
                self.active_pane = match self.active_pane {
                    Pane::FileList => Pane::Content,
                    Pane::Content => Pane::FileList,
                };
                return None;
            },
            _ => {},
        }
        match self.active_pane {
            Pane::FileList => match code {
                KeyCode::Enter => self.select_tree_item(),
                KeyCode::Down | KeyCode::Char('j') | KeyCode::Up | KeyCode::Char('k')
                | KeyCode::Left | KeyCode::Char('h') | KeyCode::Right | KeyCode::Char('l') => {
                    self.move_in_tree(code)
                },
                _ => None,
            },
            Pane::Content => match code {
                KeyCode::Down | KeyCode::Char('j') => {
                    self.content.cursor_down();
                    None
                },
                KeyCode::Up | KeyCode::Char('k') => {
                    self.content.cursor_up();
                    None
                },
                KeyCode::PageDown => {
                    self.content.cursor_page_down();
                    None
                },
                KeyCode::PageUp => {
                    self.content.cursor_page_up();
                    None
                },
                KeyCode::Char('v') => {
                    self.content.visual_anchor = Some(self.content.cursor);
                    self.mode = Mode::VisualSelect;
                    None
                },
                KeyCode::Char('L') => self.enter_library_browse(),
                _ => None,
            },
        }
    }

    pub fn handle_visual_select_key(&mut self, code: KeyCode)
        ensures
            visual_select_step(*old(self), code, *final(self), None),
    {
        match code {
            KeyCode::Esc => {
                self.content.visual_anchor = None;
                self.mode = Mode::Normal;
            },
            KeyCode::Down | KeyCode::Char('j') => {
                self.content.cursor_down();
            },
            KeyCode::Up | KeyCode::Char('k') => {
                self.content.cursor_up();
            },
            KeyCode::Char('s') => {
                self.title_input = String::new();
                self.mode = Mode::TitleInput;
            },
            _ => {},
        }
    }

    fn edit_title(&mut self, code: KeyCode)
        ensures
            edits_title(*old(self), code, *final(self)),
    {
        match code {
            KeyCode::Backspace => pop_char(&mut self.title_input),
            KeyCode::Char(c) => push_char(&mut self.title_input, c),
            _ => {},
        }
    }

    pub fn handle_title_input_key(&mut self, code: KeyCode) -> (r: Option<Request>)
        ensures
            title_input_step(*old(self), code, *final(self), r),
    {
        match code {
            KeyCode::Esc => {
                self.title_input = String::new();
                self.mode = Mode::VisualSelect;
                None
            },
            KeyCode::Enter => self.save_current_snippet(),
            _ => {
                self.edit_title(code);
                None
            },
        }
    }

    pub fn handle_library_browse_key(&mut self, code: KeyCode) -> (r: Option<Request>)
        ensures
            library_browse_step(*old(self), code, *final(self), r),
    {
        match code {
            KeyCode::Esc | KeyCode::Char('q') => {
                self.library = None;
                self.mode = Mode::Normal;
                None
            },
            KeyCode::Down | KeyCode::Char('j') => {
                let len = match &self.library {
                    Some(lib) => lib.snippets.len(),
                    None => 0,
                };
                if self.library_selected < len.saturating_sub(1) {
                    self.library_selected = self.library_selected + 1;
                }
                None
            },
            KeyCode::Up | KeyCode::Char('k') => {
                self.library_selected = self.library_selected.saturating_sub(1);
                None
            },
            KeyCode::Char('d') => self.delete_library_snippet(),
            KeyCode::Char('r') => {
                let title = match &self.library {
                    Some(lib) => {
                        if self.library_selected < lib.snippets.len() {
                            Some(lib.snippets[self.library_selected].title.clone())
                        } else {
                            None
                        }
                    },
                    None => None,
                };
                if let Some(title) = title {
                    self.title_input = title;
                    self.mode = Mode::RenameInput;
                }
                None
            },
            _ => None,
        }
    }

    pub fn handle_rename_input_key(&mut self, code: KeyCode) -> (r: Option<Request>)
        ensures
            rename_input_step(*old(self), code, *final(self), r),
    {
        match code {
            KeyCode::Esc => {
                self.title_input = String::new();
                self.mode = Mode::LibraryBrowse;
                None
            },
            KeyCode::Enter => self.rename_library_snippet(),
            _ => {
                self.edit_title(code);
                None
            },
        }
    }
}

} // verus!
