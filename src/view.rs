use vstd::prelude::*;

use crate::chars::push_all;
use crate::content::ContentState;
use crate::library::SnippetLibrary;
use crate::model::decimal;
use crate::model::decimal_text;
use crate::session::App;
use crate::session::Mode;
use crate::session::Pane;

verus! {

/// The key legend of the help bar, as pairs of a key and what it does; it
/// depends on the mode and, in `Normal` mode, on the active pane.
pub open spec fn help_legend(mode: Mode, pane: Pane) -> Seq<(Seq<char>, Seq<char>)> {
    match mode {
        Mode::Normal => if pane == Pane::Content {
            seq![
                ("q"@, "Quit"@),
                ("Tab"@, "Files"@),
                ("j/k"@, "Scroll"@),
                ("v"@, "Select"@),
                ("L"@, "Library"@),
            ]
        } else {
            seq![("q"@, "Quit"@), ("Tab"@, "Content"@), ("j/k"@, "Navigate"@), ("Enter"@, "Open"@)]
        },
        Mode::VisualSelect => seq![("j/k"@, "Extend"@), ("s"@, "Save"@), ("Esc"@, "Cancel"@)],
        Mode::TitleInput => seq![("Enter"@, "Save"@), ("Esc"@, "Cancel"@)],
        Mode::LibraryBrowse => seq![
            ("j/k"@, "Navigate"@),
            ("r"@, "Rename"@),
            ("d"@, "Delete"@),
            ("Esc"@, "Back"@),
        ],
        Mode::RenameInput => seq![("Enter"@, "Save"@), ("Esc"@, "Cancel"@)],
    }
}

pub open spec fn pair_views(pairs: Seq<(&str, &str)>) -> Seq<(Seq<char>, Seq<char>)> {
    pairs.map_values(|p: (&str, &str)| (p.0@, p.1@))
}

/// The help bar's key legend.
pub fn help_pairs(mode: Mode, pane: Pane) -> (r: Vec<(&'static str, &'static str)>)
    ensures
        pair_views(r@) == help_legend(mode, pane),
{
    let r = match mode {
        Mode::Normal => match pane {
            Pane::Content => vec![
                ("q", "Quit"),
                ("Tab", "Files"),
                ("j/k", "Scroll"),
                ("v", "Select"),
                ("L", "Library"),
            ],
            Pane::FileList => vec![("q", "Quit"), ("Tab", "Content"), ("j/k", "Navigate"), ("Enter", "Open")],
        },
        Mode::VisualSelect => vec![("j/k", "Extend"), ("s", "Save"), ("Esc", "Cancel")],
        Mode::TitleInput => vec![("Enter", "Save"), ("Esc", "Cancel")],
        Mode::LibraryBrowse => vec![("j/k", "Navigate"), ("r", "Rename"), ("d", "Delete"), ("Esc", "Back")],
        Mode::RenameInput => vec![("Enter", "Save"), ("Esc", "Cancel")],
    };
    proof {
        assert(pair_views(r@) =~= help_legend(mode, pane));
    }
    r
}

/// The input or status bar shows while a title is typed or a status is
/// pending.
pub fn shows_input_bar(mode: Mode, has_status: bool) -> (r: bool)
    ensures
        r == (mode == Mode::TitleInput || mode == Mode::RenameInput || has_status),
{
    match mode {
        Mode::TitleInput | Mode::RenameInput => true,
        _ => has_status,
    }
}

/// The title of the input bar in the modes where a title is typed.
pub fn input_bar_title(mode: Mode) -> (r: Option<&'static str>)
    ensures
        mode == Mode::TitleInput ==> (r matches Some(t) && t@ == "Snippet title"@),
        mode == Mode::RenameInput ==> (r matches Some(t) && t@ == "Rename snippet"@),
        mode != Mode::TitleInput && mode != Mode::RenameInput ==> r is None,
{
    match mode {
        Mode::TitleInput => Some("Snippet title"),
        Mode::RenameInput => Some("Rename snippet"),
        _ => None,
    }
}

/// The content pane's title: while a selection is made or saved it names the
/// selected lines, counted from 1.
pub open spec fn content_title_text(c: ContentState, mode: Mode) -> Seq<char> {
    if mode == Mode::VisualSelect || mode == Mode::TitleInput {
        match c.spec_selection_range() {
            Some((start, end)) => "Content [VISUAL: lines "@ + decimal((start + 1) as nat) + "-"@ + decimal(
                (end + 1) as nat,
            ) + "]"@,
            None => "Content [VISUAL]"@,
        }
    } else {
        "Content"@
    }
}

pub fn content_title(content: &ContentState, mode: Mode) -> (r: String)
    ensures
        r@ == content_title_text(*content, mode),
{
    let mut out = String::new();
    match mode {
        Mode::VisualSelect | Mode::TitleInput => match content.selection_range() {
            Some((start, end)) => {
                push_all(&mut out, "Content [VISUAL: lines ");
                let first = decimal_text(start as u128 + 1);
                push_all(&mut out, first.as_str());
                push_all(&mut out, "-");
                let last = decimal_text(end as u128 + 1);
                push_all(&mut out, last.as_str());
                push_all(&mut out, "]");
            },
            None => push_all(&mut out, "Content [VISUAL]"),
        },
        _ => push_all(&mut out, "Content"),
    }
    out
}

/// How a line of the content pane is marked: highlighted inside the
/// selection, underlined under the cursor while the content pane is active.
pub fn line_marks(i: usize, selection: Option<(usize, usize)>, cursor: usize, show_cursor: bool) -> (r: (
    bool,
    bool,
))
    ensures
        r.0 == (selection matches Some((start, end)) && start <= i <= end),
        r.1 == (show_cursor && i == cursor),
{
    let highlighted = match selection {
        Some((start, end)) => start <= i && i <= end,
        None => false,
    };
    (highlighted, show_cursor && i == cursor)
}

/// The list title of a library that is not empty: `Library (<n> snippets)`.
pub fn library_list_title(n: usize) -> (r: String)
    ensures
        r@ == "Library ("@ + decimal(n as nat) + " snippets)"@,
{
    let mut out = String::new();
    push_all(&mut out, "Library (");
    let count = decimal_text(n as u128);
    push_all(&mut out, count.as_str());
    push_all(&mut out, " snippets)");
    out
}

/// The preview's title: `Preview: <title>` of the selected snippet, or
/// `Preview` when the index is past the end.
pub fn preview_title(lib: &SnippetLibrary, selected: usize) -> (r: String)
    ensures
        selected < lib@.len() ==> r@ == "Preview: "@ + lib@[selected as int].title,
        selected >= lib@.len() ==> r@ == "Preview"@,
{
    let mut out = String::new();
    if selected < lib.snippets.len() {
        push_all(&mut out, "Preview: ");
        push_all(&mut out, lib.snippets[selected].title.as_str());
    } else {
        push_all(&mut out, "Preview");
    }
    out
}

/// The preview's text: the selected snippet's content, empty when the index
/// is past the end.
pub fn preview_content(lib: &SnippetLibrary, selected: usize) -> (r: String)
    ensures
        selected < lib@.len() ==> r@ == lib@[selected as int].content,
        selected >= lib@.len() ==> r@.len() == 0,
{
    if selected < lib.snippets.len() {
        lib.snippets[selected].content.clone()
    } else {
        String::new()
    }
}

impl App {
    /// Records the content pane's height as rendered: the rows inside its
    /// border become the viewport height.
    pub fn record_content_height(&mut self, pane_height: u16)
        ensures
            *final(self) == (App {
                content: ContentState {
                    viewport_height: if pane_height >= 2 {
                        (pane_height - 2) as u16
                    } else {
                        0
                    },
                    ..old(self).content
                },
                ..*old(self)
            }),
    {
        self.content.viewport_height = pane_height.saturating_sub(2);
    }
}

} // verus!
