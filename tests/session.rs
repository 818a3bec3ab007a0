use jigolo::library::append_snippet;
use jigolo::library::delete_snippet;
use jigolo::library::rename_snippet;
use jigolo::library::Snippet;
use jigolo::library::SnippetLibrary;
use jigolo::model::SourceRoot;
use jigolo::session::App;
use jigolo::session::KeyCode;
use jigolo::session::KeyEvent;
use jigolo::session::Mode;
use jigolo::session::Pane;
use jigolo::session::Request;

const LIB: &str = "/lib/library.toml";

fn key_event(code: KeyCode) -> KeyEvent {
    KeyEvent { code, ctrl: false }
}

fn new_app(roots: Vec<SourceRoot>) -> App {
    App::new(roots, Some(LIB.to_string()))
}

fn sample_roots() -> Vec<SourceRoot> {
    vec![
        SourceRoot {
            path: "/a".to_string(),
            files: vec!["/a/NOTES.md".to_string()],
        },
        SourceRoot {
            path: "/b".to_string(),
            files: vec!["/b/NOTES.md".to_string(), "/b/sub/NOTES.md".to_string()],
        },
    ]
}

/// Does what a request asks against files and a library held in memory, and
/// hands the outcome back to the session.
fn serve(app: &mut App, req: Option<Request>, files: &[(&str, &str)], store: &mut SnippetLibrary) {
    match req {
        None => {}
        Some(Request::ReadFile { path }) => {
            let found = files.iter().find(|(p, _)| *p == path.as_str());
            let result = match found {
                Some((_, text)) => Ok(text.to_string()),
                None => Err("No such file or directory (os error 2)".to_string()),
            };
            app.file_loaded(&path, result);
        }
        Some(Request::LoadLibrary { path }) => {
            assert_eq!(path, LIB);
            app.enter_library_browse_from(Ok(store.clone()));
        }
        Some(Request::AppendSnippet { path, snippet }) => {
            assert_eq!(path, LIB);
            append_snippet(snippet, store);
            app.snippet_saved(Ok(()));
        }
        Some(Request::DeleteSnippet { path, index }) => {
            assert_eq!(path, LIB);
            delete_snippet(index, store);
            app.delete_library_snippet_from(Ok(()), Some(store.clone()));
        }
        Some(Request::RenameSnippet { path, index, title }) => {
            assert_eq!(path, LIB);
            rename_snippet(index, &title, store);
            app.rename_library_snippet_from(Ok(()), Some(store.clone()));
        }
    }
}

fn press(app: &mut App, code: KeyCode, files: &[(&str, &str)], store: &mut SnippetLibrary) {
    let req = app.handle_key_event(key_event(code));
    serve(app, req, files, store);
}

fn library_with_snippets(titles: &[&str]) -> SnippetLibrary {
    let mut lib = SnippetLibrary::default();
    for title in titles {
        append_snippet(
            Snippet {
                title: title.to_string(),
                content: format!("Content of {title}"),
                source: "/test/NOTES.md".to_string(),
            },
            &mut lib,
        );
    }
    lib
}

fn browsing(titles: &[&str]) -> (App, SnippetLibrary) {
    let mut store = library_with_snippets(titles);
    let mut app = new_app(vec![]);
    app.active_pane = Pane::Content;
    press(&mut app, KeyCode::Char('L'), &[], &mut store);
    (app, store)
}

#[test]
fn q_key_sets_exit() {
    let mut app = new_app(vec![]);
    app.handle_key_event(key_event(KeyCode::Char('q')));
    assert!(app.exit);
}

#[test]
fn other_keys_do_not_exit() {
    let mut app = new_app(vec![]);
    app.handle_key_event(key_event(KeyCode::Char('a')));
    assert!(!app.exit);
}

#[test]
fn tab_toggles_pane() {
    let mut app = new_app(sample_roots());
    assert_eq!(app.active_pane, Pane::FileList);

    app.handle_key_event(key_event(KeyCode::Tab));
    assert_eq!(app.active_pane, Pane::Content);

    app.handle_key_event(key_event(KeyCode::Tab));
    assert_eq!(app.active_pane, Pane::FileList);
}

#[test]
fn arrow_keys_ignored_when_content_pane_active() {
    let mut app = new_app(sample_roots());
    let initial_selected = app.tree_state.selected().to_vec();

    app.handle_key_event(key_event(KeyCode::Tab));
    assert_eq!(app.active_pane, Pane::Content);

    app.handle_key_event(key_event(KeyCode::Down));
    assert_eq!(app.tree_state.selected(), initial_selected);
}

#[test]
fn select_tree_item_on_root_toggles() {
    let mut app = new_app(sample_roots());

    app.tree_state.select(vec!["/a".to_string()]);

    assert!(
        app.tree_state.opened().contains(&vec!["/a".to_string()]),
        "Root /a should be open initially"
    );

    let req = app.handle_key_event(key_event(KeyCode::Enter));
    assert_eq!(req, None);
    assert!(
        !app.tree_state.opened().contains(&vec!["/a".to_string()]),
        "Root /a should be closed after toggle"
    );

    app.handle_key_event(key_event(KeyCode::Enter));
    assert!(
        app.tree_state.opened().contains(&vec!["/a".to_string()]),
        "Root /a should be open after second toggle"
    );
}

#[test]
fn first_file_is_selected_and_loaded_on_startup() {
    let files = [("/tmp/t/NOTES.md", "Test content")];
    let roots = vec![SourceRoot {
        path: "/tmp/t".to_string(),
        files: vec!["/tmp/t/NOTES.md".to_string()],
    }];
    let mut app = new_app(roots);
    let mut store = SnippetLibrary::default();
    let req = app.load_selected_content();
    serve(&mut app, req, &files, &mut store);

    assert_eq!(app.content.text.as_deref(), Some("Test content"));
    assert_eq!(
        app.tree_state.selected(),
        vec!["/tmp/t".to_string(), "/tmp/t/NOTES.md".to_string()]
    );
}

#[test]
fn select_tree_item_loads_file_content() {
    let files = [
        ("/tmp/t/NOTES.md", "First content"),
        ("/tmp/t/sub/NOTES.md", "Second content"),
    ];
    let roots = vec![SourceRoot {
        path: "/tmp/t".to_string(),
        files: vec!["/tmp/t/NOTES.md".to_string(), "/tmp/t/sub/NOTES.md".to_string()],
    }];
    let mut app = new_app(roots);
    let mut store = SnippetLibrary::default();
    let req = app.load_selected_content();
    serve(&mut app, req, &files, &mut store);
    assert_eq!(app.content.text.as_deref(), Some("First content"));

    app.tree_state
        .select(vec!["/tmp/t".to_string(), "/tmp/t/sub/NOTES.md".to_string()]);
    press(&mut app, KeyCode::Enter, &files, &mut store);
    assert_eq!(app.content.text.as_deref(), Some("Second content"));
}

#[test]
fn load_content_handles_missing_file() {
    let roots = vec![SourceRoot {
        path: "/nonexistent".to_string(),
        files: vec!["/nonexistent/NOTES.md".to_string()],
    }];
    let mut app = new_app(roots);
    let mut store = SnippetLibrary::default();

    app.tree_state.select(vec![
        "/nonexistent".to_string(),
        "/nonexistent/NOTES.md".to_string(),
    ]);
    press(&mut app, KeyCode::Enter, &[], &mut store);
    assert!(app.content.text.is_some());
    assert!(app.content.text.as_deref().unwrap().contains("Error reading"));
    assert_eq!(
        app.content.text.as_deref(),
        Some("Error reading /nonexistent/NOTES.md: No such file or directory (os error 2)")
    );
}

#[test]
fn cursor_moves_down_and_scrolls_when_past_viewport() {
    let mut app = new_app(vec![]);
    app.content.text = Some("Line 0\nLine 1\nLine 2\nLine 3\nLine 4".to_string());
    app.content.viewport_height = 3;
    app.active_pane = Pane::Content;

    app.handle_key_event(key_event(KeyCode::Down));
    assert_eq!(app.content.cursor, 1);
    assert_eq!(app.content.scroll, 0, "Still visible, no scroll");

    app.handle_key_event(key_event(KeyCode::Char('j')));
    assert_eq!(app.content.cursor, 2);
    assert_eq!(app.content.scroll, 0, "Line 2 is last visible row");

    app.handle_key_event(key_event(KeyCode::Char('j')));
    assert_eq!(app.content.cursor, 3);
    assert_eq!(app.content.scroll, 1, "Scrolls to keep cursor visible");
}

#[test]
fn cursor_does_not_go_below_zero() {
    let mut app = new_app(vec![]);
    app.content.text = Some("Line 0\nLine 1".to_string());
    app.active_pane = Pane::Content;

    app.handle_key_event(key_event(KeyCode::Up));
    assert_eq!(app.content.cursor, 0);
}

#[test]
fn cursor_clamps_at_last_line() {
    let mut app = new_app(vec![]);
    app.content.text = Some("Line 0\nLine 1\nLine 2\nLine 3\nLine 4".to_string());
    app.content.viewport_height = 3;
    app.active_pane = Pane::Content;

    app.handle_key_event(key_event(KeyCode::PageDown));
    assert_eq!(app.content.cursor, 3, "Page down moves by viewport_height");

    app.handle_key_event(key_event(KeyCode::PageDown));
    assert_eq!(app.content.cursor, 4, "Clamps at last line");
}

#[test]
fn loading_new_content_resets_scroll_and_cursor() {
    let files = [("/tmp/t/NOTES.md", "Line 0\nLine 1\nLine 2")];
    let roots = vec![SourceRoot {
        path: "/tmp/t".to_string(),
        files: vec!["/tmp/t/NOTES.md".to_string()],
    }];
    let mut app = new_app(roots);
    let mut store = SnippetLibrary::default();

    app.content.scroll = 5;
    app.content.cursor = 5;

    app.tree_state
        .select(vec!["/tmp/t".to_string(), "/tmp/t/NOTES.md".to_string()]);
    press(&mut app, KeyCode::Enter, &files, &mut store);
    assert_eq!(app.content.scroll, 0, "Loading new content resets scroll");
    assert_eq!(app.content.cursor, 0, "Loading new content resets cursor");
}

#[test]
fn tabs_are_expanded_to_spaces() {
    let files = [("/tmp/t/NOTES.md", "\tindented\n\t\tdouble")];
    let roots = vec![SourceRoot {
        path: "/tmp/t".to_string(),
        files: vec!["/tmp/t/NOTES.md".to_string()],
    }];
    let mut app = new_app(roots);
    let mut store = SnippetLibrary::default();

    app.tree_state
        .select(vec!["/tmp/t".to_string(), "/tmp/t/NOTES.md".to_string()]);
    press(&mut app, KeyCode::Enter, &files, &mut store);

    let content = app.content.text.as_deref().unwrap();
    assert!(!content.contains('\t'), "Tabs should be replaced with spaces, got: {content:?}");
    assert!(content.starts_with("    indented"));
}

#[test]
fn app_starts_in_normal_mode() {
    let app = new_app(vec![]);
    assert_eq!(app.mode, Mode::Normal);
}

#[test]
fn q_does_not_exit_in_visual_select_mode() {
    let mut app = new_app(vec![]);
    app.mode = Mode::VisualSelect;
    app.handle_key_event(key_event(KeyCode::Char('q')));
    assert!(!app.exit);
}

#[test]
fn q_does_not_exit_in_title_input_mode() {
    let mut app = new_app(vec![]);
    app.mode = Mode::TitleInput;
    app.handle_key_event(key_event(KeyCode::Char('q')));
    assert!(!app.exit);
}

#[test]
fn ctrl_c_exits_in_any_mode() {
    for mode in [
        Mode::Normal,
        Mode::VisualSelect,
        Mode::TitleInput,
        Mode::LibraryBrowse,
        Mode::RenameInput,
    ] {
        let mut app = new_app(vec![]);
        app.mode = mode;
        app.handle_key_event(KeyEvent {
            code: KeyCode::Char('c'),
            ctrl: true,
        });
        assert!(app.exit, "Ctrl-C should exit in {mode:?}");
    }
}

#[test]
fn status_message_cleared_on_keypress() {
    let mut app = new_app(vec![]);
    app.status_message = Some("Test message".to_string());
    app.handle_key_event(key_event(KeyCode::Char('a')));
    assert!(app.status_message.is_none());
}

#[test]
fn v_in_content_pane_enters_visual_select() {
    let mut app = new_app(vec![]);
    app.content.text = Some("line 0\nline 1\nline 2".to_string());
    app.active_pane = Pane::Content;
    app.content.cursor = 1;

    app.handle_key_event(key_event(KeyCode::Char('v')));

    assert_eq!(app.mode, Mode::VisualSelect);
    assert_eq!(app.content.visual_anchor, Some(1));
}

#[test]
fn v_in_file_list_does_not_enter_visual_select() {
    let mut app = new_app(vec![]);
    app.active_pane = Pane::FileList;

    app.handle_key_event(key_event(KeyCode::Char('v')));

    assert_eq!(app.mode, Mode::Normal);
}

#[test]
fn esc_in_visual_select_returns_to_normal() {
    let mut app = new_app(vec![]);
    app.mode = Mode::VisualSelect;
    app.content.visual_anchor = Some(3);

    app.handle_key_event(key_event(KeyCode::Esc));

    assert_eq!(app.mode, Mode::Normal);
    assert_eq!(app.content.visual_anchor, None);
}

#[test]
fn jk_in_visual_select_moves_cursor() {
    let mut app = new_app(vec![]);
    app.content.text = Some("line 0\nline 1\nline 2\nline 3\nline 4".to_string());
    app.content.viewport_height = 10;
    app.mode = Mode::VisualSelect;
    app.content.visual_anchor = Some(1);
    app.content.cursor = 1;

    app.handle_key_event(key_event(KeyCode::Char('j')));
    assert_eq!(app.content.cursor, 2);
    assert_eq!(app.content.selection_range(), Some((1, 2)));

    app.handle_key_event(key_event(KeyCode::Char('k')));
    assert_eq!(app.content.cursor, 1);
    assert_eq!(app.content.selection_range(), Some((1, 1)));
}

#[test]
fn s_in_visual_select_enters_title_input() {
    let mut app = new_app(vec![]);
    app.mode = Mode::VisualSelect;
    app.content.visual_anchor = Some(0);

    app.handle_key_event(key_event(KeyCode::Char('s')));

    assert_eq!(app.mode, Mode::TitleInput);
    assert!(app.title_input.is_empty());
}

#[test]
fn loading_new_content_clears_visual_anchor() {
    let files = [("/tmp/t/NOTES.md", "content")];
    let roots = vec![SourceRoot {
        path: "/tmp/t".to_string(),
        files: vec!["/tmp/t/NOTES.md".to_string()],
    }];
    let mut app = new_app(roots);
    let mut store = SnippetLibrary::default();
    app.content.visual_anchor = Some(5);

    app.tree_state
        .select(vec!["/tmp/t".to_string(), "/tmp/t/NOTES.md".to_string()]);
    press(&mut app, KeyCode::Enter, &files, &mut store);

    assert_eq!(app.content.visual_anchor, None);
}

#[test]
fn title_input_chars_accumulate() {
    let mut app = new_app(vec![]);
    app.mode = Mode::TitleInput;

    app.handle_key_event(key_event(KeyCode::Char('A')));
    app.handle_key_event(key_event(KeyCode::Char('B')));
    assert_eq!(app.title_input, "AB");
}

#[test]
fn title_input_backspace_deletes_last_char() {
    let mut app = new_app(vec![]);
    app.mode = Mode::TitleInput;
    app.title_input = "ABC".to_string();

    app.handle_key_event(key_event(KeyCode::Backspace));
    assert_eq!(app.title_input, "AB");
}

#[test]
fn title_input_esc_returns_to_visual_select() {
    let mut app = new_app(vec![]);
    app.mode = Mode::TitleInput;
    app.content.visual_anchor = Some(2);
    app.title_input = "partial".to_string();

    app.handle_key_event(key_event(KeyCode::Esc));

    assert_eq!(app.mode, Mode::VisualSelect);
    assert_eq!(app.content.visual_anchor, Some(2), "Selection preserved");
    assert!(app.title_input.is_empty(), "Input cleared on Esc");
}

#[test]
fn save_with_empty_title_shows_error() {
    let mut app = new_app(vec![]);
    app.mode = Mode::TitleInput;
    app.title_input = "  ".to_string();

    let req = app.save_current_snippet_to(LIB);

    assert_eq!(req, None);
    assert_eq!(app.mode, Mode::TitleInput, "Stays in TitleInput on empty");
    assert!(app.status_message.as_deref().unwrap().contains("empty"));
}

#[test]
fn save_without_selection_returns_to_normal() {
    let mut app = new_app(vec![]);
    app.content.text = Some("a\nb".to_string());
    app.mode = Mode::TitleInput;
    app.title_input = "Title".to_string();

    let req = app.save_current_snippet_to(LIB);

    assert_eq!(req, None);
    assert_eq!(app.mode, Mode::Normal);
    assert_eq!(app.status_message.as_deref(), Some("No text selected."));
}

#[test]
fn title_input_enter_saves_snippet_to_disk() {
    let mut store = SnippetLibrary::default();
    let mut app = new_app(vec![]);
    app.content.text = Some("line 0\nline 1\nline 2\nline 3".to_string());
    app.content.visual_anchor = Some(1);
    app.content.cursor = 2;
    app.mode = Mode::TitleInput;
    app.title_input = "My Snippet".to_string();

    let req = app.save_current_snippet_to(LIB);
    serve(&mut app, req, &[], &mut store);

    assert_eq!(app.mode, Mode::Normal);
    assert_eq!(app.content.visual_anchor, None);
    assert!(app.title_input.is_empty());
    assert!(app.status_message.as_deref().unwrap().contains("saved"));

    assert_eq!(store.snippets.len(), 1);
    assert_eq!(store.snippets[0].title, "My Snippet");
    assert_eq!(store.snippets[0].content, "line 1\nline 2");
}

#[test]
fn saved_title_is_trimmed_and_source_is_selected_file() {
    let files = [("/r/NOTES.md", "x\ny")];
    let roots = vec![SourceRoot {
        path: "/r".to_string(),
        files: vec!["/r/NOTES.md".to_string()],
    }];
    let mut store = SnippetLibrary::default();
    let mut app = new_app(roots);
    let req = app.load_selected_content();
    serve(&mut app, req, &files, &mut store);
    app.content.visual_anchor = Some(0);
    app.mode = Mode::TitleInput;
    app.title_input = "  Spaced \t".to_string();

    press(&mut app, KeyCode::Enter, &files, &mut store);

    assert_eq!(store.snippets.len(), 1);
    assert_eq!(store.snippets[0].title, "Spaced");
    assert_eq!(store.snippets[0].content, "x");
    assert_eq!(store.snippets[0].source, "/r/NOTES.md");
}

#[test]
fn save_failure_is_reported_and_returns_to_normal() {
    let mut app = new_app(vec![]);
    app.mode = Mode::TitleInput;
    app.content.visual_anchor = Some(0);
    app.snippet_saved(Err("disk full".to_string()));
    assert_eq!(app.mode, Mode::Normal);
    assert_eq!(app.content.visual_anchor, None);
    assert_eq!(app.status_message.as_deref(), Some("Save failed: disk full"));
}

#[test]
fn save_without_library_path_reports_it() {
    let mut app = App::new(vec![], None);
    app.mode = Mode::TitleInput;
    app.title_input = "T".to_string();
    let req = app.handle_key_event(key_event(KeyCode::Enter));
    assert_eq!(req, None);
    assert_eq!(app.mode, Mode::Normal);
    assert_eq!(
        app.status_message.as_deref(),
        Some("Cannot determine library path.")
    );
}

#[test]
fn full_visual_select_to_save_flow() {
    let files = [("/c/NOTES.md", "# Rules\n- Rule A\n- Rule B\n- Rule C")];
    let roots = vec![SourceRoot {
        path: "/c".to_string(),
        files: vec!["/c/NOTES.md".to_string()],
    }];
    let mut store = SnippetLibrary::default();
    let mut app = new_app(roots);
    let req = app.load_selected_content();
    serve(&mut app, req, &files, &mut store);

    press(&mut app, KeyCode::Tab, &files, &mut store);
    assert_eq!(app.active_pane, Pane::Content);
    assert_eq!(app.mode, Mode::Normal);

    press(&mut app, KeyCode::Char('v'), &files, &mut store);
    assert_eq!(app.mode, Mode::VisualSelect);
    assert_eq!(app.content.visual_anchor, Some(0));

    press(&mut app, KeyCode::Char('j'), &files, &mut store);
    press(&mut app, KeyCode::Char('j'), &files, &mut store);
    assert_eq!(app.content.selection_range(), Some((0, 2)));

    press(&mut app, KeyCode::Char('s'), &files, &mut store);
    assert_eq!(app.mode, Mode::TitleInput);

    for c in "My Rules".chars() {
        press(&mut app, KeyCode::Char(c), &files, &mut store);
    }
    assert_eq!(app.title_input, "My Rules");

    let req = app.save_current_snippet_to(LIB);
    serve(&mut app, req, &files, &mut store);

    assert_eq!(app.mode, Mode::Normal);
    assert_eq!(store.snippets.len(), 1);
    assert_eq!(store.snippets[0].title, "My Rules");
    assert_eq!(store.snippets[0].content, "# Rules\n- Rule A\n- Rule B");
}

#[test]
fn l_in_content_pane_enters_library_browse() {
    let (app, _) = browsing(&["Snippet A"]);

    assert_eq!(app.mode, Mode::LibraryBrowse);
    assert_eq!(app.library_selected, 0);
    assert!(app.library.is_some());
    assert_eq!(app.library.as_ref().unwrap().snippets.len(), 1);
}

#[test]
fn library_load_failure_stays_normal() {
    let mut app = new_app(vec![]);
    app.enter_library_browse_from(Err("bad toml".to_string()));
    assert_eq!(app.mode, Mode::Normal);
    assert!(app.library.is_none());
    assert_eq!(
        app.status_message.as_deref(),
        Some("Failed to load library: bad toml")
    );
}

#[test]
fn l_in_file_list_does_not_enter_library_browse() {
    let mut app = new_app(vec![]);
    app.active_pane = Pane::FileList;

    let req = app.handle_key_event(key_event(KeyCode::Char('L')));

    assert_eq!(req, None);
    assert_eq!(app.mode, Mode::Normal);
}

#[test]
fn esc_in_library_browse_returns_to_normal() {
    let mut app = new_app(vec![]);
    app.mode = Mode::LibraryBrowse;
    app.library = Some(SnippetLibrary::default());

    app.handle_key_event(key_event(KeyCode::Esc));

    assert_eq!(app.mode, Mode::Normal);
    assert!(app.library.is_none(), "Library freed on exit");
}

#[test]
fn q_in_library_browse_returns_to_normal_not_exit() {
    let mut app = new_app(vec![]);
    app.mode = Mode::LibraryBrowse;
    app.library = Some(SnippetLibrary::default());

    app.handle_key_event(key_event(KeyCode::Char('q')));

    assert_eq!(app.mode, Mode::Normal);
    assert!(!app.exit, "q should not exit the app from LibraryBrowse");
}

#[test]
fn jk_in_library_browse_navigates() {
    let (mut app, mut store) = browsing(&["A", "B", "C"]);
    assert_eq!(app.library_selected, 0);

    press(&mut app, KeyCode::Char('j'), &[], &mut store);
    assert_eq!(app.library_selected, 1);

    press(&mut app, KeyCode::Char('j'), &[], &mut store);
    assert_eq!(app.library_selected, 2);

    press(&mut app, KeyCode::Char('j'), &[], &mut store);
    assert_eq!(app.library_selected, 2);

    press(&mut app, KeyCode::Char('k'), &[], &mut store);
    assert_eq!(app.library_selected, 1);

    press(&mut app, KeyCode::Char('k'), &[], &mut store);
    press(&mut app, KeyCode::Char('k'), &[], &mut store);
    assert_eq!(app.library_selected, 0);
}

#[test]
fn d_in_library_browse_deletes_snippet() {
    let (mut app, mut store) = browsing(&["A", "B", "C"]);

    press(&mut app, KeyCode::Char('j'), &[], &mut store);
    assert_eq!(app.library_selected, 1);

    press(&mut app, KeyCode::Char('d'), &[], &mut store);

    assert_eq!(app.library.as_ref().unwrap().snippets.len(), 2);
    assert_eq!(app.library.as_ref().unwrap().snippets[0].title, "A");
    assert_eq!(app.library.as_ref().unwrap().snippets[1].title, "C");
    assert_eq!(app.library_selected, 1, "Selected index stays at 1 (now C)");
    assert_eq!(store.snippets.len(), 2);
}

#[test]
fn d_on_last_item_adjusts_selection() {
    let (mut app, mut store) = browsing(&["A", "B"]);

    press(&mut app, KeyCode::Char('j'), &[], &mut store);
    assert_eq!(app.library_selected, 1);

    press(&mut app, KeyCode::Char('d'), &[], &mut store);

    assert_eq!(app.library.as_ref().unwrap().snippets.len(), 1);
    assert_eq!(app.library_selected, 0, "Adjusted to last valid index");
}

#[test]
fn d_on_only_item_empties_library() {
    let (mut app, mut store) = browsing(&["Solo"]);

    press(&mut app, KeyCode::Char('d'), &[], &mut store);

    assert!(app.library.as_ref().unwrap().snippets.is_empty());
    assert_eq!(app.library_selected, 0);
    assert_eq!(app.status_message.as_deref(), Some("Snippet deleted."));
}

#[test]
fn d_on_empty_library_is_noop() {
    let (mut app, mut store) = browsing(&[]);

    assert!(app.library.as_ref().unwrap().snippets.is_empty());

    let req = app.handle_key_event(key_event(KeyCode::Char('d')));
    assert_eq!(req, None);
    serve(&mut app, req, &[], &mut store);

    assert!(app.library.as_ref().unwrap().snippets.is_empty());
}

#[test]
fn delete_failure_is_reported() {
    let (mut app, _) = browsing(&["A"]);
    app.delete_library_snippet_from(Err("read-only".to_string()), None);
    assert_eq!(app.library.as_ref().unwrap().snippets.len(), 1);
    assert_eq!(app.status_message.as_deref(), Some("Delete failed: read-only"));
}

#[test]
fn library_browse_loads_from_disk() {
    let (app, _) = browsing(&["X", "Y"]);

    let lib = app.library.as_ref().unwrap();
    assert_eq!(lib.snippets.len(), 2);
    assert_eq!(lib.snippets[0].title, "X");
    assert_eq!(lib.snippets[1].title, "Y");
}

#[test]
fn r_in_library_browse_enters_rename_with_current_title() {
    let (mut app, mut store) = browsing(&["My Snippet"]);

    press(&mut app, KeyCode::Char('r'), &[], &mut store);

    assert_eq!(app.mode, Mode::RenameInput);
    assert_eq!(app.title_input, "My Snippet");
}

#[test]
fn rename_esc_returns_to_library_browse() {
    let mut app = new_app(vec![]);
    app.mode = Mode::RenameInput;
    app.title_input = "partial edit".to_string();

    app.handle_key_event(key_event(KeyCode::Esc));

    assert_eq!(app.mode, Mode::LibraryBrowse);
    assert!(app.title_input.is_empty());
}

#[test]
fn rename_enter_saves_new_title() {
    let (mut app, mut store) = browsing(&["Old Title"]);
    app.mode = Mode::RenameInput;
    app.title_input = "New Title".to_string();

    let req = app.rename_library_snippet();
    serve(&mut app, req, &[], &mut store);

    assert_eq!(app.mode, Mode::LibraryBrowse);
    assert!(app.title_input.is_empty());
    assert_eq!(app.library.as_ref().unwrap().snippets[0].title, "New Title");
    assert_eq!(store.snippets[0].title, "New Title");
}

#[test]
fn rename_with_empty_title_shows_error() {
    let (mut app, mut store) = browsing(&["Keep Me"]);
    app.mode = Mode::RenameInput;
    app.title_input = "  ".to_string();

    let req = app.rename_library_snippet();
    serve(&mut app, req, &[], &mut store);

    assert_eq!(app.mode, Mode::RenameInput, "Stays in RenameInput on empty");
    assert!(app.status_message.as_deref().unwrap().contains("empty"));
    assert_eq!(store.snippets[0].title, "Keep Me");
}

#[test]
fn rename_failure_still_returns_to_browse() {
    let (mut app, _) = browsing(&["T"]);
    app.mode = Mode::RenameInput;
    app.title_input = "U".to_string();
    app.rename_library_snippet_from(Err("denied".to_string()), None);
    assert_eq!(app.mode, Mode::LibraryBrowse);
    assert!(app.title_input.is_empty());
    assert_eq!(app.status_message.as_deref(), Some("Rename failed: denied"));
    assert_eq!(app.library.as_ref().unwrap().snippets[0].title, "T");
}

#[test]
fn r_on_empty_library_is_noop() {
    let (mut app, mut store) = browsing(&[]);

    press(&mut app, KeyCode::Char('r'), &[], &mut store);

    assert_eq!(app.mode, Mode::LibraryBrowse, "Stays in browse on empty lib");
}

#[test]
fn new_opens_every_root() {
    let app = new_app(sample_roots());
    assert!(app.tree_state.opened().contains(&vec!["/a".to_string()]));
    assert!(app.tree_state.opened().contains(&vec!["/b".to_string()]));
    assert_eq!(app.tree_state.opened().len(), 2);
    assert_eq!(
        app.tree_state.selected(),
        vec!["/a".to_string(), "/a/NOTES.md".to_string()]
    );
}

#[test]
fn left_on_file_selects_its_root() {
    let mut app = new_app(sample_roots());
    let req = app.handle_key_event(key_event(KeyCode::Left));
    assert_eq!(req, None);
    assert_eq!(app.tree_state.selected(), vec!["/a".to_string()]);
    app.handle_key_event(key_event(KeyCode::Char('h')));
    assert!(!app.tree_state.opened().contains(&vec!["/a".to_string()]));
    app.handle_key_event(key_event(KeyCode::Char('l')));
    assert!(app.tree_state.opened().contains(&vec!["/a".to_string()]));
}

#[test]
fn delete_outcome_on_empty_library_changes_nothing() {
    let (mut app, _) = browsing(&[]);
    app.delete_library_snippet_from(Ok(()), Some(library_with_snippets(&["Z"])));
    assert!(app.library.as_ref().unwrap().snippets.is_empty());
    assert_eq!(app.library_selected, 0);
    assert_eq!(app.status_message, None);
    assert_eq!(app.mode, Mode::LibraryBrowse);
}

#[test]
fn rename_outcome_with_blank_title_stays_in_rename() {
    let (mut app, _) = browsing(&["Keep Me"]);
    app.mode = Mode::RenameInput;
    app.title_input = "  ".to_string();
    app.rename_library_snippet_from(Ok(()), Some(library_with_snippets(&["Other"])));
    assert_eq!(app.mode, Mode::RenameInput);
    assert_eq!(app.title_input, "  ");
    assert_eq!(app.status_message.as_deref(), Some("Title cannot be empty."));
    assert_eq!(app.library.as_ref().unwrap().snippets[0].title, "Keep Me");
}

#[test]
fn new_with_fileless_first_root_loads_nothing() {
    let roots = vec![SourceRoot {
        path: "/empty".to_string(),
        files: vec![],
    }];
    let app = new_app(roots);
    assert!(app.tree_state.selected().is_empty());
    assert_eq!(app.load_selected_content(), None);
    assert_eq!(app.content.text, None);
}
