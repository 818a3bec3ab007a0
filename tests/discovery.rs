use jigolo::discovery::global_file_path_in;
use jigolo::discovery::is_skipped_dir;
use jigolo::discovery::same_text;
use jigolo::discovery::should_descend;

#[test]
fn skipped_directories_are_not_entered() {
    for name in ["node_modules", ".git", "target", ".cache", "__pycache__", ".venv", "vendor", "dist", ".next", ".nuxt", "build"] {
        assert!(is_skipped_dir(name));
        assert!(!should_descend(true, name));
    }
}

#[test]
fn other_directories_and_files_are_entered() {
    assert!(should_descend(true, "src"));
    assert!(should_descend(true, "node_module"));
    assert!(should_descend(false, "node_modules"));
    assert!(!is_skipped_dir("Build"));
}

#[test]
fn same_text_compares_characters() {
    assert!(same_text("abc", "abc"));
    assert!(!same_text("abc", "abd"));
    assert!(!same_text("abc", "ab"));
    assert!(same_text("", ""));
}

#[test]
fn global_file_lies_under_config_dir() {
    assert_eq!(
        global_file_path_in("/home/u", ".config-dir", "NOTES.md"),
        "/home/u/.config-dir/NOTES.md"
    );
}
