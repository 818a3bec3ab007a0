use vstd::prelude::*;

use crate::library::join_path;
use crate::library::path_joined;


verus! {

/// Names of directories that never hold the files searched for; the search
/// does not descend into them.
pub open spec fn skipped_dir_names() -> Seq<Seq<char>> {
    seq![
        "node_modules"@,
        ".git"@,
        "target"@,
        ".cache"@,
        "__pycache__"@,
        ".venv"@,
        "vendor"@,
        "dist"@,
        ".next"@,
        ".nuxt"@,
        "build"@,
    ]
}

/// Whether two texts hold the same characters.
pub fn same_text(a: &str, b: &str) -> (r: bool)
    ensures
        r == (a@ == b@),
{
    let n = a.unicode_len();
    if n != b.unicode_len() {
        return false;
    }
    let mut i: usize = 0;
    while i < n
        invariant
            n == a@.len(),
            n == b@.len(),
            i <= n,
            a@.take(i as int) == b@.take(i as int),
        decreases n - i,
    {
        if a.get_char(i) != b.get_char(i) {
            proof {
                assert(a@[i as int] != b@[i as int]);
            }
            return false;
        }
        proof {
            assert(a@.take(i + 1) =~= a@.take(i as int).push(a@[i as int]));
            assert(b@.take(i + 1) =~= b@.take(i as int).push(b@[i as int]));
        }
        i = i + 1;
    }
    proof {
        assert(a@.take(n as int) =~= a@);
        assert(b@.take(n as int) =~= b@);
    }
    true
}

/// Whether `name` is one of the skipped directory names.
pub fn is_skipped_dir(name: &str) -> (r: bool)
    ensures
        r == skipped_dir_names().contains(name@),
{
    let skipped = [
        "node_modules",
        ".git",
        "target",
        ".cache",
        "__pycache__",
        ".venv",
        "vendor",
        "dist",
        ".next",
        ".nuxt",
        "build",
    ];
    let mut i: usize = 0;
    while i < skipped.len()
        invariant
            i <= skipped.len(),
            skipped@.len() == skipped_dir_names().len(),
            forall|k: int| 0 <= k < skipped@.len() ==> (#[trigger] skipped@[k])@ == skipped_dir_names()[k],
            forall|k: int| 0 <= k < i ==> skipped_dir_names()[k] != name@,
        decreases skipped.len() - i,
    {
        if same_text(skipped[i], name) {
            return true;
        }
        i = i + 1;
    }
    false
}

/// The search goes into every directory but the skipped ones; files are
/// always looked at.
pub fn should_descend(is_dir: bool, name: &str) -> (r: bool)
    ensures
        r == !(is_dir && skipped_dir_names().contains(name@)),
{
    if is_dir {
        return !is_skipped_dir(name);
    }
    true
}

/// Where a user-wide context file lies: `<home>/<config_dir>/<file_name>`.
/// Whether it exists is for the caller to find out.
pub fn global_file_path_in(home: &str, config_dir: &str, file_name: &str) -> (r: String)
    ensures
        r@ == path_joined(path_joined(home@, config_dir@), file_name@),
{
    let dir = join_path(home, config_dir);
    join_path(dir.as_str(), file_name)
}

} // verus!
