use vstd::prelude::*;

use crate::chars::push_all;
use crate::chars::push_char;

verus! {

/// The command line: the directories to search, whether to print a listing
/// instead of starting the interactive session, and the name of the files
/// searched for.
#[derive(Debug, Clone)]
pub struct Cli {
    pub paths: Vec<String>,
    pub list: bool,
    pub file_name: String,
}

/// One directory given on the command line, with every file found under it.
#[derive(Debug, Clone)]
pub struct SourceRoot {
    /// The directory as it was given.
    pub path: String,
    /// Full paths of the files found under it, sorted.
    pub files: Vec<String>,
}

/// How a run of the program ends.
#[derive(Debug, Clone, Copy, PartialEq, Eq, Structural)]
pub enum ExitOutcome {
    Success,
    AllPathsFailed,
}

/// The decimal digit for `d`, which is below ten.
pub open spec fn digit(d: nat) -> char {
    if d == 0 {
        '0'
    } else if d == 1 {
        '1'
    } else if d == 2 {
        '2'
    } else if d == 3 {
        '3'
    } else if d == 4 {
        '4'
    } else if d == 5 {
        '5'
    } else if d == 6 {
        '6'
    } else if d == 7 {
        '7'
    } else if d == 8 {
        '8'
    } else {
        '9'
    }
}

/// `n` written in decimal, without leading zeros.
pub open spec fn decimal(n: nat) -> Seq<char>
    decreases n,
{
    if n < 10 {
        seq![digit(n)]
    } else {
        decimal(n / 10).push(digit(n % 10))
    }
}

/// The character of the decimal digit `d`.
fn digit_char(d: u128) -> (r: char)
    requires
        d < 10,
    ensures
        r == digit(d as nat),
{
    if d == 0 {
        '0'
    } else if d == 1 {
        '1'
    } else if d == 2 {
        '2'
    } else if d == 3 {
        '3'
    } else if d == 4 {
        '4'
    } else if d == 5 {
        '5'
    } else if d == 6 {
        '6'
    } else if d == 7 {
        '7'
    } else if d == 8 {
        '8'
    } else {
        '9'
    }
}

/// `n` written in decimal.
pub fn decimal_text(n: u128) -> (r: String)
    ensures
        r@ == decimal(n as nat),
    decreases n,
{
    if n < 10 {
        let mut out = String::new();
        push_char(&mut out, digit_char(n));
        proof {
            assert(out@ =~= decimal(n as nat));
        }
        out
    } else {
        let mut out = decimal_text(n / 10);
        push_char(&mut out, digit_char(n % 10));
        out
    }
}

/// What `Path::strip_prefix` gives for a path and a base: the rest of the path
/// after the base's components, or nothing when the path does not start with
/// them.
pub uninterp spec fn path_relative(path: Seq<char>, base: Seq<char>) -> Option<Seq<char>>;

/// Relies on `std::path::Path::strip_prefix`, which compares whole
/// components; the result depends on the two paths alone.
#[verifier::external_body]
fn strip_path_prefix(path: &str, base: &str) -> (r: Option<String>)
    ensures
        match r {
            Some(rel) => path_relative(path@, base@) == Some(rel@),
            None => path_relative(path@, base@) is None,
        },
{
    match std::path::Path::new(path).strip_prefix(base) {
        Ok(rel) => Some(rel.to_string_lossy().into_owned()),
        Err(_) => None,
    }
}

/// How a file is shown under its root: relative to the root where it lies
/// under it, else in full.
pub open spec fn shown_path(file: Seq<char>, root: Seq<char>) -> Seq<char> {
    match path_relative(file, root) {
        Some(rel) => rel,
        None => file,
    }
}

/// One indented line per file, in order.
pub open spec fn file_lines(root: Seq<char>, files: Seq<Seq<char>>) -> Seq<char>
    decreases files.len(),
{
    if files.len() == 0 {
        Seq::<char>::empty()
    } else {
        file_lines(root, files.drop_last()) + "  "@ + shown_path(files.last(), root) + "\n"@
    }
}

/// "file" for one, "files" otherwise.
pub open spec fn files_word(n: nat) -> Seq<char> {
    if n == 1 {
        "file"@
    } else {
        "files"@
    }
}

/// "directory" for one, "directories" otherwise.
pub open spec fn directories_word(n: nat) -> Seq<char> {
    if n == 1 {
        "directory"@
    } else {
        "directories"@
    }
}

/// A root as it is listed: a header with the root and its file count, then
/// its files.
pub open spec fn listing_text(root: Seq<char>, files: Seq<Seq<char>>) -> Seq<char> {
    root + " ("@ + decimal(files.len()) + " "@ + files_word(files.len()) + ")\n"@ + file_lines(
        root,
        files,
    )
}

impl SourceRoot {
    pub open spec fn file_views(&self) -> Seq<Seq<char>> {
        self.files@.map_values(|f: String| f@)
    }

    pub fn file_count(&self) -> (r: usize)
        ensures
            r == self.files@.len(),
    {
        self.files.len()
    }

    /// The root's listing: `<root> (<n> file[s])` and then one line
    /// `  <file>` per file, each file shown relative to the root.
    pub fn listing(&self) -> (r: String)
        ensures
            r@ == listing_text(self.path@, self.file_views()),
    {
        let count = self.file_count();
        let mut out = String::new();
        push_all(&mut out, self.path.as_str());
        push_all(&mut out, " (");
        let digits = decimal_text(count as u128);
        push_all(&mut out, digits.as_str());
        push_all(&mut out, " ");
        if count == 1 {
            push_all(&mut out, "file");
        } else {
            push_all(&mut out, "files");
        }
        push_all(&mut out, ")\n");
        let ghost head = out@;
        let ghost files = self.file_views();
        proof {
            assert(files.take(0) =~= Seq::<Seq<char>>::empty());
            assert(out@ =~= head + file_lines(self.path@, files.take(0)));
        }
        let mut i: usize = 0;
        while i < self.files.len()
            invariant
                i <= self.files.len(),
                files == self.file_views(),
                head == self.path@ + " ("@ + decimal(files.len()) + " "@ + files_word(files.len())
                    + ")\n"@,
                out@ == head + file_lines(self.path@, files.take(i as int)),
            decreases self.files.len() - i,
        {
            let file = &self.files[i];
            push_all(&mut out, "  ");
            match strip_path_prefix(file.as_str(), self.path.as_str()) {
                Some(rel) => push_all(&mut out, rel.as_str()),
                None => push_all(&mut out, file.as_str()),
            }
            push_all(&mut out, "\n");
            proof {
                assert(files.take(i + 1).drop_last() =~= files.take(i as int));
                assert(out@ =~= head + file_lines(self.path@, files.take(i + 1)));
            }
            i = i + 1;
        }
        proof {
            assert(files.take(self.files.len() as int) =~= files);
        }
        out
    }
}

/// A run fails only when no path given was a directory and at least one
/// failed.
pub fn exit_outcome(found_roots: usize, failed_paths: usize) -> (r: ExitOutcome)
    ensures
        r == (if found_roots == 0 && failed_paths > 0 {
            ExitOutcome::AllPathsFailed
        } else {
            ExitOutcome::Success
        }),
{
    if found_roots == 0 && failed_paths > 0 {
        ExitOutcome::AllPathsFailed
    } else {
        ExitOutcome::Success
    }
}

/// The line printed before the search: `Scanning <n> director(y|ies)...`.
pub fn scanning_line(n: usize) -> (r: String)
    ensures
        r@ == "Scanning "@ + decimal(n as nat) + " "@ + directories_word(n as nat) + "..."@,
{
    let mut out = String::new();
    push_all(&mut out, "Scanning ");
    let digits = decimal_text(n as u128);
    push_all(&mut out, digits.as_str());
    push_all(&mut out, " ");
    if n == 1 {
        push_all(&mut out, "directory");
    } else {
        push_all(&mut out, "directories");
    }
    push_all(&mut out, "...");
    out
}

/// The line printed after the listings: how many files named `file_name`
/// were found in how many roots, or a friendly note when there are none.
pub fn summary_line(total_files: usize, roots: usize, file_name: &str) -> (r: String)
    ensures
        total_files == 0 ==> r@ == "No "@ + file_name@ + " files found."@,
        total_files > 0 ==> r@ == "Found "@ + decimal(total_files as nat) + " "@ + file_name@
            + " "@ + files_word(total_files as nat) + " in "@ + decimal(roots as nat) + " "@
            + directories_word(roots as nat) + "."@,
{
    let mut out = String::new();
    if total_files == 0 {
        push_all(&mut out, "No ");
        push_all(&mut out, file_name);
        push_all(&mut out, " files found.");
        return out;
    }
    push_all(&mut out, "Found ");
    let total = decimal_text(total_files as u128);
    push_all(&mut out, total.as_str());
    push_all(&mut out, " ");
    push_all(&mut out, file_name);
    push_all(&mut out, " ");
    if total_files == 1 {
        push_all(&mut out, "file");
    } else {
        push_all(&mut out, "files");
    }
    push_all(&mut out, " in ");
    let count = decimal_text(roots as u128);
    push_all(&mut out, count.as_str());
    push_all(&mut out, " ");
    if roots == 1 {
        push_all(&mut out, "directory");
    } else {
        push_all(&mut out, "directories");
    }
    push_all(&mut out, ".");
    out
}

} // verus!
