use vstd::prelude::*;


verus! {

/// A titled excerpt of a file, with the identity of the file it came from.
#[derive(Debug, Clone, PartialEq, Eq)]
pub struct Snippet {
    pub title: String,
    pub content: String,
    pub source: String,
}

/// What a snippet holds, as character sequences.
pub struct SnippetView {
    pub title: Seq<char>,
    pub content: Seq<char>,
    pub source: Seq<char>,
}

impl View for Snippet {
    type V = SnippetView;

    open spec fn view(&self) -> SnippetView {
        SnippetView { title: self.title@, content: self.content@, source: self.source@ }
    }
}

/// The ordered list of saved snippets; a snippet is addressed by its index.
#[derive(Debug, Clone, Default, PartialEq, Eq)]
pub struct SnippetLibrary {
    pub snippets: Vec<Snippet>,
}

impl View for SnippetLibrary {
    type V = Seq<SnippetView>;

    open spec fn view(&self) -> Seq<SnippetView> {
        self.snippets@.map_values(|s: Snippet| s@)
    }
}

/// What `Path::join` gives for a base path and a part joined onto it.
pub uninterp spec fn path_joined(base: Seq<char>, part: Seq<char>) -> Seq<char>;

/// Relies on `std::path::Path::join`, which adds a separator where one is
/// needed and lets an absolute part replace the base; the result depends on
/// the two paths alone.
#[verifier::external_body]
pub(crate) fn join_path(base: &str, part: &str) -> (r: String)
    ensures
        r@ == path_joined(base@, part@),
{
    std::path::Path::new(base).join(part).to_string_lossy().into_owned()
}

/// Where the library is stored under a home directory:
/// `<home>/.config/jigolo/library.toml`.
pub fn library_path_in(home: &str) -> (r: String)
    ensures
        r@ == path_joined(path_joined(path_joined(home@, ".config"@), "jigolo"@), "library.toml"@),
{
    let config = join_path(home, ".config");
    let dir = join_path(config.as_str(), "jigolo");
    join_path(dir.as_str(), "library.toml")
}

/// Adds a snippet at the end of the library.
pub fn append_snippet(snippet: Snippet, lib: &mut SnippetLibrary)
    ensures
        final(lib)@ == old(lib)@.push(snippet@),
{
    lib.snippets.push(snippet);
    proof {
        assert(lib@ =~= old(lib)@.push(snippet@));
    }
}

/// Removes the snippet at `index`; the ones after it move up by one. An index
/// past the end changes nothing.
pub fn delete_snippet(index: usize, lib: &mut SnippetLibrary)
    ensures
        final(lib)@ == (if index < old(lib)@.len() {
            old(lib)@.remove(index as int)
        } else {
            old(lib)@
        }),
{
    if index < lib.snippets.len() {
        lib.snippets.remove(index);
        proof {
            assert(lib@ =~= old(lib)@.remove(index as int));
        }
    }
}

/// Gives the snippet at `index` a new title, keeping its content and source.
/// An index past the end changes nothing.
pub fn rename_snippet(index: usize, new_title: &str, lib: &mut SnippetLibrary)
    ensures
        final(lib)@ == (if index < old(lib)@.len() {
            old(lib)@.update(
                index as int,
                SnippetView { title: new_title@, ..old(lib)@[index as int] },
            )
        } else {
            old(lib)@
        }),
{
    if index < lib.snippets.len() {
        let old_snippet = lib.snippets.remove(index);
        let renamed = Snippet {
            title: new_title.to_string(),
            content: old_snippet.content,
            source: old_snippet.source,
        };
        lib.snippets.insert(index, renamed);
        proof {
            assert(lib@ =~= old(lib)@.update(
                index as int,
                SnippetView { title: new_title@, ..old(lib)@[index as int] },
            ));
        }
    }
}

/// The list after appending the snippets of `added`, first to last.
pub open spec fn after_appends(lib: Seq<SnippetView>, added: Seq<SnippetView>) -> Seq<SnippetView>
    decreases added.len(),
{
    if added.len() == 0 {
        lib
    } else {
        after_appends(lib, added.drop_last()).push(added.last())
    }
}

/// Appending snippets one at a time to an empty library gives a library that
/// lists exactly those snippets, in the order they were appended.
pub proof fn lemma_appends_keep_order(added: Seq<SnippetView>)
    ensures
        after_appends(Seq::<SnippetView>::empty(), added) == added,
    decreases added.len(),
{
    if added.len() > 0 {
        lemma_appends_keep_order(added.drop_last());
        assert(added.drop_last().push(added.last()) =~= added);
    }
}

} // verus!
