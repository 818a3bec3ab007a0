use vstd::prelude::*;

use tui_tree_widget::TreeState;

verus! {

/// The tree widget's state (selection, open nodes, scroll), held opaque.
#[verifier::external_type_specification]
#[verifier::external_body]
#[verifier::reject_recursive_types(Identifier)]
pub struct ExTreeState<Identifier>(TreeState<Identifier>);

/// The identifier path of the node that a tree state has selected (empty when
/// nothing is selected).
pub uninterp spec fn tree_selected(s: TreeState<String>) -> Seq<Seq<char>>;

/// The identifier paths of the nodes that a tree state holds open.
pub uninterp spec fn tree_opened(s: TreeState<String>) -> Set<Seq<Seq<char>>>;

/// The identifier paths of the nodes of the last render, top to bottom
/// (empty before the first render).
pub uninterp spec fn tree_rendered(s: TreeState<String>) -> Seq<Seq<Seq<char>>>;

/// An identifier path as character sequences.
pub open spec fn ids_view(ids: Seq<String>) -> Seq<Seq<char>> {
    ids.map_values(|id: String| id@)
}

/// What `toggle_selected` does: a selected path that is open is closed, one
/// that is closed is opened; with nothing selected nothing changes. The
/// selection stays.
pub open spec fn after_toggle(a: TreeState<String>, b: TreeState<String>) -> bool {
    &&& tree_selected(b) == tree_selected(a)
    &&& tree_opened(b) == (if tree_selected(a).len() == 0 {
        tree_opened(a)
    } else if tree_opened(a).contains(tree_selected(a)) {
        tree_opened(a).remove(tree_selected(a))
    } else {
        tree_opened(a).insert(tree_selected(a))
    })
}

/// What `key_left` does: an open selected node is closed; otherwise the
/// selection moves to the parent.
pub open spec fn after_key_left(a: TreeState<String>, b: TreeState<String>) -> bool {
    if tree_opened(a).contains(tree_selected(a)) {
        &&& tree_opened(b) == tree_opened(a).remove(tree_selected(a))
        &&& tree_selected(b) == tree_selected(a)
    } else {
        &&& tree_opened(b) == tree_opened(a)
        &&& tree_selected(b) == (if tree_selected(a).len() > 0 {
            tree_selected(a).drop_last()
        } else {
            tree_selected(a)
        })
    }
}

/// What `key_right` does: the selected node is opened; the selection stays.
pub open spec fn after_key_right(a: TreeState<String>, b: TreeState<String>) -> bool {
    &&& tree_selected(b) == tree_selected(a)
    &&& tree_opened(b) == (if tree_selected(a).len() > 0 {
        tree_opened(a).insert(tree_selected(a))
    } else {
        tree_opened(a)
    })
}

/// Relies on `TreeState::default`: nothing selected, nothing open.
#[verifier::external_body]
pub fn new_tree_state() -> (r: TreeState<String>)
    ensures
        tree_selected(r) == Seq::<Seq<char>>::empty(),
        tree_opened(r) == Set::<Seq<Seq<char>>>::empty(),
        tree_rendered(r) == Seq::<Seq<Seq<char>>>::empty(),
{
    TreeState::default()
}

/// Relies on `TreeState::selected`, which returns the selected path.
#[verifier::external_body]
pub fn selected_ids(s: &TreeState<String>) -> (r: Vec<String>)
    ensures
        ids_view(r@) == tree_selected(*s),
{
    s.selected().to_vec()
}

/// Relies on `TreeState::open`: a non-empty path is added to the open set;
/// the selection stays.
#[verifier::external_body]
pub fn open_node(s: &mut TreeState<String>, ids: Vec<String>)
    ensures
        tree_rendered(*final(s)) == tree_rendered(*old(s)),
        tree_selected(*final(s)) == tree_selected(*old(s)),
        tree_opened(*final(s)) == (if ids@.len() > 0 {
            tree_opened(*old(s)).insert(ids_view(ids@))
        } else {
            tree_opened(*old(s))
        }),
{
    let _ = s.open(ids);
}

/// Relies on `TreeState::select`: the path becomes the selection; the open set
/// stays.
#[verifier::external_body]
pub fn select_node(s: &mut TreeState<String>, ids: Vec<String>)
    ensures
        tree_rendered(*final(s)) == tree_rendered(*old(s)),
        tree_selected(*final(s)) == ids_view(ids@),
        tree_opened(*final(s)) == tree_opened(*old(s)),
{
    let _ = s.select(ids);
}

/// Relies on `TreeState::select_first`: it selects the first node of the last
/// render, or nothing when nothing was rendered; the open set stays.
#[verifier::external_body]
pub fn select_first_node(s: &mut TreeState<String>)
    ensures
        tree_opened(*final(s)) == tree_opened(*old(s)),
        tree_rendered(*final(s)) == tree_rendered(*old(s)),
        tree_selected(*final(s)) == (if tree_rendered(*old(s)).len() > 0 {
            tree_rendered(*old(s))[0]
        } else {
            Seq::<Seq<char>>::empty()
        }),
{
    let _ = s.select_first();
}

/// Relies on `TreeState::toggle_selected`: a selected path that is open is
/// closed, one that is closed is opened; with nothing selected nothing
/// changes. The selection stays.
#[verifier::external_body]
pub fn toggle_selected_node(s: &mut TreeState<String>)
    ensures
        tree_rendered(*final(s)) == tree_rendered(*old(s)),
        after_toggle(*old(s), *final(s)),
{
    let _ = s.toggle_selected();
}

/// Relies on `TreeState::key_up`: the selection moves to the node above in
/// the last render, which this state does not show; the open set stays.
#[verifier::external_body]
pub fn tree_key_up(s: &mut TreeState<String>)
    ensures
        tree_rendered(*final(s)) == tree_rendered(*old(s)),
        tree_opened(*final(s)) == tree_opened(*old(s)),
{
    let _ = s.key_up();
}

/// Relies on `TreeState::key_down`: the selection moves to the node below in
/// the last render, which this state does not show; the open set stays.
#[verifier::external_body]
pub fn tree_key_down(s: &mut TreeState<String>)
    ensures
        tree_rendered(*final(s)) == tree_rendered(*old(s)),
        tree_opened(*final(s)) == tree_opened(*old(s)),
{
    let _ = s.key_down();
}

/// Relies on `TreeState::key_left`: an open selected node is closed;
/// otherwise the selection moves to the parent.
#[verifier::external_body]
pub fn tree_key_left(s: &mut TreeState<String>)
    ensures
        tree_rendered(*final(s)) == tree_rendered(*old(s)),
        after_key_left(*old(s), *final(s)),
{
    let _ = s.key_left();
}

/// Relies on `TreeState::key_right`: the selected node is opened; the
/// selection stays.
#[verifier::external_body]
pub fn tree_key_right(s: &mut TreeState<String>)
    ensures
        tree_rendered(*final(s)) == tree_rendered(*old(s)),
        after_key_right(*old(s), *final(s)),
{
    let _ = s.key_right();
}

} // verus!
