//! The state of the message tree, held by `tui_tree_widget::TreeState`.
//!
//! The state is the widget crate's own type. What the library needs of it is
//! named here: the selected path, the set of opened paths, the paths that the
//! last render showed (in order) and the largest index of that render. Each
//! operation that the viewer calls is a wrapper whose contract says, from the
//! crate's source, what it does to those four.
use vstd::prelude::*;

use tui_tree_widget::TreeState;

verus! {

#[verifier::external_type_specification]
#[verifier::external_body]
#[verifier::reject_recursive_types(Identifier)]
pub struct ExTreeState<Identifier>(TreeState<Identifier>);

/// The identifier path of the selected node (`TreeState::selected`).
pub uninterp spec fn tree_selected(state: TreeState<String>) -> Seq<Seq<char>>;

/// The identifier paths of the opened nodes (`TreeState::opened`).
pub uninterp spec fn tree_opened(state: TreeState<String>) -> Set<Seq<Seq<char>>>;

/// The identifier paths of the nodes shown on the last render, top to bottom.
pub uninterp spec fn tree_visible(state: TreeState<String>) -> Seq<Seq<Seq<char>>>;

/// The largest index the last render could select.
pub uninterp spec fn tree_last_index(state: TreeState<String>) -> nat;

/// The index of the first occurrence of `sel` in `vis`.
pub open spec fn position_of(vis: Seq<Seq<Seq<char>>>, sel: Seq<Seq<char>>) -> Option<int> {
    if exists|i: int| 0 <= i < vis.len() && vis[i] == sel {
        Some(
            choose|i: int|
                0 <= i < vis.len() && vis[i] == sel && forall|j: int| 0 <= j < i ==> vis[j] != sel,
        )
    } else {
        None
    }
}

/// The path at index `i` of the last render, or the empty path.
pub open spec fn path_at(vis: Seq<Seq<Seq<char>>>, i: int) -> Seq<Seq<char>> {
    if 0 <= i < vis.len() {
        vis[i]
    } else {
        Seq::empty()
    }
}

/// The smaller of two integers.
pub open spec fn min_int(a: int, b: int) -> int {
    if a <= b {
        a
    } else {
        b
    }
}

/// The selection after moving down: the next shown node, or the first one
/// when the selection was not shown.
pub open spec fn after_key_down(sel: Seq<Seq<char>>, vis: Seq<Seq<Seq<char>>>, last: nat) -> Seq<
    Seq<char>,
> {
    let target = match position_of(vis, sel) {
        None => 0,
        Some(c) => min_int(c + 1, usize::MAX as int),
    };
    path_at(vis, min_int(target, last as int))
}

/// The selection after moving up: the previous shown node, or the last one
/// when the selection was not shown.
pub open spec fn after_key_up(sel: Seq<Seq<char>>, vis: Seq<Seq<Seq<char>>>, last: nat) -> Seq<
    Seq<char>,
> {
    let target = match position_of(vis, sel) {
        None => usize::MAX as int,
        Some(c) => if c == 0 {
            0
        } else {
            c - 1
        },
    };
    path_at(vis, min_int(target, last as int))
}

/// A new state: nothing selected, opened or rendered (`TreeState::default`).
#[verifier::external_body]
pub(crate) fn new_tree_state() -> (r: TreeState<String>)
    ensures
        tree_selected(r) == Seq::<Seq<char>>::empty(),
        tree_opened(r) == Set::<Seq<Seq<char>>>::empty(),
        tree_visible(r) == Seq::<Seq<Seq<char>>>::empty(),
        tree_last_index(r) == 0,
{
    TreeState::default()
}

/// The selected path (`TreeState::selected`), copied out.
#[verifier::external_body]
pub(crate) fn selected_path(state: &TreeState<String>) -> (r: Vec<String>)
    ensures
        r@.map_values(|s: String| s@) == tree_selected(*state),
{
    state.selected().to_vec()
}

/// `TreeState::select`: selects `path`; returns whether the selection
/// changed.
#[verifier::external_body]
pub(crate) fn tree_select(state: &mut TreeState<String>, path: Vec<String>) -> (changed: bool)
    ensures
        tree_selected(*final(state)) == path@.map_values(|s: String| s@),
        tree_opened(*final(state)) == tree_opened(*old(state)),
        tree_visible(*final(state)) == tree_visible(*old(state)),
        tree_last_index(*final(state)) == tree_last_index(*old(state)),
        changed == (tree_selected(*final(state)) != tree_selected(*old(state))),
{
    state.select(path)
}

/// `TreeState::key_down`: selects the node below; returns whether the
/// selection changed.
#[verifier::external_body]
pub(crate) fn tree_key_down(state: &mut TreeState<String>) -> (changed: bool)
    ensures
        tree_selected(*final(state)) == after_key_down(
            tree_selected(*old(state)),
            tree_visible(*old(state)),
            tree_last_index(*old(state)),
        ),
        tree_opened(*final(state)) == tree_opened(*old(state)),
        tree_visible(*final(state)) == tree_visible(*old(state)),
        tree_last_index(*final(state)) == tree_last_index(*old(state)),
        changed == (tree_selected(*final(state)) != tree_selected(*old(state))),
{
    state.key_down()
}

/// `TreeState::key_up`: selects the node above; returns whether the
/// selection changed.
#[verifier::external_body]
pub(crate) fn tree_key_up(state: &mut TreeState<String>) -> (changed: bool)
    ensures
        tree_selected(*final(state)) == after_key_up(
            tree_selected(*old(state)),
            tree_visible(*old(state)),
            tree_last_index(*old(state)),
        ),
        tree_opened(*final(state)) == tree_opened(*old(state)),
        tree_visible(*final(state)) == tree_visible(*old(state)),
        tree_last_index(*final(state)) == tree_last_index(*old(state)),
        changed == (tree_selected(*final(state)) != tree_selected(*old(state))),
{
    state.key_up()
}

/// `TreeState::key_left`: closes the selected node when it is open, else
/// selects its parent; returns whether anything changed.
#[verifier::external_body]
pub(crate) fn tree_key_left(state: &mut TreeState<String>) -> (changed: bool)
    ensures
        ({
            let sel = tree_selected(*old(state));
            let opened = tree_opened(*old(state));
            if opened.contains(sel) {
                &&& tree_opened(*final(state)) == opened.remove(sel)
                &&& tree_selected(*final(state)) == sel
                &&& changed
            } else {
                &&& tree_opened(*final(state)) == opened
                &&& tree_selected(*final(state)) == (if sel.len() > 0 {
                    sel.drop_last()
                } else {
                    sel
                })
                &&& changed == (sel.len() > 0)
            }
        }),
        tree_visible(*final(state)) == tree_visible(*old(state)),
        tree_last_index(*final(state)) == tree_last_index(*old(state)),
{
    state.key_left()
}

/// `TreeState::key_right`: opens the selected node; returns whether it was
/// closed before.
#[verifier::external_body]
pub(crate) fn tree_key_right(state: &mut TreeState<String>) -> (changed: bool)
    ensures
        ({
            let sel = tree_selected(*old(state));
            let opened = tree_opened(*old(state));
            if sel.len() == 0 {
                &&& tree_opened(*final(state)) == opened
                &&& !changed
            } else {
                &&& tree_opened(*final(state)) == opened.insert(sel)
                &&& changed == !opened.contains(sel)
            }
        }),
        tree_selected(*final(state)) == tree_selected(*old(state)),
        tree_visible(*final(state)) == tree_visible(*old(state)),
        tree_last_index(*final(state)) == tree_last_index(*old(state)),
{
    state.key_right()
}

/// `TreeState::toggle_selected`: opens the selected node when closed, closes
/// it when open; returns false only when nothing is selected.
#[verifier::external_body]
pub(crate) fn tree_toggle_selected(state: &mut TreeState<String>) -> (changed: bool)
    ensures
        ({
            let sel = tree_selected(*old(state));
            let opened = tree_opened(*old(state));
            if sel.len() == 0 {
                &&& tree_opened(*final(state)) == opened
                &&& !changed
            } else {
                &&& tree_opened(*final(state)) == (if opened.contains(sel) {
                    opened.remove(sel)
                } else {
                    opened.insert(sel)
                })
                &&& changed
            }
        }),
        tree_selected(*final(state)) == tree_selected(*old(state)),
        tree_visible(*final(state)) == tree_visible(*old(state)),
        tree_last_index(*final(state)) == tree_last_index(*old(state)),
{
    state.toggle_selected()
}

} // verus!
