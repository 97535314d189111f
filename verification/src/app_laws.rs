//! What each message does to the application, and which key sends which
//! message, stated over all states and keys.
use vstd::prelude::*;

use crate::app::{key_msg, update_spec, App, Focus, Msg, RunningState};
use crate::keybinding::key::KeyCode;
use crate::tree::{tree_last_index, tree_opened, tree_selected, tree_visible};

verus! {

/// Expanding a node opens exactly the selected node: a node that is already
/// open stays open, nothing else opens or closes, and the selection stays.
/// With nothing selected, nothing opens.
pub proof fn lemma_move_right_opens_selected(before: App, after: App)
    requires
        update_spec(before, after, Msg::TreeMoveRight),
    ensures
        ({
            let sel = tree_selected(before.tree_state);
            &&& tree_selected(after.tree_state) == sel
            &&& sel.len() > 0 ==> tree_opened(after.tree_state).contains(sel)
            &&& sel.len() > 0 ==> tree_opened(after.tree_state) == tree_opened(
                before.tree_state,
            ).insert(sel)
            &&& tree_opened(before.tree_state).contains(sel) ==> tree_opened(after.tree_state)
                == tree_opened(before.tree_state)
            &&& forall|p: Seq<Seq<char>>|
                p != sel ==> (tree_opened(after.tree_state).contains(p) == tree_opened(
                    before.tree_state,
                ).contains(p))
        }),
{
    let sel = tree_selected(before.tree_state);
    if tree_opened(before.tree_state).contains(sel) && sel.len() > 0 {
        assert(tree_opened(before.tree_state).insert(sel) =~= tree_opened(before.tree_state));
    }
}

/// Collapsing closes the selected node when it is open and keeps the
/// selection; on a closed node it selects the parent and opens or closes
/// nothing.
pub proof fn lemma_move_left_closes_or_goes_up(before: App, after: App)
    requires
        update_spec(before, after, Msg::TreeMoveLeft),
    ensures
        ({
            let sel = tree_selected(before.tree_state);
            let opened = tree_opened(before.tree_state);
            &&& opened.contains(sel) ==> !tree_opened(after.tree_state).contains(sel)
                && tree_selected(after.tree_state) == sel
            &&& !opened.contains(sel) ==> tree_opened(after.tree_state) == opened
            &&& !opened.contains(sel) && sel.len() > 0 ==> tree_selected(after.tree_state)
                == sel.subrange(0, sel.len() - 1)
            &&& forall|p: Seq<Seq<char>>|
                p != sel ==> (tree_opened(after.tree_state).contains(p) == opened.contains(p))
        }),
{
}

/// Toggling flips whether the selected node is open and leaves every other
/// node and the selection as they were.
pub proof fn lemma_toggle_flips_selected(before: App, after: App)
    requires
        update_spec(before, after, Msg::TreeToggleSelected),
    ensures
        ({
            let sel = tree_selected(before.tree_state);
            let opened = tree_opened(before.tree_state);
            &&& tree_selected(after.tree_state) == sel
            &&& sel.len() > 0 ==> (tree_opened(after.tree_state).contains(sel) == !opened.contains(
                sel,
            ))
            &&& sel.len() == 0 ==> tree_opened(after.tree_state) == opened
            &&& forall|p: Seq<Seq<char>>|
                p != sel ==> (tree_opened(after.tree_state).contains(p) == opened.contains(p))
        }),
{
}

/// Moving down selects the node drawn just below the selected one, moving
/// up the node drawn just above; neither opens or closes anything.
pub proof fn lemma_vertical_moves_follow_the_drawing(before: App, down: App, up: App, c: int)
    requires
        update_spec(before, down, Msg::TreeMoveDown),
        update_spec(before, up, Msg::TreeMoveUp),
        tree_visible(before.tree_state).len() <= usize::MAX,
        0 <= c < tree_visible(before.tree_state).len(),
        tree_visible(before.tree_state)[c] == tree_selected(before.tree_state),
        forall|j: int|
            0 <= j < c ==> tree_visible(before.tree_state)[j] != tree_selected(before.tree_state),
    ensures
        c + 1 < tree_visible(before.tree_state).len() && c + 1 <= tree_last_index(before.tree_state)
            ==> tree_selected(down.tree_state) == tree_visible(before.tree_state)[c + 1],
        c > 0 && c - 1 <= tree_last_index(before.tree_state) ==> tree_selected(up.tree_state)
            == tree_visible(before.tree_state)[c - 1],
        c == 0 ==> tree_selected(up.tree_state) == tree_visible(before.tree_state)[0],
        tree_opened(down.tree_state) == tree_opened(before.tree_state),
        tree_opened(up.tree_state) == tree_opened(before.tree_state),
{
    let vis = tree_visible(before.tree_state);
    let sel = tree_selected(before.tree_state);
    assert(exists|i: int| 0 <= i < vis.len() && vis[i] == sel);
    let p = choose|i: int|
        0 <= i < vis.len() && vis[i] == sel && forall|j: int| 0 <= j < i ==> vis[j] != sel;
    if p < c {
        assert(vis[p] != sel);
    }
    if p > c {
        assert(vis[c] != sel);
    }
    assert(p == c);
}

/// With no shown node selected, moving down selects the first drawn node and
/// moving up the last one the drawing allows.
pub proof fn lemma_vertical_moves_without_selection(before: App, down: App, up: App)
    requires
        update_spec(before, down, Msg::TreeMoveDown),
        update_spec(before, up, Msg::TreeMoveUp),
        0 < tree_visible(before.tree_state).len() <= usize::MAX,
        !tree_visible(before.tree_state).contains(tree_selected(before.tree_state)),
        tree_last_index(before.tree_state) < tree_visible(before.tree_state).len(),
    ensures
        tree_selected(down.tree_state) == tree_visible(before.tree_state)[0],
        tree_selected(up.tree_state) == tree_visible(before.tree_state)[tree_last_index(
            before.tree_state,
        ) as int],
{
    let vis = tree_visible(before.tree_state);
    let sel = tree_selected(before.tree_state);
    assert(!(exists|i: int| 0 <= i < vis.len() && vis[i] == sel)) by {
        if exists|i: int| 0 <= i < vis.len() && vis[i] == sel {
            let i = choose|i: int| 0 <= i < vis.len() && vis[i] == sel;
            assert(vis.contains(sel));
        }
    }
}

/// The focus messages move the focus, quitting stops the loop, the popup
/// message flips the popup, and scrolling the detail panel changes nothing.
/// None of these touches the tree, and no tree message touches the focus,
/// the running state or the popup.
pub proof fn lemma_messages_touch_only_their_part(before: App, after: App, msg: Msg)
    requires
        update_spec(before, after, msg),
    ensures
        msg == Msg::FocusTree ==> after.focus_state == Focus::Tree,
        msg == Msg::FocusDetail ==> after.focus_state == Focus::Detail,
        msg == Msg::Quit ==> after.running_state == RunningState::Done,
        msg == Msg::ToggleKeybindPopup ==> after.show_keybind_popup == !before.show_keybind_popup,
        msg != Msg::ToggleKeybindPopup ==> after.show_keybind_popup == before.show_keybind_popup,
        msg != Msg::Quit ==> after.running_state == before.running_state,
        msg != Msg::FocusTree && msg != Msg::FocusDetail ==> after.focus_state
            == before.focus_state,
        (msg == Msg::DetailScrollDown || msg == Msg::DetailScrollUp || msg == Msg::FocusTree || msg
            == Msg::FocusDetail || msg == Msg::Quit || msg == Msg::ToggleKeybindPopup)
            ==> after.tree_state == before.tree_state,
        after.dbc == before.dbc,
        after.keymap == before.keymap,
        tree_visible(after.tree_state) == tree_visible(before.tree_state),
        tree_last_index(after.tree_state) == tree_last_index(before.tree_state),
{
}

/// In the tree every arrow key does what its vi letter does: down/`j`,
/// up/`k`, left/`h`, right/`l`; Enter and space toggle the node.
pub proof fn lemma_tree_arrows_match_letters()
    ensures
        key_msg(KeyCode::Down, Focus::Tree) == key_msg(KeyCode::Char('j'), Focus::Tree),
        key_msg(KeyCode::Up, Focus::Tree) == key_msg(KeyCode::Char('k'), Focus::Tree),
        key_msg(KeyCode::Left, Focus::Tree) == key_msg(KeyCode::Char('h'), Focus::Tree),
        key_msg(KeyCode::Right, Focus::Tree) == key_msg(KeyCode::Char('l'), Focus::Tree),
        key_msg(KeyCode::Enter, Focus::Tree) == key_msg(KeyCode::Char(' '), Focus::Tree),
        key_msg(KeyCode::Down, Focus::Tree) == Some(Msg::TreeMoveDown),
        key_msg(KeyCode::Up, Focus::Tree) == Some(Msg::TreeMoveUp),
        key_msg(KeyCode::Left, Focus::Tree) == Some(Msg::TreeMoveLeft),
        key_msg(KeyCode::Right, Focus::Tree) == Some(Msg::TreeMoveRight),
        key_msg(KeyCode::Enter, Focus::Tree) == Some(Msg::TreeToggleSelected),
{
}

/// In the detail panel the vertical arrows and `j`/`k` scroll, and the tree
/// keys do nothing.
pub proof fn lemma_detail_keys()
    ensures
        key_msg(KeyCode::Down, Focus::Detail) == key_msg(KeyCode::Char('j'), Focus::Detail),
        key_msg(KeyCode::Up, Focus::Detail) == key_msg(KeyCode::Char('k'), Focus::Detail),
        key_msg(KeyCode::Down, Focus::Detail) == Some(Msg::DetailScrollDown),
        key_msg(KeyCode::Up, Focus::Detail) == Some(Msg::DetailScrollUp),
        key_msg(KeyCode::Left, Focus::Detail) is None,
        key_msg(KeyCode::Right, Focus::Detail) is None,
        key_msg(KeyCode::Char('h'), Focus::Detail) is None,
        key_msg(KeyCode::Char('l'), Focus::Detail) is None,
        key_msg(KeyCode::Enter, Focus::Detail) is None,
        key_msg(KeyCode::Char(' '), Focus::Detail) is None,
{
}

/// A key never sends a tree message while the detail panel has the focus,
/// nor a detail message while the tree has it.
pub proof fn lemma_keys_stay_in_their_panel(k: KeyCode)
    ensures
        key_msg(k, Focus::Detail) != Some(Msg::TreeMoveDown) && key_msg(k, Focus::Detail) != Some(
            Msg::TreeMoveUp,
        ) && key_msg(k, Focus::Detail) != Some(Msg::TreeMoveLeft) && key_msg(k, Focus::Detail)
            != Some(Msg::TreeMoveRight) && key_msg(k, Focus::Detail) != Some(
            Msg::TreeToggleSelected,
        ),
        key_msg(k, Focus::Tree) != Some(Msg::DetailScrollDown) && key_msg(k, Focus::Tree) != Some(
            Msg::DetailScrollUp,
        ),
{
}

} // verus!
