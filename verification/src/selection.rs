//! What the tree's selection points at: a message, a signal of a message,
//! or nothing.
use vstd::prelude::*;

use tui_tree_widget::TreeState;

use crate::text::{decimal, decimal_string};
use crate::tree::{
    selected_path, tree_last_index, tree_opened, tree_select, tree_selected, tree_visible,
};

verus! {

/// What the selection logic reads of a message of the database: its
/// identifier and the names of its signals, in order.
pub struct MessageInfo {
    pub id: u32,
    pub signal_names: Vec<String>,
}

/// The selected item, by position: a message of the list, or a signal of
/// one of its messages.
#[derive(Debug, Clone, Copy, PartialEq, Eq, Structural)]
pub enum Selection {
    Empty,
    Message(usize),
    Signal(usize, usize),
}

/// The tree identifies a message by its identifier in decimal.
pub open spec fn message_matches(m: MessageInfo, text: Seq<char>) -> bool {
    decimal(m.id as nat) == text
}

/// The position of the first message whose identifier reads `text`.
#[verifier::opaque]
pub open spec fn first_message(msgs: Seq<MessageInfo>, text: Seq<char>) -> Option<int> {
    if exists|i: int| 0 <= i < msgs.len() && #[trigger] message_matches(msgs[i], text) {
        Some(
            choose|i: int|
                0 <= i < msgs.len() && #[trigger] message_matches(msgs[i], text) && forall|j: int|
                    0 <= j < i ==> !message_matches(#[trigger] msgs[j], text),
        )
    } else {
        None
    }
}

/// The position of the first signal named `name`.
#[verifier::opaque]
pub open spec fn first_signal(names: Seq<String>, name: Seq<char>) -> Option<int> {
    if exists|i: int| 0 <= i < names.len() && (#[trigger] names[i])@ == name {
        Some(
            choose|i: int|
                0 <= i < names.len() && (#[trigger] names[i])@ == name && forall|j: int|
                    0 <= j < i ==> (#[trigger] names[j])@ != name,
        )
    } else {
        None
    }
}

/// The item a selected path points at: its first part names a message by
/// identifier, its second a signal of that message by name; what follows
/// the second part does not matter.
pub open spec fn selection_for(path: Seq<Seq<char>>, msgs: Seq<MessageInfo>) -> Selection {
    if path.len() == 0 {
        Selection::Empty
    } else {
        match first_message(msgs, path[0]) {
            None => Selection::Empty,
            Some(i) => if path.len() == 1 {
                Selection::Message(i as usize)
            } else {
                match first_signal(msgs[i].signal_names@, path[1]) {
                    None => Selection::Empty,
                    Some(j) => Selection::Signal(i as usize, j as usize),
                }
            },
        }
    }
}

fn find_message(messages: &[MessageInfo], text: &String) -> (r: Option<usize>)
    ensures
        r matches Some(i) ==> i < messages@.len() && first_message(messages@, text@) == Some(
            i as int,
        ),
        r is None ==> first_message(messages@, text@) is None,
{
    let n = messages.len();
    let mut i: usize = 0;
    while i < n
        invariant
            n == messages@.len(),
            i <= n,
            forall|j: int| 0 <= j < i ==> !message_matches(#[trigger] messages@[j], text@),
        decreases n - i,
    {
        let id_text = decimal_string(messages[i].id);
        if id_text == *text {
            proof {
                reveal(first_message);
                let c = choose|c: int|
                    0 <= c < messages@.len() && #[trigger] message_matches(messages@[c], text@)
                        && forall|j: int| 0 <= j < c ==> !message_matches(#[trigger] messages@[j], text@);
                assert(message_matches(messages@[i as int], text@));
                if c < i {
                    assert(!message_matches(messages@[c], text@));
                }
                if c > i {
                    assert(!message_matches(messages@[i as int], text@));
                }
            }
            return Some(i);
        }
        i = i + 1;
    }
    proof {
        reveal(first_message);
    }
    None
}

fn find_signal(names: &Vec<String>, name: &String) -> (r: Option<usize>)
    ensures
        r matches Some(j) ==> first_signal(names@, name@) == Some(j as int),
        r is None ==> first_signal(names@, name@) is None,
{
    let n = names.len();
    let mut i: usize = 0;
    while i < n
        invariant
            n == names@.len(),
            i <= n,
            forall|j: int| 0 <= j < i ==> (#[trigger] names@[j])@ != name@,
        decreases n - i,
    {
        if names[i] == *name {
            proof {
                reveal(first_signal);
                let c = choose|c: int|
                    0 <= c < names@.len() && (#[trigger] names@[c])@ == name@ && forall|j: int|
                        0 <= j < c ==> (#[trigger] names@[j])@ != name@;
                assert(names@[i as int]@ == name@);
                if c < i {
                    assert(names@[c]@ != name@);
                }
                if c > i {
                    assert(names@[i as int]@ != name@);
                }
            }
            return Some(i);
        }
        i = i + 1;
    }
    proof {
        reveal(first_signal);
    }
    None
}

/// The item that a selected path points at.
pub fn select_from_path(path: &[String], messages: &[MessageInfo]) -> (r: Selection)
    ensures
        r == selection_for(path@.map_values(|s: String| s@), messages@),
{
    let ghost p = path@.map_values(|s: String| s@);
    if path.len() == 0 {
        return Selection::Empty;
    }
    assert(p[0] == path@[0]@);
    match find_message(messages, &path[0]) {
        None => Selection::Empty,
        Some(i) => {
            if path.len() == 1 {
                Selection::Message(i)
            } else {
                assert(p[1] == path@[1]@);
                match find_signal(&messages[i].signal_names, &path[1]) {
                    None => Selection::Empty,
                    Some(j) => Selection::Signal(i, j),
                }
            }
        },
    }
}

/// The item that the tree's selection points at.
pub fn resolve_selection(tree_state: &TreeState<String>, messages: &[MessageInfo]) -> (r: Selection)
    ensures
        r == selection_for(tree_selected(*tree_state), messages@),
{
    let path = selected_path(tree_state);
    select_from_path(path.as_slice(), messages)
}

/// Before the tree is first drawn, selects the first message when nothing
/// is selected; otherwise leaves the state as it is.
pub fn select_first_if_empty(tree_state: &mut TreeState<String>, messages: &[MessageInfo])
    ensures
        tree_selected(*final(tree_state)) == (if tree_selected(*old(tree_state)).len() == 0
            && messages@.len() > 0 {
            seq![decimal(messages@[0].id as nat)]
        } else {
            tree_selected(*old(tree_state))
        }),
        tree_opened(*final(tree_state)) == tree_opened(*old(tree_state)),
        tree_visible(*final(tree_state)) == tree_visible(*old(tree_state)),
        tree_last_index(*final(tree_state)) == tree_last_index(*old(tree_state)),
{
    let current = selected_path(tree_state);
    if current.len() == 0 && messages.len() > 0 {
        let mut path: Vec<String> = Vec::new();
        path.push(decimal_string(messages[0].id));
        proof {
            assert(path@.map_values(|s: String| s@) =~= seq![decimal(messages@[0].id as nat)]);
        }
        tree_select(tree_state, path);
    }
}

} // verus!
