//! Properties of the library as a whole.
use vstd::prelude::*;

use crate::app::{key_msg, next_focus, next_popup, next_running, tree_step, Focus, Msg, RunningState};
use crate::keybinding::action::{action_description, action_msg, all_actions, footer_spec, Action};
use crate::keybinding::key::{key_le, key_lt, lemma_rank_order, lemma_sort_rank_injective, sort_rank, KeyCode};
use crate::keybinding::{
    bound_count, default_bindings, group_entry, grouped_spec, has_binding, lookup_spec,
    primary_spec, shown_actions, Context,
};
use crate::selection::{first_message, first_signal, message_matches, selection_for, MessageInfo, Selection};
use crate::text::{decimal, lemma_decimal_digits};
use crate::tree::{tree_opened, tree_selected};

use tui_tree_widget::TreeState;

verus! {

/// The canonical order lists every action, and none twice.
pub proof fn lemma_all_actions_listed(a: Action)
    ensures
        all_actions().contains(a),
        all_actions().no_duplicates(),
        all_actions().len() == 12,
{
    let s = all_actions();
    match a {
        Action::FocusTree => assert(s[0] == a),
        Action::FocusDetail => assert(s[1] == a),
        Action::TreeMoveUp => assert(s[2] == a),
        Action::TreeMoveDown => assert(s[3] == a),
        Action::TreeMoveLeft => assert(s[4] == a),
        Action::TreeMoveRight => assert(s[5] == a),
        Action::TreeToggleSelected => assert(s[6] == a),
        Action::DetailScrollUp => assert(s[7] == a),
        Action::DetailScrollDown => assert(s[8] == a),
        Action::ToggleKeybindPopup => assert(s[9] == a),
        Action::ClosePopup => assert(s[10] == a),
        Action::Quit => assert(s[11] == a),
    }
}

/// Keys are listed characters first (by code point), then up, down, left,
/// right, then Enter, then Esc, then every other key.
pub proof fn lemma_listing_order(c: char, d: char, k: KeyCode)
    ensures
        key_lt(KeyCode::Char(c), KeyCode::Up),
        key_lt(KeyCode::Up, KeyCode::Down),
        key_lt(KeyCode::Down, KeyCode::Left),
        key_lt(KeyCode::Left, KeyCode::Right),
        key_lt(KeyCode::Right, KeyCode::Enter),
        key_lt(KeyCode::Enter, KeyCode::Esc),
        !(k is Char || k is Up || k is Down || k is Left || k is Right || k is Enter || k is Esc)
            ==> key_lt(KeyCode::Esc, k),
        key_lt(KeyCode::Char(c), KeyCode::Char(d)) <==> (c as int) < (d as int),
{
    reveal_with_fuel(crate::text::chars_lt_from, 2);
}

/// No two actions share a description, and none is empty.
pub proof fn lemma_descriptions_distinct(a: Action, b: Action)
    ensures
        a != b ==> action_description(a) != action_description(b),
        action_description(a).len() > 0,
{
    reveal_strlit("Move down");
    reveal_strlit("Move up");
    reveal_strlit("Collapse / move left");
    reveal_strlit("Expand / move right");
    reveal_strlit("Toggle selected node");
    reveal_strlit("Scroll detail down");
    reveal_strlit("Scroll detail up");
    reveal_strlit("Focus tree panel");
    reveal_strlit("Focus detail panel");
    reveal_strlit("Show/hide keybindings");
    reveal_strlit("Close popup");
    reveal_strlit("Quit");
    assert(described(action_description(a)) == a);
    assert(described(action_description(b)) == b);
}

spec fn described(s: Seq<char>) -> Action {
    if s.len() == 9 {
        Action::TreeMoveDown
    } else if s.len() == 7 {
        Action::TreeMoveUp
    } else if s.len() == 20 && s[0] == 'C' {
        Action::TreeMoveLeft
    } else if s.len() == 19 {
        Action::TreeMoveRight
    } else if s.len() == 20 {
        Action::TreeToggleSelected
    } else if s.len() == 18 && s[0] == 'S' {
        Action::DetailScrollDown
    } else if s.len() == 16 && s[0] == 'S' {
        Action::DetailScrollUp
    } else if s.len() == 16 {
        Action::FocusTree
    } else if s.len() == 18 {
        Action::FocusDetail
    } else if s.len() == 21 {
        Action::ToggleKeybindPopup
    } else if s.len() == 11 {
        Action::ClosePopup
    } else {
        Action::Quit
    }
}

/// The footer offers quitting and the keybinding popup everywhere but in
/// the popup, where it offers only closing it.
pub proof fn lemma_footer_offers(ctx: Context)
    ensures
        ctx != Context::Popup ==> footer_spec(ctx).contains(Action::Quit) && footer_spec(ctx).contains(
            Action::ToggleKeybindPopup,
        ),
        ctx == Context::Popup ==> footer_spec(ctx) == seq![Action::ClosePopup],
        ctx == Context::Tree ==> footer_spec(ctx).contains(Action::TreeMoveDown) && footer_spec(
            ctx,
        ).contains(Action::TreeMoveUp),
{
    let f = footer_spec(ctx);
    match ctx {
        Context::Tree => {
            assert(f[0] == Action::TreeMoveDown);
            assert(f[1] == Action::TreeMoveUp);
            assert(f[2] == Action::ToggleKeybindPopup);
            assert(f[3] == Action::Quit);
        },
        Context::Popup => {},
        _ => {
            assert(f[0] == Action::ToggleKeybindPopup);
            assert(f[1] == Action::Quit);
        },
    }
}

/// Two keys that are each listed no later than the other are the same key.
pub proof fn lemma_key_le_antisymmetric(a: KeyCode, b: KeyCode)
    requires
        key_le(a, b),
        key_le(b, a),
    ensures
        a == b,
{
    lemma_rank_order(sort_rank(a), sort_rank(b), sort_rank(a));
    lemma_sort_rank_injective(a, b);
}

/// The key shown for an action in a context is the first key that the
/// keybinding popup lists for that action there; an action that the popup
/// does not list has no key to show.
pub proof fn lemma_primary_key_is_first_listed(
    m: Map<(Context, KeyCode), Action>,
    ctx: Context,
    a: Action,
    groups: Seq<(Action, Seq<KeyCode>)>,
    primary: Option<KeyCode>,
)
    requires
        grouped_spec(m, ctx, groups),
        primary_spec(m, ctx, a, primary),
    ensures
        primary is None <==> !(exists|i: int| 0 <= i < groups.len() && (#[trigger] groups[i]).0 == a),
        primary matches Some(k) ==> exists|i: int|
            0 <= i < groups.len() && (#[trigger] groups[i]).0 == a && groups[i].1.len() > 0
                && groups[i].1[0] == k,
{
    broadcast use vstd::seq_lib::group_to_multiset_ensures;

    let shown = shown_actions(m, ctx);
    let pred = |x: Action| has_binding(m, ctx, x);
    assert forall|i: int| 0 <= i < groups.len() && (#[trigger] groups[i]).0 == a implies has_binding(m, ctx, a) by {
        assert(group_entry(m, ctx, groups[i], shown[i]));
        all_actions().lemma_filter_pred(pred, i);
    }
    if has_binding(m, ctx, a) {
        lemma_all_actions_listed(a);
        let idx = choose|idx: int| 0 <= idx < all_actions().len() && all_actions()[idx] == a;
        all_actions().lemma_filter_contains(pred, idx);
        let i = choose|i: int| 0 <= i < shown.len() && shown[i] == a;
        assert(group_entry(m, ctx, groups[i], shown[i]));
        let ks = groups[i].1;
        let k = primary->0;
        assert(ks.to_multiset().count(k) > 0);
        let j = choose|j: int| 0 <= j < ks.len() && ks[j] == k;
        assert(ks.to_multiset().count(ks[0]) > 0);
        assert(key_le(k, ks[0]));
        if j > 0 {
            assert(key_le(ks[0], ks[j]));
        } else {
            lemma_rank_order(sort_rank(k), sort_rank(k), sort_rank(k));
        }
        lemma_key_le_antisymmetric(k, ks[0]);
        assert(groups[i].0 == a);
    }
}

/// A key that triggers an action in a context is listed under that action
/// by the keybinding popup of that context.
pub proof fn lemma_lookup_is_listed(m: Map<(Context, KeyCode), Action>, ctx: Context, k: KeyCode, a: Action)
    requires
        lookup_spec(m, ctx, k) == Some(a),
    ensures
        bound_count(m, ctx, a, k) > 0,
        has_binding(m, ctx, a),
{
    assert(bound_count(m, ctx, a, k) > 0);
}

/// Every action has a key in the default keymap, in some context.
pub proof fn lemma_every_action_has_a_key(a: Action)
    ensures
        exists|ctx: Context| #[trigger] has_binding(default_bindings(), ctx, a),
{
    let m = default_bindings();
    let (ctx, k) = match a {
        Action::TreeMoveDown => (Context::Tree, KeyCode::Down),
        Action::TreeMoveUp => (Context::Tree, KeyCode::Up),
        Action::TreeMoveLeft => (Context::Tree, KeyCode::Left),
        Action::TreeMoveRight => (Context::Tree, KeyCode::Right),
        Action::TreeToggleSelected => (Context::Tree, KeyCode::Enter),
        Action::DetailScrollDown => (Context::Detail, KeyCode::Down),
        Action::DetailScrollUp => (Context::Detail, KeyCode::Up),
        Action::FocusTree => (Context::Global, KeyCode::Char('1')),
        Action::FocusDetail => (Context::Global, KeyCode::Char('2')),
        Action::ToggleKeybindPopup => (Context::Global, KeyCode::Char('?')),
        Action::ClosePopup => (Context::Popup, KeyCode::Esc),
        Action::Quit => (Context::Global, KeyCode::Char('q')),
    };
    assert(bound_count(m, ctx, a, k) > 0);
    assert(has_binding(m, ctx, a));
}

/// Every action the footer offers in a context has a key there in the
/// default keymap.
pub proof fn lemma_footer_actions_have_keys(ctx: Context, i: int)
    requires
        0 <= i < footer_spec(ctx).len(),
    ensures
        has_binding(default_bindings(), ctx, footer_spec(ctx)[i]),
{
    let m = default_bindings();
    let a = footer_spec(ctx)[i];
    let k = match a {
        Action::TreeMoveDown => KeyCode::Down,
        Action::TreeMoveUp => KeyCode::Up,
        Action::ToggleKeybindPopup => KeyCode::Char('?'),
        Action::ClosePopup => KeyCode::Esc,
        _ => KeyCode::Char('q'),
    };
    assert(bound_count(m, ctx, a, k) > 0);
}

/// Whatever has the focus, `1` focuses the tree, `2` the detail panel, and
/// `q` and Esc quit.
pub proof fn lemma_global_keys(f: Focus)
    ensures
        key_msg(KeyCode::Char('1'), f) == Some(Msg::FocusTree),
        next_focus(f, Msg::FocusTree) == Focus::Tree,
        key_msg(KeyCode::Char('2'), f) == Some(Msg::FocusDetail),
        next_focus(f, Msg::FocusDetail) == Focus::Detail,
        key_msg(KeyCode::Char('q'), f) == Some(Msg::Quit),
        key_msg(KeyCode::Esc, f) == Some(Msg::Quit),
        forall|r: RunningState| next_running(r, Msg::Quit) == RunningState::Done,
{
}

/// Closing the popup and toggling it send the same message, and toggling
/// twice leaves the popup as it was.
pub proof fn lemma_popup_toggle(shown: bool)
    ensures
        action_msg(Action::ClosePopup) == action_msg(Action::ToggleKeybindPopup),
        next_popup(next_popup(shown, Msg::ToggleKeybindPopup), Msg::ToggleKeybindPopup) == shown,
{
}

/// Toggling the selected node twice leaves the opened nodes and the
/// selection as they were.
pub proof fn lemma_toggle_twice(s0: TreeState<String>, s1: TreeState<String>, s2: TreeState<String>)
    requires
        tree_step(s0, s1, Msg::TreeToggleSelected),
        tree_step(s1, s2, Msg::TreeToggleSelected),
    ensures
        tree_opened(s2) == tree_opened(s0),
        tree_selected(s2) == tree_selected(s0),
{
    let sel = tree_selected(s0);
    let o = tree_opened(s0);
    if sel.len() > 0 {
        if o.contains(sel) {
            assert(o.remove(sel).insert(sel) =~= o);
        } else {
            assert(o.insert(sel).remove(sel) =~= o);
        }
    }
}

/// Expanding a closed node and then collapsing it leaves the opened nodes
/// and the selection as they were.
pub proof fn lemma_expand_then_collapse(s0: TreeState<String>, s1: TreeState<String>, s2: TreeState<String>)
    requires
        tree_step(s0, s1, Msg::TreeMoveRight),
        tree_step(s1, s2, Msg::TreeMoveLeft),
        tree_selected(s0).len() > 0,
        !tree_opened(s0).contains(tree_selected(s0)),
    ensures
        tree_opened(s2) == tree_opened(s0),
        tree_selected(s2) == tree_selected(s0),
{
    let sel = tree_selected(s0);
    assert(tree_opened(s1).contains(sel));
    assert(tree_opened(s0).insert(sel).remove(sel) =~= tree_opened(s0));
}

/// The tree names a message by its identifier in decimal and a signal by its
/// name; such a path selects that message, or that signal, unless an earlier
/// message has the same identifier (or an earlier signal the same name).
pub proof fn lemma_tree_paths_select(msgs: Seq<MessageInfo>, i: int, j: int)
    requires
        0 <= i < msgs.len(),
        forall|e: int| 0 <= e < i ==> (#[trigger] msgs[e]).id != msgs[i].id,
    ensures
        selection_for(seq![decimal(msgs[i].id as nat)], msgs) == Selection::Message(i as usize),
        0 <= j < msgs[i].signal_names@.len() && (forall|e: int|
            0 <= e < j ==> (#[trigger] msgs[i].signal_names@[e])@ != msgs[i].signal_names@[j]@)
            ==> selection_for(
            seq![decimal(msgs[i].id as nat), msgs[i].signal_names@[j]@],
            msgs,
        ) == Selection::Signal(i as usize, j as usize),
{
    reveal(first_message);
    reveal(first_signal);
    let t = decimal(msgs[i].id as nat);
    assert(message_matches(msgs[i], t));
    assert forall|e: int| 0 <= e < i implies !message_matches(#[trigger] msgs[e], t) by {
        if message_matches(msgs[e], t) {
            crate::keybinding::key::lemma_decimal_injective(msgs[e].id as nat, msgs[i].id as nat);
        }
    }
    let c = choose|c: int|
        0 <= c < msgs.len() && #[trigger] message_matches(msgs[c], t) && forall|e: int|
            0 <= e < c ==> !message_matches(#[trigger] msgs[e], t);
    if c < i {
        assert(!message_matches(msgs[c], t));
    }
    if c > i {
        assert(!message_matches(msgs[i], t));
    }
    assert(first_message(msgs, t) == Some(i));
    if 0 <= j < msgs[i].signal_names@.len() && (forall|e: int|
        0 <= e < j ==> (#[trigger] msgs[i].signal_names@[e])@ != msgs[i].signal_names@[j]@) {
        let names = msgs[i].signal_names@;
        let name = names[j]@;
        let d = choose|d: int|
            0 <= d < names.len() && (#[trigger] names[d])@ == name && forall|e: int|
                0 <= e < d ==> (#[trigger] names[e])@ != name;
        if d < j {
            assert(names[d]@ != name);
        }
        if d > j {
            assert(names[j]@ != name);
        }
        assert(first_signal(names, name) == Some(j));
        let p = seq![t, name];
        assert(p[0] == t);
        assert(p[1] == name);
    }
}

/// `msgs[i]` is the first message whose identifier reads `t`.
pub open spec fn first_with_id(msgs: Seq<MessageInfo>, i: int, t: Seq<char>) -> bool {
    &&& 0 <= i < msgs.len()
    &&& decimal(msgs[i].id as nat) == t
    &&& forall|e: int| 0 <= e < i ==> decimal((#[trigger] msgs[e]).id as nat) != t
}

/// `names[j]` is the first name that reads `n`.
pub open spec fn first_with_name(names: Seq<String>, j: int, n: Seq<char>) -> bool {
    &&& 0 <= j < names.len()
    &&& names[j]@ == n
    &&& forall|e: int| 0 <= e < j ==> (#[trigger] names[e])@ != n
}

/// Whatever a path selects fits the path: a selected message is the first
/// with the identifier the path names; a selected signal of it is its first
/// signal with the name the path gives; and nothing is selected only when
/// the path is empty, names no message, or names a signal that the first
/// matching message lacks.
pub proof fn lemma_selection_fits_path(path: Seq<Seq<char>>, msgs: Seq<MessageInfo>)
    requires
        msgs.len() <= usize::MAX,
        forall|e: int| 0 <= e < msgs.len() ==> (#[trigger] msgs[e]).signal_names@.len() <= usize::MAX,
    ensures
        selection_for(path, msgs) matches Selection::Message(i) ==> path.len() == 1
            && first_with_id(msgs, i as int, path[0]),
        selection_for(path, msgs) matches Selection::Signal(i, j) ==> path.len() >= 2
            && first_with_id(msgs, i as int, path[0]) && first_with_name(
            msgs[i as int].signal_names@,
            j as int,
            path[1],
        ),
        selection_for(path, msgs) == Selection::Empty ==> no_match(path, msgs),
{
    if path.len() > 0 {
        lemma_first_message_fits(msgs, path[0]);
        if let Some(i) = first_message(msgs, path[0]) {
            if path.len() >= 2 {
                lemma_first_signal_fits(msgs[i].signal_names@, path[1]);
            }
        }
    }
}

proof fn lemma_least_id(msgs: Seq<MessageInfo>, t: Seq<char>, i: int) -> (m: int)
    requires
        0 <= i < msgs.len(),
        message_matches(msgs[i], t),
    ensures
        0 <= m <= i,
        message_matches(msgs[m], t),
        forall|e: int| 0 <= e < m ==> !message_matches(#[trigger] msgs[e], t),
    decreases i,
{
    if exists|e: int| 0 <= e < i && #[trigger] message_matches(msgs[e], t) {
        let e = choose|e: int| 0 <= e < i && #[trigger] message_matches(msgs[e], t);
        lemma_least_id(msgs, t, e)
    } else {
        i
    }
}

proof fn lemma_least_name(names: Seq<String>, n: Seq<char>, i: int) -> (m: int)
    requires
        0 <= i < names.len(),
        names[i]@ == n,
    ensures
        0 <= m <= i,
        names[m]@ == n,
        forall|e: int| 0 <= e < m ==> (#[trigger] names[e])@ != n,
    decreases i,
{
    if exists|e: int| 0 <= e < i && (#[trigger] names[e])@ == n {
        let e = choose|e: int| 0 <= e < i && (#[trigger] names[e])@ == n;
        lemma_least_name(names, n, e)
    } else {
        i
    }
}

proof fn lemma_first_message_fits(msgs: Seq<MessageInfo>, t: Seq<char>)
    ensures
        first_message(msgs, t) matches Some(i) ==> first_with_id(msgs, i, t),
        first_message(msgs, t) is None ==> forall|e: int|
            0 <= e < msgs.len() ==> decimal((#[trigger] msgs[e]).id as nat) != t,
{
    reveal(first_message);
    if exists|i: int| 0 <= i < msgs.len() && #[trigger] message_matches(msgs[i], t) {
        let w = choose|i: int| 0 <= i < msgs.len() && #[trigger] message_matches(msgs[i], t);
        let m = lemma_least_id(msgs, t, w);
        let i = choose|i: int|
            0 <= i < msgs.len() && #[trigger] message_matches(msgs[i], t) && forall|e: int|
                0 <= e < i ==> !message_matches(#[trigger] msgs[e], t);
        assert(message_matches(msgs[i], t));
        assert forall|e: int| 0 <= e < i implies decimal((#[trigger] msgs[e]).id as nat) != t by {
            assert(!message_matches(msgs[e], t));
        }
    } else {
        assert forall|e: int| 0 <= e < msgs.len() implies decimal((#[trigger] msgs[e]).id as nat)
            != t by {
            assert(!message_matches(msgs[e], t));
        }
    }
}

proof fn lemma_first_signal_fits(names: Seq<String>, n: Seq<char>)
    ensures
        first_signal(names, n) matches Some(j) ==> first_with_name(names, j, n),
        first_signal(names, n) is None ==> forall|e: int|
            0 <= e < names.len() ==> (#[trigger] names[e])@ != n,
{
    reveal(first_signal);
    if exists|i: int| 0 <= i < names.len() && (#[trigger] names[i])@ == n {
        let w = choose|i: int| 0 <= i < names.len() && (#[trigger] names[i])@ == n;
        let m = lemma_least_name(names, n, w);
        let j = choose|i: int|
            0 <= i < names.len() && (#[trigger] names[i])@ == n && forall|e: int|
                0 <= e < i ==> (#[trigger] names[e])@ != n;
        assert(names[j]@ == n);
    } else {
        assert forall|e: int| 0 <= e < names.len() implies (#[trigger] names[e])@ != n by {}
    }
}

/// Why a path selects nothing.
pub open spec fn no_match(path: Seq<Seq<char>>, msgs: Seq<MessageInfo>) -> bool {
    ||| path.len() == 0
    ||| forall|e: int| 0 <= e < msgs.len() ==> decimal((#[trigger] msgs[e]).id as nat) != path[0]
    ||| path.len() >= 2 && exists|i: int|
        #[trigger] first_with_id(msgs, i, path[0]) && forall|e: int|
            0 <= e < msgs[i].signal_names@.len() ==> (#[trigger] msgs[i].signal_names@[e])@
                != path[1]
}

/// After the first message is selected (as the tree does before it is first
/// drawn), the selection points at that message.
pub proof fn lemma_first_selection_resolves(msgs: Seq<MessageInfo>)
    requires
        msgs.len() > 0,
    ensures
        selection_for(seq![decimal(msgs[0].id as nat)], msgs) == Selection::Message(0),
{
    lemma_tree_paths_select(msgs, 0, 0);
}

} // verus!
