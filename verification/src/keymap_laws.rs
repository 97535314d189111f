//! How the keymap, the actions and the key handling of the application fit
//! together, stated over all contexts, keys and actions.
use vstd::prelude::*;

use crate::app::{key_msg, Focus, Msg};
use crate::keybinding::action::{action_msg, Action};
use crate::keybinding::key::KeyCode;
use crate::keybinding::{default_bindings, lookup_spec, Context};

verus! {

/// The keymap context of the focused panel.
pub open spec fn focus_context(f: Focus) -> Context {
    match f {
        Focus::Tree => Context::Tree,
        Focus::Detail => Context::Detail,
    }
}

/// A lookup answers the binding of the context when there is one; when
/// there is none it answers the global binding of the key, in every context
/// (the popup included); with neither it answers nothing.
pub proof fn lemma_lookup_falls_back_to_global(
    m: Map<(Context, KeyCode), Action>,
    ctx: Context,
    k: KeyCode,
)
    ensures
        m.contains_key((ctx, k)) ==> lookup_spec(m, ctx, k) == Some(m[(ctx, k)]),
        !m.contains_key((ctx, k)) && m.contains_key((Context::Global, k)) ==> lookup_spec(m, ctx, k)
            == Some(m[(Context::Global, k)]),
        lookup_spec(m, ctx, k) is Some <==> (m.contains_key((ctx, k)) || m.contains_key(
            (Context::Global, k),
        )),
        lookup_spec(m, Context::Global, k) == lookup_spec(m, ctx, k) || m.contains_key((ctx, k)),
{
}

/// Every key that the application handles in a panel is bound in the default
/// keymap for that panel (directly or globally) to an action whose message is
/// the one the key sends.
pub proof fn lemma_handled_keys_are_bound(f: Focus, k: KeyCode)
    requires
        key_msg(k, f) is Some,
    ensures
        lookup_spec(default_bindings(), focus_context(f), k) is Some,
        action_msg(lookup_spec(default_bindings(), focus_context(f), k)->0) == key_msg(k, f)->0,
{
}

/// In the default keymap the vi letters and the arrows bind the same actions
/// in the tree and the detail panel, and Enter and space both toggle a node.
pub proof fn lemma_default_letters_match_arrows()
    ensures
        lookup_spec(default_bindings(), Context::Tree, KeyCode::Char('j')) == lookup_spec(
            default_bindings(),
            Context::Tree,
            KeyCode::Down,
        ),
        lookup_spec(default_bindings(), Context::Tree, KeyCode::Char('k')) == lookup_spec(
            default_bindings(),
            Context::Tree,
            KeyCode::Up,
        ),
        lookup_spec(default_bindings(), Context::Tree, KeyCode::Char('h')) == lookup_spec(
            default_bindings(),
            Context::Tree,
            KeyCode::Left,
        ),
        lookup_spec(default_bindings(), Context::Tree, KeyCode::Char('l')) == lookup_spec(
            default_bindings(),
            Context::Tree,
            KeyCode::Right,
        ),
        lookup_spec(default_bindings(), Context::Tree, KeyCode::Char(' ')) == lookup_spec(
            default_bindings(),
            Context::Tree,
            KeyCode::Enter,
        ),
        lookup_spec(default_bindings(), Context::Detail, KeyCode::Char('j')) == lookup_spec(
            default_bindings(),
            Context::Detail,
            KeyCode::Down,
        ),
        lookup_spec(default_bindings(), Context::Detail, KeyCode::Char('k')) == lookup_spec(
            default_bindings(),
            Context::Detail,
            KeyCode::Up,
        ),
        lookup_spec(default_bindings(), Context::Tree, KeyCode::Down) == Some(Action::TreeMoveDown),
        lookup_spec(default_bindings(), Context::Tree, KeyCode::Up) == Some(Action::TreeMoveUp),
        lookup_spec(default_bindings(), Context::Tree, KeyCode::Left) == Some(Action::TreeMoveLeft),
        lookup_spec(default_bindings(), Context::Tree, KeyCode::Right) == Some(
            Action::TreeMoveRight,
        ),
        lookup_spec(default_bindings(), Context::Tree, KeyCode::Enter) == Some(
            Action::TreeToggleSelected,
        ),
        lookup_spec(default_bindings(), Context::Detail, KeyCode::Down) == Some(
            Action::DetailScrollDown,
        ),
        lookup_spec(default_bindings(), Context::Detail, KeyCode::Up) == Some(
            Action::DetailScrollUp,
        ),
{
}

/// In the popup the global keys that the popup does not rebind still work;
/// Esc and `?` close it.
pub proof fn lemma_popup_keeps_global_keys(k: KeyCode)
    ensures
        !default_bindings().contains_key((Context::Popup, k)) ==> lookup_spec(
            default_bindings(),
            Context::Popup,
            k,
        ) == lookup_spec(default_bindings(), Context::Global, k),
        lookup_spec(default_bindings(), Context::Popup, KeyCode::Char('q')) == Some(Action::Quit),
        lookup_spec(default_bindings(), Context::Popup, KeyCode::Esc) == Some(Action::ClosePopup),
        lookup_spec(default_bindings(), Context::Popup, KeyCode::Char('?')) == Some(
            Action::ClosePopup,
        ),
{
}

/// Distinct actions send distinct messages, except that closing the popup
/// and toggling it send the same one.
pub proof fn lemma_actions_send_distinct_messages(a: Action, b: Action)
    ensures
        a != b && !((a == Action::ClosePopup || a == Action::ToggleKeybindPopup) && (b
            == Action::ClosePopup || b == Action::ToggleKeybindPopup)) ==> action_msg(a)
            != action_msg(b),
        action_msg(Action::ClosePopup) == action_msg(Action::ToggleKeybindPopup),
{
}

/// Every action other than closing the popup sends the message of the same
/// name; closing the popup sends the toggle.
pub proof fn lemma_action_message_names()
    ensures
        action_msg(Action::TreeMoveDown) == Msg::TreeMoveDown,
        action_msg(Action::TreeMoveUp) == Msg::TreeMoveUp,
        action_msg(Action::TreeMoveLeft) == Msg::TreeMoveLeft,
        action_msg(Action::TreeMoveRight) == Msg::TreeMoveRight,
        action_msg(Action::TreeToggleSelected) == Msg::TreeToggleSelected,
        action_msg(Action::DetailScrollDown) == Msg::DetailScrollDown,
        action_msg(Action::DetailScrollUp) == Msg::DetailScrollUp,
        action_msg(Action::FocusTree) == Msg::FocusTree,
        action_msg(Action::FocusDetail) == Msg::FocusDetail,
        action_msg(Action::ToggleKeybindPopup) == Msg::ToggleKeybindPopup,
        action_msg(Action::ClosePopup) == Msg::ToggleKeybindPopup,
        action_msg(Action::Quit) == Msg::Quit,
{
}

} // verus!
