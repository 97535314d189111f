use vstd::prelude::*;

use crate::app::Msg;
use crate::keybinding::Context;

verus! {

/// Everything a key press can be bound to.
#[derive(Debug, Clone, Copy, PartialEq, Eq, Hash, Structural)]
pub enum Action {
    TreeMoveDown,
    TreeMoveUp,
    TreeMoveLeft,
    TreeMoveRight,
    TreeToggleSelected,
    DetailScrollDown,
    DetailScrollUp,
    FocusTree,
    FocusDetail,
    ToggleKeybindPopup,
    ClosePopup,
    Quit,
}

/// The canonical order of actions, as shown in the keybinding popup.
pub open spec fn all_actions() -> Seq<Action> {
    seq![
        Action::FocusTree,
        Action::FocusDetail,
        Action::TreeMoveUp,
        Action::TreeMoveDown,
        Action::TreeMoveLeft,
        Action::TreeMoveRight,
        Action::TreeToggleSelected,
        Action::DetailScrollUp,
        Action::DetailScrollDown,
        Action::ToggleKeybindPopup,
        Action::ClosePopup,
        Action::Quit,
    ]
}

/// The text that describes an action in the keybinding popup.
pub open spec fn action_description(a: Action) -> Seq<char> {
    match a {
        Action::TreeMoveDown => "Move down"@,
        Action::TreeMoveUp => "Move up"@,
        Action::TreeMoveLeft => "Collapse / move left"@,
        Action::TreeMoveRight => "Expand / move right"@,
        Action::TreeToggleSelected => "Toggle selected node"@,
        Action::DetailScrollDown => "Scroll detail down"@,
        Action::DetailScrollUp => "Scroll detail up"@,
        Action::FocusTree => "Focus tree panel"@,
        Action::FocusDetail => "Focus detail panel"@,
        Action::ToggleKeybindPopup => "Show/hide keybindings"@,
        Action::ClosePopup => "Close popup"@,
        Action::Quit => "Quit"@,
    }
}

/// The message an action sends; closing the popup toggles it.
pub open spec fn action_msg(a: Action) -> Msg {
    match a {
        Action::TreeMoveDown => Msg::TreeMoveDown,
        Action::TreeMoveUp => Msg::TreeMoveUp,
        Action::TreeMoveLeft => Msg::TreeMoveLeft,
        Action::TreeMoveRight => Msg::TreeMoveRight,
        Action::TreeToggleSelected => Msg::TreeToggleSelected,
        Action::DetailScrollDown => Msg::DetailScrollDown,
        Action::DetailScrollUp => Msg::DetailScrollUp,
        Action::FocusTree => Msg::FocusTree,
        Action::FocusDetail => Msg::FocusDetail,
        Action::ToggleKeybindPopup => Msg::ToggleKeybindPopup,
        Action::ClosePopup => Msg::ToggleKeybindPopup,
        Action::Quit => Msg::Quit,
    }
}

/// The actions shown in the footer for a context.
pub open spec fn footer_spec(ctx: Context) -> Seq<Action> {
    match ctx {
        Context::Tree => seq![
            Action::TreeMoveDown,
            Action::TreeMoveUp,
            Action::ToggleKeybindPopup,
            Action::Quit,
        ],
        Context::Detail => seq![Action::ToggleKeybindPopup, Action::Quit],
        Context::Popup => seq![Action::ClosePopup],
        Context::Global => seq![Action::ToggleKeybindPopup, Action::Quit],
    }
}

impl Action {
    /// The text that describes the action.
    pub fn description(&self) -> (s: &'static str)
        ensures
            s@ == action_description(*self),
    {
        match self {
            Action::TreeMoveDown => "Move down",
            Action::TreeMoveUp => "Move up",
            Action::TreeMoveLeft => "Collapse / move left",
            Action::TreeMoveRight => "Expand / move right",
            Action::TreeToggleSelected => "Toggle selected node",
            Action::DetailScrollDown => "Scroll detail down",
            Action::DetailScrollUp => "Scroll detail up",
            Action::FocusTree => "Focus tree panel",
            Action::FocusDetail => "Focus detail panel",
            Action::ToggleKeybindPopup => "Show/hide keybindings",
            Action::ClosePopup => "Close popup",
            Action::Quit => "Quit",
        }
    }

    /// Canonical order of actions for the keybinding popup.
    pub fn all() -> (r: &'static [Action])
        ensures
            r@ == all_actions(),
    {
        &[
            Action::FocusTree,
            Action::FocusDetail,
            Action::TreeMoveUp,
            Action::TreeMoveDown,
            Action::TreeMoveLeft,
            Action::TreeMoveRight,
            Action::TreeToggleSelected,
            Action::DetailScrollUp,
            Action::DetailScrollDown,
            Action::ToggleKeybindPopup,
            Action::ClosePopup,
            Action::Quit,
        ]
    }

    /// The message the action sends. Payload free for now: this is where an
    /// action with a payload would plug in without touching the keymap.
    pub fn to_msg(self) -> (m: Msg)
        ensures
            m == action_msg(self),
    {
        match self {
            Action::TreeMoveDown => Msg::TreeMoveDown,
            Action::TreeMoveUp => Msg::TreeMoveUp,
            Action::TreeMoveLeft => Msg::TreeMoveLeft,
            Action::TreeMoveRight => Msg::TreeMoveRight,
            Action::TreeToggleSelected => Msg::TreeToggleSelected,
            Action::DetailScrollDown => Msg::DetailScrollDown,
            Action::DetailScrollUp => Msg::DetailScrollUp,
            Action::FocusTree => Msg::FocusTree,
            Action::FocusDetail => Msg::FocusDetail,
            Action::ToggleKeybindPopup => Msg::ToggleKeybindPopup,
            Action::ClosePopup => Msg::ToggleKeybindPopup,
            Action::Quit => Msg::Quit,
        }
    }
}

/// The actions whose keys the footer shows in a context.
pub fn footer_actions(ctx: Context) -> (r: &'static [Action])
    ensures
        r@ == footer_spec(ctx),
{
    match ctx {
        Context::Tree => &[
            Action::TreeMoveDown,
            Action::TreeMoveUp,
            Action::ToggleKeybindPopup,
            Action::Quit,
        ],
        Context::Detail => &[Action::ToggleKeybindPopup, Action::Quit],
        Context::Popup => &[Action::ClosePopup],
        Context::Global => &[Action::ToggleKeybindPopup, Action::Quit],
    }
}

} // verus!
