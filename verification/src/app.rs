//! The application: its state, the messages that change it, and the keys
//! that send them.
use vstd::prelude::*;

use tui_tree_widget::TreeState;

use crate::keybinding::key::KeyCode;
use crate::keybinding::{default_bindings, Keymap};
use crate::tree::{
    after_key_down, after_key_up, new_tree_state, tree_key_down, tree_key_left, tree_key_right,
    tree_key_up, tree_last_index, tree_opened, tree_selected, tree_toggle_selected, tree_visible,
};

verus! {

#[verifier::external_type_specification]
#[verifier::external_body]
pub struct ExDbc(dbc_rs::Dbc);

/// Whether the main loop goes on.
#[derive(Debug, Clone, Copy, PartialEq, Eq, Structural)]
pub enum RunningState {
    Running,
    Done,
}

impl Default for RunningState {
    fn default() -> (r: Self)
        ensures
            r == RunningState::Running,
    {
        RunningState::Running
    }
}

/// The panel that has the focus.
#[derive(Debug, Clone, Copy, PartialEq, Eq, Structural)]
pub enum Focus {
    Tree,
    Detail,
}

impl Default for Focus {
    fn default() -> (r: Self)
        ensures
            r == Focus::Tree,
    {
        Focus::Tree
    }
}

/// A change to the application's state.
#[derive(Debug, Clone, Copy, PartialEq, Eq, Structural)]
pub enum Msg {
    TreeMoveDown,
    TreeMoveUp,
    TreeMoveLeft,
    TreeMoveRight,
    TreeToggleSelected,
    DetailScrollDown,
    DetailScrollUp,
    FocusTree,
    FocusDetail,
    ToggleKeybindPopup,
    Quit,
}

/// The state of the viewer: the database shown, the tree's state, and
/// where the focus is.
pub struct App {
    pub dbc: dbc_rs::Dbc,
    pub tree_state: TreeState<String>,
    pub running_state: RunningState,
    pub focus_state: Focus,
    pub keymap: Keymap,
    pub show_keybind_popup: bool,
}

impl App {
    /// A viewer of `dbc`: running, focus on the tree, nothing selected.
    pub fn new(dbc: dbc_rs::Dbc) -> (app: Self)
        ensures
            app.dbc == dbc,
            tree_selected(app.tree_state) == Seq::<Seq<char>>::empty(),
            tree_opened(app.tree_state) == Set::<Seq<Seq<char>>>::empty(),
            tree_visible(app.tree_state) == Seq::<Seq<Seq<char>>>::empty(),
            tree_last_index(app.tree_state) == 0,
            app.running_state == RunningState::Running,
            app.focus_state == Focus::Tree,
            app.keymap@ == default_bindings(),
            !app.show_keybind_popup,
    {
        Self {
            dbc,
            tree_state: new_tree_state(),
            running_state: RunningState::default(),
            focus_state: Focus::default(),
            keymap: Keymap::default(),
            show_keybind_popup: false,
        }
    }
}

/// The message a key press sends, given the focus.
pub open spec fn key_msg(key: KeyCode, focus: Focus) -> Option<Msg> {
    match focus {
        Focus::Tree => match key {
            KeyCode::Char('j') | KeyCode::Down => Some(Msg::TreeMoveDown),
            KeyCode::Char('k') | KeyCode::Up => Some(Msg::TreeMoveUp),
            KeyCode::Char('h') | KeyCode::Left => Some(Msg::TreeMoveLeft),
            KeyCode::Char('l') | KeyCode::Right => Some(Msg::TreeMoveRight),
            KeyCode::Enter | KeyCode::Char(' ') => Some(Msg::TreeToggleSelected),
            KeyCode::Char('1') => Some(Msg::FocusTree),
            KeyCode::Char('2') => Some(Msg::FocusDetail),
            KeyCode::Char('q') | KeyCode::Esc => Some(Msg::Quit),
            _ => None,
        },
        Focus::Detail => match key {
            KeyCode::Char('j') | KeyCode::Down => Some(Msg::DetailScrollDown),
            KeyCode::Char('k') | KeyCode::Up => Some(Msg::DetailScrollUp),
            KeyCode::Char('1') => Some(Msg::FocusTree),
            KeyCode::Char('2') => Some(Msg::FocusDetail),
            KeyCode::Char('q') | KeyCode::Esc => Some(Msg::Quit),
            _ => None,
        },
    }
}

/// The message a key press sends, given the focus.
pub fn handle_key(key: KeyCode, focus_state: &Focus) -> (r: Option<Msg>)
    ensures
        r == key_msg(key, *focus_state),
{
    match focus_state {
        Focus::Tree => match key {
            KeyCode::Char('j') | KeyCode::Down => Some(Msg::TreeMoveDown),
            KeyCode::Char('k') | KeyCode::Up => Some(Msg::TreeMoveUp),
            KeyCode::Char('h') | KeyCode::Left => Some(Msg::TreeMoveLeft),
            KeyCode::Char('l') | KeyCode::Right => Some(Msg::TreeMoveRight),
            KeyCode::Enter | KeyCode::Char(' ') => Some(Msg::TreeToggleSelected),
            KeyCode::Char('1') => Some(Msg::FocusTree),
            KeyCode::Char('2') => Some(Msg::FocusDetail),
            KeyCode::Char('q') | KeyCode::Esc => Some(Msg::Quit),
            _ => None,
        },
        Focus::Detail => match key {
            KeyCode::Char('j') | KeyCode::Down => Some(Msg::DetailScrollDown),
            KeyCode::Char('k') | KeyCode::Up => Some(Msg::DetailScrollUp),
            KeyCode::Char('1') => Some(Msg::FocusTree),
            KeyCode::Char('2') => Some(Msg::FocusDetail),
            KeyCode::Char('q') | KeyCode::Esc => Some(Msg::Quit),
            _ => None,
        },
    }
}

/// The focus after a message.
pub open spec fn next_focus(focus: Focus, msg: Msg) -> Focus {
    match msg {
        Msg::FocusTree => Focus::Tree,
        Msg::FocusDetail => Focus::Detail,
        _ => focus,
    }
}

/// The running state after a message.
pub open spec fn next_running(running: RunningState, msg: Msg) -> RunningState {
    match msg {
        Msg::Quit => RunningState::Done,
        _ => running,
    }
}

/// Whether the keybinding popup is shown after a message.
pub open spec fn next_popup(shown: bool, msg: Msg) -> bool {
    match msg {
        Msg::ToggleKeybindPopup => !shown,
        _ => shown,
    }
}

/// What a message does to the tree's state.
pub open spec fn tree_step(before: TreeState<String>, after: TreeState<String>, msg: Msg) -> bool {
    let sel = tree_selected(before);
    let opened = tree_opened(before);
    let vis = tree_visible(before);
    let last = tree_last_index(before);
    let same_view = tree_visible(after) == vis && tree_last_index(after) == last;
    match msg {
        Msg::TreeMoveDown => {
            &&& tree_selected(after) == after_key_down(sel, vis, last)
            &&& tree_opened(after) == opened
            &&& same_view
        },
        Msg::TreeMoveUp => {
            &&& tree_selected(after) == after_key_up(sel, vis, last)
            &&& tree_opened(after) == opened
            &&& same_view
        },
        Msg::TreeMoveLeft => {
            &&& if opened.contains(sel) {
                tree_opened(after) == opened.remove(sel) && tree_selected(after) == sel
            } else {
                tree_opened(after) == opened && tree_selected(after) == (if sel.len() > 0 {
                    sel.drop_last()
                } else {
                    sel
                })
            }
            &&& same_view
        },
        Msg::TreeMoveRight => {
            &&& tree_opened(after) == (if sel.len() == 0 {
                opened
            } else {
                opened.insert(sel)
            })
            &&& tree_selected(after) == sel
            &&& same_view
        },
        Msg::TreeToggleSelected => {
            &&& tree_opened(after) == (if sel.len() == 0 {
                opened
            } else if opened.contains(sel) {
                opened.remove(sel)
            } else {
                opened.insert(sel)
            })
            &&& tree_selected(after) == sel
            &&& same_view
        },
        _ => after == before,
    }
}

/// The state change that a message makes, as `update` performs it.
pub open spec fn update_spec(before: App, after: App, msg: Msg) -> bool {
    &&& after.dbc == before.dbc
    &&& after.keymap == before.keymap
    &&& after.focus_state == next_focus(before.focus_state, msg)
    &&& after.running_state == next_running(before.running_state, msg)
    &&& after.show_keybind_popup == next_popup(before.show_keybind_popup, msg)
    &&& tree_step(before.tree_state, after.tree_state, msg)
}

/// Applies a message to the state; no message follows from any of them.
pub fn update(app: &mut App, msg: Msg) -> (r: Option<Msg>)
    ensures
        r is None,
        update_spec(*old(app), *final(app), msg),
{
    match msg {
        Msg::TreeMoveDown => {
            tree_key_down(&mut app.tree_state);
        },
        Msg::TreeMoveUp => {
            tree_key_up(&mut app.tree_state);
        },
        Msg::TreeMoveLeft => {
            tree_key_left(&mut app.tree_state);
        },
        Msg::TreeMoveRight => {
            tree_key_right(&mut app.tree_state);
        },
        Msg::TreeToggleSelected => {
            tree_toggle_selected(&mut app.tree_state);
        },
        Msg::DetailScrollDown => {},
        Msg::DetailScrollUp => {},
        Msg::FocusTree => {
            app.focus_state = Focus::Tree;
        },
        Msg::FocusDetail => {
            app.focus_state = Focus::Detail;
        },
        Msg::ToggleKeybindPopup => {
            app.show_keybind_popup = !app.show_keybind_popup;
        },
        Msg::Quit => {
            app.running_state = RunningState::Done;
        },
    }
    None
}

/// Applies a message, and each message that follows from it, until none
/// does.
pub fn process_messages(app: &mut App, msg: Option<Msg>)
    ensures
        match msg {
            None => *final(app) == *old(app),
            Some(m) => update_spec(*old(app), *final(app), m),
        },
{
    let mut current = msg;
    let ghost mut steps: int = 0;
    while current.is_some()
        invariant
            0 <= steps <= 1,
            steps == 0 ==> current == msg && *app == *old(app),
            steps == 1 ==> (current is None && msg is Some && update_spec(
                *old(app),
                *app,
                msg->0,
            )),
        decreases 1 - steps,
    {
        let m = current.unwrap();
        current = update(app, m);
        proof {
            steps = steps + 1;
        }
    }
}

} // verus!
