use crossterm::event::{KeyCode as Ck, MediaKeyCode as Cm, ModifierKeyCode as Cmod};
use dbc_viewer::app::Msg;
use dbc_viewer::keybinding::action::Action;
use dbc_viewer::keybinding::key::{KeyCode, MediaKeyCode, ModifierKeyCode};
use dbc_viewer::keybinding::{footer_actions, Context, Keymap};

fn assert_covered(action: Action) {
    match action {
        Action::TreeMoveDown
        | Action::TreeMoveUp
        | Action::TreeMoveLeft
        | Action::TreeMoveRight
        | Action::TreeToggleSelected
        | Action::DetailScrollDown
        | Action::DetailScrollUp
        | Action::FocusTree
        | Action::FocusDetail
        | Action::ToggleKeybindPopup
        | Action::ClosePopup
        | Action::Quit => {}
    }
}

#[test]
fn all_actions_are_listed() {
    // Exhaustive match forces a compile error the moment a new Action
    // variant is added and not handled here
    for action in Action::all() {
        assert_covered(*action);
    }

    // Check all variants exist in all()
    assert_eq!(
        Action::all().len(),
        12,
        "update this count when adding a new Action variant"
    );
}

#[test]
fn all_actions_are_distinct_and_in_canonical_order() {
    let all = Action::all();
    assert_eq!(all[0], Action::FocusTree);
    assert_eq!(all[11], Action::Quit);
    for i in 0..all.len() {
        for j in 0..all.len() {
            if i != j {
                assert_ne!(all[i], all[j]);
            }
        }
    }
}

#[test]
fn descriptions() {
    assert_eq!(Action::TreeMoveDown.description(), "Move down");
    assert_eq!(Action::TreeMoveLeft.description(), "Collapse / move left");
    assert_eq!(Action::ToggleKeybindPopup.description(), "Show/hide keybindings");
    assert_eq!(Action::ClosePopup.description(), "Close popup");
    assert_eq!(Action::Quit.description(), "Quit");
}

#[test]
fn close_popup_toggles_the_popup() {
    assert_eq!(Action::ClosePopup.to_msg(), Msg::ToggleKeybindPopup);
    assert_eq!(Action::ToggleKeybindPopup.to_msg(), Msg::ToggleKeybindPopup);
    assert_eq!(Action::TreeMoveUp.to_msg(), Msg::TreeMoveUp);
    assert_eq!(Action::Quit.to_msg(), Msg::Quit);
}

#[test]
fn footer_per_context() {
    assert_eq!(
        footer_actions(Context::Tree),
        &[
            Action::TreeMoveDown,
            Action::TreeMoveUp,
            Action::ToggleKeybindPopup,
            Action::Quit
        ]
    );
    assert_eq!(
        footer_actions(Context::Detail),
        &[Action::ToggleKeybindPopup, Action::Quit]
    );
    assert_eq!(footer_actions(Context::Popup), &[Action::ClosePopup]);
    assert_eq!(
        footer_actions(Context::Global),
        &[Action::ToggleKeybindPopup, Action::Quit]
    );
}

#[test]
fn footer_actions_have_keys() {
    let km = Keymap::default();
    for ctx in [Context::Tree, Context::Detail, Context::Popup, Context::Global] {
        for a in footer_actions(ctx) {
            assert!(km.primary_key_for(ctx, *a).is_some());
        }
    }
}

#[test]
fn lookup_context_wins_over_global() {
    let km = Keymap::default();
    assert_eq!(km.lookup(Context::Popup, KeyCode::Esc), Some(Action::ClosePopup));
    assert_eq!(km.lookup(Context::Popup, KeyCode::Char('?')), Some(Action::ClosePopup));
    assert_eq!(km.lookup(Context::Global, KeyCode::Esc), Some(Action::Quit));
    assert_eq!(km.lookup(Context::Tree, KeyCode::Esc), Some(Action::Quit));
    assert_eq!(km.lookup(Context::Tree, KeyCode::Char('?')), Some(Action::ToggleKeybindPopup));
}

#[test]
fn lookup_per_context() {
    let km = Keymap::default();
    assert_eq!(km.lookup(Context::Tree, KeyCode::Char('j')), Some(Action::TreeMoveDown));
    assert_eq!(km.lookup(Context::Detail, KeyCode::Char('j')), Some(Action::DetailScrollDown));
    assert_eq!(km.lookup(Context::Tree, KeyCode::Enter), Some(Action::TreeToggleSelected));
    assert_eq!(km.lookup(Context::Detail, KeyCode::Char('h')), None);
    assert_eq!(km.lookup(Context::Popup, KeyCode::Char('j')), None);
    assert_eq!(km.lookup(Context::Detail, KeyCode::Char('1')), Some(Action::FocusTree));
}

#[test]
fn sort_ranks() {
    assert_eq!(Keymap::key_sort_rank(&KeyCode::Char('a')), (0, "a".to_string()));
    assert_eq!(Keymap::key_sort_rank(&KeyCode::Up), (1, "1".to_string()));
    assert_eq!(Keymap::key_sort_rank(&KeyCode::Down), (1, "2".to_string()));
    assert_eq!(Keymap::key_sort_rank(&KeyCode::Left), (1, "3".to_string()));
    assert_eq!(Keymap::key_sort_rank(&KeyCode::Right), (1, "4".to_string()));
    assert_eq!(Keymap::key_sort_rank(&KeyCode::Enter), (2, "1".to_string()));
    assert_eq!(Keymap::key_sort_rank(&KeyCode::Esc), (2, "2".to_string()));
    assert_eq!(Keymap::key_sort_rank(&KeyCode::Home), (3, "Home".to_string()));
    assert_eq!(Keymap::key_sort_rank(&KeyCode::F(12)), (3, "F(12)".to_string()));
}

#[test]
fn fallback_ranks_are_debug_texts() {
    let pairs = [
        (KeyCode::Backspace, Ck::Backspace),
        (KeyCode::PageDown, Ck::PageDown),
        (KeyCode::BackTab, Ck::BackTab),
        (KeyCode::F(0), Ck::F(0)),
        (KeyCode::F(255), Ck::F(255)),
        (KeyCode::KeypadBegin, Ck::KeypadBegin),
        (KeyCode::Media(MediaKeyCode::PlayPause), Ck::Media(Cm::PlayPause)),
        (KeyCode::Modifier(ModifierKeyCode::IsoLevel5Shift), Ck::Modifier(Cmod::IsoLevel5Shift)),
    ];
    for (ours, theirs) in pairs {
        assert_eq!(Keymap::key_sort_rank(&ours), (3, format!("{:?}", theirs)));
    }
}

#[test]
fn grouped_bindings_for_tree() {
    let km = Keymap::default();
    let g = km.grouped_bindings_for(Context::Tree);
    let expected = vec![
        (Action::FocusTree, vec![KeyCode::Char('1')]),
        (Action::FocusDetail, vec![KeyCode::Char('2')]),
        (Action::TreeMoveUp, vec![KeyCode::Char('k'), KeyCode::Up]),
        (Action::TreeMoveDown, vec![KeyCode::Char('j'), KeyCode::Down]),
        (Action::TreeMoveLeft, vec![KeyCode::Char('h'), KeyCode::Left]),
        (Action::TreeMoveRight, vec![KeyCode::Char('l'), KeyCode::Right]),
        (Action::TreeToggleSelected, vec![KeyCode::Char(' '), KeyCode::Enter]),
        (Action::ToggleKeybindPopup, vec![KeyCode::Char('?')]),
        (Action::Quit, vec![KeyCode::Char('q'), KeyCode::Esc]),
    ];
    assert_eq!(g, expected);
}

#[test]
fn grouped_bindings_for_popup_keep_global_keys() {
    let km = Keymap::default();
    let g = km.grouped_bindings_for(Context::Popup);
    let expected = vec![
        (Action::FocusTree, vec![KeyCode::Char('1')]),
        (Action::FocusDetail, vec![KeyCode::Char('2')]),
        (Action::ToggleKeybindPopup, vec![KeyCode::Char('?')]),
        (Action::ClosePopup, vec![KeyCode::Char('?'), KeyCode::Esc]),
        (Action::Quit, vec![KeyCode::Char('q'), KeyCode::Esc]),
    ];
    assert_eq!(g, expected);
}

#[test]
fn grouped_bindings_for_global() {
    let km = Keymap::default();
    let g = km.grouped_bindings_for(Context::Global);
    let expected = vec![
        (Action::FocusTree, vec![KeyCode::Char('1')]),
        (Action::FocusDetail, vec![KeyCode::Char('2')]),
        (Action::ToggleKeybindPopup, vec![KeyCode::Char('?')]),
        (Action::Quit, vec![KeyCode::Char('q'), KeyCode::Esc]),
    ];
    assert_eq!(g, expected);
}

#[test]
fn primary_keys() {
    let km = Keymap::default();
    assert_eq!(km.primary_key_for(Context::Tree, Action::Quit), Some(KeyCode::Char('q')));
    assert_eq!(km.primary_key_for(Context::Tree, Action::TreeMoveDown), Some(KeyCode::Char('j')));
    assert_eq!(km.primary_key_for(Context::Tree, Action::TreeToggleSelected), Some(KeyCode::Char(' ')));
    assert_eq!(km.primary_key_for(Context::Detail, Action::TreeMoveDown), None);
    assert_eq!(km.primary_key_for(Context::Popup, Action::ClosePopup), Some(KeyCode::Char('?')));
    assert_eq!(km.primary_key_for(Context::Global, Action::ClosePopup), None);
}

#[test]
fn primary_key_is_first_listed_key() {
    let km = Keymap::default();
    for ctx in [Context::Tree, Context::Detail, Context::Popup, Context::Global] {
        let g = km.grouped_bindings_for(ctx);
        for a in Action::all() {
            let listed = g.iter().find(|(b, _)| b == a).map(|(_, keys)| keys[0]);
            assert_eq!(km.primary_key_for(ctx, *a), listed);
        }
    }
}
