use dbc_viewer::app::{handle_key, process_messages, update, App, Focus, Msg, RunningState};
use dbc_viewer::keybinding::key::KeyCode;
use dbc_viewer::keybinding::{Context, Keymap};

use ratatui::buffer::Buffer;
use ratatui::layout::Rect;
use ratatui::widgets::StatefulWidget;
use tui_tree_widget::{Tree, TreeItem};

const SAMPLE: &str = "VERSION \"1.0\"

BU_: ECM

BO_ 256 Engine : 8 ECM
 SG_ RPM : 0|16@1+ (0.25,0) [0|8000] \"rpm\" ECM
 SG_ Torque : 16|16@1+ (0.1,0) [0|500] \"Nm\" ECM
";

fn sample_app() -> App {
    let dbc = dbc_rs::Dbc::parse(SAMPLE).expect("sample parses");
    App::new(dbc)
}

fn render_sample_tree(app: &mut App) {
    let items = vec![
        TreeItem::new(
            "256".to_string(),
            "Engine",
            vec![
                TreeItem::new_leaf("RPM".to_string(), "RPM"),
                TreeItem::new_leaf("Torque".to_string(), "Torque"),
            ],
        )
        .unwrap(),
        TreeItem::new_leaf("512".to_string(), "Brake"),
    ];
    let tree = Tree::new(&items).unwrap();
    let area = Rect::new(0, 0, 30, 10);
    let mut buf = Buffer::empty(area);
    StatefulWidget::render(tree, area, &mut buf, &mut app.tree_state);
}

#[test]
fn new_app_starts_running_on_the_tree() {
    let app = sample_app();
    assert_eq!(app.running_state, RunningState::Running);
    assert_eq!(app.focus_state, Focus::Tree);
    assert!(!app.show_keybind_popup);
    assert!(app.tree_state.selected().is_empty());
    assert_eq!(app.dbc.messages().len(), 1);
    assert_eq!(
        app.keymap.lookup(Context::Tree, KeyCode::Char('j')),
        Keymap::default().lookup(Context::Tree, KeyCode::Char('j'))
    );
}

#[test]
fn keys_in_tree_focus() {
    let f = Focus::Tree;
    assert_eq!(handle_key(KeyCode::Char('j'), &f), Some(Msg::TreeMoveDown));
    assert_eq!(handle_key(KeyCode::Down, &f), Some(Msg::TreeMoveDown));
    assert_eq!(handle_key(KeyCode::Char('k'), &f), Some(Msg::TreeMoveUp));
    assert_eq!(handle_key(KeyCode::Left, &f), Some(Msg::TreeMoveLeft));
    assert_eq!(handle_key(KeyCode::Char('l'), &f), Some(Msg::TreeMoveRight));
    assert_eq!(handle_key(KeyCode::Enter, &f), Some(Msg::TreeToggleSelected));
    assert_eq!(handle_key(KeyCode::Char(' '), &f), Some(Msg::TreeToggleSelected));
    assert_eq!(handle_key(KeyCode::Char('2'), &f), Some(Msg::FocusDetail));
    assert_eq!(handle_key(KeyCode::Esc, &f), Some(Msg::Quit));
    assert_eq!(handle_key(KeyCode::Char('x'), &f), None);
    assert_eq!(handle_key(KeyCode::Tab, &f), None);
}

#[test]
fn keys_in_detail_focus() {
    let f = Focus::Detail;
    assert_eq!(handle_key(KeyCode::Char('j'), &f), Some(Msg::DetailScrollDown));
    assert_eq!(handle_key(KeyCode::Up, &f), Some(Msg::DetailScrollUp));
    assert_eq!(handle_key(KeyCode::Char('h'), &f), None);
    assert_eq!(handle_key(KeyCode::Enter, &f), None);
    assert_eq!(handle_key(KeyCode::Char('1'), &f), Some(Msg::FocusTree));
    assert_eq!(handle_key(KeyCode::Char('q'), &f), Some(Msg::Quit));
}

#[test]
fn focus_and_quit_messages() {
    let mut app = sample_app();
    assert_eq!(update(&mut app, Msg::FocusDetail), None);
    assert_eq!(app.focus_state, Focus::Detail);
    assert_eq!(update(&mut app, Msg::DetailScrollDown), None);
    assert_eq!(app.focus_state, Focus::Detail);
    assert_eq!(update(&mut app, Msg::FocusTree), None);
    assert_eq!(app.focus_state, Focus::Tree);
    assert_eq!(app.running_state, RunningState::Running);
    assert_eq!(update(&mut app, Msg::Quit), None);
    assert_eq!(app.running_state, RunningState::Done);
}

#[test]
fn popup_toggles() {
    let mut app = sample_app();
    update(&mut app, Msg::ToggleKeybindPopup);
    assert!(app.show_keybind_popup);
    update(&mut app, Msg::ToggleKeybindPopup);
    assert!(!app.show_keybind_popup);
}

#[test]
fn process_messages_applies_one_message() {
    let mut app = sample_app();
    process_messages(&mut app, None);
    assert_eq!(app.focus_state, Focus::Tree);
    process_messages(&mut app, handle_key(KeyCode::Char('2'), &Focus::Tree));
    assert_eq!(app.focus_state, Focus::Detail);
}

#[test]
fn tree_moves_follow_the_rendered_tree() {
    let mut app = sample_app();
    render_sample_tree(&mut app);
    update(&mut app, Msg::TreeMoveDown);
    assert_eq!(app.tree_state.selected(), &["256".to_string()]);
    update(&mut app, Msg::TreeMoveDown);
    assert_eq!(app.tree_state.selected(), &["512".to_string()]);
    update(&mut app, Msg::TreeMoveUp);
    assert_eq!(app.tree_state.selected(), &["256".to_string()]);
}

#[test]
fn tree_up_without_selection_goes_to_the_last_node() {
    let mut app = sample_app();
    render_sample_tree(&mut app);
    update(&mut app, Msg::TreeMoveUp);
    assert_eq!(app.tree_state.selected(), &["512".to_string()]);
}

#[test]
fn tree_expand_collapse_and_toggle() {
    let mut app = sample_app();
    render_sample_tree(&mut app);
    update(&mut app, Msg::TreeMoveDown);
    let node = vec!["256".to_string()];
    update(&mut app, Msg::TreeMoveRight);
    assert!(app.tree_state.opened().contains(&node));
    update(&mut app, Msg::TreeMoveLeft);
    assert!(!app.tree_state.opened().contains(&node));
    assert_eq!(app.tree_state.selected(), &["256".to_string()]);
    update(&mut app, Msg::TreeToggleSelected);
    assert!(app.tree_state.opened().contains(&node));
    update(&mut app, Msg::TreeToggleSelected);
    assert!(!app.tree_state.opened().contains(&node));
}

#[test]
fn tree_left_on_closed_node_selects_parent() {
    let mut app = sample_app();
    app.tree_state.select(vec!["256".to_string(), "RPM".to_string()]);
    update(&mut app, Msg::TreeMoveLeft);
    assert_eq!(app.tree_state.selected(), &["256".to_string()]);
    update(&mut app, Msg::TreeMoveLeft);
    assert!(app.tree_state.selected().is_empty());
}

#[test]
fn tree_messages_without_selection_open_nothing() {
    let mut app = sample_app();
    update(&mut app, Msg::TreeMoveRight);
    update(&mut app, Msg::TreeToggleSelected);
    assert!(app.tree_state.opened().is_empty());
}
