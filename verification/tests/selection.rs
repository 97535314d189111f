use dbc_viewer::selection::{
    resolve_selection, select_first_if_empty, select_from_path, MessageInfo, Selection,
};
use tui_tree_widget::TreeState;

fn messages() -> Vec<MessageInfo> {
    vec![
        MessageInfo {
            id: 256,
            signal_names: vec!["RPM".to_string(), "Torque".to_string()],
        },
        MessageInfo {
            id: 512,
            signal_names: vec!["Pressure".to_string()],
        },
        MessageInfo {
            id: 256,
            signal_names: vec!["Other".to_string()],
        },
    ]
}

fn path(parts: &[&str]) -> Vec<String> {
    parts.iter().map(|p| p.to_string()).collect()
}

#[test]
fn empty_path_selects_nothing() {
    assert_eq!(select_from_path(&[], &messages()), Selection::Empty);
}

#[test]
fn message_by_decimal_id() {
    assert_eq!(select_from_path(&path(&["512"]), &messages()), Selection::Message(1));
    assert_eq!(select_from_path(&path(&["256"]), &messages()), Selection::Message(0));
    assert_eq!(select_from_path(&path(&["0512"]), &messages()), Selection::Empty);
    assert_eq!(select_from_path(&path(&["0x200"]), &messages()), Selection::Empty);
    assert_eq!(select_from_path(&path(&["7"]), &messages()), Selection::Empty);
}

#[test]
fn signal_by_name() {
    assert_eq!(
        select_from_path(&path(&["256", "Torque"]), &messages()),
        Selection::Signal(0, 1)
    );
    assert_eq!(
        select_from_path(&path(&["512", "Pressure", "deeper"]), &messages()),
        Selection::Signal(1, 0)
    );
    // only the first message with an identifier is searched
    assert_eq!(
        select_from_path(&path(&["256", "Other"]), &messages()),
        Selection::Empty
    );
    assert_eq!(
        select_from_path(&path(&["999", "RPM"]), &messages()),
        Selection::Empty
    );
}

#[test]
fn resolve_reads_the_tree_selection() {
    let mut state = TreeState::<String>::default();
    assert_eq!(resolve_selection(&state, &messages()), Selection::Empty);
    state.select(path(&["256", "RPM"]));
    assert_eq!(resolve_selection(&state, &messages()), Selection::Signal(0, 0));
    state.select(path(&["512"]));
    assert_eq!(resolve_selection(&state, &messages()), Selection::Message(1));
}

#[test]
fn first_message_is_selected_when_nothing_is() {
    let mut state = TreeState::<String>::default();
    select_first_if_empty(&mut state, &messages());
    assert_eq!(state.selected(), &["256".to_string()]);
    state.select(path(&["512", "Pressure"]));
    select_first_if_empty(&mut state, &messages());
    assert_eq!(state.selected(), &["512".to_string(), "Pressure".to_string()]);
    let mut empty = TreeState::<String>::default();
    select_first_if_empty(&mut empty, &[]);
    assert!(empty.selected().is_empty());
}
