use ratatui_widgets::table::TableState;

#[test]
fn state_new() {
    let state = TableState::new(10);
    assert_eq!(state.offset(), 0);
    assert_eq!(state.len(), 10);
}

#[test]
fn state_default_state() {
    let state = TableState::default();
    assert_eq!(state.offset(), 0);
    assert_eq!(state.len(), 0);
    assert!(state.is_empty());
}

#[test]
fn state_with_offset() {
    let state = TableState::default().with_offset(1);
    assert_eq!(state.offset(), 1);
}

#[test]
fn table_state_offset_mut_writes_offset() {
    let mut state = TableState::new(5);
    *state.offset_mut() = 3;
    assert_eq!(state.offset(), 3);
    assert_eq!(state.len(), 5);
}

#[test]
fn table_state_with_offset_keeps_length() {
    let state = TableState::new(9).with_offset(8);
    assert_eq!(state.offset(), 8);
    assert_eq!(state.len(), 9);
    assert!(!state.is_empty());
}
