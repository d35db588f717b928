use ratatui_widgets::list::ListState;

#[test]
fn new() {
    let state = ListState::new(10);
    assert_eq!(state.offset(), 0);
    assert_eq!(state.len(), 10);
}

#[test]
fn default_state() {
    let state = ListState::default();
    assert_eq!(state.offset(), 0);
    assert_eq!(state.len(), 0);
    assert!(state.is_empty());
}

#[test]
fn with_offset() {
    let state = ListState::default().with_offset(5);
    assert_eq!(state.offset(), 5);
}

#[test]
fn offset_mut() {
    let mut state = ListState::default();
    *state.offset_mut() = 3;
    assert_eq!(state.offset(), 3);
}

#[test]
fn list_state_with_offset_keeps_length() {
    let state = ListState::new(7).with_offset(4);
    assert_eq!(state.offset(), 4);
    assert_eq!(state.len(), 7);
    assert!(!state.is_empty());
}

#[test]
fn list_state_offset_mut_keeps_length() {
    let mut state = ListState::new(12).with_offset(2);
    *state.offset_mut() += 5;
    assert_eq!(state.offset(), 7);
    assert_eq!(state.len(), 12);
}

#[test]
fn list_state_offset_beyond_length_is_kept() {
    let state = ListState::new(3).with_offset(usize::MAX);
    assert_eq!(state.offset(), usize::MAX);
    assert_eq!(state.len(), 3);
}

#[test]
fn list_state_equality_is_fieldwise() {
    assert_eq!(ListState::new(0), ListState::default());
    assert_ne!(ListState::new(1), ListState::default());
    assert_ne!(ListState::new(2).with_offset(1), ListState::new(2));
}
