use twee_split::state::{load_state, AppState, SavedGroup, StateFile};

fn saved() -> AppState {
    AppState {
        file_path: Some("/stories/a.twee".to_string()),
        groups: vec![SavedGroup {
            id: "g1".to_string(),
            filename: "part1.twee".to_string(),
            passage_names: vec!["Start".to_string(), "End".to_string()],
        }],
    }
}

#[test]
fn no_file_is_no_state_and_no_error() {
    assert_eq!(load_state(StateFile::Absent), Ok(None));
}

#[test]
fn corrupt_file_is_an_error_not_an_absence() {
    let loaded = load_state(StateFile::Corrupt("expected value at line 1 column 1".to_string()));
    assert_eq!(loaded, Err("expected value at line 1 column 1".to_string()));
    assert_ne!(loaded, Ok(None));
}

#[test]
fn unreadable_file_is_an_error() {
    assert_eq!(
        load_state(StateFile::Unreadable("permission denied".to_string())),
        Err("permission denied".to_string())
    );
}

#[test]
fn saved_state_comes_back_as_it_is() {
    assert_eq!(load_state(StateFile::Saved(saved())), Ok(Some(saved())));
    let empty = AppState { file_path: None, groups: Vec::new() };
    assert_eq!(load_state(StateFile::Saved(empty.clone())), Ok(Some(empty)));
}
