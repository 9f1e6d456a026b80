//! The state that the application keeps between runs: the story last
//! opened and the groups last defined.

use vstd::prelude::*;

verus! {

/// A group as the application remembers it.
#[derive(Clone, Debug, PartialEq, Eq)]
pub struct SavedGroup {
    pub id: String,
    pub filename: String,
    pub passage_names: Vec<String>,
}

/// What the application remembers: the path of the story last opened, if
/// any, and the groups last defined.
#[derive(Clone, Debug, PartialEq, Eq)]
pub struct AppState {
    pub file_path: Option<String>,
    pub groups: Vec<SavedGroup>,
}

/// What stands where the state is kept.
#[derive(Clone, Debug, PartialEq, Eq)]
pub enum StateFile {
    /// No state was saved yet.
    Absent,
    /// A file is there and could not be read; the message says why.
    Unreadable(String),
    /// A file is there and does not hold a state; the message says why.
    Corrupt(String),
    /// A file is there and holds this state.
    Saved(AppState),
}

/// The state to start from, given what stands where the state is kept.
/// That nothing was saved yet is no error and gives `None`; a file that
/// cannot be read, or that holds no state, is an error, with its message,
/// and never passes for a state not yet saved.
pub fn load_state(file: StateFile) -> (loaded: Result<Option<AppState>, String>)
    ensures
        loaded == (match file {
            StateFile::Absent => Ok::<Option<AppState>, String>(None),
            StateFile::Unreadable(message) => Err(message),
            StateFile::Corrupt(message) => Err(message),
            StateFile::Saved(state) => Ok(Some(state)),
        }),
{
    match file {
        StateFile::Absent => Ok(None),
        StateFile::Unreadable(message) => Err(message),
        StateFile::Corrupt(message) => Err(message),
        StateFile::Saved(state) => Ok(Some(state)),
    }
}

} // verus!
