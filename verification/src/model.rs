//! The one-line model of a single query screen.

use vstd::prelude::*;
use vstd::string::StringExecFns;

verus! {

/// Whether the screen is still up.
#[derive(Clone, Copy, Debug, PartialEq, Eq)]
pub enum RunningState {
    Running,
    Done,
}

impl Default for RunningState {
    fn default() -> (state: RunningState)
        ensures
            state == RunningState::Running,
    {
        RunningState::Running
    }
}

/// A screen that shows one text.
#[derive(Debug)]
pub struct Model {
    pub result: String,
    pub running_state: RunningState,
}

impl Default for Model {
    /// A running screen that tells the user how to run a query.
    fn default() -> (model: Model)
        ensures
            model.result@ == "Press x to run query"@,
            model.running_state == RunningState::Running,
    {
        Model {
            result: String::from_str("Press x to run query"),
            running_state: RunningState::Running,
        }
    }
}

} // verus!
