//! The errors of the agent, each with the message it is shown with.
use vstd::prelude::*;

use crate::text::{copy_string, from_chars, to_chars};

verus! {

/// Why the agent stopped: the configuration could not be read, a file
/// operation failed (each with the message of the underlying error), or a
/// path that should be a directory is not one.
#[derive(Debug)]
pub enum AgentError {
    InvalidConfig(String),
    Io(String),
    NotADirectory,
}

/// The message an agent error is shown with.
pub open spec fn agent_error_message(e: AgentError) -> Seq<char> {
    match e {
        AgentError::InvalidConfig(m) => m@,
        AgentError::Io(m) => m@,
        AgentError::NotADirectory => "Path entry isn't a directory"@,
    }
}

impl AgentError {
    /// The message the error is shown with.
    pub fn message(&self) -> (res: String)
        ensures
            res@ == agent_error_message(*self),
    {
        match self {
            AgentError::InvalidConfig(m) => copy_string(m),
            AgentError::Io(m) => copy_string(m),
            AgentError::NotADirectory => from_chars(&to_chars("Path entry isn't a directory")),
        }
    }
}

} // verus!
