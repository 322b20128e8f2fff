//! The agent's status in its short form: its process id.
use vstd::prelude::*;

verus! {

/// The agent versions announced in this form.
pub struct AgentVersion {
    pub latest_version: String,
    pub minimal_version: String,
}

impl AgentVersion {
    /// Both versions `0.0.0`.
    pub fn default() -> (res: AgentVersion)
        ensures
            res.latest_version@ == "0.0.0"@,
            res.minimal_version@ == "0.0.0"@,
    {
        AgentVersion { latest_version: "0.0.0".to_owned(), minimal_version: "0.0.0".to_owned() }
    }
}

/// The agent's status: its process id.
#[derive(Clone, Copy)]
pub struct AgentData {
    pub process_id: u32,
}

impl AgentData {
    /// The status of the process `process_id`.
    pub fn build(process_id: u32) -> (res: AgentData)
        ensures
            res.process_id == process_id,
    {
        AgentData { process_id }
    }

    /// Reports nothing in this form.
    pub fn dump(&self) {
    }

    /// The process id.
    pub fn get_pid(self) -> (res: u32)
        ensures
            res == self.process_id,
    {
        self.process_id
    }
}

} // verus!
