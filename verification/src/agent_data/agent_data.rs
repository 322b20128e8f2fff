//! The agent's status: its versions, host, process, uptime and watched
//! directories.
use vstd::prelude::*;

use crate::configuration_wrapper::ConfigurationWrapper;

verus! {

/// The agent versions announced.
pub struct AgentVersion {
    pub latest_version: String,
    pub minimal_version: String,
}

impl AgentVersion {
    /// Both versions `0.1.0`.
    pub fn default() -> (res: AgentVersion)
        ensures
            res.latest_version@ == "0.1.0"@,
            res.minimal_version@ == "0.1.0"@,
    {
        AgentVersion { latest_version: "0.1.0".to_owned(), minimal_version: "0.1.0".to_owned() }
    }
}

/// The agent's status.
pub struct AgentData {
    pub agent_version: AgentVersion,
    pub machine_name: String,
    pub process_id: u32,
    pub uptime: u64,
    pub watched_directories: Vec<String>,
}

impl AgentData {
    /// The status with the system's uptime refreshed.
    pub fn update(&mut self, uptime: u64)
        ensures
            final(self).uptime == uptime,
            final(self).agent_version == old(self).agent_version,
            final(self).machine_name == old(self).machine_name,
            final(self).process_id == old(self).process_id,
            final(self).watched_directories == old(self).watched_directories,
    {
        self.uptime = uptime;
    }
}

/// Builds the agent's status from a configuration source.
pub struct AgentDataBuilder {
    pub configuration_wrapper: ConfigurationWrapper,
}

impl AgentDataBuilder {
    /// A builder with an empty configuration source.
    pub fn new() -> (res: AgentDataBuilder) {
        AgentDataBuilder { configuration_wrapper: ConfigurationWrapper::default() }
    }

    /// The builder reading from `configuration_wrapper`.
    pub fn configuration_wrapper(self, configuration_wrapper: ConfigurationWrapper) -> (res:
        AgentDataBuilder)
        ensures
            res.configuration_wrapper == configuration_wrapper,
    {
        AgentDataBuilder { configuration_wrapper }
    }

    /// The status, from what was read: the configured versions (the default
    /// ones when the configuration has none), the host name, the process id,
    /// the system's uptime and the watched directories.
    pub fn build(
        self,
        configured_version: Option<AgentVersion>,
        machine_name: String,
        process_id: u32,
        uptime: u64,
        directories_watch_args: Vec<String>,
    ) -> (res: AgentData)
        ensures
            match configured_version {
                Some(v) => res.agent_version == v,
                None => res.agent_version.latest_version@ == "0.1.0"@
                    && res.agent_version.minimal_version@ == "0.1.0"@,
            },
            res.machine_name == machine_name,
            res.process_id == process_id,
            res.uptime == uptime,
            res.watched_directories == directories_watch_args,
    {
        let agent_version = match configured_version {
            Some(v) => v,
            None => AgentVersion::default(),
        };
        AgentData {
            agent_version,
            machine_name,
            process_id,
            uptime,
            watched_directories: directories_watch_args,
        }
    }
}

} // verus!
