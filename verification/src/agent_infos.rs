//! The agent's status in its short form.
pub mod agent_data;
