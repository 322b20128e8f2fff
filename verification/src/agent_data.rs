//! What the agent reports about itself.
pub mod agent_data;
