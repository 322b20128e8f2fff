//! Records served by the agent's HTTP routes.
use vstd::prelude::*;

use crate::configuration::Configuration;

verus! {

/// A user record.
pub struct User {
    pub name: String,
    pub username: String,
}

/// The configuration the server answers with.
pub struct GlobalConfigState {
    pub config: Configuration,
}

/// The answer of the configuration route.
pub struct GetConfigResponseType {
    pub configuration: Configuration,
}

/// The answer of the configuration route for the server's configuration.
pub fn get_config(global_config: GlobalConfigState) -> (res: GetConfigResponseType)
    ensures
        res.configuration == global_config.config,
{
    GetConfigResponseType { configuration: global_config.config }
}

/// The greeting of the hub-facing root route: `Hello from server`.
pub fn greeting_from_server() -> (res: crate::http_server::Greeting)
    ensures
        res.message@ == "Hello from server"@,
{
    crate::http_server::Greeting { message: "Hello from server".to_owned() }
}

} // verus!
