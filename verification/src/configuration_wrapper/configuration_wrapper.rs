//! Where the configuration is read from.
use vstd::prelude::*;

use crate::text::{concat_chars, from_chars, to_chars};

verus! {

/// The environment name used when `ENV_NAME` is not set.
pub open spec fn default_env_name() -> Seq<char> {
    "development"@
}

/// The environment whose configuration is read: the value of `ENV_NAME`,
/// or `development`.
pub fn env_name(env_var: Option<String>) -> (res: String)
    ensures
        res@ == match env_var {
            Some(v) => v@,
            None => default_env_name(),
        },
{
    match env_var {
        Some(v) => v,
        None => "development".to_owned(),
    }
}

/// The file holding an environment's configuration: `config/<env>.json`.
pub fn env_config_file(env_name: &str) -> (res: String)
    ensures
        res@ == "config/"@ + env_name@ + ".json"@,
{
    let a = to_chars("config/");
    let b = to_chars(env_name);
    let c = to_chars(".json");
    from_chars(&concat_chars(&concat_chars(&a, &b), &c))
}

} // verus!
