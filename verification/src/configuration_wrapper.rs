//! A configuration source (files and environment), carried as it was read.
use vstd::prelude::*;

pub mod configuration_wrapper;

verus! {

#[verifier::external_type_specification]
#[verifier::external_body]
pub struct ExConfig(::config::Config);

/// `::config::Config::default()`: an empty configuration. Nothing is claimed
/// of it.
#[verifier::external_body]
fn empty_config() -> (res: ::config::Config) {
    ::config::Config::default()
}

/// A configuration source; its values are read with `bind`.
pub struct ConfigurationWrapper {
    pub config: ::config::Config,
}

impl ConfigurationWrapper {
    /// A source without values.
    pub fn default() -> (res: ConfigurationWrapper) {
        ConfigurationWrapper { config: empty_config() }
    }
}

} // verus!
