//! The options of the lister's command line.
use vstd::prelude::*;

verus! {

/// The options given: extensions and types to consider, and directories to
/// list or to watch.
pub struct CommandLineConfig {
    pub extensions: Option<Vec<String>>,
    pub types: Option<Vec<String>>,
    pub list_directories: Option<Vec<String>>,
    pub watch_directories: Option<Vec<String>>,
}

} // verus!
