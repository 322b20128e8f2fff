//! The TidyBee agent: it lists and watches directories, keeps a record of
//! every file, scores files against tidy rules and reports to the hub.
use vstd::prelude::*;

pub mod agent;
pub mod agent_data;
pub mod agent_infos;
pub mod agent_uuid;
pub mod config;
pub mod configuration;
pub mod configuration_wrapper;
pub mod error;
pub mod file_info;
pub mod http;
pub mod http_server;
pub mod logger;
pub mod my_files;
pub mod options;
pub mod rule_params;
pub mod sorting;
pub mod text;
pub mod tidy_algo;
pub mod tidy_rules;
pub mod utils;

verus! {

} // verus!
