//! The agent's configuration, and its values when nothing is configured.
use vstd::prelude::*;

verus! {

/// The agent versions announced.
pub struct AgentData {
    pub latest_version: String,
    pub minimal_version: String,
}

/// The directories the agent lists and watches.
pub struct FileSystemInterfaceConfig {
    pub dir: Vec<String>,
}

/// The agent's HTTP server.
pub struct ServerConfig {
    pub address: String,
    pub log_level: String,
}

/// The hub's gRPC server.
pub struct GrpcServerConfig {
    pub host: String,
    pub protocol: String,
    pub port: u16,
    pub log_level: String,
}

/// The hub the agent connects to.
pub struct HubConfig {
    pub host: String,
    pub port: String,
    pub protocol: String,
    pub auth_path: String,
    pub disconnect_path: String,
    pub connection_attempt_limit: u32,
    pub grpc_server: GrpcServerConfig,
}

/// The log levels of the terminal and of the log file.
pub struct LoggerConfig {
    pub term_level: String,
    pub file_level: String,
}

/// The files database.
#[derive(PartialEq, Eq)]
pub struct MyFilesConfiguration {
    pub db_path: String,
    pub drop_db_on_start: bool,
}

/// The whole configuration.
pub struct Configuration {
    pub agent_data: AgentData,
    pub filesystem_interface_config: FileSystemInterfaceConfig,
    pub server_config: ServerConfig,
    pub logger_config: LoggerConfig,
    pub my_files_config: MyFilesConfiguration,
    pub hub_config: HubConfig,
}

impl MyFilesConfiguration {
    /// No database path, and the database is kept on start.
    pub fn default() -> (res: MyFilesConfiguration)
        ensures
            res.db_path@ == Seq::<char>::empty(),
            !res.drop_db_on_start,
    {
        MyFilesConfiguration { db_path: String::new(), drop_db_on_start: false }
    }
}

impl Configuration {
    /// The configuration used when none is given: the test folder is
    /// watched, the server listens on `0.0.0.0:8111`, the hub is at
    /// `http://localhost:7001` (gRPC on port 5057) with 30 connection
    /// attempts, the terminal logs at `debug` and the file at `warn`, and
    /// the files database is `my_files.db`, kept on start.
    pub fn default() -> (res: Configuration)
        ensures
            res.agent_data.latest_version@ == Seq::<char>::empty(),
            res.agent_data.minimal_version@ == Seq::<char>::empty(),
            res.filesystem_interface_config.dir@.len() == 1,
            res.filesystem_interface_config.dir@[0]@ == "tests/assets/test_folder"@,
            res.server_config.address@ == "0.0.0.0:8111"@,
            res.server_config.log_level@ == "info"@,
            res.hub_config.host@ == "localhost"@,
            res.hub_config.port@ == "7001"@,
            res.hub_config.protocol@ == "http"@,
            res.hub_config.auth_path@ == "/gateway/auth/AOTH"@,
            res.hub_config.disconnect_path@ == "/gateway/auth/AOTH/{agent_id}/disconnect"@,
            res.hub_config.connection_attempt_limit == 30,
            res.hub_config.grpc_server.host@ == "localhost"@,
            res.hub_config.grpc_server.protocol@ == "http"@,
            res.hub_config.grpc_server.port == 5057,
            res.hub_config.grpc_server.log_level@ == "info"@,
            res.logger_config.term_level@ == "debug"@,
            res.logger_config.file_level@ == "warn"@,
            res.my_files_config.db_path@ == "my_files.db"@,
            !res.my_files_config.drop_db_on_start,
    {
        let mut dir: Vec<String> = Vec::new();
        dir.push("tests/assets/test_folder".to_owned());
        Configuration {
            agent_data: AgentData { latest_version: String::new(), minimal_version: String::new() },
            filesystem_interface_config: FileSystemInterfaceConfig { dir },
            server_config: ServerConfig {
                address: "0.0.0.0:8111".to_owned(),
                log_level: "info".to_owned(),
            },
            hub_config: HubConfig {
                host: "localhost".to_owned(),
                port: "7001".to_owned(),
                protocol: "http".to_owned(),
                auth_path: "/gateway/auth/AOTH".to_owned(),
                disconnect_path: "/gateway/auth/AOTH/{agent_id}/disconnect".to_owned(),
                connection_attempt_limit: 30,
                grpc_server: GrpcServerConfig {
                    host: "localhost".to_owned(),
                    protocol: "http".to_owned(),
                    port: 5057,
                    log_level: "info".to_owned(),
                },
            },
            logger_config: LoggerConfig {
                term_level: "debug".to_owned(),
                file_level: "warn".to_owned(),
            },
            my_files_config: MyFilesConfiguration {
                db_path: "my_files.db".to_owned(),
                drop_db_on_start: false,
            },
        }
    }
}

} // verus!
