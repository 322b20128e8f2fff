use tidybee_agent::error::AgentError;
use tidybee_agent::agent::server::Server;
use tidybee_agent::agent_data::agent_data::{AgentDataBuilder, AgentVersion};
use tidybee_agent::agent_infos::agent_data::AgentData as FirstAgentData;
use tidybee_agent::configuration::{Configuration, MyFilesConfiguration};
use tidybee_agent::configuration_wrapper::configuration_wrapper::{env_config_file, env_name};
use tidybee_agent::http::request::{HttpRequestBuilder, RequestDirector};
use tidybee_agent::http_server::http_server::HttpServerConfig;
use tidybee_agent::http_server::routes::{get_config, greeting_from_server, GlobalConfigState};
use tidybee_agent::logger::logger::{logger_levels, serialize_log_level};
use tidybee_agent::logger::{
    cli_logging_level, get_enum_level, level_of_name, subscriber_style, LevelFilter,
    SubscriberStyle, TraceLevel,
};
use tidybee_agent::my_files::MyFilesBuilder;
use tidybee_agent::options::{check_options, Options, OptionsError};

fn words(ws: &[&str]) -> Option<Vec<String>> {
    Some(ws.iter().map(|w| w.to_string()).collect())
}

fn no_options() -> Options {
    Options { file_extensions: None, file_types: None, list_directories: None, watch_directories: None }
}

#[test]
fn listing_and_watching_conflict() {
    let mut o = no_options();
    o.list_directories = words(&["/a"]);
    o.watch_directories = words(&["/b"]);
    match check_options(o, &vec![true], &vec![true]) {
        Err(OptionsError::ConflictingOptions(m)) => assert_eq!(m, "Can't specify both list and watch"),
        other => panic!("unexpected {:?}", other),
    }
}

#[test]
fn missing_directories_are_reported_with_debug_path() {
    let mut o = no_options();
    o.watch_directories = words(&["/ok", "/missing"]);
    match check_options(o, &vec![], &vec![true, false]) {
        Err(OptionsError::InvalidDirectory(m)) => {
            assert_eq!(m, "Specified directory \"/missing\" does not exists")
        }
        other => panic!("unexpected {:?}", other),
    }
}

#[test]
fn extensions_and_types_are_checked() {
    let mut o = no_options();
    o.file_extensions = words(&["pdf", "exe"]);
    match check_options(o, &vec![], &vec![]) {
        Err(OptionsError::InvalidFileExtension(m)) => assert_eq!(m, "Invalid file extension: exe"),
        other => panic!("unexpected {:?}", other),
    }
    let mut o = no_options();
    o.file_types = words(&["regular", "sockets"]);
    match check_options(o, &vec![], &vec![]) {
        Err(OptionsError::InvalidFileType(m)) => assert_eq!(m, "Invalid file type: sockets"),
        other => panic!("unexpected {:?}", other),
    }
    let mut o = no_options();
    o.file_extensions = words(&["txt", "docx"]);
    o.file_types = words(&["all"]);
    o.list_directories = words(&["/a"]);
    let ok = check_options(o, &vec![true], &vec![]).unwrap();
    assert_eq!(ok.file_types, words(&["all"]));
}

#[test]
fn log_levels_are_read_in_any_case() {
    assert_eq!(level_of_name("WaRn"), Some(LevelFilter::Warn));
    assert_eq!(level_of_name("loud"), None);
    assert_eq!(get_enum_level("loud"), LevelFilter::Off);
    assert_eq!(get_enum_level("TRACE"), LevelFilter::Trace);
    assert_eq!(serialize_log_level("nope", LevelFilter::Error), LevelFilter::Error);
    assert_eq!(logger_levels("Debug", "x"), (LevelFilter::Debug, LevelFilter::Info));
    assert_eq!(logger_levels("", "ERROR"), (LevelFilter::Warn, LevelFilter::Error));
}

#[test]
fn cli_level_and_subscriber_style() {
    assert_eq!(cli_logging_level("debug"), TraceLevel::Debug);
    assert_eq!(cli_logging_level("DEBUG"), TraceLevel::Info);
    assert_eq!(subscriber_style(None), Some(SubscriberStyle::Compact));
    assert_eq!(subscriber_style(Some("1")), Some(SubscriberStyle::Pretty));
    assert_eq!(subscriber_style(Some("0")), None);
}

#[test]
fn default_configuration_values() {
    let c = Configuration::default();
    assert_eq!(c.filesystem_interface_config.dir, vec!["tests/assets/test_folder".to_string()]);
    assert_eq!(c.server_config.address, "0.0.0.0:8111");
    assert_eq!(c.hub_config.connection_attempt_limit, 30);
    assert_eq!(c.hub_config.grpc_server.port, 5057);
    assert_eq!(c.logger_config.term_level, "debug");
    assert_eq!(c.my_files_config.db_path, "my_files.db");
    let m = MyFilesConfiguration::default();
    assert!(m.db_path.is_empty() && !m.drop_db_on_start);
    let answer = get_config(GlobalConfigState { config: c });
    assert_eq!(answer.configuration.hub_config.host, "localhost");
}

#[test]
fn environment_selects_the_configuration_file() {
    assert_eq!(env_name(None), "development");
    assert_eq!(env_name(Some("test".to_string())), "test");
    assert_eq!(env_config_file("test"), "config/test.json");
}

#[test]
fn servers_bind_host_and_port() {
    assert_eq!(HttpServerConfig::default().address(), "0.0.0.0:8111");
    assert_eq!(Server::new("127.0.0.1".to_string(), "80".to_string()).address(), "127.0.0.1:80");
    assert_eq!(greeting_from_server().message, "Hello from server");
}

#[test]
fn requests_carry_route_and_body() {
    let d = RequestDirector::new(HttpRequestBuilder);
    let r = d.construct("/route", "{}");
    assert_eq!(r.route, "/route");
    assert_eq!(r.body, "{}");
}

#[test]
fn agent_status_uses_default_versions() {
    let data = AgentDataBuilder::new().build(None, "host".to_string(), 42, 7, vec!["/w".to_string()]);
    assert_eq!(data.agent_version.latest_version, "0.1.0");
    assert_eq!(data.process_id, 42);
    let mut data = data;
    data.update(99);
    assert_eq!(data.uptime, 99);
    let v = AgentVersion { latest_version: "2".to_string(), minimal_version: "1".to_string() };
    let data = AgentDataBuilder::new().build(Some(v), "h".to_string(), 1, 1, vec![]);
    assert_eq!(data.agent_version.minimal_version, "1");
    assert_eq!(FirstAgentData::build(5).get_pid(), 5);
}

#[test]
fn files_database_builder_keeps_its_configuration() {
    let cfg = MyFilesConfiguration { db_path: "x.db".to_string(), drop_db_on_start: true };
    let b = MyFilesBuilder::new().configured(cfg, 3u8).seal();
    assert_eq!(b.configuration_instance.0.db_path, "x.db");
    assert_eq!(b.connection_manager, 3u8);
}

#[test]
fn agent_errors_have_messages() {
    assert_eq!(AgentError::NotADirectory.message(), "Path entry isn't a directory");
    assert_eq!(AgentError::Io("denied".to_string()).message(), "denied");
    assert_eq!(AgentError::InvalidConfig("missing".to_string()).message(), "missing");
}
