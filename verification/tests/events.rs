use tidybee_agent::configuration::{Configuration, GrpcServerConfig};
use tidybee_agent::file_info::{FileInfo, Timestamp};
use tidybee_agent::http::grpc::{
    after_failure, HandlingError, HandlingFailure,
    classify_event, created_events, endpoint_uri, needs_dir_check, paths_needed_exec, AccessKind,
    AccessMode, AuthInterceptor, CreateKind, EventAction, EventKind, FileEventType, ModifyKind,
    RemoveKind, RenameMode,
};
use tidybee_agent::http::hub::{
    agent_connection_data, connect_url, next_retry_timeout, AttemptOutcome, HubConnection,
    HubFailure, HubStep, FIRST_RETRY_TIMEOUT,
};

fn paths(ps: &[&str]) -> Vec<String> {
    ps.iter().map(|p| p.to_string()).collect()
}

#[test]
fn created_file_is_read_and_missing_record_skipped() {
    match classify_event(EventKind::Create(CreateKind::File), &paths(&["/a"]), false) {
        EventAction::SendFileInfo { path, missing_is_error, send_error_is_fatal } => {
            assert_eq!(path, "/a");
            assert!(!missing_is_error);
            assert!(!send_error_is_fatal);
        }
        other => panic!("unexpected {:?}", other),
    }
}

#[test]
fn data_change_sends_the_record() {
    match classify_event(EventKind::Modify(ModifyKind::Data), &paths(&["/a"]), false) {
        EventAction::SendFileInfo { path, missing_is_error, send_error_is_fatal } => {
            assert_eq!(path, "/a");
            assert!(missing_is_error && send_error_is_fatal);
        }
        other => panic!("unexpected {:?}", other),
    }
}

#[test]
fn renames_depend_on_directories() {
    let kind = EventKind::Modify(ModifyKind::Name(RenameMode::Both));
    assert!(needs_dir_check(kind));
    assert_eq!(paths_needed_exec(kind, true), 2);
    assert_eq!(paths_needed_exec(kind, false), 1);
    match classify_event(kind, &paths(&["/old", "/new"]), true) {
        EventAction::SendFolder(e) => {
            assert_eq!(e.event_type, FileEventType::Moved);
            assert_eq!(e.old_path, "/old");
            assert_eq!(e.new_path.as_deref(), Some("/new"));
        }
        other => panic!("unexpected {:?}", other),
    }
    match classify_event(EventKind::Modify(ModifyKind::Name(RenameMode::To)), &paths(&["/d"]), true) {
        EventAction::SendDirectoryListing { path } => assert_eq!(path, "/d"),
        other => panic!("unexpected {:?}", other),
    }
    match classify_event(EventKind::Modify(ModifyKind::Name(RenameMode::From)), &paths(&["/f"]), false) {
        EventAction::SendFile(e) => {
            assert_eq!(e.event_type, FileEventType::Deleted);
            assert_eq!(e.path, vec!["/f".to_string()]);
            assert!(e.size.is_none() && e.hash.is_none());
        }
        other => panic!("unexpected {:?}", other),
    }
}

#[test]
fn removals_send_deletions() {
    match classify_event(EventKind::Remove(RemoveKind::Folder), &paths(&["/d"]), false) {
        EventAction::SendFolder(e) => {
            assert_eq!(e.event_type, FileEventType::Deleted);
            assert_eq!(e.old_path, "/d");
            assert!(e.new_path.is_none());
        }
        other => panic!("unexpected {:?}", other),
    }
    match classify_event(EventKind::Remove(RemoveKind::File), &paths(&["/f"]), false) {
        EventAction::SendFile(e) => assert_eq!(e.pretty_path, "/f"),
        other => panic!("unexpected {:?}", other),
    }
}

#[test]
fn other_notifications_are_ignored() {
    let open = EventKind::Access(AccessKind::Open(AccessMode::Any));
    assert_eq!(paths_needed_exec(open, false), 0);
    assert!(matches!(classify_event(open, &vec![], false), EventAction::Ignore));
    assert!(matches!(classify_event(EventKind::Any, &vec![], false), EventAction::Ignore));
    assert!(!needs_dir_check(EventKind::Create(CreateKind::Folder)));
}

#[test]
fn created_events_follow_the_files() {
    let mut f = FileInfo::default();
    f.path = "/p".to_string();
    f.pretty_path = "p".to_string();
    f.size = 9;
    f.hash = Some("42".to_string());
    f.last_accessed = Timestamp { secs: 3, nanos: 1 };
    let evs = created_events(&vec![f]);
    assert_eq!(evs.len(), 1);
    assert_eq!(evs[0].event_type, FileEventType::Created);
    assert_eq!(evs[0].path, vec!["/p".to_string()]);
    assert_eq!(evs[0].pretty_path, "p");
    assert_eq!(evs[0].size, Some(9));
    assert_eq!(evs[0].hash.as_deref(), Some("42"));
    assert_eq!(evs[0].last_accessed, Some(Timestamp { secs: 3, nanos: 1 }));
}

#[test]
fn grpc_endpoint_and_authorization() {
    let cfg = GrpcServerConfig {
        host: "hub.local".to_string(),
        protocol: "https".to_string(),
        port: 5057,
        log_level: "info".to_string(),
    };
    assert_eq!(endpoint_uri(&cfg), "https://hub.local:5057");
    let auth = AuthInterceptor { agent_uuid: "abc".to_string() };
    assert_eq!(auth.authorization_value(), "Bearer abc");
}

#[test]
fn hub_url_with_and_without_identity() {
    let cfg = Configuration::default().hub_config;
    assert_eq!(connect_url(&cfg, None), "http://localhost:7001/gateway/auth/AOTH");
    let id = "1234".to_string();
    assert_eq!(connect_url(&cfg, Some(&id)), "http://localhost:7001/gateway/auth/AOTH/1234");
}

#[test]
fn hub_connection_data_names_the_host() {
    let data = agent_connection_data("machine");
    assert!(data.contains("\"address\": \"machine\""));
    assert!(data.contains("\"port\": \"8111\""));
}

#[test]
fn hub_attempts_count_refusals_only() {
    let mut c = HubConnection::new(2);
    assert!(c.may_attempt());
    assert!(matches!(c.next(AttemptOutcome::Refused), HubStep::Retry));
    assert!(c.may_attempt());
    assert!(matches!(c.next(AttemptOutcome::Refused), HubStep::Retry));
    assert!(!c.may_attempt());
    let mut c = HubConnection::new(3);
    match c.next(AttemptOutcome::Accepted(Ok("\"id-7\"".to_string()))) {
        HubStep::Connected(id) => assert_eq!(id, "id-7"),
        other => panic!("unexpected {:?}", other),
    }
    assert_eq!(c.tries, 0);
    assert!(matches!(
        c.next(AttemptOutcome::SendFailed("down".to_string())),
        HubStep::Failed(HubFailure::UnExpectedError(_))
    ));
    assert!(matches!(
        c.next(AttemptOutcome::Accepted(Err("body".to_string()))),
        HubStep::Failed(HubFailure::HttpError(_))
    ));
}

#[test]
fn retry_waits_double() {
    assert_eq!(FIRST_RETRY_TIMEOUT, 5);
    assert_eq!(next_retry_timeout(5), Some(10));
    assert_eq!(next_retry_timeout(u64::MAX / 2 + 1), None);
}

#[test]
fn hub_failures_have_messages() {
    assert_eq!(HubFailure::UnExpectedError("boom".to_string()).message(), "Unexpected error from the Hub: boom");
    assert_eq!(HubFailure::HttpError("bad body".to_string()).message(), "bad body");
    assert_eq!(
        HubFailure::MaximumAttemptsReached.message(),
        "Maximum number of attemps to connect to the Hub reached without success"
    );
}

#[test]
fn failures_stop_where_the_action_says() {
    let created = classify_event(EventKind::Create(CreateKind::File), &paths(&["/a"]), false);
    assert_eq!(after_failure(&created, HandlingFailure::RecordUnreadable), None);
    assert_eq!(after_failure(&created, HandlingFailure::SendFailed), None);
    let changed = classify_event(EventKind::Modify(ModifyKind::Data), &paths(&["/a"]), false);
    assert_eq!(after_failure(&changed, HandlingFailure::RecordUnreadable), Some(HandlingError::FileInfoError));
    assert_eq!(after_failure(&changed, HandlingFailure::SendFailed), Some(HandlingError::EventSendError));
    let listing = classify_event(EventKind::Modify(ModifyKind::Name(RenameMode::To)), &paths(&["/d"]), true);
    assert_eq!(after_failure(&listing, HandlingFailure::ListingFailed), Some(HandlingError::FileInfoError));
    let removed = classify_event(EventKind::Remove(RemoveKind::File), &paths(&["/f"]), false);
    assert_eq!(after_failure(&removed, HandlingFailure::SendFailed), Some(HandlingError::EventSendError));
    assert_eq!(after_failure(&EventAction::Ignore, HandlingFailure::SendFailed), None);
}
