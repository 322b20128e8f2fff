//! The file events sent to the hub, and how each file-system notification
//! becomes the events to send.
use vstd::prelude::*;

use crate::configuration::GrpcServerConfig;
use crate::file_info::{hash_view, FileInfo, Timestamp};
use crate::text::{address_chars, concat_chars, decimal, decimal_chars, from_chars, to_chars};

verus! {

/// The kind of change an event reports.
#[derive(Clone, Copy, Debug, PartialEq, Eq, Structural)]
pub enum FileEventType {
    Created,
    Deleted,
    Moved,
}

/// An event about one file.
#[derive(Debug)]
pub struct FileEventRequest {
    pub event_type: FileEventType,
    pub pretty_path: String,
    pub path: Vec<String>,
    pub size: Option<u64>,
    pub hash: Option<String>,
    pub last_accessed: Option<Timestamp>,
    pub last_modified: Option<Timestamp>,
}

/// An event about a folder.
#[derive(Debug)]
pub struct FolderEventRequest {
    pub event_type: FileEventType,
    pub old_path: String,
    pub new_path: Option<String>,
}

/// The "created" event for a file: its pretty path, its path, size, hash
/// and times.
pub fn created_event(f: &FileInfo) -> (res: FileEventRequest)
    ensures
        res.event_type == FileEventType::Created,
        res.pretty_path@ == f.pretty_path@,
        res.path@.len() == 1,
        res.path@[0]@ == f.path@,
        res.size == Some(f.size),
        hash_view(res.hash) == hash_view(f.hash),
        res.last_accessed == Some(f.last_accessed),
        res.last_modified == Some(f.last_modified),
{
    let mut path: Vec<String> = Vec::new();
    path.push(f.path.clone());
    let hash = match &f.hash {
        Some(h) => Some(h.clone()),
        None => None,
    };
    FileEventRequest {
        event_type: FileEventType::Created,
        pretty_path: f.pretty_path.clone(),
        path,
        size: Some(f.size),
        hash,
        last_accessed: Some(f.last_accessed),
        last_modified: Some(f.last_modified),
    }
}

/// The "created" events for a list of files, in order.
pub fn created_events(files: &Vec<FileInfo>) -> (res: Vec<FileEventRequest>)
    ensures
        res@.len() == files@.len(),
        forall|i: int|
            0 <= i < res@.len() ==> (#[trigger] res@[i]).event_type == FileEventType::Created
                && res@[i].pretty_path@ == files@[i].pretty_path@ && res@[i].path@.len() == 1
                && res@[i].path@[0]@ == files@[i].path@ && res@[i].size == Some(files@[i].size)
                && hash_view(res@[i].hash) == hash_view(files@[i].hash) && res@[i].last_accessed
                == Some(files@[i].last_accessed) && res@[i].last_modified == Some(
                files@[i].last_modified,
            ),
{
    let mut res: Vec<FileEventRequest> = Vec::new();
    let mut i: usize = 0;
    while i < files.len()
        invariant
            i <= files.len(),
            res@.len() == i,
            forall|k: int|
                0 <= k < i ==> (#[trigger] res@[k]).event_type == FileEventType::Created
                    && res@[k].pretty_path@ == files@[k].pretty_path@ && res@[k].path@.len() == 1
                    && res@[k].path@[0]@ == files@[k].path@ && res@[k].size == Some(files@[k].size)
                    && hash_view(res@[k].hash) == hash_view(files@[k].hash)
                    && res@[k].last_accessed == Some(files@[k].last_accessed)
                    && res@[k].last_modified == Some(files@[k].last_modified),
        decreases files.len() - i,
    {
        res.push(created_event(&files[i]));
        i = i + 1;
    }
    res
}

/// The "deleted" event for a file that is gone: only its path is known.
pub fn deleted_file_event(path: &String) -> (res: FileEventRequest)
    ensures
        res.event_type == FileEventType::Deleted,
        res.pretty_path@ == path@,
        res.path@.len() == 1,
        res.path@[0]@ == path@,
        (res.size is None),
        (res.hash is None),
        (res.last_accessed is None),
        (res.last_modified is None),
{
    let mut p: Vec<String> = Vec::new();
    p.push(path.clone());
    FileEventRequest {
        event_type: FileEventType::Deleted,
        pretty_path: path.clone(),
        path: p,
        size: None,
        hash: None,
        last_accessed: None,
        last_modified: None,
    }
}

/// How a file is opened, read or written (`notify::event::AccessMode`).
#[derive(Clone, Copy, Debug, PartialEq, Eq, Structural)]
pub enum AccessMode {
    Any,
    Execute,
    Read,
    Write,
    Other,
}

/// An access to a file (`notify::event::AccessKind`).
#[derive(Clone, Copy, Debug, PartialEq, Eq, Structural)]
pub enum AccessKind {
    Any,
    Read,
    Open(AccessMode),
    Close(AccessMode),
    Other,
}

/// A creation (`notify::event::CreateKind`).
#[derive(Clone, Copy, Debug, PartialEq, Eq, Structural)]
pub enum CreateKind {
    Any,
    File,
    Folder,
    Other,
}

/// Which side of a rename an event reports (`notify::event::RenameMode`).
#[derive(Clone, Copy, Debug, PartialEq, Eq, Structural)]
pub enum RenameMode {
    Any,
    To,
    From,
    Both,
    Other,
}

/// A modification (`notify::event::ModifyKind`); what kind of data or
/// metadata changed is not needed here.
#[derive(Clone, Copy, Debug, PartialEq, Eq, Structural)]
pub enum ModifyKind {
    Any,
    Data,
    Metadata,
    Name(RenameMode),
    Other,
}

/// A removal (`notify::event::RemoveKind`).
#[derive(Clone, Copy, Debug, PartialEq, Eq, Structural)]
pub enum RemoveKind {
    Any,
    File,
    Folder,
    Other,
}

/// What a notification reports (`notify::EventKind`).
#[derive(Clone, Copy, Debug, PartialEq, Eq, Structural)]
pub enum EventKind {
    Any,
    Access(AccessKind),
    Create(CreateKind),
    Modify(ModifyKind),
    Remove(RemoveKind),
    Other,
}

/// What to do for one notification.
#[derive(Debug)]
pub enum EventAction {
    /// Nothing is sent.
    Ignore,
    /// Read the record of the file at `path` and send its "created" event.
    /// When the record cannot be read the notification is skipped if
    /// `!missing_is_error`, and sending stops with a file-info error
    /// otherwise; when sending fails, sending stops with an event-send error
    /// only if `send_error_is_fatal`.
    SendFileInfo { path: String, missing_is_error: bool, send_error_is_fatal: bool },
    /// List the directory at `path` and send the "created" event of every
    /// file in it; a listing error stops sending with a file-info error, a
    /// send error with an event-send error.
    SendDirectoryListing { path: String },
    /// Send this file event; a send error stops sending.
    SendFile(FileEventRequest),
    /// Send this folder event; a send error stops sending.
    SendFolder(FolderEventRequest),
}

/// A failure met while carrying out an action.
#[derive(Clone, Copy, Debug, PartialEq, Eq, Structural)]
pub enum HandlingFailure {
    /// The record of a file could not be read.
    RecordUnreadable,
    /// A directory could not be listed.
    ListingFailed,
    /// An event could not be sent.
    SendFailed,
}

/// The error that stops the handling of notifications.
#[derive(Clone, Copy, Debug, PartialEq, Eq, Structural)]
pub enum HandlingError {
    /// A file's record could not be read, or a directory listed.
    FileInfoError,
    /// An event could not be sent.
    EventSendError,
}

/// What follows a failure while carrying out `action`: `None` to go on with
/// the next notification, or the error that stops the handling. A record
/// that cannot be read stops it where the action says so, as does a failed
/// send of a file's record; a failed listing stops it, and so does a failed
/// send of a listing or of a prepared event. A failure an action cannot
/// meet changes nothing.
pub open spec fn after_failure_spec(action: EventAction, failure: HandlingFailure) -> Option<HandlingError> {
    match action {
        EventAction::Ignore => None,
        EventAction::SendFileInfo { path: _, missing_is_error, send_error_is_fatal } => match failure {
            HandlingFailure::RecordUnreadable => if missing_is_error {
                Some(HandlingError::FileInfoError)
            } else {
                None
            },
            HandlingFailure::SendFailed => if send_error_is_fatal {
                Some(HandlingError::EventSendError)
            } else {
                None
            },
            HandlingFailure::ListingFailed => None,
        },
        EventAction::SendDirectoryListing { path: _ } => match failure {
            HandlingFailure::ListingFailed => Some(HandlingError::FileInfoError),
            HandlingFailure::SendFailed => Some(HandlingError::EventSendError),
            HandlingFailure::RecordUnreadable => None,
        },
        EventAction::SendFile(_) => match failure {
            HandlingFailure::SendFailed => Some(HandlingError::EventSendError),
            _ => None,
        },
        EventAction::SendFolder(_) => match failure {
            HandlingFailure::SendFailed => Some(HandlingError::EventSendError),
            _ => None,
        },
    }
}

/// What follows a failure while carrying out `action`, as
/// [`after_failure_spec`] states.
pub fn after_failure(action: &EventAction, failure: HandlingFailure) -> (res: Option<HandlingError>)
    ensures
        res == after_failure_spec(*action, failure),
{
    match action {
        EventAction::Ignore => None,
        EventAction::SendFileInfo { path: _, missing_is_error, send_error_is_fatal } => match failure {
            HandlingFailure::RecordUnreadable => if *missing_is_error {
                Some(HandlingError::FileInfoError)
            } else {
                None
            },
            HandlingFailure::SendFailed => if *send_error_is_fatal {
                Some(HandlingError::EventSendError)
            } else {
                None
            },
            HandlingFailure::ListingFailed => None,
        },
        EventAction::SendDirectoryListing { path: _ } => match failure {
            HandlingFailure::ListingFailed => Some(HandlingError::FileInfoError),
            HandlingFailure::SendFailed => Some(HandlingError::EventSendError),
            HandlingFailure::RecordUnreadable => None,
        },
        EventAction::SendFile(_) => match failure {
            HandlingFailure::SendFailed => Some(HandlingError::EventSendError),
            _ => None,
        },
        EventAction::SendFolder(_) => match failure {
            HandlingFailure::SendFailed => Some(HandlingError::EventSendError),
            _ => None,
        },
    }
}

/// Whether the kind of a notification makes the caller look at whether its
/// first path is a directory.
pub open spec fn needs_dir_check_spec(kind: EventKind) -> bool {
    match kind {
        EventKind::Modify(ModifyKind::Name(mode)) => mode == RenameMode::To || mode
            == RenameMode::From || mode == RenameMode::Both,
        _ => false,
    }
}

/// Whether the caller must find out if the first path of a notification of
/// this kind is a directory before classifying it.
pub fn needs_dir_check(kind: EventKind) -> (res: bool)
    ensures
        res == needs_dir_check_spec(kind),
{
    match kind {
        EventKind::Modify(ModifyKind::Name(RenameMode::To)) => true,
        EventKind::Modify(ModifyKind::Name(RenameMode::From)) => true,
        EventKind::Modify(ModifyKind::Name(RenameMode::Both)) => true,
        _ => false,
    }
}

/// The number of paths a notification must carry to be handled: the
/// handling of its kind reads that many.
pub open spec fn paths_needed(kind: EventKind, first_is_dir: bool) -> nat {
    match kind {
        EventKind::Access(AccessKind::Open(AccessMode::Any)) => 0,
        EventKind::Create(CreateKind::File) => 1,
        EventKind::Modify(ModifyKind::Data) => 1,
        EventKind::Modify(ModifyKind::Name(RenameMode::To)) => 1,
        EventKind::Modify(ModifyKind::Name(RenameMode::From)) => 1,
        EventKind::Modify(ModifyKind::Name(RenameMode::Both)) => if first_is_dir {
            2
        } else {
            1
        },
        EventKind::Remove(RemoveKind::File) => 1,
        EventKind::Remove(RemoveKind::Folder) => 1,
        _ => 0,
    }
}

/// The number of paths a notification of this kind must carry.
pub fn paths_needed_exec(kind: EventKind, first_is_dir: bool) -> (res: usize)
    ensures
        res == paths_needed(kind, first_is_dir),
{
    match kind {
        EventKind::Access(AccessKind::Open(AccessMode::Any)) => 0,
        EventKind::Create(CreateKind::File) => 1,
        EventKind::Modify(ModifyKind::Data) => 1,
        EventKind::Modify(ModifyKind::Name(RenameMode::To)) => 1,
        EventKind::Modify(ModifyKind::Name(RenameMode::From)) => 1,
        EventKind::Modify(ModifyKind::Name(RenameMode::Both)) => if first_is_dir {
            2
        } else {
            1
        },
        EventKind::Remove(RemoveKind::File) => 1,
        EventKind::Remove(RemoveKind::Folder) => 1,
        _ => 0,
    }
}

/// The action for a notification of `kind` about `paths`, whose first path
/// is a directory when `first_is_dir` (consulted only for renames):
/// - a creation of a file, a data change, a file moved in (`To`) or renamed
///   (`Both`): the "created" event of the first path's record (a creation
///   whose record cannot be read is skipped; for the others that is an
///   error);
/// - a directory moved in: the "created" events of its listing;
/// - a file moved out (`From`) or removed: a "deleted" file event for the
///   first path;
/// - a directory moved out or removed: a "deleted" folder event for it;
/// - a directory renamed: a "moved" folder event from the first path to the
///   second;
/// - anything else, opening included: nothing.
pub open spec fn classify_spec(kind: EventKind, paths: Seq<Seq<char>>, first_is_dir: bool, action: EventAction) -> bool {
    match kind {
        EventKind::Create(CreateKind::File) => action matches EventAction::SendFileInfo {
            path,
            missing_is_error,
            send_error_is_fatal,
        } && path@ == paths[0] && !missing_is_error && !send_error_is_fatal,
        EventKind::Modify(ModifyKind::Data) => action matches EventAction::SendFileInfo {
            path,
            missing_is_error,
            send_error_is_fatal,
        } && path@ == paths[0] && missing_is_error && send_error_is_fatal,
        EventKind::Modify(ModifyKind::Name(RenameMode::To)) => if first_is_dir {
            action matches EventAction::SendDirectoryListing { path } && path@ == paths[0]
        } else {
            action matches EventAction::SendFileInfo {
                path,
                missing_is_error,
                send_error_is_fatal,
            } && path@ == paths[0] && missing_is_error && send_error_is_fatal
        },
        EventKind::Modify(ModifyKind::Name(RenameMode::From)) => if first_is_dir {
            action matches EventAction::SendFolder(e) && e.event_type == FileEventType::Deleted
                && e.old_path@ == paths[0] && e.new_path is None
        } else {
            action matches EventAction::SendFile(e) && e.event_type == FileEventType::Deleted
                && e.pretty_path@ == paths[0] && e.path@.len() == 1 && e.path@[0]@ == paths[0]
                && e.size is None && e.hash is None && e.last_accessed is None
                && e.last_modified is None
        },
        EventKind::Modify(ModifyKind::Name(RenameMode::Both)) => if first_is_dir {
            action matches EventAction::SendFolder(e) && e.event_type == FileEventType::Moved
                && e.old_path@ == paths[0] && (e.new_path matches Some(n) && n@ == paths[1])
        } else {
            action matches EventAction::SendFileInfo {
                path,
                missing_is_error,
                send_error_is_fatal,
            } && path@ == paths[0] && missing_is_error && send_error_is_fatal
        },
        EventKind::Remove(RemoveKind::File) => action matches EventAction::SendFile(e)
            && e.event_type == FileEventType::Deleted && e.pretty_path@ == paths[0] && e.path@.len()
            == 1 && e.path@[0]@ == paths[0] && e.size is None && e.hash is None
            && e.last_accessed is None && e.last_modified is None,
        EventKind::Remove(RemoveKind::Folder) => action matches EventAction::SendFolder(e)
            && e.event_type == FileEventType::Deleted && e.old_path@ == paths[0]
            && e.new_path is None,
        _ => action is Ignore,
    }
}

fn send_file_info(path: &String, missing_is_error: bool, send_error_is_fatal: bool) -> (res: EventAction)
    ensures
        res matches EventAction::SendFileInfo { path: p, missing_is_error: m, send_error_is_fatal: s }
            && p@ == path@ && m == missing_is_error && s == send_error_is_fatal,
{
    EventAction::SendFileInfo { path: path.clone(), missing_is_error, send_error_is_fatal }
}

/// The action for one notification, as [`classify_spec`] states it.
pub fn classify_event(kind: EventKind, paths: &Vec<String>, first_is_dir: bool) -> (res: EventAction)
    requires
        paths@.len() >= paths_needed(kind, first_is_dir),
    ensures
        classify_spec(kind, paths@.map_values(|p: String| p@), first_is_dir, res),
        brings_file(kind, first_is_dir) ==> (res matches EventAction::SendFileInfo { path, .. }
            && path@ == paths@[0]@),
{
    let ghost ps = paths@.map_values(|p: String| p@);
    match kind {
        EventKind::Create(CreateKind::File) => send_file_info(&paths[0], false, false),
        EventKind::Modify(ModifyKind::Data) => send_file_info(&paths[0], true, true),
        EventKind::Modify(ModifyKind::Name(RenameMode::To)) => {
            if first_is_dir {
                EventAction::SendDirectoryListing { path: paths[0].clone() }
            } else {
                send_file_info(&paths[0], true, true)
            }
        },
        EventKind::Modify(ModifyKind::Name(RenameMode::From)) => {
            if first_is_dir {
                EventAction::SendFolder(
                    FolderEventRequest {
                        event_type: FileEventType::Deleted,
                        old_path: paths[0].clone(),
                        new_path: None,
                    },
                )
            } else {
                EventAction::SendFile(deleted_file_event(&paths[0]))
            }
        },
        EventKind::Modify(ModifyKind::Name(RenameMode::Both)) => {
            if first_is_dir {
                EventAction::SendFolder(
                    FolderEventRequest {
                        event_type: FileEventType::Moved,
                        old_path: paths[0].clone(),
                        new_path: Some(paths[1].clone()),
                    },
                )
            } else {
                send_file_info(&paths[0], true, true)
            }
        },
        EventKind::Remove(RemoveKind::File) => EventAction::SendFile(deleted_file_event(&paths[0])),
        EventKind::Remove(RemoveKind::Folder) => EventAction::SendFolder(
            FolderEventRequest {
                event_type: FileEventType::Deleted,
                old_path: paths[0].clone(),
                new_path: None,
            },
        ),
        _ => EventAction::Ignore,
    }
}

/// A notification brings a file into the watched directories, or changes
/// one there: a file created, its data changed, a file moved in, or a file
/// renamed.
pub open spec fn brings_file(kind: EventKind, first_is_dir: bool) -> bool {
    ||| kind == EventKind::Create(CreateKind::File)
    ||| kind == EventKind::Modify(ModifyKind::Data)
    ||| (kind == EventKind::Modify(ModifyKind::Name(RenameMode::To)) && !first_is_dir)
    ||| (kind == EventKind::Modify(ModifyKind::Name(RenameMode::Both)) && !first_is_dir)
}

/// A notification takes a file or a directory out of the watched
/// directories: moved out or removed.
pub open spec fn takes_out(kind: EventKind) -> bool {
    ||| kind == EventKind::Modify(ModifyKind::Name(RenameMode::From))
    ||| kind == EventKind::Remove(RemoveKind::File)
    ||| kind == EventKind::Remove(RemoveKind::Folder)
}

/// What a notification leads to: every notification that brings a file in
/// asks for that file's record to be read and sent (its first path); every
/// one that takes a file or directory out sends a "deleted" event for its
/// first path; a directory moved in is listed, a directory renamed sends a
/// "moved" event from the first path to the second; and nothing is sent
/// only for a notification that does none of these.
pub proof fn lemma_notifications_reach_the_hub(
    kind: EventKind,
    paths: Seq<Seq<char>>,
    first_is_dir: bool,
    action: EventAction,
)
    requires
        classify_spec(kind, paths, first_is_dir, action),
    ensures
        brings_file(kind, first_is_dir) ==> (action matches EventAction::SendFileInfo { path, .. }
            && path@ == paths[0]),
        takes_out(kind) ==> match action {
            EventAction::SendFile(e) => e.event_type == FileEventType::Deleted && e.path@.len() == 1
                && e.path@[0]@ == paths[0],
            EventAction::SendFolder(e) => e.event_type == FileEventType::Deleted && e.old_path@
                == paths[0],
            _ => false,
        },
        kind == EventKind::Modify(ModifyKind::Name(RenameMode::To)) && first_is_dir ==> (
        action matches EventAction::SendDirectoryListing { path } && path@ == paths[0]),
        kind == EventKind::Modify(ModifyKind::Name(RenameMode::Both)) && first_is_dir ==> (
        action matches EventAction::SendFolder(e) && e.event_type == FileEventType::Moved
            && e.old_path@ == paths[0] && (e.new_path matches Some(n) && n@ == paths[1])),
        action is Ignore <==> !(brings_file(kind, first_is_dir) || takes_out(kind) || kind
            == EventKind::Modify(ModifyKind::Name(RenameMode::To)) || kind == EventKind::Modify(
            ModifyKind::Name(RenameMode::Both),
        )),
{
}

/// The address of the hub's gRPC server: `protocol://host:port`.
pub open spec fn endpoint_uri_spec(config: GrpcServerConfig) -> Seq<char> {
    config.protocol@ + "://"@ + config.host@ + seq![':'] + decimal(config.port as nat)
}

/// The address of the hub's gRPC server, as [`endpoint_uri_spec`] states.
pub fn endpoint_uri(config: &GrpcServerConfig) -> (res: String)
    ensures
        res@ == endpoint_uri_spec(*config),
{
    let port = decimal_chars(config.port as u128);
    from_chars(&address_chars(config.protocol.as_str(), config.host.as_str(), &port))
}

/// Adds the agent's identity to every gRPC request.
pub struct AuthInterceptor {
    pub agent_uuid: String,
}

impl AuthInterceptor {
    /// The value of the `authorization` header: `Bearer <agent uuid>`.
    pub fn authorization_value(&self) -> (res: String)
        ensures
            res@ == "Bearer "@ + self.agent_uuid@,
    {
        let prefix = to_chars("Bearer ");
        let id = to_chars(self.agent_uuid.as_str());
        let all = concat_chars(&prefix, &id);
        from_chars(&all)
    }
}

} // verus!
