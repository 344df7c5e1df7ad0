//! The request protocol: the closed set of requests and responses, which
//! lock a request needs, and what is answered to it.

use crate::commands::{file_info, FileInfo};
use crate::config::{AppConfig, ConfigSpec, SettingsPatch, DEFAULT_TYPING_SPEED};
use crate::path::text_of;
use crate::error::VfsError;
use crate::store::{FileSpec, VirtualFile};
use crate::tree::{views, FileNode, NodeSpec};
use vstd::prelude::*;
use vstd::string::*;

verus! {

/// A place in a text.
#[derive(Clone, Copy, Debug, PartialEq, Eq, Structural)]
pub struct Position {
    pub line: u32,
    pub column: u32,
}

/// A request of a client. `speed` of `AnimationType`, in characters a
/// second, is the bits of a single-precision number.
#[derive(Debug)]
pub enum McpRequest {
    FileCreate { path: String, content: String },
    FileRead { id: String },
    FileUpdate { id: String, content: String },
    FileDelete { id: String },
    DirectoryCreate { path: String },
    DirectoryList { path: String },
    AnimationType { file_id: String, content: String, speed: Option<u32> },
    AnimationCursor { from: Position, to: Position, duration: u32 },
    SettingsGet,
    SettingsUpdate { settings: SettingsPatch },
}

/// What a successful response or an event carries.
#[derive(Debug)]
pub enum Payload {
    /// The identifier of what was created.
    Id { id: String },
    /// A file: its record without its times.
    File { file: FileInfo },
    /// A file was written.
    Updated,
    /// A file was deleted.
    Deleted,
    /// The children of a directory.
    Nodes { nodes: Vec<FileNode> },
    /// The whole configuration.
    Settings { config: AppConfig },
    /// A typing animation: the number of characters to type and the speed,
    /// as the bits of a single-precision number, from which its duration
    /// follows.
    Typing { animation_id: String, characters: usize, speed: u32 },
    /// A cursor animation, which has started.
    Cursor { animation_id: String },
    /// A connection was opened.
    Connected { session_id: String, version: String },
}

/// A response to a request, or an event.
#[derive(Debug)]
pub enum McpResponse {
    Success { data: Payload },
    Error { message: String },
    Event { event: String, data: Payload },
}

/// The mathematical value of a `Payload`.
pub enum PayloadSpec {
    Id { id: Seq<char> },
    File { id: Seq<char>, name: Seq<char>, content: Seq<char>, language: Option<Seq<char>> },
    Updated,
    Deleted,
    Nodes { nodes: Seq<NodeSpec> },
    Settings { config: ConfigSpec },
    Typing { animation_id: Seq<char>, characters: nat, speed: u32 },
    Cursor { animation_id: Seq<char> },
    Connected { session_id: Seq<char>, version: Seq<char> },
}

/// The mathematical value of an `McpResponse`.
pub enum ResponseSpec {
    Success { data: PayloadSpec },
    Error { message: Seq<char> },
    Event { event: Seq<char>, data: PayloadSpec },
}

impl View for Payload {
    type V = PayloadSpec;

    open spec fn view(&self) -> PayloadSpec {
        match self {
            Payload::Id { id } => PayloadSpec::Id { id: id@ },
            Payload::File { file } => PayloadSpec::File {
                id: file.id@,
                name: file.name@,
                content: file.content@,
                language: text_of(file.language),
            },
            Payload::Updated => PayloadSpec::Updated,
            Payload::Deleted => PayloadSpec::Deleted,
            Payload::Nodes { nodes } => PayloadSpec::Nodes { nodes: views(nodes@) },
            Payload::Settings { config } => PayloadSpec::Settings { config: config@ },
            Payload::Typing { animation_id, characters, speed } => PayloadSpec::Typing {
                animation_id: animation_id@,
                characters: *characters as nat,
                speed: *speed,
            },
            Payload::Cursor { animation_id } => PayloadSpec::Cursor {
                animation_id: animation_id@,
            },
            Payload::Connected { session_id, version } => PayloadSpec::Connected {
                session_id: session_id@,
                version: version@,
            },
        }
    }
}

impl View for McpResponse {
    type V = ResponseSpec;

    open spec fn view(&self) -> ResponseSpec {
        match self {
            McpResponse::Success { data } => ResponseSpec::Success { data: data@ },
            McpResponse::Error { message } => ResponseSpec::Error { message: message@ },
            McpResponse::Event { event, data } => ResponseSpec::Event {
                event: event@,
                data: data@,
            },
        }
    }
}

/// What a request needs to be held while it is answered.
#[derive(Clone, Copy, Debug, PartialEq, Eq, Structural)]
pub enum LockMode {
    /// The file system, shared with other readers.
    Shared,
    /// The file system, alone.
    Exclusive,
    /// The configuration, shared with other readers.
    Settings,
    /// Nothing.
    Unlocked,
}

/// What `request` needs to be held: reads share the file system, every
/// change of it has it alone, and no request needs more than one lock.
pub open spec fn lock_for(request: McpRequest) -> LockMode {
    match request {
        McpRequest::FileRead { .. } | McpRequest::DirectoryList { .. } => LockMode::Shared,
        McpRequest::FileCreate { .. }
        | McpRequest::FileUpdate { .. }
        | McpRequest::FileDelete { .. }
        | McpRequest::DirectoryCreate { .. } => LockMode::Exclusive,
        McpRequest::SettingsGet => LockMode::Settings,
        McpRequest::AnimationType { .. }
        | McpRequest::AnimationCursor { .. }
        | McpRequest::SettingsUpdate { .. } => LockMode::Unlocked,
    }
}

/// What `request` needs to be held while it is answered.
pub fn lock_mode(request: &McpRequest) -> (mode: LockMode)
    ensures
        mode == lock_for(*request),
{
    match request {
        McpRequest::FileRead { .. } | McpRequest::DirectoryList { .. } => LockMode::Shared,
        McpRequest::FileCreate { .. }
        | McpRequest::FileUpdate { .. }
        | McpRequest::FileDelete { .. }
        | McpRequest::DirectoryCreate { .. } => LockMode::Exclusive,
        McpRequest::SettingsGet => LockMode::Settings,
        McpRequest::AnimationType { .. }
        | McpRequest::AnimationCursor { .. }
        | McpRequest::SettingsUpdate { .. } => LockMode::Unlocked,
    }
}

/// The response that reports `e`.
pub open spec fn error_reply(e: VfsError) -> ResponseSpec {
    ResponseSpec::Error { message: e.message_text() }
}

/// The response that carries `data`.
pub open spec fn success_reply(data: PayloadSpec) -> ResponseSpec {
    ResponseSpec::Success { data }
}

/// The response to a creation that returned `r`.
pub open spec fn created_reply(r: Result<Seq<char>, VfsError>) -> ResponseSpec {
    match r {
        Ok(id) => success_reply(PayloadSpec::Id { id }),
        Err(e) => error_reply(e),
    }
}

/// What a response shows of the record `file`: its identifier, name,
/// content and language, without its times.
pub open spec fn file_payload(file: FileSpec) -> PayloadSpec {
    PayloadSpec::File {
        id: file.id,
        name: file.name,
        content: file.content,
        language: file.language,
    }
}

/// The response to a read that returned `r`.
pub open spec fn read_reply(r: Result<FileSpec, VfsError>) -> ResponseSpec {
    match r {
        Ok(file) => success_reply(file_payload(file)),
        Err(e) => error_reply(e),
    }
}

/// The response to a listing that returned `r`.
pub open spec fn listed_reply(r: Result<Seq<NodeSpec>, VfsError>) -> ResponseSpec {
    match r {
        Ok(nodes) => success_reply(PayloadSpec::Nodes { nodes }),
        Err(e) => error_reply(e),
    }
}

/// The response to a change that returned `r` and carries `done` where it
/// went well.
pub open spec fn changed_reply(r: Result<(), VfsError>, done: PayloadSpec) -> ResponseSpec {
    match r {
        Ok(_) => success_reply(done),
        Err(e) => error_reply(e),
    }
}

/// The response to a message that could not be decoded, for the reason
/// `reason`.
pub open spec fn undecoded_reply(reason: Seq<char>) -> ResponseSpec {
    ResponseSpec::Error { message: "Invalid request format: "@ + reason }
}

/// The event that announces the session `session_id` to its client.
pub open spec fn welcome_event(session_id: Seq<char>) -> ResponseSpec {
    ResponseSpec::Event {
        event: "connected"@,
        data: PayloadSpec::Connected { session_id, version: "1.0.0"@ },
    }
}

/// The speed of a typing animation: the one asked for, or 80 characters a
/// second.
pub open spec fn typing_speed(speed: Option<u32>) -> u32 {
    match speed {
        Some(s) => s,
        None => DEFAULT_TYPING_SPEED,
    }
}

/// The response that reports `e`.
pub fn error_response(e: VfsError) -> (reply: McpResponse)
    ensures
        reply@ == error_reply(e),
{
    McpResponse::Error { message: e.message() }
}

/// The response to a creation that returned `r`.
pub fn created_response(r: Result<String, VfsError>) -> (reply: McpResponse)
    ensures
        reply@ == created_reply(crate::vfs::id_value(r)),
{
    match r {
        Ok(id) => McpResponse::Success { data: Payload::Id { id } },
        Err(e) => error_response(e),
    }
}

/// The response to a read that returned `r`.
pub fn read_response(r: Result<&VirtualFile, VfsError>) -> (reply: McpResponse)
    ensures
        reply@ == read_reply(crate::vfs::read_value(r)),
{
    match r {
        Ok(file) => McpResponse::Success { data: Payload::File { file: file_info(file) } },
        Err(e) => error_response(e),
    }
}

/// The response to a listing that returned `r`.
pub fn listed_response(r: Result<Vec<FileNode>, VfsError>) -> (reply: McpResponse)
    ensures
        reply@ == listed_reply(crate::tree::listing_value(r)),
{
    match r {
        Ok(nodes) => McpResponse::Success { data: Payload::Nodes { nodes } },
        Err(e) => error_response(e),
    }
}

/// The response to a write that returned `r`.
pub fn updated_response(r: Result<(), VfsError>) -> (reply: McpResponse)
    ensures
        reply@ == changed_reply(r, PayloadSpec::Updated),
{
    match r {
        Ok(_) => McpResponse::Success { data: Payload::Updated },
        Err(e) => error_response(e),
    }
}

/// The response to a deletion that returned `r`.
pub fn deleted_response(r: Result<(), VfsError>) -> (reply: McpResponse)
    ensures
        reply@ == changed_reply(r, PayloadSpec::Deleted),
{
    match r {
        Ok(_) => McpResponse::Success { data: Payload::Deleted },
        Err(e) => error_response(e),
    }
}

/// The response that carries the whole configuration.
pub fn settings_response(config: &AppConfig) -> (reply: McpResponse)
    ensures
        reply@ == success_reply(PayloadSpec::Settings { config: config@ }),
{
    McpResponse::Success { data: Payload::Settings { config: config.clone() } }
}

/// The response to a message that could not be decoded, for the reason
/// `reason`. The connection stays open.
pub fn undecoded_response(reason: &str) -> (reply: McpResponse)
    ensures
        reply@ == undecoded_reply(reason@),
{
    McpResponse::Error { message: String::from_str("Invalid request format: ").concat(reason) }
}

/// The event that announces the session `session_id` to its client.
pub fn welcome(session_id: &str) -> (reply: McpResponse)
    ensures
        reply@ == welcome_event(session_id@),
{
    McpResponse::Event {
        event: String::from_str("connected"),
        data: Payload::Connected {
            session_id: String::from_str(session_id),
            version: String::from_str("1.0.0"),
        },
    }
}

/// The response to a request for a typing animation of `content`, which
/// goes by `animation_id`. Nothing is animated yet.
pub fn typing_response(animation_id: String, content: &str, speed: Option<u32>) -> (reply:
    McpResponse)
    ensures
        reply@ == success_reply(
            PayloadSpec::Typing {
                animation_id: animation_id@,
                characters: content@.len(),
                speed: typing_speed(speed),
            },
        ),
{
    let speed = match speed {
        Some(s) => s,
        None => DEFAULT_TYPING_SPEED,
    };
    McpResponse::Success {
        data: Payload::Typing { animation_id, characters: content.unicode_len(), speed },
    }
}

/// The response to a request for a cursor animation, which goes by
/// `animation_id`. Nothing is animated yet.
pub fn cursor_response(animation_id: String) -> (reply: McpResponse)
    ensures
        reply@ == success_reply(PayloadSpec::Cursor { animation_id: animation_id@ }),
{
    McpResponse::Success { data: Payload::Cursor { animation_id } }
}

} // verus!
