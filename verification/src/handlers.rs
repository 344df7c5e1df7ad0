//! The call-and-return interface: one call for each operation, answered
//! with a status and a body. It applies the rules of the file system and
//! adds none.

use crate::clock::Timestamp;
use crate::config::{AppConfig, ConfigSpec};
use crate::error::VfsError;
use crate::path::text_of;
use crate::store::{FileSpec, VirtualFile};
use crate::tree::{views, FileNode, NodeSpec};
use crate::vfs::VirtualFileSystem;
use vstd::prelude::*;
use vstd::string::*;

verus! {

/// The status of a call that went well and returns something.
pub const STATUS_OK: u16 = 200;

/// The status of a call that created something.
pub const STATUS_CREATED: u16 = 201;

/// The status of a call that went well and returns nothing.
pub const STATUS_NO_CONTENT: u16 = 204;

/// The status of a call that could not be carried out as it was made.
pub const STATUS_BAD_REQUEST: u16 = 400;

/// The status of a call for something that is not there.
pub const STATUS_NOT_FOUND: u16 = 404;

/// What a call to create a file brings.
#[derive(Debug)]
pub struct CreateFileRequest {
    pub path: String,
    pub content: String,
}

/// What a call to write a file brings.
#[derive(Debug)]
pub struct UpdateFileRequest {
    pub content: String,
}

/// What a call to create a directory brings.
#[derive(Debug)]
pub struct CreateDirectoryRequest {
    pub path: String,
}

/// What a call to read a file returns.
#[derive(Debug)]
pub struct FileResponse {
    pub id: String,
    pub name: String,
    pub content: String,
    pub language: Option<String>,
}

/// What a call that failed returns.
#[derive(Debug)]
pub struct ErrorResponse {
    pub error: String,
}

/// The body of an answer.
#[derive(Debug)]
pub enum HttpBody {
    /// No body.
    Empty,
    /// The identifier of what was created.
    Id { id: String },
    /// Why the call failed.
    Error { error: ErrorResponse },
    /// A file.
    File { file: FileResponse },
    /// The children of a directory.
    Nodes { nodes: Vec<FileNode> },
    /// The whole configuration.
    Settings { config: AppConfig },
    /// The root of the project, which is `/`.
    Root,
}

/// An answer: a status and a body.
#[derive(Debug)]
pub struct HttpReply {
    pub status: u16,
    pub body: HttpBody,
}

/// The mathematical value of an `HttpBody`.
pub enum BodySpec {
    Empty,
    Id { id: Seq<char> },
    Error { error: Seq<char> },
    File { id: Seq<char>, name: Seq<char>, content: Seq<char>, language: Option<Seq<char>> },
    Nodes { nodes: Seq<NodeSpec> },
    Settings { config: ConfigSpec },
    Root,
}

impl View for HttpBody {
    type V = BodySpec;

    open spec fn view(&self) -> BodySpec {
        match self {
            HttpBody::Empty => BodySpec::Empty,
            HttpBody::Id { id } => BodySpec::Id { id: id@ },
            HttpBody::Error { error } => BodySpec::Error { error: error.error@ },
            HttpBody::File { file } => BodySpec::File {
                id: file.id@,
                name: file.name@,
                content: file.content@,
                language: text_of(file.language),
            },
            HttpBody::Nodes { nodes } => BodySpec::Nodes { nodes: views(nodes@) },
            HttpBody::Settings { config } => BodySpec::Settings { config: config@ },
            HttpBody::Root => BodySpec::Root,
        }
    }
}

impl View for HttpReply {
    type V = (u16, BodySpec);

    open spec fn view(&self) -> (u16, BodySpec) {
        (self.status, self.body@)
    }
}

/// The body that shows the record `file`: its identifier, name, content and
/// language, without its times.
pub open spec fn file_body(file: FileSpec) -> BodySpec {
    BodySpec::File {
        id: file.id,
        name: file.name,
        content: file.content,
        language: file.language,
    }
}

/// The answer that reports `e` under `status`.
pub open spec fn failure(status: u16, e: VfsError) -> (u16, BodySpec) {
    (status, BodySpec::Error { error: e.message_text() })
}

/// What a call to read a file returns for `file`.
pub fn file_response(file: &VirtualFile) -> (body: FileResponse)
    ensures
        (HttpBody::File { file: body })@ == file_body(file@),
{
    let language = match &file.language {
        Some(l) => Some(l.clone()),
        None => None,
    };
    FileResponse {
        id: file.id.clone(),
        name: file.name.clone(),
        content: file.content.clone(),
        language,
    }
}

/// The answer that reports `e` under `status`.
fn failed(status: u16, e: VfsError) -> (reply: HttpReply)
    ensures
        reply@ == failure(status, e),
{
    HttpReply { status, body: HttpBody::Error { error: ErrorResponse { error: e.message() } } }
}

/// Creates a file. Answers `201` with its identifier, or `400` with the
/// reason, in which case nothing has changed.
pub fn create_file_handler(vfs: &mut VirtualFileSystem, payload: CreateFileRequest) -> (reply:
    HttpReply)
    ensures
        match old(vfs)@.create_error(payload.path@) {
            Some(e) => reply@ == failure(STATUS_BAD_REQUEST, e) && final(vfs)@ == old(vfs)@,
            None => exists|id: Seq<char>, node_id: Seq<char>, now: Timestamp|
                reply@ == (STATUS_CREATED, BodySpec::Id { id }) && final(vfs)@ == old(
                    vfs,
                )@.with_file(payload.path@, payload.content@, id, node_id, now),
        },
{
    match vfs.create_file(payload.path.as_str(), payload.content) {
        Ok(id) => HttpReply { status: STATUS_CREATED, body: HttpBody::Id { id } },
        Err(e) => failed(STATUS_BAD_REQUEST, e),
    }
}

/// Reads a file. Answers `200` with the file, or `404` with the reason.
pub fn read_file_handler(vfs: &VirtualFileSystem, file_id: &str) -> (reply: HttpReply)
    ensures
        reply@ == match vfs@.read(file_id@) {
            Ok(file) => (STATUS_OK, file_body(file)),
            Err(e) => failure(STATUS_NOT_FOUND, e),
        },
{
    match vfs.read_file(file_id) {
        Ok(file) => HttpReply {
            status: STATUS_OK,
            body: HttpBody::File { file: file_response(file) },
        },
        Err(e) => failed(STATUS_NOT_FOUND, e),
    }
}

/// Writes a file. Answers `200`, or `400` where there is no such file.
/// Neither answer has a body.
pub fn update_file_handler(vfs: &mut VirtualFileSystem, file_id: &str, payload: UpdateFileRequest)
    -> (reply: HttpReply)
    ensures
        old(vfs)@.files.contains_key(file_id@) ==> reply@ == (STATUS_OK, BodySpec::Empty)
            && exists|now: Timestamp|
            final(vfs)@ == old(vfs)@.with_content(file_id@, payload.content@, now),
        !old(vfs)@.files.contains_key(file_id@) ==> reply@ == (
            STATUS_BAD_REQUEST,
            BodySpec::Empty,
        ) && final(vfs)@ == old(vfs)@,
{
    match vfs.write_file(file_id, payload.content) {
        Ok(_) => HttpReply { status: STATUS_OK, body: HttpBody::Empty },
        Err(_) => HttpReply { status: STATUS_BAD_REQUEST, body: HttpBody::Empty },
    }
}

/// Deletes a file. Answers `204`, or `404` where there is no such file.
/// Neither answer has a body.
pub fn delete_file_handler(vfs: &mut VirtualFileSystem, file_id: &str) -> (reply: HttpReply)
    ensures
        old(vfs)@.files.contains_key(file_id@) ==> reply@ == (STATUS_NO_CONTENT, BodySpec::Empty)
            && final(vfs)@ == old(vfs)@.without_file(file_id@),
        !old(vfs)@.files.contains_key(file_id@) ==> reply@ == (STATUS_NOT_FOUND, BodySpec::Empty)
            && final(vfs)@ == old(vfs)@,
{
    match vfs.delete_file(file_id) {
        Ok(_) => HttpReply { status: STATUS_NO_CONTENT, body: HttpBody::Empty },
        Err(_) => HttpReply { status: STATUS_NOT_FOUND, body: HttpBody::Empty },
    }
}

/// Creates a directory. Answers `201` with an identifier, or `400` with the
/// reason, in which case nothing has changed.
pub fn create_directory_handler(vfs: &mut VirtualFileSystem, payload: CreateDirectoryRequest)
    -> (reply: HttpReply)
    ensures
        match old(vfs)@.create_error(payload.path@) {
            Some(e) => reply@ == failure(STATUS_BAD_REQUEST, e) && final(vfs)@ == old(vfs)@,
            None => exists|id: Seq<char>, node_id: Seq<char>|
                reply@ == (STATUS_CREATED, BodySpec::Id { id }) && final(vfs)@ == old(
                    vfs,
                )@.with_directory(payload.path@, node_id),
        },
{
    let ghost before = vfs@;
    match vfs.create_directory(payload.path.as_str()) {
        Ok(id) => {
            let ghost returned = id@;
            let reply = HttpReply { status: STATUS_CREATED, body: HttpBody::Id { id } };
            proof {
                let node_id = choose|node_id: Seq<char>|
                    vfs@ == before.with_directory(payload.path@, node_id);
                assert(reply@ == (STATUS_CREATED, BodySpec::Id { id: returned }) && vfs@
                    == before.with_directory(payload.path@, node_id));
            }
            reply
        },
        Err(e) => failed(STATUS_BAD_REQUEST, e),
    }
}

/// The path that a call to list a directory means: the root where it
/// brings none.
pub open spec fn listed_path(path: Seq<char>) -> Seq<char> {
    if path.len() == 0 {
        "/"@
    } else {
        path
    }
}

/// Lists a directory; the empty path means the root. Answers `200` with
/// the children, or `404` with the reason.
pub fn list_directory_handler(vfs: &VirtualFileSystem, path: &str) -> (reply: HttpReply)
    ensures
        reply@ == match vfs@.list(listed_path(path@)) {
            Ok(nodes) => (STATUS_OK, BodySpec::Nodes { nodes }),
            Err(e) => failure(STATUS_NOT_FOUND, e),
        },
{
    let path = if path.unicode_len() == 0 {
        "/"
    } else {
        path
    };
    match vfs.list_directory(path) {
        Ok(nodes) => HttpReply { status: STATUS_OK, body: HttpBody::Nodes { nodes } },
        Err(e) => failed(STATUS_NOT_FOUND, e),
    }
}

/// Shows the project: answers `200` with its root.
pub fn get_project_handler() -> (reply: HttpReply)
    ensures
        reply@ == (STATUS_OK, BodySpec::Root),
{
    HttpReply { status: STATUS_OK, body: HttpBody::Root }
}

/// Shows the configuration: answers `200` with all of it.
pub fn get_settings_handler(config: &AppConfig) -> (reply: HttpReply)
    ensures
        reply@ == (STATUS_OK, BodySpec::Settings { config: config@ }),
{
    HttpReply { status: STATUS_OK, body: HttpBody::Settings { config: config.clone() } }
}

/// Saves the project: answers `200`. Files are stored as they are written,
/// so that nothing is left to save.
pub fn save_project_handler() -> (reply: HttpReply)
    ensures
        reply@ == (STATUS_OK, BodySpec::Empty),
{
    HttpReply { status: STATUS_OK, body: HttpBody::Empty }
}

/// Takes an update of the settings: answers `200`. The update is neither
/// validated nor applied.
pub fn update_settings_handler() -> (reply: HttpReply)
    ensures
        reply@ == (STATUS_OK, BodySpec::Empty),
{
    HttpReply { status: STATUS_OK, body: HttpBody::Empty }
}

} // verus!
