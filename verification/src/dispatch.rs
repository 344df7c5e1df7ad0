//! Answering requests: each request is carried out on the part of the state
//! that it needs, and its outcome becomes a response.

use crate::clock::Timestamp;
use crate::config::{AppConfig, ConfigSpec};
use crate::error::VfsError;
use crate::ident::fresh_id;
use crate::protocol::{
    created_response, cursor_response, deleted_response, error_reply, listed_reply,
    listed_response, lock_for, lock_mode, read_reply, read_response, settings_response,
    success_reply, typing_response, typing_speed, undecoded_reply, undecoded_response,
    updated_response, LockMode, McpRequest, McpResponse, PayloadSpec, ResponseSpec,
};
use crate::state::AppState;
use crate::vfs::{FsSpec, VirtualFileSystem};
use vstd::prelude::*;
use vstd::string::*;

verus! {

/// The value of an optional response.
pub open spec fn reply_of(r: Option<McpResponse>) -> Option<ResponseSpec> {
    match r {
        Some(reply) => Some(reply@),
        None => None,
    }
}

/// The answer to a request that reads the file system; none to any other.
pub open spec fn shared_answer(fs: FsSpec, request: McpRequest) -> Option<ResponseSpec> {
    match request {
        McpRequest::FileRead { id } => Some(read_reply(fs.read(id@))),
        McpRequest::DirectoryList { path } => Some(listed_reply(fs.list(path@))),
        _ => None,
    }
}

/// Whether `reply` and `after` are an answer to a request that changes the
/// file system `before`, and what it leaves. A request that fails changes
/// nothing. To any other request there is no answer here.
pub open spec fn exclusive_answer(
    before: FsSpec,
    request: McpRequest,
    reply: Option<ResponseSpec>,
    after: FsSpec,
) -> bool {
    match request {
        McpRequest::FileCreate { path, content } => match before.create_error(path@) {
            Some(e) => reply == Some(error_reply(e)) && after == before,
            None => exists|id: Seq<char>, node_id: Seq<char>, now: Timestamp|
                reply == Some(success_reply(PayloadSpec::Id { id })) && after == before.with_file(
                    path@,
                    content@,
                    id,
                    node_id,
                    now,
                ),
        },
        McpRequest::FileUpdate { id, content } => if before.files.contains_key(id@) {
            reply == Some(success_reply(PayloadSpec::Updated)) && exists|now: Timestamp|
                after == before.with_content(id@, content@, now)
        } else {
            reply == Some(error_reply(VfsError::NotFound)) && after == before
        },
        McpRequest::FileDelete { id } => if before.files.contains_key(id@) {
            reply == Some(success_reply(PayloadSpec::Deleted)) && after == before.without_file(id@)
        } else {
            reply == Some(error_reply(VfsError::NotFound)) && after == before
        },
        McpRequest::DirectoryCreate { path } => match before.create_error(path@) {
            Some(e) => reply == Some(error_reply(e)) && after == before,
            None => exists|dir_id: Seq<char>, node_id: Seq<char>|
                reply == Some(success_reply(PayloadSpec::Id { id: dir_id })) && after
                    == before.with_directory(path@, node_id),
        },
        _ => reply is None && after == before,
    }
}

/// The answer to a request for the configuration; none to any other.
pub open spec fn settings_answer(config: ConfigSpec, request: McpRequest) -> Option<
    ResponseSpec,
> {
    match request {
        McpRequest::SettingsGet => Some(success_reply(PayloadSpec::Settings { config })),
        _ => None,
    }
}

/// Whether `reply` is an answer to a request that needs no part of the
/// state: the animations, which get an identifier and are not run, and the
/// update of the settings, which is acknowledged and not applied.
pub open spec fn unlocked_answer(request: McpRequest, reply: Option<ResponseSpec>) -> bool {
    match request {
        McpRequest::AnimationType { file_id, content, speed } => exists|animation_id: Seq<char>|
            reply == Some(
                success_reply(
                    PayloadSpec::Typing {
                        animation_id,
                        characters: content@.len(),
                        speed: typing_speed(speed),
                    },
                ),
            ),
        McpRequest::AnimationCursor { .. } => exists|animation_id: Seq<char>|
            reply == Some(success_reply(PayloadSpec::Cursor { animation_id })),
        McpRequest::SettingsUpdate { .. } => reply == Some(success_reply(PayloadSpec::Updated)),
        _ => reply is None,
    }
}

/// Whether `reply` and `after` are an answer to `request` on the file
/// system `before` and the configuration `config`, and the file system that
/// it leaves.
pub open spec fn answer(
    before: FsSpec,
    config: ConfigSpec,
    request: McpRequest,
    reply: ResponseSpec,
    after: FsSpec,
) -> bool {
    match lock_for(request) {
        LockMode::Shared => Some(reply) == shared_answer(before, request) && after == before,
        LockMode::Exclusive => exclusive_answer(before, request, Some(reply), after),
        LockMode::Settings => Some(reply) == settings_answer(config, request) && after == before,
        LockMode::Unlocked => unlocked_answer(request, Some(reply)) && after == before,
    }
}

/// Answers a request that reads the file system.
pub fn handle_shared(request: &McpRequest, vfs: &VirtualFileSystem) -> (r: Option<McpResponse>)
    ensures
        reply_of(r) == shared_answer(vfs@, *request),
{
    match request {
        McpRequest::FileRead { id } => Some(read_response(vfs.read_file(id.as_str()))),
        McpRequest::DirectoryList { path } => Some(
            listed_response(vfs.list_directory(path.as_str())),
        ),
        _ => None,
    }
}

/// Answers a request that changes the file system.
pub fn handle_exclusive(request: &McpRequest, vfs: &mut VirtualFileSystem) -> (r: Option<
    McpResponse,
>)
    ensures
        exclusive_answer(old(vfs)@, *request, reply_of(r), final(vfs)@),
{
    match request {
        McpRequest::FileCreate { path, content } => {
            let made = vfs.create_file(path.as_str(), content.clone());
            Some(created_response(made))
        },
        McpRequest::FileUpdate { id, content } => {
            let written = vfs.write_file(id.as_str(), content.clone());
            Some(updated_response(written))
        },
        McpRequest::FileDelete { id } => {
            let deleted = vfs.delete_file(id.as_str());
            Some(deleted_response(deleted))
        },
        McpRequest::DirectoryCreate { path } => {
            let made = vfs.create_directory(path.as_str());
            Some(created_response(made))
        },
        _ => None,
    }
}

/// Answers a request for the configuration.
pub fn handle_settings(request: &McpRequest, config: &AppConfig) -> (r: Option<McpResponse>)
    ensures
        reply_of(r) == settings_answer(config@, *request),
{
    match request {
        McpRequest::SettingsGet => Some(settings_response(config)),
        _ => None,
    }
}

/// Answers a request that needs no part of the state.
pub fn handle_unlocked(request: &McpRequest) -> (r: Option<McpResponse>)
    ensures
        unlocked_answer(*request, reply_of(r)),
{
    match request {
        McpRequest::AnimationType { file_id, content, speed } => Some(
            typing_response(fresh_id(), content.as_str(), *speed),
        ),
        McpRequest::AnimationCursor { .. } => Some(cursor_response(fresh_id())),
        McpRequest::SettingsUpdate { .. } => Some(updated_response(Ok(()))),
        _ => None,
    }
}

/// Answers `request` on the shared state. The sessions and the
/// configuration are left as they are.
pub fn handle_mcp_request(request: McpRequest, state: &mut AppState) -> (reply: McpResponse)
    ensures
        answer(old(state).vfs@, old(state).config@, request, reply@, final(state).vfs@),
        final(state).config == old(state).config,
        final(state).sessions == old(state).sessions,
{
    let answered = match lock_mode(&request) {
        LockMode::Shared => handle_shared(&request, &state.vfs),
        LockMode::Exclusive => handle_exclusive(&request, &mut state.vfs),
        LockMode::Settings => handle_settings(&request, &state.config),
        LockMode::Unlocked => handle_unlocked(&request),
    };
    answered.unwrap()
}

/// What a text message brought: a request, or the reason why it could not
/// be decoded.
pub open spec fn message_answer(
    before: FsSpec,
    config: ConfigSpec,
    decoded: Result<McpRequest, String>,
    reply: ResponseSpec,
    after: FsSpec,
) -> bool {
    match decoded {
        Ok(request) => answer(before, config, request, reply, after),
        Err(reason) => reply == undecoded_reply(reason@) && after == before,
    }
}

/// Handles a text message that came in on the session `session_id`: records
/// the activity, then answers the request, or reports that the message
/// could not be decoded. Neither outcome ends the connection.
pub fn handle_message(
    state: &mut AppState,
    session_id: &str,
    decoded: Result<McpRequest, String>,
) -> (reply: McpResponse)
    ensures
        message_answer(old(state).vfs@, old(state).config@, decoded, reply@, final(state).vfs@),
        final(state).config == old(state).config,
        old(state).sessions@.contains_key(session_id@) ==> exists|now: Timestamp|
            final(state).sessions@ == old(state).sessions@.insert(
                session_id@,
                old(state).sessions@[session_id@].touched(now),
            ),
        !old(state).sessions@.contains_key(session_id@) ==> final(state).sessions@ == old(
            state,
        ).sessions@,
{
    state.update_session_activity(session_id);
    match decoded {
        Ok(request) => handle_mcp_request(request, state),
        Err(reason) => undecoded_response(reason.as_str()),
    }
}

} // verus!
