use abide_vfs::config::{AnimationPatch, EditorPatch, SettingsPatch, ThemePatch};
use abide_vfs::dispatch::{
    handle_exclusive, handle_mcp_request, handle_message, handle_settings, handle_shared,
    handle_unlocked,
};
use abide_vfs::error::VfsError;
use abide_vfs::protocol::{
    created_response, cursor_response, deleted_response, error_response, listed_response,
    lock_mode, read_response, typing_response, undecoded_response, updated_response, welcome,
    LockMode, McpRequest, McpResponse, Payload, Position,
};
use abide_vfs::state::AppState;
use abide_vfs::vfs::VirtualFileSystem;

fn patch() -> SettingsPatch {
    SettingsPatch {
        theme: ThemePatch {
            mode: Some("light".to_string()),
            primary_color: None,
            secondary_color: None,
        },
        editor: EditorPatch {
            font_size: None,
            font_family: None,
            tab_size: None,
            word_wrap: None,
            auto_save: None,
            auto_save_delay: None,
        },
        animation: AnimationPatch {
            typing_speed: None,
            typing_variation: None,
            cursor_blink_rate: None,
            smooth_scrolling: None,
            enable_animations: None,
        },
    }
}

fn all_requests() -> Vec<McpRequest> {
    let origin = Position { line: 0, column: 0 };
    vec![
        McpRequest::FileCreate { path: "/a".to_string(), content: String::new() },
        McpRequest::FileRead { id: "x".to_string() },
        McpRequest::FileUpdate { id: "x".to_string(), content: String::new() },
        McpRequest::FileDelete { id: "x".to_string() },
        McpRequest::DirectoryCreate { path: "/d".to_string() },
        McpRequest::DirectoryList { path: "/".to_string() },
        McpRequest::AnimationType {
            file_id: "x".to_string(),
            content: "abc".to_string(),
            speed: None,
        },
        McpRequest::AnimationCursor { from: origin, to: origin, duration: 1 },
        McpRequest::SettingsGet,
        McpRequest::SettingsUpdate { settings: patch() },
    ]
}

fn success(reply: McpResponse) -> Payload {
    match reply {
        McpResponse::Success { data } => data,
        other => panic!("no success: {:?}", other),
    }
}

fn error(reply: McpResponse) -> String {
    match reply {
        McpResponse::Error { message } => message,
        other => panic!("no error: {:?}", other),
    }
}

fn id_of(reply: McpResponse) -> String {
    match success(reply) {
        Payload::Id { id } => id,
        other => panic!("no identifier: {:?}", other),
    }
}

#[test]
fn lock_modes() {
    let modes: Vec<LockMode> = all_requests().iter().map(lock_mode).collect();
    assert_eq!(
        modes,
        vec![
            LockMode::Exclusive,
            LockMode::Shared,
            LockMode::Exclusive,
            LockMode::Exclusive,
            LockMode::Exclusive,
            LockMode::Shared,
            LockMode::Unlocked,
            LockMode::Unlocked,
            LockMode::Settings,
            LockMode::Unlocked,
        ]
    );
}

#[test]
fn each_handler_answers_the_requests_of_its_lock_mode_only() {
    for request in all_requests() {
        let mode = lock_mode(&request);
        let mut vfs = VirtualFileSystem::new();
        let config = abide_vfs::config::AppConfig::default();
        assert_eq!(handle_shared(&request, &vfs).is_some(), mode == LockMode::Shared);
        assert_eq!(handle_exclusive(&request, &mut vfs).is_some(), mode == LockMode::Exclusive);
        assert_eq!(handle_settings(&request, &config).is_some(), mode == LockMode::Settings);
        assert_eq!(handle_unlocked(&request).is_some(), mode == LockMode::Unlocked);
    }
}

#[test]
fn file_requests_round_trip() {
    let mut state = AppState::new(VirtualFileSystem::new());
    let made = handle_mcp_request(
        McpRequest::DirectoryCreate { path: "/proj".to_string() },
        &mut state,
    );
    assert_eq!(id_of(made).len(), 36);
    let created = handle_mcp_request(
        McpRequest::FileCreate { path: "/proj/a.py".to_string(), content: "print(1)".to_string() },
        &mut state,
    );
    let id = id_of(created);
    match success(handle_mcp_request(McpRequest::FileRead { id: id.clone() }, &mut state)) {
        Payload::File { file } => {
            assert_eq!(file.id, id);
            assert_eq!(file.name, "a.py");
            assert_eq!(file.content, "print(1)");
            assert_eq!(file.language, Some("python".to_string()));
        }
        other => panic!("no file: {:?}", other),
    }
    match success(handle_mcp_request(
        McpRequest::DirectoryList { path: "/proj".to_string() },
        &mut state,
    )) {
        Payload::Nodes { nodes } => {
            assert_eq!(nodes.len(), 1);
            assert_eq!(nodes[0].name, "a.py");
            assert_eq!(nodes[0].file_id, Some(id.clone()));
        }
        other => panic!("no listing: {:?}", other),
    }
    let updated = handle_mcp_request(
        McpRequest::FileUpdate { id: id.clone(), content: "print(2)".to_string() },
        &mut state,
    );
    assert!(matches!(success(updated), Payload::Updated));
    assert_eq!(state.vfs.read_file(&id).unwrap().content, "print(2)");
    let deleted = handle_mcp_request(McpRequest::FileDelete { id: id.clone() }, &mut state);
    assert!(matches!(success(deleted), Payload::Deleted));
    assert_eq!(state.vfs.read_file(&id).unwrap_err(), VfsError::NotFound);
    assert!(state.vfs.list_directory("/proj").unwrap().is_empty());
}

#[test]
fn failures_become_error_responses_and_change_nothing() {
    let mut state = AppState::new(VirtualFileSystem::new());
    let cases = vec![
        (McpRequest::FileCreate { path: "/".to_string(), content: String::new() }, "Invalid path"),
        (
            McpRequest::FileCreate { path: "/no/a".to_string(), content: String::new() },
            "Not found",
        ),
        (McpRequest::FileRead { id: "x".to_string() }, "Not found"),
        (McpRequest::FileUpdate { id: "x".to_string(), content: String::new() }, "Not found"),
        (McpRequest::FileDelete { id: "x".to_string() }, "Not found"),
        (McpRequest::DirectoryCreate { path: "".to_string() }, "Invalid path"),
        (McpRequest::DirectoryList { path: "/none".to_string() }, "Not found"),
    ];
    for (request, message) in cases {
        assert_eq!(error(handle_mcp_request(request, &mut state)), message);
    }
    assert!(state.vfs.list_directory("/").unwrap().is_empty());
    state.vfs.create_file("/a.txt", String::new()).unwrap();
    let listed =
        handle_mcp_request(McpRequest::DirectoryList { path: "/a.txt".to_string() }, &mut state);
    assert_eq!(error(listed), "Path is not a directory");
}

#[test]
fn settings_get_returns_the_whole_configuration() {
    let mut state = AppState::new(VirtualFileSystem::new());
    state.config.theme.mode = "light".to_string();
    match success(handle_mcp_request(McpRequest::SettingsGet, &mut state)) {
        Payload::Settings { config } => {
            assert_eq!(config.theme.mode, "light");
            assert_eq!(config.editor.font_size, 14);
            assert_eq!(config.api.port, 3030);
        }
        other => panic!("no settings: {:?}", other),
    }
}

#[test]
fn settings_update_is_acknowledged_and_not_applied() {
    let mut state = AppState::new(VirtualFileSystem::new());
    let reply = handle_mcp_request(McpRequest::SettingsUpdate { settings: patch() }, &mut state);
    assert!(matches!(success(reply), Payload::Updated));
    assert_eq!(state.config.theme.mode, "dark");
}

#[test]
fn typing_animation_reports_characters_and_speed() {
    let mut state = AppState::new(VirtualFileSystem::new());
    let request = McpRequest::AnimationType {
        file_id: "f".to_string(),
        content: "h\u{e9}llo w\u{f6}rld".to_string(),
        speed: None,
    };
    match success(handle_mcp_request(request, &mut state)) {
        Payload::Typing { animation_id, characters, speed } => {
            assert_eq!(animation_id.len(), 36);
            assert_eq!(characters, 11);
            assert_eq!(f32::from_bits(speed), 80.0);
        }
        other => panic!("no animation: {:?}", other),
    }
    let request = McpRequest::AnimationType {
        file_id: "f".to_string(),
        content: String::new(),
        speed: Some(12.5f32.to_bits()),
    };
    match success(handle_mcp_request(request, &mut state)) {
        Payload::Typing { characters, speed, .. } => {
            assert_eq!(characters, 0);
            assert_eq!(f32::from_bits(speed), 12.5);
        }
        other => panic!("no animation: {:?}", other),
    }
    assert!(state.vfs.list_directory("/").unwrap().is_empty());
}

#[test]
fn cursor_animation_gets_an_identifier() {
    let mut state = AppState::new(VirtualFileSystem::new());
    let request = McpRequest::AnimationCursor {
        from: Position { line: 1, column: 2 },
        to: Position { line: 3, column: 4 },
        duration: 250,
    };
    match success(handle_mcp_request(request, &mut state)) {
        Payload::Cursor { animation_id } => assert_eq!(animation_id.len(), 36),
        other => panic!("no animation: {:?}", other),
    }
}

#[test]
fn text_message_touches_the_session_and_is_answered() {
    let mut state = AppState::new(VirtualFileSystem::new());
    let session = state.create_session();
    let reply = handle_message(
        &mut state,
        &session,
        Ok(McpRequest::FileCreate { path: "/a.txt".to_string(), content: "a".to_string() }),
    );
    let id = id_of(reply);
    assert_eq!(state.vfs.read_file(&id).unwrap().content, "a");
    let seen = state.sessions.get(&session).unwrap();
    assert!(!seen.last_activity.is_before(&seen.connected_at));
}

#[test]
fn undecoded_message_is_reported_and_changes_nothing() {
    let mut state = AppState::new(VirtualFileSystem::new());
    let session = state.create_session();
    let reply = handle_message(&mut state, &session, Err("missing field `type`".to_string()));
    assert_eq!(error(reply), "Invalid request format: missing field `type`");
    assert!(state.vfs.list_directory("/").unwrap().is_empty());
    assert!(state.sessions.contains(&session));
}

#[test]
fn message_on_an_unknown_session_is_still_answered() {
    let mut state = AppState::new(VirtualFileSystem::new());
    let reply = handle_message(&mut state, "gone", Ok(McpRequest::SettingsGet));
    assert!(matches!(success(reply), Payload::Settings { .. }));
    assert!(!state.sessions.contains("gone"));
}

#[test]
fn welcome_event_announces_the_session() {
    match welcome("s-1") {
        McpResponse::Event { event, data: Payload::Connected { session_id, version } } => {
            assert_eq!(event, "connected");
            assert_eq!(session_id, "s-1");
            assert_eq!(version, "1.0.0");
        }
        other => panic!("no event: {:?}", other),
    }
}

#[test]
fn reply_builders() {
    assert_eq!(id_of(created_response(Ok("f".to_string()))), "f");
    assert_eq!(error(created_response(Err(VfsError::InvalidPath))), "Invalid path");
    assert_eq!(error(read_response(Err(VfsError::NotFound))), "Not found");
    assert_eq!(error(listed_response(Err(VfsError::NotADirectory))), "Path is not a directory");
    assert!(matches!(
        success(listed_response(Ok(vec![]))),
        Payload::Nodes { nodes } if nodes.is_empty()
    ));
    assert!(matches!(success(updated_response(Ok(()))), Payload::Updated));
    assert_eq!(error(updated_response(Err(VfsError::NotFound))), "Not found");
    assert!(matches!(success(deleted_response(Ok(()))), Payload::Deleted));
    assert_eq!(error(deleted_response(Err(VfsError::NotFound))), "Not found");
    assert_eq!(error(error_response(VfsError::NotFound)), "Not found");
    assert_eq!(error(undecoded_response("eof")), "Invalid request format: eof");
    assert!(matches!(
        success(typing_response("a".to_string(), "xyz", Some(7))),
        Payload::Typing { characters: 3, speed: 7, .. }
    ));
    assert!(matches!(
        success(cursor_response("a".to_string())),
        Payload::Cursor { animation_id } if animation_id == "a"
    ));
}
