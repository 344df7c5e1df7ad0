use abide_vfs::commands::{
    create_file, delete_file, file_info, get_settings, list_directory, read_file, update_settings,
    write_file,
};
use abide_vfs::config::{AnimationPatch, AppConfig, EditorPatch, SettingsPatch, ThemePatch};
use abide_vfs::handlers::{
    create_directory_handler, create_file_handler, delete_file_handler, file_response,
    get_project_handler, get_settings_handler, list_directory_handler, read_file_handler,
    save_project_handler, update_file_handler, update_settings_handler, CreateDirectoryRequest,
    CreateFileRequest, HttpBody, HttpReply,
    UpdateFileRequest, STATUS_BAD_REQUEST, STATUS_CREATED, STATUS_NOT_FOUND, STATUS_NO_CONTENT,
    STATUS_OK,
};
use abide_vfs::vfs::VirtualFileSystem;

fn create(vfs: &mut VirtualFileSystem, path: &str, content: &str) -> HttpReply {
    create_file_handler(
        vfs,
        CreateFileRequest { path: path.to_string(), content: content.to_string() },
    )
}

fn id_in(reply: HttpReply) -> String {
    match reply.body {
        HttpBody::Id { id } => id,
        other => panic!("no identifier: {:?}", other),
    }
}

fn error_in(reply: HttpReply) -> String {
    match reply.body {
        HttpBody::Error { error } => error.error,
        other => panic!("no error: {:?}", other),
    }
}

#[test]
fn status_codes() {
    assert_eq!(
        (STATUS_OK, STATUS_CREATED, STATUS_NO_CONTENT, STATUS_BAD_REQUEST, STATUS_NOT_FOUND),
        (200, 201, 204, 400, 404)
    );
}

#[test]
fn create_file_answers_created_with_the_identifier() {
    let mut vfs = VirtualFileSystem::new();
    let reply = create(&mut vfs, "/a.rs", "fn a() {}");
    assert_eq!(reply.status, 201);
    let id = id_in(reply);
    assert_eq!(vfs.read_file(&id).unwrap().content, "fn a() {}");
}

#[test]
fn create_file_answers_bad_request_with_the_reason() {
    let mut vfs = VirtualFileSystem::new();
    let reply = create(&mut vfs, "/none/a.rs", "");
    assert_eq!(reply.status, 400);
    assert_eq!(error_in(reply), "Not found");
    let reply = create(&mut vfs, "/", "");
    assert_eq!(reply.status, 400);
    assert_eq!(error_in(reply), "Invalid path");
}

#[test]
fn read_file_answers_ok_with_the_file_or_not_found() {
    let mut vfs = VirtualFileSystem::new();
    let id = id_in(create(&mut vfs, "/a.rs", "fn a() {}"));
    let reply = read_file_handler(&vfs, &id);
    assert_eq!(reply.status, 200);
    match reply.body {
        HttpBody::File { file } => {
            assert_eq!(file.id, id);
            assert_eq!(file.name, "a.rs");
            assert_eq!(file.content, "fn a() {}");
            assert_eq!(file.language, Some("rust".to_string()));
        }
        other => panic!("no file: {:?}", other),
    }
    let reply = read_file_handler(&vfs, "nope");
    assert_eq!(reply.status, 404);
    assert_eq!(error_in(reply), "Not found");
}

#[test]
fn update_file_answers_ok_or_bad_request_without_a_body() {
    let mut vfs = VirtualFileSystem::new();
    let id = id_in(create(&mut vfs, "/a.rs", "one"));
    let update = UpdateFileRequest { content: "two".to_string() };
    let reply = update_file_handler(&mut vfs, &id, update);
    assert_eq!(reply.status, 200);
    assert!(matches!(reply.body, HttpBody::Empty));
    assert_eq!(vfs.read_file(&id).unwrap().content, "two");
    let update = UpdateFileRequest { content: "x".to_string() };
    let reply = update_file_handler(&mut vfs, "nope", update);
    assert_eq!(reply.status, 400);
    assert!(matches!(reply.body, HttpBody::Empty));
}

#[test]
fn delete_file_answers_no_content_or_not_found() {
    let mut vfs = VirtualFileSystem::new();
    let id = id_in(create(&mut vfs, "/a.rs", "one"));
    let reply = delete_file_handler(&mut vfs, &id);
    assert_eq!(reply.status, 204);
    assert!(matches!(reply.body, HttpBody::Empty));
    let reply = delete_file_handler(&mut vfs, &id);
    assert_eq!(reply.status, 404);
    assert!(matches!(reply.body, HttpBody::Empty));
}

#[test]
fn create_directory_answers_created_or_bad_request() {
    let mut vfs = VirtualFileSystem::new();
    let reply =
        create_directory_handler(&mut vfs, CreateDirectoryRequest { path: "/d".to_string() });
    assert_eq!(reply.status, 201);
    assert_eq!(id_in(reply).len(), 36);
    let reply =
        create_directory_handler(&mut vfs, CreateDirectoryRequest { path: "/x/d".to_string() });
    assert_eq!(reply.status, 400);
    assert_eq!(error_in(reply), "Not found");
}

#[test]
fn list_directory_takes_the_empty_path_for_the_root() {
    let mut vfs = VirtualFileSystem::new();
    create(&mut vfs, "/a.rs", "");
    for path in ["", "/"] {
        let reply = list_directory_handler(&vfs, path);
        assert_eq!(reply.status, 200);
        match reply.body {
            HttpBody::Nodes { nodes } => assert_eq!(nodes.len(), 1),
            other => panic!("no listing: {:?}", other),
        }
    }
    let reply = list_directory_handler(&vfs, "/none");
    assert_eq!(reply.status, 404);
    assert_eq!(error_in(reply), "Not found");
    let reply = list_directory_handler(&vfs, "/a.rs");
    assert_eq!(reply.status, 404);
    assert_eq!(error_in(reply), "Path is not a directory");
}

#[test]
fn project_and_settings_answers() {
    let reply = get_project_handler();
    assert_eq!(reply.status, 200);
    assert!(matches!(reply.body, HttpBody::Root));
    let reply = get_settings_handler(&AppConfig::default());
    assert_eq!(reply.status, 200);
    match reply.body {
        HttpBody::Settings { config } => assert_eq!(config.theme.mode, "dark"),
        other => panic!("no settings: {:?}", other),
    }
}

#[test]
fn file_response_leaves_out_the_times() {
    let mut vfs = VirtualFileSystem::new();
    let id = id_in(create(&mut vfs, "/a.md", "text"));
    let body = file_response(vfs.read_file(&id).unwrap());
    assert_eq!(body.id, id);
    assert_eq!(body.name, "a.md");
    assert_eq!(body.content, "text");
    assert_eq!(body.language, Some("markdown".to_string()));
}

#[test]
fn commands_carry_out_the_operations() {
    let mut vfs = VirtualFileSystem::new();
    let id = create_file(&mut vfs, "/a.css".to_string(), "a {}".to_string()).unwrap();
    let info = read_file(&vfs, id.clone()).unwrap();
    assert_eq!(info.id, id);
    assert_eq!(info.name, "a.css");
    assert_eq!(info.content, "a {}");
    assert_eq!(info.language, Some("css".to_string()));
    assert_eq!(write_file(&mut vfs, id.clone(), "b {}".to_string()), Ok(()));
    assert_eq!(read_file(&vfs, id.clone()).unwrap().content, "b {}");
    let listing = list_directory(&vfs, "/".to_string()).unwrap();
    assert_eq!(listing.len(), 1);
    assert_eq!(listing[0].name, "a.css");
    assert_eq!(delete_file(&mut vfs, id.clone()), Ok(()));
    assert!(list_directory(&vfs, "/".to_string()).unwrap().is_empty());
}

#[test]
fn commands_fail_with_the_message() {
    let mut vfs = VirtualFileSystem::new();
    assert_eq!(read_file(&vfs, "x".to_string()).unwrap_err(), "Not found");
    assert_eq!(write_file(&mut vfs, "x".to_string(), String::new()), Err("Not found".to_string()));
    assert_eq!(delete_file(&mut vfs, "x".to_string()), Err("Not found".to_string()));
    assert_eq!(
        create_file(&mut vfs, "/".to_string(), String::new()),
        Err("Invalid path".to_string())
    );
    assert_eq!(list_directory(&vfs, "/x".to_string()).unwrap_err(), "Not found");
    create_file(&mut vfs, "/f".to_string(), String::new()).unwrap();
    assert_eq!(list_directory(&vfs, "/f".to_string()).unwrap_err(), "Path is not a directory");
}

#[test]
fn settings_commands() {
    let mut config = AppConfig::default();
    let patch = SettingsPatch {
        theme: ThemePatch {
            mode: None,
            primary_color: Some("#fff".to_string()),
            secondary_color: None,
        },
        editor: EditorPatch {
            font_size: None,
            font_family: None,
            tab_size: Some(8),
            word_wrap: None,
            auto_save: None,
            auto_save_delay: None,
        },
        animation: AnimationPatch {
            typing_speed: None,
            typing_variation: None,
            cursor_blink_rate: None,
            smooth_scrolling: Some(false),
            enable_animations: None,
        },
    };
    assert_eq!(update_settings(&patch, &mut config), Ok(()));
    let seen = get_settings(&config).unwrap();
    assert_eq!(seen.theme.primary_color, "#fff");
    assert_eq!(seen.theme.mode, "dark");
    assert_eq!(seen.editor.tab_size, 8);
    assert!(!seen.animation.smooth_scrolling);
}

#[test]
fn stubs_answer_ok_without_a_body() {
    let reply = save_project_handler();
    assert_eq!(reply.status, 200);
    assert!(matches!(reply.body, HttpBody::Empty));
    let reply = update_settings_handler();
    assert_eq!(reply.status, 200);
    assert!(matches!(reply.body, HttpBody::Empty));
}

#[test]
fn file_info_shows_all_but_the_times() {
    let mut vfs = VirtualFileSystem::new();
    let id = create_file(&mut vfs, "/a.json".to_string(), "{}".to_string()).unwrap();
    let info = file_info(vfs.read_file(&id).unwrap());
    assert_eq!(info.id, id);
    assert_eq!(info.name, "a.json");
    assert_eq!(info.content, "{}");
    assert_eq!(info.language, Some("json".to_string()));
}
