use telegram_bot_api_proxy::config::Config;
use telegram_bot_api_proxy::handlers::{handle_serve_file, ServeEvent, ServeState};
use telegram_bot_api_proxy::route::{dispatch, Route};

fn settings_in_data() -> Config {
    Config::new(
        b"/data".to_vec(),
        "http://upstream:8081",
        "warn".to_string(),
        "localhost".to_string(),
        3000,
    )
    .unwrap()
}

fn asked_for(path: &[u8]) -> ServeState {
    match dispatch(b"GET", path) {
        Route::ServeFile { bot_id, file_path } => handle_serve_file(
            &settings_in_data(),
            ServeState::Idle,
            ServeEvent::Requested { bot_id, file_path },
        ),
        other => panic!("not a file request: {:?}", other),
    }
}

#[test]
fn an_existing_file_below_the_root_is_streamed() {
    let config = settings_in_data();
    let state = asked_for(b"/file/botABC/photos/1.jpg");
    assert_eq!(state, ServeState::Resolving { path: b"/data/botABC/photos/1.jpg".to_vec() });
    let state = handle_serve_file(
        &config,
        state,
        ServeEvent::Resolved { path: Some(b"/data/botABC/photos/1.jpg".to_vec()) },
    );
    assert_eq!(state, ServeState::Opening { path: b"/data/botABC/photos/1.jpg".to_vec() });
    let state = handle_serve_file(&config, state, ServeEvent::Opened { ok: true });
    assert_eq!(state, ServeState::Inspecting { path: b"/data/botABC/photos/1.jpg".to_vec() });
    let state = handle_serve_file(&config, state, ServeEvent::Inspected { is_directory: Some(false) });
    assert_eq!(state, ServeState::Streaming { path: b"/data/botABC/photos/1.jpg".to_vec() });
}

#[test]
fn a_traversal_out_of_the_root_is_not_found() {
    let config = settings_in_data();
    let state = asked_for(b"/file/botABC/../../etc/passwd");
    assert_eq!(state, ServeState::Resolving { path: b"/data/botABC/../../etc/passwd".to_vec() });
    let state = handle_serve_file(
        &config,
        state,
        ServeEvent::Resolved { path: Some(b"/etc/passwd".to_vec()) },
    );
    assert_eq!(state, ServeState::NotFound);
}

#[test]
fn an_escaped_traversal_is_not_found() {
    let config = settings_in_data();
    let state = asked_for(b"/file/botABC/%2e%2e/%2E%2E/etc/passwd");
    assert_eq!(state, ServeState::Resolving { path: b"/data/botABC/../../etc/passwd".to_vec() });
    let state = handle_serve_file(
        &config,
        state,
        ServeEvent::Resolved { path: Some(b"/etc/passwd".to_vec()) },
    );
    assert_eq!(state, ServeState::NotFound);
}

#[test]
fn a_link_that_leaves_the_root_is_not_found() {
    let config = settings_in_data();
    let state = asked_for(b"/file/botABC/link/secret");
    let state = handle_serve_file(
        &config,
        state,
        ServeEvent::Resolved { path: Some(b"/home/user/secret".to_vec()) },
    );
    assert_eq!(state, ServeState::NotFound);
    let state = handle_serve_file(&config, state, ServeEvent::Opened { ok: true });
    assert_eq!(state, ServeState::NotFound);
    let state = handle_serve_file(&config, state, ServeEvent::Inspected { is_directory: Some(false) });
    assert_eq!(state, ServeState::NotFound);
}

#[test]
fn a_sibling_of_the_root_is_not_found() {
    let config = settings_in_data();
    let state = asked_for(b"/file/botABC/../../database/x");
    let state = handle_serve_file(
        &config,
        state,
        ServeEvent::Resolved { path: Some(b"/database/x".to_vec()) },
    );
    assert_eq!(state, ServeState::NotFound);
}

#[test]
fn an_absolute_rest_takes_the_place_of_the_root() {
    let state = asked_for(b"/file/botABC//etc/passwd");
    assert_eq!(state, ServeState::Resolving { path: b"/etc/passwd".to_vec() });
}

#[test]
fn a_path_that_does_not_resolve_is_not_found() {
    let config = settings_in_data();
    let state = asked_for(b"/file/botABC/missing.jpg");
    let state = handle_serve_file(&config, state, ServeEvent::Resolved { path: None });
    assert_eq!(state, ServeState::NotFound);
}

#[test]
fn a_file_that_does_not_open_is_not_found() {
    let config = settings_in_data();
    let state = asked_for(b"/file/botABC/photos");
    let state = handle_serve_file(
        &config,
        state,
        ServeEvent::Resolved { path: Some(b"/data/botABC/photos".to_vec()) },
    );
    let state = handle_serve_file(&config, state, ServeEvent::Opened { ok: false });
    assert_eq!(state, ServeState::NotFound);
}

#[test]
fn a_file_without_metadata_is_not_found() {
    let config = settings_in_data();
    let state = asked_for(b"/file/botABC/1.jpg");
    let state = handle_serve_file(
        &config,
        state,
        ServeEvent::Resolved { path: Some(b"/data/botABC/1.jpg".to_vec()) },
    );
    let state = handle_serve_file(&config, state, ServeEvent::Opened { ok: true });
    let state = handle_serve_file(&config, state, ServeEvent::Inspected { is_directory: None });
    assert_eq!(state, ServeState::NotFound);
}

#[test]
fn a_directory_is_not_found() {
    let config = settings_in_data();
    let state = asked_for(b"/file/botABC/photos");
    let state = handle_serve_file(
        &config,
        state,
        ServeEvent::Resolved { path: Some(b"/data/botABC/photos".to_vec()) },
    );
    let state = handle_serve_file(&config, state, ServeEvent::Opened { ok: true });
    let state =
        handle_serve_file(&config, state, ServeEvent::Inspected { is_directory: Some(true) });
    assert_eq!(state, ServeState::NotFound);
}

#[test]
fn the_root_itself_is_not_served() {
    let config = settings_in_data();
    let state = asked_for(b"/file/botABC/..");
    assert_eq!(state, ServeState::Resolving { path: b"/data/botABC/..".to_vec() });
    let state =
        handle_serve_file(&config, state, ServeEvent::Resolved { path: Some(b"/data".to_vec()) });
    assert_eq!(state, ServeState::Opening { path: b"/data".to_vec() });
    let state = handle_serve_file(&config, state, ServeEvent::Opened { ok: true });
    let state =
        handle_serve_file(&config, state, ServeEvent::Inspected { is_directory: Some(true) });
    assert_eq!(state, ServeState::NotFound);
}

#[test]
fn an_event_out_of_turn_is_not_found() {
    let config = settings_in_data();
    assert_eq!(
        handle_serve_file(&config, ServeState::Idle, ServeEvent::Opened { ok: true }),
        ServeState::NotFound
    );
    assert_eq!(
        handle_serve_file(
            &config,
            ServeState::Idle,
            ServeEvent::Resolved { path: Some(b"/data/x".to_vec()) }
        ),
        ServeState::NotFound
    );
    let state = asked_for(b"/file/botABC/1.jpg");
    assert_eq!(
        handle_serve_file(&config, state.clone(), ServeEvent::Opened { ok: true }),
        ServeState::NotFound
    );
    assert_eq!(
        handle_serve_file(&config, state, ServeEvent::Inspected { is_directory: Some(false) }),
        ServeState::NotFound
    );
    assert_eq!(
        handle_serve_file(
            &config,
            ServeState::Opening { path: b"/data/x".to_vec() },
            ServeEvent::Inspected { is_directory: Some(false) }
        ),
        ServeState::NotFound
    );
}

#[test]
fn an_answer_stays() {
    let config = settings_in_data();
    let streaming = ServeState::Streaming { path: b"/data/x".to_vec() };
    assert_eq!(
        handle_serve_file(&config, streaming.clone(), ServeEvent::Opened { ok: false }),
        streaming
    );
    assert_eq!(
        handle_serve_file(&config, streaming.clone(), ServeEvent::Resolved { path: None }),
        streaming
    );
    assert_eq!(
        handle_serve_file(
            &config,
            ServeState::NotFound,
            ServeEvent::Requested { bot_id: b"botABC".to_vec(), file_path: b"1.jpg".to_vec() }
        ),
        ServeState::NotFound
    );
}

#[test]
fn the_answer_is_ok_or_not_found() {
    assert_eq!(ServeState::Streaming { path: b"/data/x".to_vec() }.status(), Some(200));
    assert_eq!(ServeState::NotFound.status(), Some(404));
    assert_eq!(ServeState::Idle.status(), None);
    assert_eq!(ServeState::Resolving { path: b"/data/x".to_vec() }.status(), None);
    assert_eq!(ServeState::Opening { path: b"/data/x".to_vec() }.status(), None);
    assert_eq!(ServeState::Inspecting { path: b"/data/x".to_vec() }.status(), None);
}
