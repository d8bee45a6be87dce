use file_test::paths::{config_path, config_path_in};
use file_test::session::{
    get_last_file, greet, open_file, read_last_file, reset_last_file, save_file, AppState,
};
use file_test::store::{load_config, load_mcp_list, save_mcp_list};
use serde_json::Value;
use std::path::PathBuf;

#[test]
fn new_session_remembers_nothing() {
    let state = AppState::default();
    assert_eq!(state.last_file_path, None);
}

#[test]
fn greeting_names_the_guest() {
    assert_eq!(greet("Ada"), "Hello, Ada! You've been greeted from Rust!");
    assert_eq!(greet(""), "Hello, ! You've been greeted from Rust!");
}

#[test]
fn open_file_remembers_and_persists() {
    let mut state = AppState::default();
    let (reply, write) = open_file(
        "/docs/a.md".to_string(),
        &mut state,
        Ok("content of a".to_string()),
        Some("{\"mcp_list\":[1,2]}"),
    );
    assert_eq!(reply, Ok("content of a".to_string()));
    assert_eq!(state.last_file_path, Some("/docs/a.md".to_string()));
    assert_eq!(
        write,
        Some("{\"last_file_path\":\"/docs/a.md\",\"mcp_list\":[1,2]}".to_string())
    );
}

#[test]
fn open_file_failure_changes_nothing() {
    let mut state = AppState { last_file_path: Some("/docs/old.md".to_string()) };
    let (reply, write) = open_file(
        "/docs/missing.md".to_string(),
        &mut state,
        Err("No such file or directory (os error 2)".to_string()),
        None,
    );
    assert_eq!(
        reply,
        Err("Failed to read file: No such file or directory (os error 2)".to_string())
    );
    assert_eq!(write, None);
    assert_eq!(state.last_file_path, Some("/docs/old.md".to_string()));
}

#[test]
fn save_file_replies() {
    assert_eq!(save_file(Ok(())), Ok(()));
    assert_eq!(
        save_file(Err("Permission denied (os error 13)".to_string())),
        Err("Failed to save file: Permission denied (os error 13)".to_string())
    );
}

#[test]
fn get_last_file_prefers_the_session() {
    let mut state = AppState::default();
    let (_, write) = open_file("/docs/a.md".to_string(), &mut state, Ok(String::new()), None);
    assert!(write.is_some());
    let altered = "{\"last_file_path\":\"/elsewhere/b.md\",\"mcp_list\":null}";
    assert_eq!(get_last_file(&mut state, Some(altered)), Some("/docs/a.md".to_string()));
    assert_eq!(get_last_file(&mut state, None), Some("/docs/a.md".to_string()));
    assert_eq!(get_last_file(&mut state, Some("garbage")), Some("/docs/a.md".to_string()));
}

#[test]
fn get_last_file_seeds_the_session_from_the_file() {
    let mut state = AppState::default();
    let stored = "{\"last_file_path\":\"/docs/kept.md\"}";
    assert_eq!(get_last_file(&mut state, Some(stored)), Some("/docs/kept.md".to_string()));
    assert_eq!(state.last_file_path, Some("/docs/kept.md".to_string()));
    assert_eq!(get_last_file(&mut state, None), Some("/docs/kept.md".to_string()));
}

#[test]
fn get_last_file_without_any_record() {
    let mut state = AppState::default();
    assert_eq!(get_last_file(&mut state, None), None);
    assert_eq!(state.last_file_path, None);
    assert_eq!(get_last_file(&mut state, Some("{\"unexpected\":1}")), None);
    assert_eq!(state.last_file_path, None);
}

#[test]
fn read_last_file_replies() {
    assert_eq!(read_last_file(None), Err("No previous file".to_string()));
    assert_eq!(read_last_file(Some(Ok("body".to_string()))), Ok("body".to_string()));
    assert_eq!(
        read_last_file(Some(Err("gone".to_string()))),
        Err("Failed to read file: gone".to_string())
    );
}

#[test]
fn reset_after_open_forgets_everywhere() {
    let mut state = AppState::default();
    let before = save_mcp_list(None, Value::String("kept".to_string()));
    let (_, write) =
        open_file("/docs/a.md".to_string(), &mut state, Ok("x".to_string()), Some(&before));
    let opened = write.unwrap();
    assert_eq!(load_config(Some(&opened)), Some("/docs/a.md".to_string()));
    let cleared = reset_last_file(&mut state, Some(&opened));
    assert_eq!(state.last_file_path, None);
    assert_eq!(cleared, "{\"last_file_path\":null,\"mcp_list\":\"kept\"}");
    assert_eq!(load_config(Some(&cleared)), None);
    assert_eq!(load_mcp_list(Some(&cleared)), Some(Value::String("kept".to_string())));
    assert_eq!(get_last_file(&mut state, Some(&cleared)), None);
    let mut later = AppState::default();
    assert_eq!(get_last_file(&mut later, Some(&cleared)), None);
}

#[test]
fn reset_without_a_file_writes_the_default() {
    let mut state = AppState { last_file_path: Some("a".to_string()) };
    assert_eq!(reset_last_file(&mut state, None), "{\"last_file_path\":null,\"mcp_list\":null}");
    assert_eq!(state.last_file_path, None);
}

#[test]
fn a_later_process_finds_the_opened_file() {
    let mut state = AppState::default();
    let (_, write) = open_file("/docs/a.md".to_string(), &mut state, Ok("x".to_string()), None);
    let mut later = AppState::default();
    assert_eq!(get_last_file(&mut later, write.as_deref()), Some("/docs/a.md".to_string()));
}

#[test]
fn config_path_lies_under_the_data_directory() {
    assert_eq!(config_path_in(None), None);
    let mut expected = PathBuf::from("data");
    expected.push("file-test");
    expected.push("config.json");
    assert_eq!(config_path_in(Some(PathBuf::from("data"))), Some(expected.clone()));
    assert_ne!(config_path_in(Some(PathBuf::from("data"))), Some(PathBuf::from("data")));
    assert_eq!(expected.file_name().unwrap().to_str(), Some("config.json"));
    assert_eq!(expected.parent().unwrap().file_name().unwrap().to_str(), Some("file-test"));
}

#[test]
fn config_path_of_this_user() {
    if let Some(path) = config_path() {
        assert!(path.ends_with("file-test/config.json"));
    }
}
