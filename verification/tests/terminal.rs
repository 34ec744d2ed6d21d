use terminal_manager::error::TerminalError;
use terminal_manager::table::SessionTable;
use terminal_manager::terminal::{TerminalManager, TerminalSession};

fn session(tag: u32) -> TerminalSession<Vec<u8>, u32> {
    TerminalSession { writer: Vec::new(), reader_handle: tag }
}

fn type_into(manager: &mut TerminalManager<Vec<u8>, u32>, id: &str, data: &str) -> Result<(), TerminalError> {
    let (input, bytes) = manager.write_to_shell(id, data)?;
    input.extend_from_slice(bytes);
    Ok(())
}

fn typed(manager: &mut TerminalManager<Vec<u8>, u32>, id: &str) -> Vec<u8> {
    let (input, _) = manager.write_to_shell(id, "").unwrap();
    input.clone()
}

#[test]
fn new_manager_has_no_sessions() {
    let manager: TerminalManager<Vec<u8>, u32> = TerminalManager::new();
    assert_eq!(manager.session_count(), 0);
    assert!(!manager.has_session("main"));
    assert!(!manager.has_session(""));
}

#[test]
fn spawn_shell_registers_the_session() {
    let mut manager = TerminalManager::new();
    assert_eq!(manager.spawn_shell("main".to_string(), Ok(session(1))), Ok(()));
    assert!(manager.has_session("main"));
    assert!(!manager.has_session("Main"));
    assert_eq!(manager.session_count(), 1);
}

#[test]
fn failed_spawn_registers_nothing() {
    let mut manager: TerminalManager<Vec<u8>, u32> = TerminalManager::new();
    let failure = TerminalError::PtyAllocation("out of ptys".to_string());
    assert_eq!(
        manager.spawn_shell("main".to_string(), Err(failure)),
        Err(TerminalError::PtyAllocation("out of ptys".to_string()))
    );
    assert!(!manager.has_session("main"));
    assert_eq!(manager.session_count(), 0);
    assert_eq!(
        manager.spawn_shell("main".to_string(), Err(TerminalError::SpawnFailure("no shell".to_string()))),
        Err(TerminalError::SpawnFailure("no shell".to_string()))
    );
    assert_eq!(manager.session_count(), 0);
}

#[test]
fn failed_spawn_keeps_the_session_that_was_there() {
    let mut manager = TerminalManager::new();
    manager.spawn_shell("main".to_string(), Ok(session(1))).unwrap();
    type_into(&mut manager, "main", "kept").unwrap();
    let failure = TerminalError::SpawnFailure("no shell".to_string());
    assert!(manager.spawn_shell("main".to_string(), Err(failure)).is_err());
    assert_eq!(manager.session_count(), 1);
    assert_eq!(typed(&mut manager, "main"), b"kept".to_vec());
}

#[test]
fn write_after_create_reaches_the_new_session() {
    let mut manager = TerminalManager::new();
    manager.spawn_shell("main".to_string(), Ok(session(1))).unwrap();
    assert_eq!(type_into(&mut manager, "main", "echo hi\n"), Ok(()));
    assert_eq!(typed(&mut manager, "main"), b"echo hi\n".to_vec());
}

#[test]
fn write_hands_out_the_utf8_bytes_of_the_data() {
    let mut manager = TerminalManager::new();
    manager.spawn_shell("main".to_string(), Ok(session(1))).unwrap();
    let (_, bytes) = manager.write_to_shell("main", "h\u{e9}\u{20ac}").unwrap();
    assert_eq!(bytes, &[0x68, 0xc3, 0xa9, 0xe2, 0x82, 0xac]);
    let (_, none) = manager.write_to_shell("main", "").unwrap();
    assert!(none.is_empty());
}

#[test]
fn write_hands_out_the_registered_writer() {
    let mut manager: TerminalManager<Vec<u8>, u32> = TerminalManager::new();
    let record = TerminalSession { writer: vec![1, 2, 3], reader_handle: 9 };
    manager.spawn_shell("main".to_string(), Ok(record)).unwrap();
    let (input, _) = manager.write_to_shell("main", "x").unwrap();
    assert_eq!(*input, vec![1, 2, 3]);
}

#[test]
fn writes_to_one_session_arrive_in_order() {
    let mut manager = TerminalManager::new();
    manager.spawn_shell("main".to_string(), Ok(session(1))).unwrap();
    for word in ["one ", "two ", "three"] {
        type_into(&mut manager, "main", word).unwrap();
    }
    assert_eq!(typed(&mut manager, "main"), b"one two three".to_vec());
}

#[test]
fn writes_go_to_the_session_they_name() {
    let mut manager = TerminalManager::new();
    manager.spawn_shell("left".to_string(), Ok(session(1))).unwrap();
    manager.spawn_shell("right".to_string(), Ok(session(2))).unwrap();
    type_into(&mut manager, "left", "l").unwrap();
    type_into(&mut manager, "right", "r").unwrap();
    type_into(&mut manager, "left", "L").unwrap();
    assert_eq!(typed(&mut manager, "left"), b"lL".to_vec());
    assert_eq!(typed(&mut manager, "right"), b"r".to_vec());
    assert_eq!(manager.session_count(), 2);
}

#[test]
fn write_to_unknown_session_is_not_found() {
    let mut manager: TerminalManager<Vec<u8>, u32> = TerminalManager::new();
    assert_eq!(type_into(&mut manager, "ghost", "x"), Err(TerminalError::SessionNotFound));
    manager.spawn_shell("main".to_string(), Ok(session(1))).unwrap();
    assert_eq!(type_into(&mut manager, "ghost", "x"), Err(TerminalError::SessionNotFound));
    assert_eq!(type_into(&mut manager, "", "x"), Err(TerminalError::SessionNotFound));
    assert_eq!(typed(&mut manager, "main"), Vec::<u8>::new());
}

#[test]
fn write_after_close_is_not_found() {
    let mut manager = TerminalManager::new();
    manager.spawn_shell("main".to_string(), Ok(session(1))).unwrap();
    assert_eq!(manager.close_session("main"), Ok(()));
    assert_eq!(type_into(&mut manager, "main", "x"), Err(TerminalError::SessionNotFound));
}

#[test]
fn second_create_replaces_the_first() {
    let mut manager = TerminalManager::new();
    manager.spawn_shell("main".to_string(), Ok(session(1))).unwrap();
    type_into(&mut manager, "main", "to the first").unwrap();
    manager.spawn_shell("main".to_string(), Ok(session(2))).unwrap();
    assert_eq!(manager.session_count(), 1);
    assert_eq!(typed(&mut manager, "main"), Vec::<u8>::new());
    type_into(&mut manager, "main", "to the second").unwrap();
    assert_eq!(typed(&mut manager, "main"), b"to the second".to_vec());
    assert_eq!(manager.close_session("main"), Ok(()));
    assert!(!manager.has_session("main"));
    assert_eq!(manager.session_count(), 0);
}

#[test]
fn close_removes_only_the_named_session() {
    let mut manager = TerminalManager::new();
    manager.spawn_shell("a".to_string(), Ok(session(1))).unwrap();
    manager.spawn_shell("b".to_string(), Ok(session(2))).unwrap();
    manager.spawn_shell("c".to_string(), Ok(session(3))).unwrap();
    type_into(&mut manager, "c", "see").unwrap();
    assert_eq!(manager.close_session("a"), Ok(()));
    assert!(!manager.has_session("a"));
    assert!(manager.has_session("b"));
    assert!(manager.has_session("c"));
    assert_eq!(manager.session_count(), 2);
    assert_eq!(typed(&mut manager, "c"), b"see".to_vec());
}

#[test]
fn close_of_unknown_session_succeeds() {
    let mut manager: TerminalManager<Vec<u8>, u32> = TerminalManager::new();
    assert_eq!(manager.close_session("ghost"), Ok(()));
    manager.spawn_shell("main".to_string(), Ok(session(1))).unwrap();
    assert_eq!(manager.close_session("ghost"), Ok(()));
    assert_eq!(manager.session_count(), 1);
    assert_eq!(manager.close_session("main"), Ok(()));
    assert_eq!(manager.close_session("main"), Ok(()));
    assert_eq!(manager.session_count(), 0);
}

#[test]
fn resize_always_succeeds() {
    let mut manager: TerminalManager<Vec<u8>, u32> = TerminalManager::new();
    assert_eq!(manager.resize("ghost", 80, 24), Ok(()));
    assert_eq!(manager.resize("", 0, 0), Ok(()));
    manager.spawn_shell("main".to_string(), Ok(session(1))).unwrap();
    assert_eq!(manager.resize("main", 120, 40), Ok(()));
    assert_eq!(manager.resize("main", u16::MAX, u16::MAX), Ok(()));
    manager.close_session("main").unwrap();
    assert_eq!(manager.resize("main", 80, 24), Ok(()));
    assert_eq!(manager.session_count(), 0);
}

#[test]
fn table_insert_hands_back_the_displaced_record() {
    let mut table: SessionTable<u32> = SessionTable::new();
    assert_eq!(table.len(), 0);
    assert_eq!(table.insert("a".to_string(), 1), None);
    assert_eq!(table.insert("b".to_string(), 2), None);
    assert_eq!(table.insert("a".to_string(), 3), Some(1));
    assert_eq!(table.len(), 2);
    assert!(table.contains_key("a"));
    assert!(table.contains_key("b"));
    assert!(!table.contains_key("c"));
    assert_eq!(table.get_mut("a"), Some(&mut 3));
    assert_eq!(table.get_mut("b"), Some(&mut 2));
    assert_eq!(table.get_mut("c"), None);
}

#[test]
fn table_remove_hands_back_the_record() {
    let mut table: SessionTable<u32> = SessionTable::new();
    table.insert("a".to_string(), 1);
    table.insert("b".to_string(), 2);
    table.insert("c".to_string(), 3);
    assert_eq!(table.remove("b"), Some(2));
    assert_eq!(table.remove("b"), None);
    assert_eq!(table.len(), 2);
    assert_eq!(table.get_mut("a"), Some(&mut 1));
    assert_eq!(table.get_mut("c"), Some(&mut 3));
    assert_eq!(table.remove("a"), Some(1));
    assert_eq!(table.remove("c"), Some(3));
    assert_eq!(table.len(), 0);
}

#[test]
fn table_get_mut_changes_the_record_in_place() {
    let mut table: SessionTable<Vec<u8>> = SessionTable::new();
    table.insert("a".to_string(), Vec::new());
    table.insert("b".to_string(), Vec::new());
    table.get_mut("a").unwrap().push(7);
    table.get_mut("a").unwrap().push(8);
    assert_eq!(table.get_mut("a"), Some(&mut vec![7, 8]));
    assert_eq!(table.get_mut("b"), Some(&mut Vec::new()));
}
