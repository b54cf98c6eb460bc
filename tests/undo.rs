use yex::collections::{map_delete, map_set, map_size};
use yex::doc::{doc_get_or_insert_map, doc_new};
use yex::error::{ErrorKind, SharedKind};
use yex::shared_type::SharedTypeId;
use yex::transaction::{commit_transaction, doc_begin_transaction, NifDoc};
use yex::undo::{
    undo_manager_expand_scope, undo_manager_redo, undo_manager_stop_capturing, undo_manager_undo,
    NifUndoManager,
};
use yrs::undo::Options;
use yrs::{Any, UndoManager};

fn manager(d: &yrs::Doc, name: &str, timeout: u64) -> NifUndoManager {
    let map = d.get_or_insert_map(name);
    let native = UndoManager::with_scope_and_options(
        d,
        &map,
        Options { capture_timeout_millis: timeout, ..Default::default() },
    );
    NifUndoManager::from_native(native, &SharedTypeId::root(SharedKind::YMap, name))
}

#[test]
fn undo_and_redo_a_map_change() {
    let d = doc_new();
    let mut mgr = manager(&d, "m", 500);
    let mut h = NifDoc::new(&d);
    let m = doc_get_or_insert_map(&mut h, None, "m").unwrap();
    map_set(&mut h, None, &m, "k", Any::from_json("1").unwrap()).unwrap();
    assert_eq!(map_size(&h, None, &m).unwrap(), 1);
    assert_eq!(undo_manager_undo(&mut mgr).unwrap(), true);
    assert_eq!(map_size(&h, None, &m).unwrap(), 0);
    assert_eq!(undo_manager_redo(&mut mgr).unwrap(), true);
    assert_eq!(map_size(&h, None, &m).unwrap(), 1);
}

#[test]
fn undo_with_empty_stack_does_nothing() {
    let d = doc_new();
    let mut mgr = manager(&d, "m", 0);
    assert_eq!(undo_manager_undo(&mut mgr).unwrap(), false);
    assert_eq!(undo_manager_redo(&mut mgr).unwrap(), false);
}

#[test]
fn undo_while_a_token_is_open_is_a_conflict() {
    let d = doc_new();
    let mut mgr = manager(&d, "m", 500);
    let mut h = NifDoc::new(&d);
    let m = doc_get_or_insert_map(&mut h, None, "m").unwrap();
    map_set(&mut h, None, &m, "k", Any::from_json("1").unwrap()).unwrap();
    let t = doc_begin_transaction(&mut h, None).unwrap();
    let e = undo_manager_undo(&mut mgr).unwrap_err();
    assert_eq!(e.kind(), ErrorKind::TransactionConflict);
    commit_transaction(&mut h, t);
    assert_eq!(undo_manager_undo(&mut mgr).unwrap(), true);
}

#[test]
fn steps_are_separated_by_stop_capturing() {
    let d = doc_new();
    let mut mgr = manager(&d, "m", 500);
    let mut h = NifDoc::new(&d);
    let m = doc_get_or_insert_map(&mut h, None, "m").unwrap();
    let other = doc_get_or_insert_map(&mut h, None, "other").unwrap();
    undo_manager_expand_scope(&mut mgr, &h, &other).unwrap();
    map_set(&mut h, None, &m, "a", Any::from_json("1").unwrap()).unwrap();
    undo_manager_stop_capturing(&mut mgr);
    map_set(&mut h, None, &other, "b", Any::from_json("2").unwrap()).unwrap();
    assert!(undo_manager_undo(&mut mgr).unwrap());
    assert_eq!(map_size(&h, None, &other).unwrap(), 0);
    assert_eq!(map_size(&h, None, &m).unwrap(), 1);
    map_delete(&mut h, None, &m, "a").unwrap();
}

#[test]
fn missing_scope_is_a_deleted_reference() {
    let d = doc_new();
    let mut mgr = manager(&d, "m", 500);
    let h = NifDoc::new(&d);
    let absent = SharedTypeId::root(SharedKind::YText, "absent");
    let e = undo_manager_expand_scope(&mut mgr, &h, &absent).unwrap_err();
    assert_eq!(e.kind(), ErrorKind::DeletedReference);
}
