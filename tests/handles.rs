use yex::collections::{array_length, map_delete};
use yex::doc::{doc_get_or_insert_map, doc_get_or_insert_text, doc_new};
use yex::error::{Error, ErrorKind, SharedKind};
use yex::shared_type::{get_ref, BranchIdent, SharedTypeId};
use yex::transaction::{commit_transaction, doc_begin_transaction, NifDoc};
use yrs::branch::BranchPtr;
use yrs::{ArrayPrelim, ArrayRef, BranchID, Hook, SharedRef, Transact};

fn nested_array(d: &yrs::Doc) -> Hook<ArrayRef> {
    let m = d.get_or_insert_map("m");
    let mut txn = d.transact_mut();
    let nested = yrs::Map::insert(&m, &mut txn, "k", ArrayPrelim::default());
    nested.hook()
}

fn handle_of(hook: &Hook<ArrayRef>) -> SharedTypeId {
    match hook.id() {
        BranchID::Nested(id) => SharedTypeId::nested(SharedKind::YArray, id.client, id.clock),
        BranchID::Root(name) => SharedTypeId::root(SharedKind::YArray, name),
    }
}

#[test]
fn deleted_branch_resolves_to_deleted_reference_after_round_trip() {
    let d = doc_new();
    let hook = nested_array(&d);
    let mut h = NifDoc::new(&d);
    let map = doc_get_or_insert_map(&mut h, None, "m").unwrap();
    let handle = handle_of(&hook);
    assert!(get_ref(&h, None, &handle).is_ok());
    let bytes = flexbuffers::to_vec(Hook::<BranchPtr>::from(hook.id().clone())).unwrap();
    map_delete(&mut h, None, &map, "k").unwrap();
    let back = flexbuffers::from_slice::<Hook<BranchPtr>>(&bytes).unwrap();
    let decoded = handle_of(&Hook::<ArrayRef>::from(back.id().clone()));
    assert_eq!(decoded, handle);
    let e = get_ref(&h, None, &decoded).unwrap_err();
    assert!(matches!(e, Error::Deleted(SharedKind::YArray)));
    assert_eq!(e.kind(), ErrorKind::DeletedReference);
    let e = array_length(&h, None, &decoded).unwrap_err();
    assert_eq!(e.kind(), ErrorKind::DeletedReference);
}

#[test]
fn root_handle_resolves() {
    let d = doc_new();
    let mut h = NifDoc::new(&d);
    let t = doc_get_or_insert_text(&mut h, None, "notes").unwrap();
    assert_eq!(t.branch, BranchIdent::Root("notes".to_string()));
    assert!(get_ref(&h, None, &t).is_ok());
}

#[test]
fn missing_root_does_not_resolve() {
    let d = doc_new();
    let h = NifDoc::new(&d);
    let m = SharedTypeId::root(SharedKind::YMap, "never-created");
    assert!(matches!(get_ref(&h, None, &m), Err(Error::Deleted(SharedKind::YMap))));
}

#[test]
fn resolution_without_the_open_token_is_a_conflict() {
    let d = doc_new();
    let mut h = NifDoc::new(&d);
    let m = doc_get_or_insert_map(&mut h, None, "m").unwrap();
    let t = doc_begin_transaction(&mut h, None).unwrap();
    assert_eq!(get_ref(&h, None, &m).unwrap_err().kind(), ErrorKind::TransactionConflict);
    assert!(get_ref(&h, Some(t), &m).is_ok());
    commit_transaction(&mut h, t);
}
