use yex::collections::{array_length, array_to_json, map_delete, map_set, map_size, map_to_json};
use yex::doc::{
    apply_update, doc_get_or_insert_array, doc_get_or_insert_map, doc_new, doc_with_options,
    encode_state_as_update_v1, encode_state_as_update_v2, encode_state_vector_v1,
    encode_state_vector_v2, NifOffsetKind, NifOptions,
};
use yex::error::{Error, ErrorKind};
use yex::layout::v2_layout_ok;
use yex::transaction::{commit_transaction, doc_begin_transaction, NifDoc};
use yrs::updates::decoder::Decode;
use yrs::{Any, Array, Transact, Update};

fn any(json: &str) -> Any {
    Any::from_json(json).unwrap()
}

fn fill_array_123(d: &yrs::Doc) {
    let arr = d.get_or_insert_array("a");
    let mut txn = d.transact_mut();
    arr.insert_range(&mut txn, 0, vec![any("1"), any("2"), any("3")]);
}

#[test]
fn update_v1_scenario_copies_array() {
    let d1 = doc_new();
    let mut h1 = NifDoc::new(&d1);
    let a1 = doc_get_or_insert_array(&mut h1, None, "a").unwrap();
    fill_array_123(&d1);
    assert_eq!(array_length(&h1, None, &a1).unwrap(), 3);
    let update = encode_state_as_update_v1(&h1, None, None).unwrap();
    let d2 = doc_new();
    let mut h2 = NifDoc::new(&d2);
    apply_update(&mut h2, None, Update::decode_v1(&update).unwrap()).unwrap();
    let a2 = doc_get_or_insert_array(&mut h2, None, "a").unwrap();
    assert_eq!(array_length(&h2, None, &a2).unwrap(), 3);
    assert_eq!(array_to_json(&h2, None, &a2).unwrap(), any("[1,2,3]"));
}

#[test]
fn update_v2_round_trip_copies_content() {
    let d1 = doc_new();
    fill_array_123(&d1);
    let mut h1 = NifDoc::new(&d1);
    let m1 = doc_get_or_insert_map(&mut h1, None, "m").unwrap();
    map_set(&mut h1, None, &m1, "x", any("\"y\"")).unwrap();
    let update = encode_state_as_update_v2(&h1, None, None).unwrap();
    let d2 = doc_new();
    let mut h2 = NifDoc::new(&d2);
    apply_update(&mut h2, None, Update::decode_v2(&update).unwrap()).unwrap();
    let a = doc_get_or_insert_array(&mut h2, None, "a").unwrap();
    let m = doc_get_or_insert_map(&mut h2, None, "m").unwrap();
    assert_eq!(array_to_json(&h2, None, &a).unwrap(), array_to_json(&h1, None, &a).unwrap());
    assert_eq!(map_to_json(&h2, None, &m).unwrap(), map_to_json(&h1, None, &m1).unwrap());
}

#[test]
fn update_against_state_vector_completes_peer() {
    let d1 = doc_new();
    fill_array_123(&d1);
    let h1 = NifDoc::new(&d1);
    let d2 = doc_new();
    let mut h2 = NifDoc::new(&d2);
    let sv = encode_state_vector_v1(&h2, None).unwrap();
    let diff = encode_state_as_update_v1(&h1, None, Some(&sv)).unwrap();
    apply_update(&mut h2, None, Update::decode_v1(&diff).unwrap()).unwrap();
    let a = doc_get_or_insert_array(&mut h2, None, "a").unwrap();
    assert_eq!(array_to_json(&h2, None, &a).unwrap(), any("[1,2,3]"));
}

#[test]
fn state_vector_v2_of_a_peer_gives_its_missing_part() {
    let d1 = doc_new();
    fill_array_123(&d1);
    let h1 = NifDoc::new(&d1);
    let d2 = doc_new();
    let mut h2 = NifDoc::new(&d2);
    let sv = encode_state_vector_v2(&h2, None).unwrap();
    let diff = encode_state_as_update_v2(&h1, None, Some(&sv)).unwrap();
    apply_update(&mut h2, None, Update::decode_v2(&diff).unwrap()).unwrap();
    let a = doc_get_or_insert_array(&mut h2, None, "a").unwrap();
    assert_eq!(array_to_json(&h2, None, &a).unwrap(), any("[1,2,3]"));
}

#[test]
fn applying_an_update_twice_changes_nothing() {
    let d1 = doc_new();
    fill_array_123(&d1);
    let h1 = NifDoc::new(&d1);
    let update = encode_state_as_update_v1(&h1, None, None).unwrap();
    let d_once = doc_new();
    let mut once = NifDoc::new(&d_once);
    apply_update(&mut once, None, Update::decode_v1(&update).unwrap()).unwrap();
    let d_twice = doc_new();
    let mut twice = NifDoc::new(&d_twice);
    apply_update(&mut twice, None, Update::decode_v1(&update).unwrap()).unwrap();
    apply_update(&mut twice, None, Update::decode_v1(&update).unwrap()).unwrap();
    let a = doc_get_or_insert_array(&mut once, None, "a").unwrap();
    assert_eq!(array_to_json(&twice, None, &a).unwrap(), array_to_json(&once, None, &a).unwrap());
    assert_eq!(array_length(&twice, None, &a).unwrap(), 3);
    assert_eq!(
        encode_state_vector_v1(&twice, None).unwrap(),
        encode_state_vector_v1(&once, None).unwrap()
    );
}

#[test]
fn malformed_state_vectors_are_refused() {
    let d = doc_new();
    let h = NifDoc::new(&d);
    let e = encode_state_as_update_v1(&h, None, Some(&[0x80])).unwrap_err();
    assert!(matches!(e, Error::Encoding(_)));
    assert_eq!(e.kind(), ErrorKind::DecodingError);
    let e = encode_state_as_update_v1(&h, None, Some(&[0xff, 0xff, 0xff, 0xff, 0x0f])).unwrap_err();
    assert!(matches!(e, Error::MalformedPayload));
    let e = encode_state_as_update_v2(&h, None, Some(&[0xff, 0xff])).unwrap_err();
    assert!(matches!(e, Error::MalformedPayload));
}

#[test]
fn second_begin_while_open_is_a_conflict() {
    let d = doc_new();
    let mut h = NifDoc::new(&d);
    let t = doc_begin_transaction(&mut h, None).unwrap();
    assert!(h.is_live(t));
    let e = doc_begin_transaction(&mut h, Some(&b"other"[..])).unwrap_err();
    assert_eq!(e.kind(), ErrorKind::TransactionConflict);
    assert!(e.is_retryable());
    assert!(h.is_live(t));
    commit_transaction(&mut h, t);
    assert!(!h.is_live(t));
    let again = doc_begin_transaction(&mut h, None).unwrap();
    assert_ne!(again, t);
    commit_transaction(&mut h, again);
}

#[test]
fn commit_is_idempotent() {
    let d = doc_new();
    let mut h = NifDoc::new(&d);
    let t = doc_begin_transaction(&mut h, None).unwrap();
    commit_transaction(&mut h, t);
    commit_transaction(&mut h, t);
    assert!(!h.is_live(t));
}

#[test]
fn reads_through_token_see_pending_writes() {
    let d = doc_new();
    let mut h = NifDoc::new(&d);
    let m = doc_get_or_insert_map(&mut h, None, "m").unwrap();
    let t = doc_begin_transaction(&mut h, None).unwrap();
    map_set(&mut h, Some(t), &m, "x", any("1")).unwrap();
    assert_eq!(map_to_json(&h, Some(t), &m).unwrap(), any("{\"x\":1}"));
    let unrelated = map_to_json(&h, None, &m).unwrap_err();
    assert_eq!(unrelated.kind(), ErrorKind::TransactionConflict);
    let write_elsewhere = map_set(&mut h, None, &m, "y", any("2")).unwrap_err();
    assert_eq!(write_elsewhere.kind(), ErrorKind::TransactionConflict);
    assert!(h.is_live(t));
    commit_transaction(&mut h, t);
    assert_eq!(map_to_json(&h, None, &m).unwrap(), any("{\"x\":1}"));
}

#[test]
fn committed_token_falls_back_to_own_transaction() {
    let d = doc_new();
    let mut h = NifDoc::new(&d);
    let m = doc_get_or_insert_map(&mut h, None, "m").unwrap();
    let t = doc_begin_transaction(&mut h, None).unwrap();
    commit_transaction(&mut h, t);
    map_set(&mut h, Some(t), &m, "k", any("true")).unwrap();
    assert_eq!(map_size(&h, Some(t), &m).unwrap(), 1);
    map_delete(&mut h, Some(t), &m, "k").unwrap();
    assert_eq!(map_size(&h, None, &m).unwrap(), 0);
}

#[test]
fn root_creation_inside_token_and_conflict_outside() {
    let d = doc_new();
    let mut h = NifDoc::new(&d);
    let t = doc_begin_transaction(&mut h, None).unwrap();
    let e = doc_get_or_insert_array(&mut h, None, "a").unwrap_err();
    assert_eq!(e.kind(), ErrorKind::TransactionConflict);
    let a = doc_get_or_insert_array(&mut h, Some(t), "a").unwrap();
    assert_eq!(array_length(&h, Some(t), &a).unwrap(), 0);
    commit_transaction(&mut h, t);
}

#[test]
fn update_applied_inside_token() {
    let src = doc_new();
    fill_array_123(&src);
    let update = encode_state_as_update_v1(&NifDoc::new(&src), None, None).unwrap();
    let d = doc_new();
    let mut h = NifDoc::new(&d);
    let a = doc_get_or_insert_array(&mut h, None, "a").unwrap();
    let t = doc_begin_transaction(&mut h, Some(&b"remote"[..])).unwrap();
    apply_update(&mut h, Some(t), Update::decode_v1(&update).unwrap()).unwrap();
    assert_eq!(array_length(&h, Some(t), &a).unwrap(), 3);
    assert!(h.is_live(t));
    commit_transaction(&mut h, t);
    assert_eq!(array_length(&h, None, &a).unwrap(), 3);
}

#[test]
fn options_are_passed_to_the_document() {
    let d = doc_with_options(NifOptions {
        client_id: 77,
        guid: Some("doc-guid".to_string()),
        collection_id: None,
        offset_kind: NifOffsetKind::Utf16,
        skip_gc: true,
        auto_load: false,
        should_load: true,
    });
    assert_eq!(d.client_id(), 77);
    assert_eq!(d.guid().as_ref(), "doc-guid");
    assert!(d.skip_gc());
}

#[test]
fn v2_layout_check() {
    assert!(v2_layout_ok(&[]));
    assert!(v2_layout_ok(&[0, 0, 0, 0, 0, 0, 0, 0, 0, 0]));
    assert!(!v2_layout_ok(&[0, 0x80]));
    assert!(v2_layout_ok(&[0, 5]));
    assert!(!v2_layout_ok(&[0, 0, 0, 0, 0, 0, 3, 2, 0xff, 0xfe, 0, 0, 0]));
    assert!(v2_layout_ok(&[0, 0, 0, 0, 0, 0, 3, 2, b'o', b'k', 0, 0, 0]));
    let d = doc_new();
    fill_array_123(&d);
    let update = encode_state_as_update_v2(&NifDoc::new(&d), None, None).unwrap();
    assert!(v2_layout_ok(&update));
}

#[test]
fn array_handle_on_a_map_does_not_resolve() {
    let d = doc_new();
    let mut h = NifDoc::new(&d);
    let _ = doc_get_or_insert_map(&mut h, None, "x").unwrap();
    let as_array = yex::shared_type::SharedTypeId::root(yex::error::SharedKind::YArray, "x");
    let e = array_to_json(&h, None, &as_array).unwrap_err();
    assert_eq!(e.kind(), ErrorKind::DeletedReference);
}
