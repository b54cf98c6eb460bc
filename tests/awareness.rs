use yex::layout::awareness_update_ok;
use yex::awareness::{
    awareness_apply_update_v1, awareness_client_id, awareness_encode_update_v1,
    awareness_get_client_ids, awareness_get_local_state, awareness_get_states, awareness_new,
    awareness_remove_states, awareness_set_local_state, parsed_states, present_clients,
};
use yex::doc::{doc_with_options, NifOffsetKind, NifOptions};
use yex::error::{Error, ErrorKind};
use yrs::Any;

fn doc(client_id: u64) -> yrs::Doc {
    doc_with_options(NifOptions {
        client_id,
        guid: None,
        collection_id: None,
        offset_kind: NifOffsetKind::Bytes,
        skip_gc: false,
        auto_load: false,
        should_load: true,
    })
}

#[test]
fn present_clients_keeps_those_with_a_state() {
    let states = vec![(1, Some("{}".to_string())), (2, None), (3, Some("x".to_string()))];
    assert_eq!(present_clients(&states), vec![1, 3]);
    assert_eq!(present_clients(&vec![]), Vec::<u64>::new());
}

#[test]
fn parsed_states_drop_unreadable_json() {
    let states = vec![
        (1, Some("{\"a\":1}".to_string())),
        (2, None),
        (3, Some("not json".to_string())),
        (4, Some("true".to_string())),
    ];
    let parsed = parsed_states(&states);
    assert_eq!(parsed.len(), 2);
    assert_eq!(parsed[0].0, 1);
    assert_eq!(parsed[0].1, Any::from_json("{\"a\":1}").unwrap());
    assert_eq!(parsed[1], (4, Any::Bool(true)));
}

#[test]
fn local_state_is_shared_through_an_update() {
    let a = awareness_new(&doc(10));
    let b = awareness_new(&doc(20));
    assert_eq!(awareness_client_id(&a), 10);
    let state = Any::from_json("{\"name\":\"ann\"}").unwrap();
    awareness_set_local_state(&a, state.clone()).unwrap();
    assert_eq!(awareness_get_local_state(&a), Some(state.clone()));
    assert_eq!(awareness_get_client_ids(&a), vec![10]);
    let update = awareness_encode_update_v1(&a, None).unwrap();
    awareness_apply_update_v1(&b, &update, Some(&b"peer"[..])).unwrap();
    let mut ids = awareness_get_client_ids(&b);
    ids.sort();
    assert_eq!(ids, vec![10]);
    assert_eq!(awareness_get_states(&b), vec![(10, state)]);
    awareness_remove_states(&b, &vec![10]);
    assert!(awareness_get_client_ids(&b).is_empty());
}

#[test]
fn update_for_unknown_client_fails() {
    let a = awareness_new(&doc(1));
    let e = awareness_encode_update_v1(&a, Some(vec![999])).unwrap_err();
    assert!(matches!(e, Error::Awareness(_)));
}

#[test]
fn malformed_awareness_update_is_a_decoding_error() {
    let a = awareness_new(&doc(1));
    let e = awareness_apply_update_v1(&a, &[0xff, 0xff], None).unwrap_err();
    assert!(matches!(e, Error::Encoding(_)));
    assert_eq!(e.kind(), ErrorKind::DecodingError);
}

#[test]
fn awareness_update_with_bad_text_or_count_is_refused() {
    let a = awareness_new(&doc(1));
    let e = awareness_apply_update_v1(&a, &[1, 1, 1, 2, 0xff, 0xfe], None).unwrap_err();
    assert!(matches!(e, Error::MalformedPayload));
    let e = awareness_apply_update_v1(&a, &[0xff, 0xff, 0x03], None).unwrap_err();
    assert!(matches!(e, Error::MalformedPayload));
    assert_eq!(e.kind(), ErrorKind::DecodingError);
}

#[test]
fn awareness_layout_check() {
    assert!(awareness_update_ok(&[]));
    assert!(awareness_update_ok(&[1, 7, 1, 2, b'{', b'}']));
    assert!(!awareness_update_ok(&[1, 7, 1, 2, 0xc3, 0x28]));
    assert!(awareness_update_ok(&[2, 7, 1, 2, b'{', b'}', 8]));
    assert!(!awareness_update_ok(&[9, 0]));
}
