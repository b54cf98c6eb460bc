use yex::event::{EventBridge, EventKind};
use yex::undo_observer::{generate_event_id, undo_event, EventIdGenerator, NifUndoOptions};
use yex::wrap::{NifWrap, SliceIntoBinary};

#[test]
fn n_events_give_n_ordered_messages_then_none() {
    let mut bridge = EventBridge::new(EventKind::Observe, 11);
    let mut got = Vec::new();
    for i in 0..5u32 {
        let m = bridge.dispatch(i, Some(b"origin".to_vec())).unwrap();
        assert_eq!(m.kind, EventKind::Observe);
        assert_eq!(m.correlation, 11);
        got.push((m.sequence, m.payload));
    }
    assert_eq!(got, vec![(0, 0), (1, 1), (2, 2), (3, 3), (4, 4)]);
    bridge.unsubscribe();
    assert!(!bridge.is_subscribed());
    assert!(bridge.dispatch(5u32, None).is_none());
    bridge.unsubscribe();
    assert!(bridge.dispatch(6u32, None).is_none());
    assert_eq!(bridge.sent(), 5);
}

#[test]
fn origin_is_carried_unchanged() {
    let mut bridge = EventBridge::new(EventKind::UpdateV1, 1);
    let m = bridge.dispatch((), None).unwrap();
    assert_eq!(m.origin, None);
    let m = bridge.dispatch((), Some(vec![1, 2])).unwrap();
    assert_eq!(m.origin, Some(vec![1, 2]));
    assert_eq!(m.sequence, 1);
}

#[test]
fn event_ids_start_at_one_and_increase() {
    let mut ids = EventIdGenerator::new();
    assert_eq!(generate_event_id(&mut ids), 1);
    assert_eq!(generate_event_id(&mut ids), 2);
    let e = undo_event(&mut ids, Some("me".to_string()));
    assert_eq!(e.id, 3);
    assert_eq!(e.origin, Some("me".to_string()));
    assert!(e.changed_types.is_empty());
}

#[test]
fn default_undo_options() {
    assert_eq!(NifUndoOptions::default_options().capture_timeout, 500);
}

#[test]
fn wrappers_hand_back_their_contents() {
    let bytes = [1u8, 2, 3];
    assert_eq!(SliceIntoBinary::new(&bytes).as_slice(), &[1, 2, 3]);
    assert_eq!(*NifWrap::new(9).get(), 9);
}
