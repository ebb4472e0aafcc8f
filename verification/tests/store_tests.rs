use myotel::DataKind;
use myotel::DataValue;
use myotel::SharedStore;
use myotel::StoreMap;

#[test]
fn empty_store_has_no_entries() {
    let store = StoreMap::new();
    assert!(store.get(DataKind::Unsigned32).is_none());
    assert!(store.get(DataKind::Unsigned64).is_none());
    assert!(store.get(DataKind::Signed64).is_none());
    assert!(store.get(DataKind::Flag).is_none());
    assert!(store.get(DataKind::Text).is_none());
}

#[test]
fn distinct_kinds_are_independent() {
    let mut store = StoreMap::new();
    store.insert(DataValue::Unsigned32(7));
    store.insert(DataValue::Text("hello".to_string()));
    match store.get(DataKind::Unsigned32) {
        Some(DataValue::Unsigned32(x)) => assert_eq!(x, 7),
        other => panic!("expected the unsigned value, got {:?}", other),
    }
    match store.get(DataKind::Text) {
        Some(DataValue::Text(s)) => assert_eq!(s, "hello"),
        other => panic!("expected the text value, got {:?}", other),
    }
}

#[test]
fn last_write_wins_per_kind() {
    let mut store = StoreMap::new();
    store.insert(DataValue::Unsigned32(1));
    store.insert(DataValue::Unsigned32(2));
    match store.get(DataKind::Unsigned32) {
        Some(DataValue::Unsigned32(x)) => assert_eq!(x, 2),
        other => panic!("expected the second value, got {:?}", other),
    }
}

#[test]
fn every_kind_round_trips() {
    let mut store = StoreMap::new();
    store.insert(DataValue::Unsigned32(1));
    store.insert(DataValue::Unsigned64(2));
    store.insert(DataValue::Signed64(-3));
    store.insert(DataValue::Flag(true));
    store.insert(DataValue::Text("t".to_string()));
    assert!(matches!(store.get(DataKind::Unsigned32), Some(DataValue::Unsigned32(1))));
    assert!(matches!(store.get(DataKind::Unsigned64), Some(DataValue::Unsigned64(2))));
    assert!(matches!(store.get(DataKind::Signed64), Some(DataValue::Signed64(-3))));
    assert!(matches!(store.get(DataKind::Flag), Some(DataValue::Flag(true))));
    match store.get(DataKind::Text) {
        Some(DataValue::Text(s)) => assert_eq!(s, "t"),
        other => panic!("expected the text value, got {:?}", other),
    }
}

#[test]
fn shared_store_clone_shares_contents() {
    let store = SharedStore::new();
    let other = store.clone();
    store.insert(DataValue::Unsigned64(11));
    match other.get(DataKind::Unsigned64) {
        Some(DataValue::Unsigned64(x)) => assert_eq!(x, 11),
        other => panic!("expected the value through the clone, got {:?}", other),
    }
    other.insert(DataValue::Unsigned64(12));
    match store.get(DataKind::Unsigned64) {
        Some(DataValue::Unsigned64(x)) => assert_eq!(x, 12),
        other => panic!("expected the overwrite through the clone, got {:?}", other),
    }
}

#[test]
fn shared_store_get_missing_kind() {
    let store = SharedStore::new();
    store.insert(DataValue::Flag(false));
    assert!(store.get(DataKind::Text).is_none());
    assert!(matches!(store.get(DataKind::Flag), Some(DataValue::Flag(false))));
}
