use holochain_runtime::codec::{decode_index, encode_index};
use holochain_runtime::index::InstalledAppsIndex;

#[test]
fn encode_decode_round_trip_preserves_every_record() {
    let mut index = InstalledAppsIndex::new();
    index.record_install(String::from("forum"), 0xdeadbeef);
    index.record_install(String::from("notebook"), 7);
    index.record_install(String::from("kanban"), u64::MAX);

    let bytes = encode_index(&index);
    let decoded = decode_index(&bytes).expect("an encoded index must decode");
    assert_eq!(decoded.get(&String::from("forum")), Some(0xdeadbeef));
    assert_eq!(decoded.get(&String::from("notebook")), Some(7));
    assert_eq!(decoded.get(&String::from("kanban")), Some(u64::MAX));
    assert_eq!(decoded.get(&String::from("absent")), None);
}

#[test]
fn empty_index_round_trips() {
    let index = InstalledAppsIndex::new();
    let bytes = encode_index(&index);
    assert_eq!(bytes.len(), 8);
    let decoded = decode_index(&bytes).expect("the empty index must decode");
    assert_eq!(decoded.get(&String::from("anything")), None);
}

#[test]
fn overwritten_record_survives_the_round_trip() {
    let mut index = InstalledAppsIndex::new();
    index.record_install(String::from("app"), 1);
    index.record_install(String::from("app"), 2);
    let bytes = encode_index(&index);
    let decoded = decode_index(&bytes).unwrap();
    assert_eq!(decoded.get(&String::from("app")), Some(2));
}

#[test]
fn truncated_file_is_rejected() {
    let mut index = InstalledAppsIndex::new();
    index.record_install(String::from("app"), 1);
    let mut bytes = encode_index(&index);
    bytes.pop();
    assert!(decode_index(&bytes).is_none());
}

#[test]
fn trailing_garbage_is_rejected() {
    let mut index = InstalledAppsIndex::new();
    index.record_install(String::from("app"), 1);
    let mut bytes = encode_index(&index);
    bytes.push(0);
    assert!(decode_index(&bytes).is_none());
}

#[test]
fn short_header_is_rejected() {
    assert!(decode_index(&vec![1, 2, 3]).is_none());
}

#[test]
fn absurd_count_is_rejected() {
    // A count with no records behind it must not be believed.
    let bytes = vec![0xff; 8];
    assert!(decode_index(&bytes).is_none());
}
