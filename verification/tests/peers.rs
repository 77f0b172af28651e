use dora_gst_webrtc_sink::peers::PeerTable;

fn ids(table: &PeerTable<u32>) -> Vec<String> {
    (0..table.len()).map(|i| table.entry(i).0.clone()).collect()
}

#[test]
fn empty_table_has_no_peers() {
    let table: PeerTable<u32> = PeerTable::new();
    assert_eq!(table.len(), 0);
    assert!(!table.contains("a"));
    assert!(table.get("a").is_none());
}

#[test]
fn inserted_peer_is_found() {
    let mut table = PeerTable::new();
    assert_eq!(table.insert("a".to_string(), 1u32), None);
    assert_eq!(table.insert("b".to_string(), 2u32), None);
    assert_eq!(table.get("a"), Some(&1));
    assert_eq!(table.get("b"), Some(&2));
    assert!(table.contains("b"));
    assert_eq!(table.len(), 2);
}

#[test]
fn inserting_known_id_replaces_in_place() {
    let mut table = PeerTable::new();
    table.insert("a".to_string(), 1u32);
    table.insert("b".to_string(), 2u32);
    assert_eq!(table.insert("a".to_string(), 10u32), Some(1));
    assert_eq!(table.len(), 2);
    assert_eq!(ids(&table), vec!["a".to_string(), "b".to_string()]);
    assert_eq!(table.get("a"), Some(&10));
}

#[test]
fn removing_keeps_order_of_others() {
    let mut table = PeerTable::new();
    for (i, id) in ["a", "b", "c", "d"].iter().enumerate() {
        table.insert(id.to_string(), i as u32);
    }
    assert_eq!(table.remove("b"), Some(1));
    assert_eq!(ids(&table), vec!["a".to_string(), "c".to_string(), "d".to_string()]);
    assert_eq!(table.remove("b"), None);
    assert_eq!(table.len(), 3);
    assert_eq!(table.entry(1), (&"c".to_string(), &2));
}

#[test]
fn ids_are_compared_exactly() {
    let mut table = PeerTable::new();
    table.insert("Peer".to_string(), 1u32);
    assert!(!table.contains("peer"));
    assert!(!table.contains("Peer "));
    assert!(table.contains("Peer"));
}
