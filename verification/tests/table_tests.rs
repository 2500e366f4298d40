use bones::table::KeyTable;

#[test]
fn put_get_remove() {
    let mut t: KeyTable<u32> = KeyTable::new();
    assert!(t.is_empty());
    t.put(5, 50);
    t.put(7, 70);
    t.put(5, 55);
    assert_eq!(t.get(5), Some(55));
    assert_eq!(t.get(7), Some(70));
    assert_eq!(t.get(9), None);
    assert!(t.contains(7));
    let mut keys = t.keys();
    keys.sort();
    assert_eq!(keys, vec![5, 7]);
    assert_eq!(t.remove(5), Some(55));
    assert_eq!(t.remove(5), None);
    assert!(!t.is_empty());
    let drained = t.drain();
    assert_eq!(drained, vec![(7, 70)]);
    assert!(t.is_empty());
}
