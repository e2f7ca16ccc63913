use clepsydra::table::IdTable;

fn id(s: &str) -> String {
    s.to_string()
}

#[test]
fn empty_table_has_nothing() {
    let t: IdTable<i32> = IdTable::new();
    assert_eq!(t.len(), 0);
    assert!(t.get(&id("KD1")).is_none());
    assert_eq!(t.get_or(&id("KD1"), 7), 7);
}

#[test]
fn insert_then_get_reads_back() {
    let mut t: IdTable<i32> = IdTable::new();
    t.insert(id("KD1"), 10);
    t.insert(id("KD2"), 20);
    assert_eq!(t.get(&id("KD1")), Some(&10));
    assert_eq!(t.get(&id("KD2")), Some(&20));
    assert_eq!(t.get(&id("KD3")), None);
    assert_eq!(t.len(), 2);
}

#[test]
fn insert_replaces_and_keeps_order() {
    let mut t: IdTable<f64> = IdTable::new();
    t.insert(id("KD1"), 1.5);
    t.insert(id("KD2"), 2.5);
    t.insert(id("KD1"), 3.5);
    assert_eq!(t.len(), 2);
    assert_eq!(t.get_or(&id("KD1"), 0.0), 3.5);
    assert_eq!(t.get_or(&id("KD2"), 0.0), 2.5);
    assert_eq!(t.get_or(&id("KD9"), 0.0), 0.0);
    assert_eq!(t.id_at(0), "KD1");
    assert_eq!(t.id_at(1), "KD2");
    assert_eq!(*t.value_at(0), 3.5);
    assert_eq!(*t.value_at(1), 2.5);
}

#[test]
fn values_for_ids_follow_the_keys() {
    let mut configs: IdTable<&str> = IdTable::new();
    configs.insert(id("KD1"), "a");
    configs.insert(id("KD2"), "b");
    configs.insert(id("KD3"), "c");
    let mut errors: IdTable<f64> = IdTable::new();
    errors.insert(id("KD3"), 4.0);
    errors.insert(id("KD1"), -2.0);
    errors.insert(id("KD9"), 9.0);
    assert_eq!(clepsydra::table::values_for_ids(&configs, &errors, 0.0), vec![-2.0, 0.0, 4.0]);
}

#[test]
fn ids_list_each_key_once() {
    let mut t: IdTable<u8> = IdTable::new();
    for (k, v) in [("KD2", 1), ("KD1", 2), ("KD2", 3), ("KD3", 4), ("KD1", 5)] {
        t.insert(id(k), v);
    }
    let ids: Vec<String> = (0..t.len()).map(|i| t.id_at(i).clone()).collect();
    assert_eq!(ids, vec![id("KD2"), id("KD1"), id("KD3")]);
    let values: Vec<u8> = (0..t.len()).map(|i| *t.value_at(i)).collect();
    assert_eq!(values, vec![3, 5, 4]);
}

#[test]
fn values_follow_the_ids() {
    let mut t: IdTable<String> = IdTable::new();
    t.insert(id("KD3"), id("c"));
    t.insert(id("KD1"), id("a"));
    t.insert(id("KD3"), id("z"));
    assert_eq!(t.values(), vec![id("z"), id("a")]);
    let empty: IdTable<String> = IdTable::new();
    assert!(empty.values().is_empty());
}
