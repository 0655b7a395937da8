use ozy::structs::OptionVec;

#[test]
fn insert_fills_first_empty_slot() {
    let mut v: OptionVec<&str> = OptionVec::new();
    assert_eq!(v.insert("a"), 0);
    assert_eq!(v.insert("b"), 1);
    assert_eq!(v.insert("c"), 2);
    assert_eq!(v.delete(1), Some("b"));
    assert_eq!(v.count(), 2);
    assert_eq!(v.len(), 3);
    assert_eq!(v.insert("d"), 1);
    assert_eq!(v.insert("e"), 3);
    assert_eq!(v.count(), 4);
}

#[test]
fn delete_empty_slot_gives_none() {
    let mut v: OptionVec<u32> = OptionVec::with_capacity(4);
    v.insert(7);
    assert_eq!(v.delete(0), Some(7));
    assert_eq!(v.delete(0), None);
    assert_eq!(v.count(), 0);
    assert_eq!(v.len(), 1);
}

#[test]
fn replace_only_occupied_slots() {
    let mut v: OptionVec<u32> = OptionVec::new();
    v.insert(1);
    v.insert(2);
    v.replace(0, 10);
    v.delete(1);
    v.replace(1, 20);
    assert_eq!(v.as_slice(), &[Some(10), None]);
    assert_eq!(v.get_element(0), Some(&10));
    assert_eq!(v.get_element(1), None);
}

#[test]
fn clear_and_iterate() {
    let mut v: OptionVec<u32> = OptionVec::new();
    v.insert(5);
    v.insert(6);
    v.delete(0);
    let seen: Vec<Option<u32>> = v.iter().cloned().collect();
    assert_eq!(seen, vec![None, Some(6)]);
    v.clear();
    assert_eq!(v.len(), 0);
    assert_eq!(v.count(), 0);
}

#[test]
fn index_and_get_read_slots() {
    let mut v: OptionVec<u32> = OptionVec::new();
    v.insert(4);
    v.insert(9);
    v.delete(0);
    assert_eq!(v[0], None);
    assert_eq!(v[1], Some(9));
    assert_eq!(v.get(1), &Some(9));
}
