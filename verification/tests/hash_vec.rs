use il_runtime::hash_vec::HashVec;

#[test]
fn keeps_values_in_the_order_of_their_keys() {
    let mut hv: HashVec<String, u32> = HashVec::new();
    assert!(hv.is_empty());
    hv.insert(String::from("b"), 2);
    hv.insert(String::from("a"), 1);
    hv.insert(String::from("c"), 3);
    assert_eq!(hv.len(), 3);
    assert!(!hv.is_empty());
    assert_eq!(hv.vec(), &vec![2, 1, 3]);
    assert_eq!(hv.key_get_index(&String::from("a")), Some(1));
    assert_eq!(hv.key_get(&String::from("c")), Some(&3));
    assert_eq!(hv.index_get(0), Some(&2));
    assert_eq!(hv.index_get(3), None);
    assert!(hv.contains(&String::from("b")));
    assert!(!hv.contains(&String::from("d")));
    assert_eq!(hv.key_get(&String::from("d")), None);
    assert_eq!(hv.key_get_index(&String::from("")), None);
}

#[test]
fn a_key_that_is_there_keeps_its_place() {
    let mut hv: HashVec<String, &str> = HashVec::new();
    hv.insert(String::from("x"), "first");
    hv.insert(String::from("y"), "second");
    hv.insert(String::from("x"), "third");
    assert_eq!(hv.len(), 2);
    assert_eq!(hv.vec(), &vec!["third", "second"]);
    assert_eq!(hv.key_get_index(&String::from("x")), Some(0));
    assert_eq!(hv.key_get_index(&String::from("y")), Some(1));
}

#[test]
fn lookup_gives_the_same_place_each_time() {
    let mut hv: HashVec<String, u8> = HashVec::new();
    for (i, name) in ["Ns.A", "Ns.B", "Ns.C"].iter().enumerate() {
        hv.insert(name.to_string(), i as u8);
    }
    let key = String::from("Ns.B");
    let first = hv.key_get_index(&key);
    assert_eq!(first, Some(1));
    assert_eq!(hv.key_get_index(&key), first);
    hv.insert(String::from("Ns.D"), 9);
    assert_eq!(hv.key_get_index(&key), first);
}

#[test]
fn values_can_be_changed_in_place() {
    let mut hv: HashVec<u32, i64> = HashVec::new();
    hv.insert(7, 70);
    hv.insert(8, 80);
    *hv.key_get_mut(&8).unwrap() = 81;
    *hv.index_get_mut(0).unwrap() += 1;
    assert!(hv.key_get_mut(&9).is_none());
    assert!(hv.index_get_mut(2).is_none());
    assert_eq!(hv.vec(), &vec![71, 81]);
    assert!(hv.key_set(&7, 5));
    assert!(!hv.key_set(&6, 5));
    assert_eq!(hv.vec(), &vec![5, 81]);
}

#[test]
fn remove_moves_the_later_values_down() {
    let mut hv: HashVec<u32, char> = HashVec::new();
    for (k, v) in [(10, 'a'), (20, 'b'), (30, 'c'), (40, 'd')] {
        hv.insert(k, v);
    }
    assert_eq!(hv.remove(&20), Some('b'));
    assert_eq!(hv.remove(&20), None);
    assert_eq!(hv.len(), 3);
    assert_eq!(hv.vec(), &vec!['a', 'c', 'd']);
    assert_eq!(hv.key_get_index(&10), Some(0));
    assert_eq!(hv.key_get_index(&30), Some(1));
    assert_eq!(hv.key_get_index(&40), Some(2));
    assert_eq!(hv.key_get(&40), Some(&'d'));
    assert_eq!(hv.remove(&40), Some('d'));
    assert_eq!(hv.remove(&10), Some('a'));
    assert_eq!(hv.vec(), &vec!['c']);
    assert_eq!(hv.key_get_index(&30), Some(0));
    hv.insert(20, 'z');
    assert_eq!(hv.key_get_index(&20), Some(1));
}

#[test]
fn remove_with_string_keys() {
    let mut hv: HashVec<String, usize> = HashVec::new();
    for (i, k) in ["one", "two", "three"].iter().enumerate() {
        hv.insert(k.to_string(), i);
    }
    assert_eq!(hv.remove(&String::from("one")), Some(0));
    assert_eq!(hv.key_get_index(&String::from("two")), Some(0));
    assert_eq!(hv.key_get_index(&String::from("three")), Some(1));
    assert_eq!(hv.key_get_index(&String::from("one")), None);
    assert_eq!(hv.remove(&String::from("four")), None);
}
