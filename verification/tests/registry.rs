use pallet_search::Registry;

#[test]
fn new_registry_has_no_names() {
    let r: Registry<u64> = Registry::new();
    assert_eq!(r.get(&0), None);
    assert_eq!(r.get(&1), None);
}

#[test]
fn a_written_name_is_read_back() {
    let mut r: Registry<u64> = Registry::new();
    r.insert(1, b"alice".to_vec());
    assert_eq!(r.get(&1), Some(&b"alice".to_vec()));
}

#[test]
fn the_second_name_replaces_the_first() {
    let mut r: Registry<u64> = Registry::new();
    r.insert(1, b"alice".to_vec());
    r.insert(1, b"alicia".to_vec());
    assert_eq!(r.get(&1), Some(&b"alicia".to_vec()));
}

#[test]
fn names_of_other_accounts_stay() {
    let mut r: Registry<u64> = Registry::new();
    r.insert(1, b"alice".to_vec());
    r.insert(2, b"bob".to_vec());
    r.insert(3, b"carol".to_vec());
    r.insert(2, b"robert".to_vec());
    assert_eq!(r.get(&1), Some(&b"alice".to_vec()));
    assert_eq!(r.get(&2), Some(&b"robert".to_vec()));
    assert_eq!(r.get(&3), Some(&b"carol".to_vec()));
    assert_eq!(r.get(&4), None);
}

#[test]
fn an_empty_name_is_a_name() {
    let mut r: Registry<u64> = Registry::new();
    r.insert(1, Vec::new());
    assert_eq!(r.get(&1), Some(&Vec::new()));
    assert_eq!(r.get(&2), None);
}

#[test]
fn two_accounts_may_share_a_name() {
    let mut r: Registry<u64> = Registry::new();
    r.insert(1, b"sam".to_vec());
    r.insert(2, b"sam".to_vec());
    r.insert(1, b"samuel".to_vec());
    assert_eq!(r.get(&1), Some(&b"samuel".to_vec()));
    assert_eq!(r.get(&2), Some(&b"sam".to_vec()));
}
