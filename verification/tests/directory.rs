use pallet_search::Directory;

#[test]
fn new_directory_has_no_translations() {
    let d = Directory::new();
    assert_eq!(d.get(b"dog", b"fr"), None);
    assert_eq!(d.get(b"", b""), None);
}

#[test]
fn a_written_translation_is_read_back() {
    let mut d = Directory::new();
    d.insert(b"dog".to_vec(), b"fr".to_vec(), b"chien".to_vec());
    assert_eq!(d.get(b"dog", b"fr"), Some(&b"chien".to_vec()));
}

#[test]
fn one_term_in_two_languages() {
    let mut d = Directory::new();
    d.insert(b"dog".to_vec(), b"fr".to_vec(), b"chien".to_vec());
    d.insert(b"dog".to_vec(), b"es".to_vec(), b"perro".to_vec());
    assert_eq!(d.get(b"dog", b"fr"), Some(&b"chien".to_vec()));
    assert_eq!(d.get(b"dog", b"es"), Some(&b"perro".to_vec()));
    assert_eq!(d.get(b"dog", b"de"), None);
}

#[test]
fn two_terms_in_one_language() {
    let mut d = Directory::new();
    d.insert(b"dog".to_vec(), b"fr".to_vec(), b"chien".to_vec());
    d.insert(b"cat".to_vec(), b"fr".to_vec(), b"chat".to_vec());
    assert_eq!(d.get(b"dog", b"fr"), Some(&b"chien".to_vec()));
    assert_eq!(d.get(b"cat", b"fr"), Some(&b"chat".to_vec()));
    assert_eq!(d.get(b"cow", b"fr"), None);
}

#[test]
fn the_second_translation_replaces_the_first() {
    let mut d = Directory::new();
    d.insert(b"dog".to_vec(), b"fr".to_vec(), b"chien".to_vec());
    d.insert(b"cat".to_vec(), b"fr".to_vec(), b"chat".to_vec());
    d.insert(b"dog".to_vec(), b"fr".to_vec(), b"toutou".to_vec());
    assert_eq!(d.get(b"dog", b"fr"), Some(&b"toutou".to_vec()));
    assert_eq!(d.get(b"cat", b"fr"), Some(&b"chat".to_vec()));
}

#[test]
fn the_boundary_between_term_and_language_counts() {
    let mut d = Directory::new();
    d.insert(b"ab".to_vec(), b"c".to_vec(), b"one".to_vec());
    d.insert(b"a".to_vec(), b"bc".to_vec(), b"two".to_vec());
    d.insert(b"abc".to_vec(), b"".to_vec(), b"three".to_vec());
    d.insert(b"".to_vec(), b"abc".to_vec(), b"four".to_vec());
    assert_eq!(d.get(b"ab", b"c"), Some(&b"one".to_vec()));
    assert_eq!(d.get(b"a", b"bc"), Some(&b"two".to_vec()));
    assert_eq!(d.get(b"abc", b""), Some(&b"three".to_vec()));
    assert_eq!(d.get(b"", b"abc"), Some(&b"four".to_vec()));
}

#[test]
fn keys_are_compared_byte_for_byte() {
    let mut d = Directory::new();
    d.insert(b"dog".to_vec(), b"fr".to_vec(), b"chien".to_vec());
    assert_eq!(d.get(b"Dog", b"fr"), None);
    assert_eq!(d.get(b"dog", b"FR"), None);
    assert_eq!(d.get(b"dog ", b"fr"), None);
    assert_eq!(d.get(b"do", b"fr"), None);
    assert_eq!(d.get(b"dog", b"f"), None);
    assert_eq!(d.get(b"fr", b"dog"), None);
    d.insert(b"Dog".to_vec(), b"fr".to_vec(), b"Chien".to_vec());
    assert_eq!(d.get(b"dog", b"fr"), Some(&b"chien".to_vec()));
    assert_eq!(d.get(b"Dog", b"fr"), Some(&b"Chien".to_vec()));
}

#[test]
fn the_empty_pair_is_a_key() {
    let mut d = Directory::new();
    d.insert(Vec::new(), Vec::new(), Vec::new());
    assert_eq!(d.get(b"", b""), Some(&Vec::new()));
    d.insert(Vec::new(), Vec::new(), b"x".to_vec());
    assert_eq!(d.get(b"", b""), Some(&b"x".to_vec()));
}

#[test]
fn keys_that_are_not_text_are_keys() {
    let mut d = Directory::new();
    d.insert(vec![0u8, 255u8], vec![0u8], vec![1u8, 2u8, 3u8]);
    d.insert(vec![0u8], vec![255u8, 0u8], vec![4u8]);
    assert_eq!(d.get(&[0u8, 255u8], &[0u8]), Some(&vec![1u8, 2u8, 3u8]));
    assert_eq!(d.get(&[0u8], &[255u8, 0u8]), Some(&vec![4u8]));
    assert_eq!(d.get(&[0u8], &[255u8]), None);
}
