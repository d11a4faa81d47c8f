use notedeck::urls::snapshot::{encoded_or_error, read_from_disk};
use notedeck::urls::table::UrlsToMime;
use std::collections::HashMap;

fn s(text: &str) -> String {
    text.to_owned()
}

fn sample() -> UrlsToMime {
    let mut table = UrlsToMime::new();
    table.insert(s("https://example.com/a.png"), s("image/png"));
    table.insert(s("https://example.com/index"), s("text/html"));
    table.insert(s("https://example.com/\u{e9}"), s("application/octet-stream"));
    table
}

fn sorted(table: &UrlsToMime) -> Vec<(String, String)> {
    let mut entries = table.entries();
    entries.sort();
    entries
}

#[test]
fn empty_map_is_eight_zero_bytes() {
    let bytes = UrlsToMime::new().to_bytes().unwrap();
    assert_eq!(bytes, vec![0u8; 8]);
}

#[test]
fn one_entry_has_the_expected_bytes() {
    let mut table = UrlsToMime::new();
    table.insert(s("ab"), s("c"));
    let bytes = table.to_bytes().unwrap();
    let expected: Vec<u8> = vec![
        1, 0, 0, 0, 0, 0, 0, 0, // one entry
        2, 0, 0, 0, 0, 0, 0, 0, b'a', b'b', // key
        1, 0, 0, 0, 0, 0, 0, 0, b'c', // value
    ];
    assert_eq!(bytes, expected);
}

#[test]
fn bytes_decode_to_the_same_map() {
    let table = sample();
    let bytes = table.to_bytes().unwrap();
    let back = UrlsToMime::from_bytes(&bytes).unwrap();
    assert_eq!(back.len(), 3);
    assert_eq!(sorted(&back), sorted(&table));
    assert_eq!(back.get("https://example.com/a.png"), Some(s("image/png")));
}

#[test]
fn empty_map_round_trips() {
    let bytes = UrlsToMime::new().to_bytes().unwrap();
    let back = UrlsToMime::from_bytes(&bytes).unwrap();
    assert_eq!(back.len(), 0);
}

#[test]
fn large_map_round_trips() {
    let mut table = UrlsToMime::new();
    for i in 0..300 {
        table.insert(format!("https://example.com/{}", i), format!("type/{}", i));
    }
    let back = UrlsToMime::from_bytes(&table.to_bytes().unwrap()).unwrap();
    assert_eq!(sorted(&back), sorted(&table));
}

#[test]
fn decodes_what_bincode_wrote_for_a_hash_map() {
    let mut map: HashMap<String, String> = HashMap::new();
    map.insert(s("k1"), s("v1"));
    map.insert(s("k2"), s("v2"));
    let bytes = bincode::serialize(&map).unwrap();
    let table = UrlsToMime::from_bytes(&bytes).unwrap();
    assert_eq!(sorted(&table), vec![(s("k1"), s("v1")), (s("k2"), s("v2"))]);
}

#[test]
fn bincode_reads_what_was_encoded_as_a_hash_map() {
    let bytes = sample().to_bytes().unwrap();
    let map: HashMap<String, String> = bincode::deserialize(&bytes).unwrap();
    assert_eq!(map.len(), 3);
    assert_eq!(map.get("https://example.com/index"), Some(&s("text/html")));
}

#[test]
fn a_repeated_key_in_the_bytes_keeps_its_last_value() {
    let bytes: Vec<u8> = vec![
        2, 0, 0, 0, 0, 0, 0, 0, // two entries
        1, 0, 0, 0, 0, 0, 0, 0, b'k', 1, 0, 0, 0, 0, 0, 0, 0, b'1', // k -> 1
        1, 0, 0, 0, 0, 0, 0, 0, b'k', 1, 0, 0, 0, 0, 0, 0, 0, b'2', // k -> 2
    ];
    let table = UrlsToMime::from_bytes(&bytes).unwrap();
    assert_eq!(table.entries(), vec![(s("k"), s("2"))]);
}

#[test]
fn bytes_after_the_map_are_ignored() {
    let mut bytes = sample().to_bytes().unwrap();
    bytes.extend_from_slice(&[1, 2, 3]);
    let table = UrlsToMime::from_bytes(&bytes).unwrap();
    assert_eq!(sorted(&table), sorted(&sample()));
}

#[test]
fn no_bytes_do_not_decode() {
    assert!(UrlsToMime::from_bytes(&[]).is_err());
}

#[test]
fn cut_off_bytes_do_not_decode() {
    let bytes = sample().to_bytes().unwrap();
    let result = UrlsToMime::from_bytes(&bytes[..bytes.len() - 1]);
    assert!(result.is_err());
    let message = result.err().unwrap().message();
    assert!(!message.is_empty());
}

#[test]
fn a_count_beyond_the_bytes_does_not_decode() {
    let bytes: Vec<u8> = vec![0xff, 0xff, 0xff, 0xff, 0xff, 0xff, 0xff, 0x7f];
    assert!(UrlsToMime::from_bytes(&bytes).is_err());
}

#[test]
fn text_that_is_not_utf8_does_not_decode() {
    let bytes: Vec<u8> = vec![
        1, 0, 0, 0, 0, 0, 0, 0, // one entry
        1, 0, 0, 0, 0, 0, 0, 0, 0xff, // key: not UTF-8
        1, 0, 0, 0, 0, 0, 0, 0, b'v',
    ];
    assert!(UrlsToMime::from_bytes(&bytes).is_err());
}

#[test]
fn an_unreadable_file_loads_as_nothing() {
    assert!(read_from_disk(None).is_none());
}

#[test]
fn a_corrupt_file_loads_as_nothing() {
    assert!(read_from_disk(Some(&[1, 2, 3])).is_none());
    assert!(read_from_disk(Some(&[])).is_none());
}

#[test]
fn a_saved_file_loads_as_its_map() {
    let bytes = sample().to_bytes().unwrap();
    let loaded = read_from_disk(Some(&bytes)).unwrap();
    assert_eq!(sorted(&loaded), sorted(&sample()));
}

#[test]
fn bytes_of_an_encoding_are_handed_on_as_they_are() {
    assert_eq!(encoded_or_error(Ok(vec![1, 2, 3])).unwrap(), vec![1, 2, 3]);
    assert_eq!(encoded_or_error(Ok(Vec::new())).unwrap(), Vec::<u8>::new());
}

#[test]
fn failure_of_an_encoding_is_handed_on_with_its_text() {
    let failed = encoded_or_error(Err(Box::new(bincode::ErrorKind::SequenceMustHaveLength)));
    let message = failed.err().unwrap().message();
    assert_eq!(message, bincode::ErrorKind::SequenceMustHaveLength.to_string());
    assert!(!message.is_empty());
}
