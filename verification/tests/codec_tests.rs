use dockerbot::codec::{pack, packed_round_trip, unpack_single, ArchiveEntry};
use dockerbot::errors::CodecError;

fn entry(path: &str, payload: &[u8]) -> ArchiveEntry {
    ArchiveEntry { path: String::from(path), payload: payload.to_vec() }
}

#[test]
fn round_trip_plain_text() {
    let entries = vec![entry("main.py", b"print(2+2)\n")];
    let archive = pack(&entries).unwrap();
    let out = unpack_single(&archive).unwrap();
    assert_eq!(out, b"print(2+2)\n".to_vec());
}

#[test]
fn round_trip_empty_payload() {
    let entries = vec![entry("empty.bin", b"")];
    let archive = pack(&entries).unwrap();
    let out = unpack_single(&archive).unwrap();
    assert_eq!(out, Vec::<u8>::new());
}

#[test]
fn round_trip_embedded_newlines() {
    let payload = b"line one\n\nline three\r\nline four\n";
    let entries = vec![entry("notes.txt", payload)];
    let archive = pack(&entries).unwrap();
    assert_eq!(unpack_single(&archive).unwrap(), payload.to_vec());
}

#[test]
fn round_trip_non_text_bytes() {
    let payload: Vec<u8> = (0u16..=255).map(|b| b as u8).cycle().take(5000).collect();
    let entries = vec![ArchiveEntry { path: String::from("blob.bin"), payload: payload.clone() }];
    let archive = pack(&entries).unwrap();
    assert_eq!(unpack_single(&archive).unwrap(), payload);
}

#[test]
fn round_trip_through_law_function() {
    let entries = vec![entry("dir/sub/file.txt", b"\x00\x01\x02payload")];
    let out = packed_round_trip(&entries);
    assert_eq!(out, b"\x00\x01\x02payload".to_vec());
}

#[test]
fn unpack_returns_first_entry_of_many() {
    let entries = vec![entry("first.txt", b"first payload"), entry("second.txt", b"second")];
    let archive = pack(&entries).unwrap();
    assert_eq!(unpack_single(&archive).unwrap(), b"first payload".to_vec());
}

#[test]
fn unpack_rejects_garbage() {
    let garbage = vec![0u8, 1, 2, 3, 4, 5, 6, 7];
    assert_eq!(unpack_single(&garbage), Err(CodecError::NotFound));
}

#[test]
fn unpack_rejects_empty_archive() {
    let entries: Vec<ArchiveEntry> = vec![];
    let archive = pack(&entries).unwrap();
    assert_eq!(unpack_single(&archive), Err(CodecError::NotFound));
}

#[test]
fn pack_rejects_absolute_path() {
    let entries = vec![entry("/etc/passwd", b"nope")];
    assert_eq!(pack(&entries), Err(CodecError::InvalidPath));
}

#[test]
fn pack_rejects_parent_component() {
    let entries = vec![entry("../escape.txt", b"nope")];
    assert_eq!(pack(&entries), Err(CodecError::InvalidPath));
}

#[test]
fn pack_rejects_empty_path() {
    let entries = vec![entry("", b"nope")];
    assert_eq!(pack(&entries), Err(CodecError::InvalidPath));
}

#[test]
fn round_trip_path_with_spaces_and_punctuation() {
    let entries = vec![entry("My Report (v2) + notes~final!.txt", b"body text")];
    let archive = pack(&entries).unwrap();
    assert_eq!(unpack_single(&archive).unwrap(), b"body text".to_vec());
}

#[test]
fn pack_rejects_leading_dot_component() {
    let entries = vec![entry("./foo.txt", b"nope")];
    assert_eq!(pack(&entries), Err(CodecError::InvalidPath));
}

#[test]
fn pack_rejects_trailing_separator() {
    let entries = vec![entry("dir/", b"nope")];
    assert_eq!(pack(&entries), Err(CodecError::InvalidPath));
}

#[test]
fn pack_rejects_backslash_and_colon() {
    assert_eq!(pack(&vec![entry("a\\b.txt", b"nope")]), Err(CodecError::InvalidPath));
    assert_eq!(pack(&vec![entry("c:d.txt", b"nope")]), Err(CodecError::InvalidPath));
}

#[test]
fn pack_accepts_path_at_the_length_limit() {
    let path = "a".repeat(100);
    let entries = vec![entry(&path, b"long name")];
    let archive = pack(&entries).unwrap();
    assert_eq!(unpack_single(&archive).unwrap(), b"long name".to_vec());
}

#[test]
fn pack_rejects_path_over_the_length_limit() {
    let path = "a".repeat(101);
    let entries = vec![entry(&path, b"too long")];
    assert_eq!(pack(&entries), Err(CodecError::InvalidPath));
}

#[test]
fn pack_rejects_dot_component() {
    let entries = vec![entry("a/./b.txt", b"nope")];
    assert_eq!(pack(&entries), Err(CodecError::InvalidPath));
}

#[test]
fn pack_rejects_empty_component() {
    let entries = vec![entry("a//b.txt", b"nope")];
    assert_eq!(pack(&entries), Err(CodecError::InvalidPath));
}

#[test]
fn pack_accepts_nested_relative_path() {
    let entries = vec![entry("a/b/c/deep.txt", b"deep")];
    let archive = pack(&entries).unwrap();
    assert_eq!(unpack_single(&archive).unwrap(), b"deep".to_vec());
}
