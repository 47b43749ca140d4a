use effect_doctor_core::content_addr::{fnv1a, ContentHash, FileId, FNV_OFFSET};

#[test]
fn same_source_same_hash() {
    assert_eq!(ContentHash::of("const x = 1"), ContentHash::of("const x = 1"));
}

#[test]
fn different_source_different_hash() {
    assert_ne!(ContentHash::of("const x = 1"), ContentHash::of("const x = 2"));
}

#[test]
fn whitespace_changes_content_hash() {
    assert_ne!(ContentHash::of("const x=1"), ContentHash::of("const x = 1"));
}

#[test]
fn fnv1a_is_stable() {
    assert_eq!(fnv1a(b""), FNV_OFFSET);
    assert_eq!(fnv1a(b"a"), 0xaf63_dc4c_8601_ec8c);
}

#[test]
fn file_id_normalises_separators() {
    assert_eq!(FileId::new("src\\a\\b.ts").as_str(), "src/a/b.ts");
}

#[test]
fn content_hash_of_matches_fnv1a_of_utf8_bytes() {
    let source = "héllo → wörld";
    assert_eq!(ContentHash::of(source).0, fnv1a(source.as_bytes()));
    assert_eq!(ContentHash::of("").0, FNV_OFFSET);
}

#[test]
fn content_hash_hex_is_sixteen_lowercase_digits() {
    assert_eq!(ContentHash::of("").to_hex(), "cbf29ce484222325");
    assert_eq!(ContentHash(0xab).to_hex(), "00000000000000ab");
    assert_eq!(ContentHash(u64::MAX).to_hex(), "ffffffffffffffff");
}

#[test]
fn file_id_keeps_forward_slashes_and_other_chars() {
    assert_eq!(FileId::new("a/b\\c d/é.ts").as_str(), "a/b/c d/é.ts");
    assert_eq!(FileId::new("").as_str(), "");
}
