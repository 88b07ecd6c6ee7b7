use std::hash::{DefaultHasher, Hash, Hasher};

use condor::hash_path::{hash_path, short_hash};

#[test]
fn short_hash_takes_seven_hex_digits() {
    assert_eq!(short_hash(0xdead_beef_0123_4567).unwrap(), "deadbee");
    assert_eq!(short_hash(0x1000000).unwrap(), "1000000");
    assert_eq!(short_hash(u64::MAX).unwrap(), "fffffff");
    assert_eq!(short_hash(0xabcdef12).unwrap(), "abcdef1");
}

#[test]
fn short_hash_of_small_values_is_none() {
    assert_eq!(short_hash(0), None);
    assert_eq!(short_hash(0xffffff), None);
}

#[test]
fn hash_path_matches_format_of_default_hasher() {
    let path = "/videos/input.mkv";
    let mut s = DefaultHasher::new();
    std::path::Path::new(path).hash(&mut s);
    let full = format!("{:x}", s.finish());
    let expected = if full.len() >= 7 { Some(full[..7].to_string()) } else { None };
    assert_eq!(hash_path(path), expected);
    assert_eq!(hash_path(path), hash_path(path));
}

#[test]
fn hash_path_is_hex() {
    if let Some(h) = hash_path("relative/clip.y4m") {
        assert_eq!(h.len(), 7);
        assert!(h.chars().all(|c| c.is_ascii_hexdigit() && !c.is_ascii_uppercase()));
    }
}
