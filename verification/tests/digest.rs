use liboci::digest::check_digest;
use liboci::media_type::check_media_type;
use liboci::{Digest, OCIDirError};

#[test]
fn digest_of_the_usual_form_parses() {
    let d = Digest::parse("sha256:abc123").unwrap();
    assert_eq!(d.as_str(), "sha256:abc123");
    assert_eq!(d.algorithm(), "sha256");
    assert_eq!(d.encoded(), "abc123");
    assert_eq!(d.blob_path(), "blobs/sha256/abc123");
}

#[test]
fn digest_with_uppercase_algorithm_is_malformed() {
    match Digest::parse("SHA256:abc") {
        Err(OCIDirError::MalformedDigest(text)) => assert_eq!(text, "SHA256:abc"),
        other => panic!("unexpected: {:?}", other),
    }
}

#[test]
fn digest_without_encoded_part_is_malformed() {
    assert!(matches!(Digest::parse("sha256"), Err(OCIDirError::MalformedDigest(_))));
    assert!(matches!(Digest::parse("sha256:"), Err(OCIDirError::MalformedDigest(_))));
    assert!(matches!(Digest::parse(""), Err(OCIDirError::MalformedDigest(_))));
    assert!(matches!(Digest::parse(":abc"), Err(OCIDirError::MalformedDigest(_))));
}

#[test]
fn digest_algorithm_components() {
    assert!(check_digest("sha256+b64:abc"));
    assert!(check_digest("multihash+base58:QmRZxt2b1FVZPNqd8hsiykDL3TdBDeTSPX9Kv46HmX4Gx8"));
    assert!(check_digest("a.b_c-d:x"));
    assert!(!check_digest("sha256++b64:abc"));
    assert!(!check_digest("+sha256:abc"));
    assert!(!check_digest("sha256+:abc"));
    assert!(!check_digest("sha256:ab:c"));
    assert!(!check_digest("sha256:ab c"));
    assert!(!check_digest("sh\u{e9}256:abc"));
    assert!(check_digest("sha256:AZaz09=_-"));
    assert!(!check_digest("sha256:abc\n"));
}

#[test]
fn digests_are_equal_by_their_text() {
    let a = Digest::parse("sha256:abc").unwrap();
    let b = Digest::parse("sha256:abc").unwrap();
    let c = Digest::parse("sha256:abd").unwrap();
    assert!(a.same(&b));
    assert!(!a.same(&c));
    assert!(a.clone().same(&a));
    assert_eq!(a, b);
    assert_ne!(a, c);
    let mut set = std::collections::HashSet::new();
    set.insert(a);
    assert!(set.contains(&b));
    assert!(!set.contains(&c));
}

#[test]
fn media_type_pattern() {
    assert!(check_media_type("application/vnd.oci.image.manifest.v1+json"));
    assert!(check_media_type("a/b"));
    assert!(!check_media_type("a/"));
    assert!(!check_media_type("/b"));
    assert!(!check_media_type("ab"));
    assert!(!check_media_type(""));
    assert!(!check_media_type("a b/c"));
    assert!(!check_media_type(".a/b"));
    assert!(!check_media_type("a/.b"));
    assert!(!check_media_type("a~/b"));
    // `&-^` in the pattern is a range, which holds the slash
    assert!(check_media_type("a/b/c"));
    assert!(check_media_type("a/b:c"));
}

#[test]
fn media_type_length_limits() {
    let long = "a".repeat(127);
    let too_long = "a".repeat(128);
    assert!(check_media_type(&format!("{}/{}", long, long)));
    assert!(!check_media_type(&format!("{}/{}", too_long, "b")));
    assert!(!check_media_type(&format!("{}/{}", "b", too_long)));
    // with a second slash the split may fall where both sides fit
    assert!(check_media_type(&format!("{}/{}", "a/b", long)));
}
