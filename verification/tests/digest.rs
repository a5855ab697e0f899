use mini_crates::crate_name::validate_release;
use mini_crates::digest::{hex_digest_sha256, object_key, tarball_key};
use mini_crates::error::AppError;

#[test]
fn digests_in_hexadecimal() {
    assert_eq!(
        hex_digest_sha256(b""),
        "e3b0c44298fc1c149afbf4c8996fb92427ae41e4649b934ca495991b7852b855"
    );
    assert_eq!(
        hex_digest_sha256(b"abc"),
        "ba7816bf8f01cfea414140de5dae2223b00361a396177a9cb410ff61f20015ad"
    );
}

#[test]
fn keys_hold_a_part_of_the_digest() {
    let checksum = hex_digest_sha256(b"abc");
    assert_eq!(
        object_key("liberte-shared", "0.1.0", &checksum).unwrap(),
        "crates/liberte_shared/0.1.0/ba7816bf8f01cfea414140de/liberte-shared-0.1.0.crate"
    );
    assert_eq!(tarball_key("a", "1.0.0", "abc"), "crates/a/1.0.0/abc/a-1.0.0.crate");
}

#[test]
fn keys_tell_versions_apart() {
    let checksum = hex_digest_sha256(b"abc");
    let key = |name: &str, version: &str| object_key(name, version, &checksum).unwrap();
    assert_ne!(key("a-b", "1.0.0"), key("a_b", "1.0.0"));
    assert_ne!(key("a", "1.0.0"), key("a", "1.0.0+b"));
    assert!(key("a-b", "1.0.0").ends_with("/a-b-1.0.0.crate"));
}

#[test]
fn keys_need_a_release() {
    assert!(validate_release("a", "1").is_err());
    assert!(matches!(object_key("a", "1", "abc"), Err(AppError::BadRequest(text)) if text == "crate version must be semver"));
    assert!(matches!(object_key("", "1.0.0", "abc"), Err(AppError::BadRequest(text)) if text == "invalid crate name length"));
}
