use watch_diff::digest::{get_sha256, outputs_changed};
use watch_diff::text::ByteOrString;

fn bytes(s: &str) -> ByteOrString {
    ByteOrString::Bytes(s.as_bytes().to_vec())
}

fn text(s: &str) -> ByteOrString {
    ByteOrString::String(s.to_string())
}

#[test]
fn digesting_twice_yields_equal_digests() {
    let first = get_sha256(&bytes("abc"));
    let second = get_sha256(&bytes("abc"));
    assert_eq!(first, second);
}

#[test]
fn different_content_yields_different_digests() {
    assert_ne!(get_sha256(&bytes("abc")), get_sha256(&bytes("abd")));
    assert_ne!(get_sha256(&bytes("")), get_sha256(&bytes("a")));
}

#[test]
fn digest_matches_known_sha256_values() {
    assert_eq!(
        get_sha256(&bytes("abc")),
        "ba7816bf8f01cfea414140de5dae2223b00361a396177a9cb410ff61f20015ad"
    );
    assert_eq!(
        get_sha256(&bytes("")),
        "e3b0c44298fc1c149afbf4c8996fb92427ae41e4649b934ca495991b7852b855"
    );
}

#[test]
fn text_and_bytes_of_same_content_digest_equally() {
    assert_eq!(get_sha256(&bytes("hello")), get_sha256(&text("hello")));
}

#[test]
fn equal_content_reports_unchanged() {
    assert!(!outputs_changed(&bytes("xy"), &text("xy")));
    assert!(!outputs_changed(&bytes(""), &text("")));
}

#[test]
fn different_content_reports_changed() {
    assert!(outputs_changed(&bytes("xz"), &text("xy")));
    assert!(outputs_changed(&bytes("hello"), &text("")));
}
