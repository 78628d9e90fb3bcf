use watch_diff::diff::{get_diffed_output, insert_modified_character};
use watch_diff::text::ByteOrString;

const START: &str = "\x1b[41m\x1b[30m";
const END: &str = "\x1b[0m";

fn bytes(s: &str) -> ByteOrString {
    ByteOrString::Bytes(s.as_bytes().to_vec())
}

fn text(s: &str) -> ByteOrString {
    ByteOrString::String(s.to_string())
}

#[test]
fn empty_previous_shows_output_unhighlighted() {
    let out = get_diffed_output(&bytes("hello"), &text(""));
    assert_eq!(out, "hello");
    assert!(!out.contains('\x1b'));
}

#[test]
fn equal_outputs_come_back_unchanged() {
    let out = get_diffed_output(&bytes("same text"), &text("same text"));
    assert_eq!(out, "same text");
    assert!(!out.contains('\x1b'));
}

#[test]
fn changed_last_byte_highlighted() {
    let out = get_diffed_output(&bytes("abd"), &text("abc"));
    assert_eq!(out, format!("ab{}d{}", START, END));
}

#[test]
fn changed_middle_byte_highlighted_others_unchanged() {
    let out = get_diffed_output(&bytes("axc"), &text("abc"));
    assert_eq!(out, format!("a{}x{}c", START, END));
}

#[test]
fn appended_byte_highlighted() {
    let out = get_diffed_output(&bytes("hi!"), &text("hi"));
    assert_eq!(out, format!("hi{}!{}", START, END));
}

#[test]
fn every_byte_beyond_previous_length_highlighted() {
    let out = get_diffed_output(&bytes("abcd"), &text("ab"));
    assert_eq!(out, format!("ab{}c{}{}d{}", START, END, START, END));
}

#[test]
fn empty_next_with_nonempty_previous_is_empty() {
    let out = get_diffed_output(&bytes(""), &text("abc"));
    assert_eq!(out, "");
}

#[test]
fn changed_non_ascii_bytes_are_dropped() {
    // 0xc3 differs from 'b' and 0xa9 lies beyond the previous output; neither
    // is a single valid character, so both are dropped from the highlight.
    let next = ByteOrString::Bytes(vec![0x61, 0xc3, 0xa9]);
    let out = get_diffed_output(&next, &text("ab"));
    assert_eq!(out, "a");
}

#[test]
fn insert_modified_character_wraps_ascii_byte() {
    let mut out: Vec<u8> = Vec::new();
    insert_modified_character(&mut out, b'x');
    assert_eq!(out, format!("{}x{}", START, END).into_bytes());
}

#[test]
fn insert_modified_character_drops_non_ascii_byte() {
    let mut out: Vec<u8> = vec![b'a'];
    insert_modified_character(&mut out, 0xff);
    assert_eq!(out, vec![b'a']);
}
