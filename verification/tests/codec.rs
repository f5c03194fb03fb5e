use oxiwiki::bytes::{from_bytes, from_bytes_slice, to_bytes};
use oxiwiki::escape::{escape_str, Escaper};

#[test]
fn escape_leaves_plain_text_unchanged() {
    assert_eq!(escape_str("hello world"), "hello world");
    assert_eq!(escape_str(""), "");
    assert_eq!(escape_str("caf\u{e9} \u{2603}"), "caf\u{e9} \u{2603}");
}

#[test]
fn escape_replaces_sensitive_characters_in_order() {
    assert_eq!(escape_str("a\tb\\c"), "a\\tb\\\\c");
    assert_eq!(escape_str("\n\r"), "\\n\\r");
    assert_eq!(escape_str("\u{8}\u{c}"), "\\b\\f");
    assert_eq!(escape_str("say \"hi\" and 'bye'"), "say \\\"hi\\\" and \\'bye\\'");
}

#[test]
fn escape_through_the_trait_on_both_text_forms() {
    let owned = String::from("line\nbreak");
    assert_eq!(owned.escape(), "line\\nbreak");
    assert_eq!("tab\there".escape(), "tab\\there");
}

#[test]
fn integer_to_little_endian_bytes() {
    assert_eq!(to_bytes(0), [0, 0, 0, 0, 0, 0, 0, 0]);
    assert_eq!(to_bytes(1), [1, 0, 0, 0, 0, 0, 0, 0]);
    assert_eq!(
        to_bytes(0x0102030405060708),
        [0x08, 0x07, 0x06, 0x05, 0x04, 0x03, 0x02, 0x01]
    );
    assert_eq!(to_bytes(u64::MAX), [0xff; 8]);
}

#[test]
fn little_endian_bytes_to_integer() {
    assert_eq!(from_bytes([1, 0, 0, 0, 0, 0, 0, 0]), 1);
    assert_eq!(
        from_bytes([0x08, 0x07, 0x06, 0x05, 0x04, 0x03, 0x02, 0x01]),
        0x0102030405060708
    );
}

#[test]
fn byte_codec_round_trips() {
    for x in [0u64, 1, 255, 256, 0xdead_beef, u64::MAX, u64::MAX - 1] {
        assert_eq!(from_bytes(to_bytes(x)), x);
        assert_eq!(from_bytes_slice(&to_bytes(x)), x);
    }
}

#[test]
fn restartable_transform_emits_the_escape_sequence_stepwise() {
    let mut step = oxiwiki::escape::EscapeRDF::new('\t');
    assert_eq!(step.len(), 2);
    assert_eq!(step.next(), Some('\\'));
    assert_eq!(step.len(), 1);
    assert_eq!(step.next(), Some('t'));
    assert_eq!(step.len(), 0);
    assert_eq!(step.next(), None);
}

#[test]
fn restartable_transform_passes_a_plain_character_through() {
    let mut step = oxiwiki::escape::EscapeRDF::new('x');
    assert_eq!(step.len(), 1);
    assert_eq!(step.next(), Some('x'));
    assert_eq!(step.next(), None);
}
