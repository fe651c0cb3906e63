use hoshidicts::ffi::hd_str;
use hoshidicts::options::hd_str as to_engine;
use hoshidicts::text::valid_up_to;

fn borrowed(bytes: &[u8]) -> hd_str {
    hd_str {
        data: Some(bytes.to_vec()),
    }
}

#[test]
fn valid_utf8_is_returned_whole() {
    assert_eq!(borrowed("蜂が好き".as_bytes()).as_str(), "蜂が好き");
}

#[test]
fn invalid_utf8_truncates_instead_of_panicking() {
    let bytes = [0xe8, 0x9c, 0x82, 0xe3, 0x81];
    assert_eq!(borrowed(&bytes).as_str(), "蜂");
}

#[test]
fn a_leading_invalid_byte_yields_an_empty_string() {
    assert_eq!(borrowed(&[0xff, 0xfe]).as_str(), "");
}

#[test]
fn an_empty_string_does_not_dereference_the_pointer() {
    let empty = hd_str { data: None };
    assert_eq!(empty.as_str(), "");
}

#[test]
fn text_stops_at_the_first_malformed_scalar_even_if_more_follows() {
    // "a", an overlong encoding of '/', then "b".
    assert_eq!(borrowed(&[b'a', 0xc0, 0xaf, b'b']).as_str(), "a");
    // A surrogate half encoded in three bytes.
    assert_eq!(borrowed(&[b'x', 0xed, 0xa0, 0x80]).as_str(), "x");
    // A scalar above U+10FFFF.
    assert_eq!(borrowed(&[0xf4, 0x90, 0x80, 0x80]).as_str(), "");
    // A stray continuation byte.
    assert_eq!(borrowed(&[b'o', b'k', 0x80, b'!']).as_str(), "ok");
}

#[test]
fn every_width_of_scalar_is_read() {
    let text = "a\u{e9}\u{8702}\u{1f41d}";
    assert_eq!(borrowed(text.as_bytes()).as_str(), text);
    assert_eq!(borrowed(&text.as_bytes()[..text.len() - 1]).as_str(), "a\u{e9}\u{8702}");
}

#[test]
fn valid_up_to_counts_the_well_formed_prefix() {
    assert_eq!(valid_up_to(&[0xe8, 0x9c, 0x82, 0xe3, 0x81]), 3);
    assert_eq!(valid_up_to(&[0xff]), 0);
    assert_eq!(valid_up_to(&[]), 0);
    assert_eq!(valid_up_to("蜂が好き".as_bytes()), 12);
}

#[test]
fn a_string_handed_to_the_engine_reads_back_unchanged() {
    for text in ["", "蜂が好きです", "a\u{1f41d}z"] {
        assert_eq!(to_engine(Some(text)).as_str(), text);
    }
}
