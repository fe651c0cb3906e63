use hoshidicts::ffi::hd_import_result;
use hoshidicts::{cpath, cstr, dict_added, import_outcome, Error};

#[test]
fn error_messages_match_the_display_text() {
    assert_eq!(Error::Failed.message(), "hoshidicts call failed");
    assert_eq!(
        Error::Import("bad zip".to_string()).message(),
        "import failed: bad zip"
    );
    assert_eq!(
        Error::InteriorNul.message(),
        "string contains an interior nul byte"
    );
}

#[test]
fn cstr_appends_one_terminator() {
    assert_eq!(cstr("蜂").unwrap(), vec![0xe8, 0x9c, 0x82, 0]);
    assert_eq!(cstr("").unwrap(), vec![0]);
}

#[test]
fn cstr_rejects_an_interior_nul() {
    assert_eq!(cstr("bad\0string"), Err(Error::InteriorNul));
    assert_eq!(cstr("\0"), Err(Error::InteriorNul));
    assert_eq!(cstr("trailing\0"), Err(Error::InteriorNul));
}

#[test]
fn cpath_takes_non_utf8_bytes_but_rejects_nul() {
    assert_eq!(cpath(&[0xff, b'/', b'a']).unwrap(), vec![0xff, b'/', b'a', 0]);
    assert_eq!(cpath(b"/tmp/a\0b"), Err(Error::InteriorNul));
}

#[test]
fn a_dictionary_is_added_only_on_status_zero() {
    assert_eq!(dict_added(0), Ok(()));
    assert_eq!(dict_added(1), Err(Error::Failed));
    assert_eq!(dict_added(-1), Err(Error::Failed));
}

fn report(success: i32, title: &[u8], error: &[u8]) -> hd_import_result {
    hd_import_result {
        success,
        title: title.to_vec(),
        error: error.to_vec(),
        term_count: 11,
        meta_count: 12,
        freq_count: 13,
        pitch_count: 14,
        kanji_count: 15,
        media_count: 16,
    }
}

#[test]
fn import_without_a_report_fails() {
    assert!(matches!(import_outcome(None), Err(Error::Failed)));
}

#[test]
fn a_failed_import_carries_the_engine_message() {
    let r = report(0, b"", "壊れた zip".as_bytes());
    match import_outcome(Some(&r)) {
        Err(Error::Import(message)) => assert_eq!(message, "壊れた zip"),
        _ => panic!("expected an import error"),
    }
}

#[test]
fn a_successful_import_carries_title_and_counts() {
    let r = report(1, "Jitendex".as_bytes(), b"");
    let i = import_outcome(Some(&r)).ok().expect("import succeeds");
    assert_eq!(i.title, "Jitendex");
    assert_eq!(
        (i.terms, i.meta, i.freq, i.pitch, i.kanji, i.media),
        (11, 12, 13, 14, 15, 16)
    );
}

#[test]
fn an_import_title_with_malformed_bytes_is_replaced_not_cut() {
    let r = report(7, &[b'a', 0xff, b'b'], b"");
    let i = import_outcome(Some(&r)).ok().expect("import succeeds");
    assert_eq!(i.title, "a\u{fffd}b");
}
