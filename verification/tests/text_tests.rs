use boreas::text::eq_ignore_case;
use boreas::text::lower_byte;

#[test]
fn lower_byte_folds_only_ascii_uppercase() {
    assert_eq!(lower_byte(b'A'), b'a');
    assert_eq!(lower_byte(b'Z'), b'z');
    assert_eq!(lower_byte(b'a'), b'a');
    assert_eq!(lower_byte(b'0'), b'0');
    assert_eq!(lower_byte(b'_'), b'_');
    assert_eq!(lower_byte(200), 200);
}

#[test]
fn eq_ignore_case_compares_case_insensitively() {
    assert!(eq_ignore_case(b"MaxPower", b"maxpower"));
    assert!(eq_ignore_case(b"SILENT", b"silent"));
    assert!(eq_ignore_case(b"", b""));
    assert!(!eq_ignore_case(b"silent", b"silence"));
    assert!(!eq_ignore_case(b"silent", b"silen"));
    assert!(!eq_ignore_case(b"max_power", b"max power"));
}
