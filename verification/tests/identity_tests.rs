use boreas::errors::StartupError;
use boreas::identity::contains_bytes;
use boreas::identity::identity_supported;
use boreas::identity::trim_bytes;
use boreas::identity::verify_hardware;

#[test]
fn supported_model_with_revision_suffix_passes() {
    assert!(identity_supported("Nitro AN515-57 Rev2"));
    assert_eq!(verify_hardware("Nitro AN515-57 Rev2"), Ok(()));
}

#[test]
fn exact_supported_model_passes() {
    assert!(identity_supported("Nitro AN515-57"));
    assert_eq!(verify_hardware("Nitro AN515-57"), Ok(()));
}

#[test]
fn generic_hardware_is_refused() {
    assert!(!identity_supported("Generic Laptop"));
    assert_eq!(
        verify_hardware("Generic Laptop"),
        Err(StartupError::UnsupportedHardware)
    );
}

#[test]
fn trailing_newline_from_sysfs_is_trimmed() {
    assert!(identity_supported("Nitro AN515-57\n"));
    assert!(identity_supported("  Nitro AN515-57 Rev2  \n"));
}

#[test]
fn empty_identity_is_refused() {
    assert!(!identity_supported(""));
    assert!(!identity_supported("   \n"));
}

#[test]
fn near_miss_model_is_refused() {
    assert!(!identity_supported("Nitro AN515-5"));
    assert!(!identity_supported("Nitro AN515"));
}

#[test]
fn trim_bytes_strips_both_ends() {
    assert_eq!(trim_bytes(b"  abc\n"), b"abc".to_vec());
    assert_eq!(trim_bytes(b"abc"), b"abc".to_vec());
    assert_eq!(trim_bytes(b" \t\r\n "), Vec::<u8>::new());
}

#[test]
fn contains_bytes_finds_inner_substring() {
    assert!(contains_bytes(b"abcdef", b"cde"));
    assert!(contains_bytes(b"abcdef", b"abcdef"));
    assert!(contains_bytes(b"abcdef", b""));
    assert!(!contains_bytes(b"abcdef", b"cdf"));
    assert!(!contains_bytes(b"ab", b"abc"));
}
