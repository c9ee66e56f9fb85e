use tls_credentials::{ConfigurationError, X509};

#[test]
fn pem_until_nul_stops_at_first_nul() {
    let b = [0x41u8, 0x42, 0x00, 0xFF, 0xFF];
    let x = X509::pem_until_nul(&b).ok().expect("the buffer holds a NUL byte");
    assert_eq!(x.data(), &[0x41u8, 0x42, 0x00][..]);
}

#[test]
fn pem_until_nul_without_nul_is_refused() {
    let b = [0x41u8, 0x42, 0x43];
    assert_eq!(
        X509::pem_until_nul(&b).err(),
        Some(ConfigurationError::MissingNulTerminator)
    );
}

#[test]
fn pem_until_nul_of_empty_buffer_is_refused() {
    let b: [u8; 0] = [];
    assert_eq!(
        X509::pem_until_nul(&b).err(),
        Some(ConfigurationError::MissingNulTerminator)
    );
}

#[test]
fn pem_until_nul_with_leading_nul_keeps_one_byte() {
    let b = [0x00u8, 0x41, 0x00];
    let x = X509::pem_until_nul(&b).ok().expect("the buffer holds a NUL byte");
    assert_eq!(x.data(), &[0x00u8][..]);
    assert_eq!(x.as_esp_idf_raw_len(), 1);
}

#[test]
fn pem_until_nul_with_nul_only_at_the_end_keeps_all() {
    let b = b"-----BEGIN CERTIFICATE-----\nMIIB\n-----END CERTIFICATE-----\n\0";
    let x = X509::pem_until_nul(b).ok().expect("the text is terminated");
    assert_eq!(x.data(), &b[..]);
    assert_eq!(x.as_esp_idf_raw_len(), b.len());
}

#[test]
fn pem_until_nul_ignores_later_nuls_and_padding() {
    let mut b = [0u8; 64];
    b[..5].copy_from_slice(b"hello");
    let x = X509::pem_until_nul(&b).ok().expect("the padding is NUL");
    assert_eq!(x.data(), b"hello\0");
}

#[test]
fn pem_until_nul_result_borrows_the_buffer() {
    let b = [0x41u8, 0x42, 0x00, 0xFF, 0xFF];
    let x = X509::pem_until_nul(&b).ok().expect("the buffer holds a NUL byte");
    assert!(std::ptr::eq(x.data().as_ptr(), b.as_ptr()));
}

#[test]
fn pem_until_nul_twice_changes_nothing() {
    let b = [0x41u8, 0x00, 0x42, 0x00];
    let once = X509::pem_until_nul(&b).ok().expect("the buffer holds a NUL byte");
    let twice = X509::pem_until_nul(once.data()).ok().expect("the region is terminated");
    assert_eq!(once.data(), twice.data());
    assert!(once == twice);
}

#[test]
fn pem_is_the_identity_view() {
    let b = b"-----BEGIN CERTIFICATE-----\n\0";
    let x = X509::pem(b);
    assert_eq!(x.data(), &b[..]);
    assert_eq!(x.data().last(), Some(&0u8));
}

#[test]
fn pem_and_pem_until_nul_agree_on_terminated_text() {
    let b = b"abc\0";
    let direct = X509::pem(b);
    let scanned = X509::pem_until_nul(b).ok().expect("the text is terminated");
    assert!(direct == scanned);
}

#[test]
fn der_hands_back_the_same_bytes() {
    let b = [0x30u8, 0x82, 0x00, 0x00, 0xFF, 0x00];
    let x = X509::der(&b);
    assert_eq!(x.data(), &b[..]);
    assert_eq!(x.as_esp_idf_raw_len(), 6);
}

#[test]
fn der_of_empty_region_is_empty() {
    let b: [u8; 0] = [];
    let x = X509::der(&b);
    assert!(x.data().is_empty());
    assert_eq!(x.as_esp_idf_raw_len(), 0);
}

#[test]
fn data_is_repeatable() {
    let b = [1u8, 2, 3, 0];
    let x = X509::der(&b);
    let first = x.data();
    let second = x.data();
    assert_eq!(first, second);
    assert!(std::ptr::eq(first.as_ptr(), second.as_ptr()));
}

#[test]
fn equality_goes_by_content() {
    let a = [1u8, 2, 3];
    let b = vec![1u8, 2, 3];
    let c = [1u8, 2, 4];
    let d = [1u8, 2];
    assert!(X509::der(&a) == X509::der(&b));
    assert!(X509::der(&a) != X509::der(&c));
    assert!(X509::der(&a) != X509::der(&d));
    assert!(X509::der(&d) != X509::der(&a));
}

#[test]
fn descriptor_is_copied_not_moved() {
    let b = [9u8, 8, 7, 0];
    let x = X509::der(&b);
    let y = x;
    assert!(x == y);
    assert_eq!(x.data(), y.data());
}

#[test]
fn configuration_error_message() {
    assert_eq!(
        ConfigurationError::MissingNulTerminator.message(),
        "PEM certificates should end with a NIL (`\\0`) ASCII character."
    );
}
