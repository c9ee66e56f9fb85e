use std::convert::TryFrom;
use std::convert::TryInto;
use tls_credentials::{ConversionError, Psk, TlsPsk};

#[test]
fn materialize_client1() {
    let key = [1u8, 2, 3, 4];
    let conf = Psk { key: &key, hint: "client1" };
    let tls = TlsPsk::try_from(&conf).ok().expect("the hint holds no NUL");
    assert_eq!(tls.key_size(), 4);
    assert_eq!(tls.psk().key_size, 4);
    assert_eq!(tls.hint(), b"client1\0");
    assert_eq!(tls.key(), &[1u8, 2, 3, 4][..]);
}

#[test]
fn materialize_record_and_pool_agree() {
    let key = [0xAAu8; 32];
    let conf = Psk { key: &key, hint: "device-17" };
    let tls = TlsPsk::try_from(&conf).ok().expect("the hint holds no NUL");
    let record = tls.psk();
    assert_eq!(record.key, &key[..]);
    assert_eq!(record.key_size, 32);
    assert_eq!(record.hint, 0);
    assert_eq!(tls.cstrs().len(), 1);
    assert_eq!(tls.cstrs().get(record.hint), Some(&b"device-17\0"[..]));
    assert_eq!(tls.cstrs().get(record.hint), Some(tls.hint()));
}

#[test]
fn materialize_borrows_the_key_and_copies_the_hint() {
    let key = vec![7u8; 16];
    let hint = String::from("gateway");
    let conf = Psk { key: &key, hint: &hint };
    let tls = TlsPsk::try_from(&conf).ok().expect("the hint holds no NUL");
    assert!(std::ptr::eq(tls.key().as_ptr(), key.as_ptr()));
    assert!(!std::ptr::eq(tls.hint().as_ptr(), hint.as_ptr()));
}

#[test]
fn materialize_key_size_is_the_byte_count() {
    let key = [0u8; 100];
    for n in [0usize, 1, 4, 16, 64, 100] {
        let conf = Psk { key: &key[..n], hint: "h" };
        let tls = TlsPsk::try_from(&conf).ok().expect("the hint holds no NUL");
        assert_eq!(tls.key_size(), n);
        assert_eq!(tls.key().len(), n);
    }
}

#[test]
fn materialize_key_may_hold_nul_bytes() {
    let key = [0u8, 0, 0, 0];
    let conf = Psk { key: &key, hint: "zeros" };
    let tls = TlsPsk::try_from(&conf).ok().expect("only the hint is a C string");
    assert_eq!(tls.key(), &key[..]);
    assert_eq!(tls.key_size(), 4);
}

#[test]
fn materialize_empty_hint_is_one_nul() {
    let key = [1u8];
    let conf = Psk { key: &key, hint: "" };
    let tls = TlsPsk::try_from(&conf).ok().expect("the empty hint holds no NUL");
    assert_eq!(tls.hint(), b"\0");
}

#[test]
fn materialize_hint_is_copied_as_utf8() {
    let key = [1u8];
    let conf = Psk { key: &key, hint: "cl\u{e9}\u{20ac}\u{1f511}" };
    let tls = TlsPsk::try_from(&conf).ok().expect("the hint holds no NUL");
    assert_eq!(
        tls.hint(),
        &[0x63u8, 0x6C, 0xC3, 0xA9, 0xE2, 0x82, 0xAC, 0xF0, 0x9F, 0x94, 0x91, 0x00][..]
    );
}

#[test]
fn materialize_refuses_embedded_nul() {
    let key = [1u8, 2, 3, 4];
    let conf = Psk { key: &key, hint: "cli\0ent" };
    assert_eq!(TlsPsk::try_from(&conf).err(), Some(ConversionError::InteriorNul));
}

#[test]
fn materialize_refuses_leading_and_trailing_nul() {
    let key = [1u8];
    for hint in ["\0", "\0abc", "abc\0", "a\0b\0c"] {
        let conf = Psk { key: &key, hint };
        assert_eq!(TlsPsk::try_from(&conf).err(), Some(ConversionError::InteriorNul));
    }
}

#[test]
fn materialize_through_try_into() {
    let key = [1u8, 2];
    let conf = Psk { key: &key, hint: "peer" };
    let r: Result<TlsPsk<'_>, ConversionError> = (&conf).try_into();
    let tls = r.ok().expect("the hint holds no NUL");
    assert_eq!(tls.hint(), b"peer\0");
    assert_eq!(tls.key_size(), 2);
}

#[test]
fn psk_equality_goes_by_content() {
    let k1 = [1u8, 2, 3];
    let k2 = vec![1u8, 2, 3];
    let k3 = [1u8, 2, 4];
    let h1 = String::from("hint");
    let a = Psk { key: &k1, hint: "hint" };
    let b = Psk { key: &k2, hint: &h1 };
    assert!(a == b);
    assert!(a != Psk { key: &k3, hint: "hint" });
    assert!(a != Psk { key: &k1, hint: "hinT" });
    assert!(a != Psk { key: &k1[..2], hint: "hint" });
    assert!(a != Psk { key: &k1, hint: "hin" });
}

#[test]
fn psk_copy_shares_the_buffers() {
    let key = [1u8, 2, 3];
    let a = Psk { key: &key, hint: "hint" };
    let b = a;
    assert!(a == b);
    assert!(std::ptr::eq(a.key.as_ptr(), b.key.as_ptr()));
    assert!(std::ptr::eq(a.hint.as_ptr(), b.hint.as_ptr()));
}
