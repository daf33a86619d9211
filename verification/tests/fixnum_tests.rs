use lispval::{Config, LispObject, LispType};

fn configs() -> [Config; 4] {
    [
        Config { word_bits: 64, tag_bits: 3, use_lsb_tag: true },
        Config { word_bits: 64, tag_bits: 3, use_lsb_tag: false },
        Config { word_bits: 32, tag_bits: 3, use_lsb_tag: true },
        Config { word_bits: 32, tag_bits: 3, use_lsb_tag: false },
    ]
}

#[test]
fn test_roundtrip_at_bounds_and_small_values() {
    for c in configs() {
        let most_pos = c.most_positive_fixnum();
        let most_neg = c.most_negative_fixnum();
        for n in [most_neg, -1, 0, 1, most_pos] {
            let v = LispObject::from_fixnum_unchecked(&c, n);
            assert!(v.is_fixnum(&c), "{n} under {c:?}");
            assert!(v.is_integer(&c));
            assert_eq!(v.to_fixnum(&c), Some(n), "{n} under {c:?}");
        }
    }
}

#[test]
fn test_roundtrip_various_values() {
    for c in configs() {
        for n in [2, -2, 42, -42, 1000000, -1000000, 536870911, -536870912] {
            let v = LispObject::from_fixnum_unchecked(&c, n);
            assert_eq!(v.to_fixnum(&c), Some(n));
        }
    }
}

#[test]
fn test_pack_exact_words_wide_lsb() {
    let c = Config { word_bits: 64, tag_bits: 3, use_lsb_tag: true };
    assert_eq!(LispObject::from_fixnum_unchecked(&c, 0).to_raw(), 2);
    assert_eq!(LispObject::from_fixnum_unchecked(&c, 1).to_raw(), 6);
    assert_eq!(LispObject::from_fixnum_unchecked(&c, -1).to_raw(), 0xFFFF_FFFF_FFFF_FFFE);
    assert_eq!(
        LispObject::from_fixnum_unchecked(&c, 2305843009213693951).to_raw(),
        0x7FFF_FFFF_FFFF_FFFE
    );
    assert_eq!(
        LispObject::from_fixnum_unchecked(&c, -2305843009213693952).to_raw(),
        0x8000_0000_0000_0002
    );
}

#[test]
fn test_pack_exact_words_wide_msb() {
    let c = Config { word_bits: 64, tag_bits: 3, use_lsb_tag: false };
    assert_eq!(LispObject::from_fixnum_unchecked(&c, 0).to_raw(), 2u64 << 61);
    assert_eq!(LispObject::from_fixnum_unchecked(&c, 1).to_raw(), (2u64 << 61) + 1);
    // A negative payload fills the fixnum field, which reaches into the
    // Int1 tag: -1 packs as all ones below the sign of the field.
    assert_eq!(LispObject::from_fixnum_unchecked(&c, -1).to_raw(), 0x7FFF_FFFF_FFFF_FFFF);
}

#[test]
fn test_int_tags_cover_both_codes() {
    let c = Config { word_bits: 64, tag_bits: 3, use_lsb_tag: true };
    let even = LispObject::from_fixnum_unchecked(&c, 2);
    let odd = LispObject::from_fixnum_unchecked(&c, 3);
    assert_eq!(even.get_type(&c), LispType::Lisp_Int0);
    assert_eq!(odd.get_type(&c), LispType::Lisp_Int1);
    assert!(even.is_fixnum(&c) && odd.is_fixnum(&c));

    let m = Config { word_bits: 64, tag_bits: 3, use_lsb_tag: false };
    let pos = LispObject::from_fixnum_unchecked(&m, 2);
    let neg = LispObject::from_fixnum_unchecked(&m, -2);
    assert_eq!(pos.get_type(&m), LispType::Lisp_Int0);
    assert_eq!(neg.get_type(&m), LispType::Lisp_Int1);
    assert!(pos.is_fixnum(&m) && neg.is_fixnum(&m));
}

#[test]
fn test_non_fixnum_unpacks_to_none() {
    for c in configs() {
        assert_eq!(lispval::qnil().to_fixnum(&c), None);
    }
    let c = Config { word_bits: 64, tag_bits: 3, use_lsb_tag: true };
    let consish = LispObject::from_raw(0x1000 + 3);
    assert_eq!(consish.to_fixnum(&c), None);
    assert!(!consish.is_fixnum(&c));
    let stringish = LispObject::from_raw(0x1000 + 4);
    assert_eq!(stringish.to_fixnum(&c), None);
}

#[test]
fn test_narrow_roundtrip_exact_words() {
    let c = Config { word_bits: 32, tag_bits: 3, use_lsb_tag: true };
    assert_eq!(LispObject::from_fixnum_unchecked(&c, -1).to_raw(), 0xFFFF_FFFE);
    assert_eq!(LispObject::from_fixnum_unchecked(&c, 536870911).to_raw(), 0x7FFF_FFFE);
    let m = Config { word_bits: 32, tag_bits: 3, use_lsb_tag: false };
    assert_eq!(LispObject::from_fixnum_unchecked(&m, 1).to_raw(), (2u64 << 29) + 1);
}
