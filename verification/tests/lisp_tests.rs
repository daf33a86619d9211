use lispval::CharBits;
use lispval::{Config, LispMiscAny, LispObject, LispType, XTYPE, XUNTAG, qnil};
use std::mem;

fn wide_lsb() -> Config {
    Config { word_bits: 64, tag_bits: 3, use_lsb_tag: true }
}

fn wide_msb() -> Config {
    Config { word_bits: 64, tag_bits: 3, use_lsb_tag: false }
}

fn narrow_lsb() -> Config {
    Config { word_bits: 32, tag_bits: 3, use_lsb_tag: true }
}

fn narrow_msb() -> Config {
    Config { word_bits: 32, tag_bits: 3, use_lsb_tag: false }
}

#[test]
fn test_lisp_misc_any_size() {
    // Should be 32 bits, which is 4 bytes.
    assert!(mem::size_of::<LispMiscAny>() == 4);
}

#[test]
fn test_derived_constants_wide() {
    let c = wide_lsb();
    assert_eq!(c.val_max(), (1u64 << 61) - 1);
    assert_eq!(c.valmask(), !7u64);
    assert_eq!(c.intmask(), (1u64 << 62) - 1);
    assert_eq!(c.most_positive_fixnum(), 2305843009213693951);
    assert_eq!(c.most_negative_fixnum(), -2305843009213693952);
    let m = wide_msb();
    assert_eq!(m.valmask(), (1u64 << 61) - 1);
    assert_eq!(m.most_positive_fixnum(), 2305843009213693951);
}

#[test]
fn test_derived_constants_narrow() {
    let c = narrow_lsb();
    assert_eq!(c.val_max(), (1u64 << 29) - 1);
    assert_eq!(c.valmask(), 0xFFFF_FFF8);
    assert_eq!(c.most_positive_fixnum(), 536870911);
    assert_eq!(c.most_negative_fixnum(), -536870912);
    let m = narrow_msb();
    assert_eq!(m.valmask(), (1u64 << 29) - 1);
}

#[test]
fn test_nil_is_symbol_all_configs() {
    for c in [wide_lsb(), wide_msb(), narrow_lsb(), narrow_msb()] {
        let nil = qnil();
        assert_eq!(nil.to_raw(), 0);
        assert_eq!(nil.get_type(&c), LispType::Lisp_Symbol);
        assert!(nil.is_symbol(&c));
        assert_eq!(XTYPE(&c, nil), LispType::Lisp_Symbol);
    }
}

#[test]
fn test_cons_tag_classifies_both_modes() {
    let c = wide_lsb();
    let v = LispObject::from_raw(0x1000 + 3);
    assert_eq!(v.get_type(&c), LispType::Lisp_Cons);

    let m = wide_msb();
    let w = LispObject::from_raw((6u64 << 61) | 0x1000);
    assert_eq!(w.get_type(&m), LispType::Lisp_Cons);

    let nc = narrow_lsb();
    let x = LispObject::from_raw(0x2000 + 3);
    assert_eq!(x.get_type(&nc), LispType::Lisp_Cons);

    let nm = narrow_msb();
    let y = LispObject::from_raw((6u64 << 29) | 0x2000);
    assert_eq!(y.get_type(&nm), LispType::Lisp_Cons);
}

#[test]
fn test_all_tags_classify_wide_lsb() {
    let c = wide_lsb();
    let base = 0x4000u64;
    assert_eq!(LispObject::from_raw(base).get_type(&c), LispType::Lisp_Symbol);
    assert_eq!(LispObject::from_raw(base + 1).get_type(&c), LispType::Lisp_Misc);
    assert_eq!(LispObject::from_raw(base + 2).get_type(&c), LispType::Lisp_Int0);
    assert_eq!(LispObject::from_raw(base + 3).get_type(&c), LispType::Lisp_Cons);
    assert_eq!(LispObject::from_raw(base + 4).get_type(&c), LispType::Lisp_String);
    assert_eq!(LispObject::from_raw(base + 5).get_type(&c), LispType::Lisp_Vectorlike);
    assert_eq!(LispObject::from_raw(base + 6).get_type(&c), LispType::Lisp_Int1);
    assert_eq!(LispObject::from_raw(base + 7).get_type(&c), LispType::Lisp_Float);
}

#[test]
fn test_all_tags_classify_wide_msb() {
    let c = wide_msb();
    let base = 0x4000u64;
    assert_eq!(LispObject::from_raw(base).get_type(&c), LispType::Lisp_Symbol);
    assert_eq!(LispObject::from_raw((1u64 << 61) | base).get_type(&c), LispType::Lisp_Misc);
    assert_eq!(LispObject::from_raw((2u64 << 61) | base).get_type(&c), LispType::Lisp_Int0);
    assert_eq!(LispObject::from_raw((3u64 << 61) | base).get_type(&c), LispType::Lisp_Int1);
    assert_eq!(LispObject::from_raw((4u64 << 61) | base).get_type(&c), LispType::Lisp_String);
    assert_eq!(
        LispObject::from_raw((5u64 << 61) | base).get_type(&c),
        LispType::Lisp_Vectorlike
    );
    assert_eq!(LispObject::from_raw((6u64 << 61) | base).get_type(&c), LispType::Lisp_Cons);
    assert_eq!(LispObject::from_raw((7u64 << 61) | base).get_type(&c), LispType::Lisp_Float);
}

#[test]
fn test_get_untaggedptr() {
    let c = wide_lsb();
    let v = LispObject::from_raw(0x1000 + 3);
    assert_eq!(v.get_untaggedptr(&c), 0x1000);
    assert_eq!(XUNTAG(&c, v, LispType::Lisp_Cons), 0x1000);

    let m = wide_msb();
    let w = LispObject::from_raw((6u64 << 61) | 0x1000);
    assert_eq!(w.get_untaggedptr(&m), 0x1000);

    let nm = narrow_msb();
    let y = LispObject::from_raw((4u64 << 29) | 0x2468);
    assert_eq!(y.get_untaggedptr(&nm), 0x2468);
}

#[test]
fn test_external_ptr_roundtrip() {
    let p: lispval::LispMiscRef = lispval::ExternalPtr::new(0xDEAD0);
    assert_eq!(p.as_ptr(), 0xDEAD0);
}

#[test]
fn test_debug_render_valid_forms() {
    let c = wide_lsb();
    let one = LispObject::from_fixnum_unchecked(&c, 1);
    assert_eq!(one.debug_render(&c, 0), "#<INT @ 0x0: VAL(0x6)>");
    assert_eq!(qnil().debug_render(&c, 0x20), "#<SYMBOL @ 0x20: VAL(0x0)>");
    let v = LispObject::from_raw(0x1000 + 3);
    assert_eq!(v.debug_render(&c, 0xFF), "#<CONS @ 0xFF: VAL(0x1003)>");
}

#[test]
fn test_debug_render_invalid_tag() {
    // A high-bit-tag configuration with four tag bits leaves room for
    // codes 8..15, which no legitimate value carries.
    let c = Config { word_bits: 32, tag_bits: 4, use_lsb_tag: false };
    let v = LispObject::from_raw(9u64 << 28);
    assert_eq!(v.debug_render(&c, 0), "#<INVALID-OBJECT @ 0x0: VAL(0x90000000)>");
}

#[test]
fn test_hex_string() {
    assert_eq!(lispval::hex_string(0), "0x0");
    assert_eq!(lispval::hex_string(255), "0xFF");
    assert_eq!(lispval::hex_string(0x1003), "0x1003");
    assert_eq!(lispval::hex_string(u64::MAX), "0xFFFFFFFFFFFFFFFF");
}

#[test]
fn test_char_bits_values() {
    assert_eq!(CharBits::CHAR_ALT.value(), 0x0400000);
    assert_eq!(CharBits::CHAR_SUPER.value(), 0x0800000);
    assert_eq!(CharBits::CHAR_HYPER.value(), 0x1000000);
    assert_eq!(CharBits::CHAR_SHIFT.value(), 0x2000000);
    assert_eq!(CharBits::CHAR_CTL.value(), 0x4000000);
    assert_eq!(CharBits::CHAR_META.value(), 0x8000000);
    assert_eq!(
        CharBits::CHAR_MODIFIER_MASK.value(),
        0x0400000 | 0x0800000 | 0x1000000 | 0x2000000 | 0x4000000 | 0x8000000
    );
    assert_eq!(CharBits::CHARACTERBITS.value(), 22);
}
