use lispval::{CONSP, Config, LispCons, LispObject, NILP, XCDR, cdr, qnil, wrong_type_argument};

fn wide_lsb() -> Config {
    Config { word_bits: 64, tag_bits: 3, use_lsb_tag: true }
}

fn wide_msb() -> Config {
    Config { word_bits: 64, tag_bits: 3, use_lsb_tag: false }
}

#[test]
fn test_nilp() {
    assert!(NILP(qnil()));
    assert!(NILP(LispObject::from_raw(0)));
    assert!(!NILP(LispObject::from_raw(2)));
    let c = wide_lsb();
    assert!(!NILP(LispObject::from_fixnum_unchecked(&c, 0)));
}

#[test]
fn test_consp() {
    let c = wide_lsb();
    assert!(CONSP(&c, LispObject::from_raw(0x1000 + 3)));
    assert!(!CONSP(&c, qnil()));
    assert!(!CONSP(&c, LispObject::from_fixnum_unchecked(&c, 3)));
    let m = wide_msb();
    assert!(CONSP(&m, LispObject::from_raw((6u64 << 61) | 0x1000)));
    assert!(!CONSP(&m, qnil()));
}

#[test]
fn test_xcdr_reads_cell() {
    let c = wide_lsb();
    let cell = LispCons {
        car: LispObject::from_fixnum_unchecked(&c, 10),
        cdr: LispObject::from_fixnum_unchecked(&c, 20),
    };
    assert_eq!(XCDR(&cell), LispObject::from_fixnum_unchecked(&c, 20));
}

#[test]
fn test_cdr_scenario() {
    // A cons of head 1 and tail 2: the tail accessor hands back the
    // packed 2 unchanged; nil's cdr is nil; an integer signals a type
    // error instead of producing a value.
    let c = wide_lsb();
    let cell = LispCons {
        car: LispObject::from_fixnum_unchecked(&c, 1),
        cdr: LispObject::from_fixnum_unchecked(&c, 2),
    };
    let object = LispObject::from_raw(0x1000 + 3);
    assert_eq!(cdr(&c, object, Some(&cell)), Ok(LispObject::from_fixnum_unchecked(&c, 2)));

    assert_eq!(cdr(&c, qnil(), None), Ok(qnil()));

    let three = LispObject::from_fixnum_unchecked(&c, 3);
    let r = cdr(&c, three, None);
    assert!(r.is_err());
    let e = r.unwrap_err();
    assert_eq!(e.predicate, qnil());
    assert_eq!(e.value, three);
}

#[test]
fn test_cdr_scenario_msb() {
    let m = wide_msb();
    let cell = LispCons {
        car: LispObject::from_fixnum_unchecked(&m, 1),
        cdr: LispObject::from_fixnum_unchecked(&m, 2),
    };
    let object = LispObject::from_raw((6u64 << 61) | 0x1000);
    assert_eq!(cdr(&m, object, Some(&cell)), Ok(LispObject::from_fixnum_unchecked(&m, 2)));
    assert_eq!(cdr(&m, qnil(), None), Ok(qnil()));
    assert!(cdr(&m, LispObject::from_fixnum_unchecked(&m, 3), None).is_err());
}

#[test]
fn test_wrong_type_argument_carries_its_inputs() {
    let c = wide_lsb();
    let v = LispObject::from_fixnum_unchecked(&c, 9);
    let e = wrong_type_argument(qnil(), v);
    assert_eq!(e.predicate, qnil());
    assert_eq!(e.value, v);
}

#[test]
fn test_extract_numeric_of_nil_is_none() {
    for c in [wide_lsb(), wide_msb()] {
        assert_eq!(qnil().extract_float(&c, None), None);
    }
}
