//! Inline integers (fixnums): packing into and unpacking out of a tagged
//! word.
//!
//! A fixnum is stored in the payload bits of the word itself, with no box.
//! Two tag codes (`Lisp_Int0` and `Lisp_Int1`) both mean "integer", which
//! buys the payload one extra bit: `FIXNUM_BITS == VALBITS + 1`.

use vstd::prelude::*;
use vstd::arithmetic::power2::{pow2, lemma2_to64, lemma2_to64_rest};
use vstd::arithmetic::div_mod::{
    lemma_fundamental_div_mod,
    lemma_fundamental_div_mod_converse,
    lemma_mod_multiples_vanish,
    lemma_small_mod,
};
use vstd::arithmetic::mul::lemma_mul_inequality;
use vstd::bits::{low_bits_mask, lemma_u64_low_bits_mask_is_mod, lemma_u64_shr_is_div};
use crate::config::{Config, EmacsInt, lemma_cfg_caps, two_pow};
use crate::lisp::{LispObject, LispType, spec_type_code, type_code};

verus! {

/// The raw word that packing the integer `n` produces.
///
/// Low-bit tagging: `raw = (n << (tag_bits - 1)) + Lisp_Int0`, taken in the
/// word's two's complement, that is modulo `2^word_bits`.  High-bit
/// tagging: `raw = (n & INTMASK) + (Lisp_Int0 << VALBITS)`.
pub open spec fn spec_pack_fixnum(c: Config, n: int) -> int {
    if c.use_lsb_tag {
        (n * pow2((c.tag_bits - 1) as nat) + 2) % (c.word_cap() as int)
    } else {
        (n % (c.fix_cap() as int)) + 2 * (c.val_cap() as int)
    }
}

/// Whether the word's tag is one of the two integer codes.
pub open spec fn spec_is_fixnum(c: Config, w: u64) -> bool {
    ||| c.spec_tag(w) == spec_type_code(c, LispType::Lisp_Int0)
    ||| c.spec_tag(w) == spec_type_code(c, LispType::Lisp_Int1)
}

/// The unsigned fixnum field of a word: the payload shifted down under
/// low-bit tagging, masked out under high-bit tagging.
pub open spec fn spec_fixnum_payload(c: Config, w: u64) -> nat {
    if c.use_lsb_tag {
        (w as nat) / pow2((c.tag_bits - 1) as nat)
    } else {
        (w as nat) % c.fix_cap()
    }
}

/// Sign extension of the `FIXNUM_BITS`-wide field `u`.
pub open spec fn spec_sign_extend(c: Config, u: nat) -> int {
    if u < c.val_cap() {
        u as int
    } else {
        u - c.fix_cap()
    }
}

/// The integer a word unpacks to, if its tag says it holds one.
pub open spec fn spec_to_fixnum(c: Config, w: u64) -> Option<int> {
    if spec_is_fixnum(c, w) {
        Some(spec_sign_extend(c, spec_fixnum_payload(c, w)))
    } else {
        None
    }
}

/// Packing an in-range integer yields a word that fits the configured
/// width, carries one of the two integer tags, and unpacks to the same
/// integer again.
pub proof fn lemma_fixnum_roundtrip(c: Config, n: int)
    requires
        c.wf(),
        c.fixnum_in_range(n),
    ensures
        0 <= spec_pack_fixnum(c, n) < c.word_cap(),
        c.spec_tag(spec_pack_fixnum(c, n) as u64) < 8,
        spec_is_fixnum(c, spec_pack_fixnum(c, n) as u64),
        spec_to_fixnum(c, spec_pack_fixnum(c, n) as u64) == Some(n),
{
    lemma_cfg_caps(c);
    lemma2_to64();
    let v = c.val_cap() as int;
    let f = c.fix_cap() as int;
    let q = c.word_cap() as int;
    let m = if n >= 0 { n } else { n + f };
    assert(0 <= m < f);
    if c.use_lsb_tag {
        // tag_bits == 3: the payload shift is 4 and the tag modulus is 8.
        assert(pow2((c.tag_bits - 1) as nat) == 4);
        assert(c.tag_cap() == 8);
        assert(q == 4 * f);
        let x = n * 4 + 2;
        let w = m * 4 + 2;
        if n < 0 {
            assert(m * 4 == n * 4 + f * 4) by (nonlinear_arith)
                requires
                    m == n + f,
            ;
            assert(w == x + q);
            lemma_mod_multiples_vanish(1, x, q);
        }
        assert(0 <= w < q);
        lemma_small_mod(w as nat, q as nat);
        assert(spec_pack_fixnum(c, n) == w);
        let wu = w as u64;
        assert(wu as int == w);
        // The tag: w == (m/2)*8 + ((m%2)*4 + 2), so w % 8 is 2 or 6.
        lemma_fundamental_div_mod(m, 2);
        let mq = m / 2;
        let mr = m % 2;
        assert(w == mq * 8 + (mr * 4 + 2)) by (nonlinear_arith)
            requires
                m == 2 * mq + mr,
                w == m * 4 + 2,
        ;
        lemma_fundamental_div_mod_converse(w, 8, mq, mr * 4 + 2);
        assert(c.spec_tag(wu) == mr * 4 + 2);
        assert(c.spec_tag(wu) == 2 || c.spec_tag(wu) == 6);
        // The payload: w / 4 == m.
        lemma_fundamental_div_mod_converse(w, 4, m, 2);
        assert(spec_fixnum_payload(c, wu) == m);
        if n >= 0 {
            assert(spec_sign_extend(c, m as nat) == n);
        } else {
            assert(m >= v);
            assert(spec_sign_extend(c, m as nat) == m - f);
        }
    } else {
        // The payload field: m == n mod fix_cap.
        if n >= 0 {
            lemma_small_mod(n as nat, f as nat);
        } else {
            lemma_mod_multiples_vanish(1, n, f);
            lemma_small_mod(m as nat, f as nat);
        }
        assert(n % f == m);
        let w = m + f;
        assert(f == 2 * v);
        assert(spec_pack_fixnum(c, n) == w);
        // The word fits: w < 4v and q >= 8v.
        assert(q >= 8 * v) by (nonlinear_arith)
            requires
                q == c.tag_cap() * v,
                c.tag_cap() >= 8,
                v >= 0,
        ;
        assert(0 <= w < q);
        let wu = w as u64;
        assert(wu as int == w);
        // The tag: w / v is 2 for m below v, 3 above.
        if m < v {
            lemma_fundamental_div_mod_converse(w, v, 2, m);
            assert(c.spec_tag(wu) == 2);
        } else {
            lemma_fundamental_div_mod_converse(w, v, 3, m - v);
            assert(c.spec_tag(wu) == 3);
        }
        // The payload: (m + f) % f == m.
        lemma_mod_multiples_vanish(1, m, f);
        lemma_small_mod(m as nat, f as nat);
        assert(spec_fixnum_payload(c, wu) == m);
        if n >= 0 {
            assert(spec_sign_extend(c, m as nat) == n);
        } else {
            assert(m >= v);
            assert(spec_sign_extend(c, m as nat) == m - f);
        }
    }
}

impl LispObject {
    /// Whether this value is an inline integer.  The discriminant is the
    /// merged bitmask test `(tag & (Int0 | !Int1)) == Int0`, which accepts
    /// exactly the two integer tag codes.
    pub fn is_fixnum(self, c: &Config) -> (b: bool)
        requires
            c.wf(),
            c.fits(self@),
            c.spec_tag(self@) < 8,
        ensures
            b == spec_is_fixnum(*c, self@),
    {
        let ty = self.get_type(c);
        let t = type_code(c, ty);
        let int0 = type_code(c, LispType::Lisp_Int0);
        let int1 = type_code(c, LispType::Lisp_Int1);
        let b = (t & (int0 | !int1)) == int0;
        proof {
            crate::lisp::lemma_type_code_of(*c, self@);
            if c.use_lsb_tag {
                assert((t & (2u64 | !6u64) == 2u64) == (t == 2 || t == 6)) by (bit_vector);
            } else {
                assert((t & (2u64 | !3u64) == 2u64) == (t == 2 || t == 3)) by (bit_vector);
            }
        }
        b
    }

    /// Whether this value is an integer.  (Fixnums are the only integer
    /// representation here.)
    pub fn is_integer(self, c: &Config) -> (b: bool)
        requires
            c.wf(),
            c.fits(self@),
            c.spec_tag(self@) < 8,
        ensures
            b == spec_is_fixnum(*c, self@),
    {
        self.is_fixnum(c)
    }

    /// Pack an integer into a tagged word.  Unchecked in the sense that
    /// the caller must already know `n` to be in fixnum range.
    pub fn from_fixnum_unchecked(c: &Config, n: EmacsInt) -> (r: LispObject)
        requires
            c.wf(),
            c.fixnum_in_range(n as int),
        ensures
            r@ as int == spec_pack_fixnum(*c, n as int),
            c.fits(r@),
            c.spec_tag(r@) < 8,
            spec_to_fixnum(*c, r@) == Some(n as int),
    {
        proof {
            lemma_cfg_caps(*c);
            lemma2_to64();
            lemma2_to64_rest();
            lemma_fixnum_roundtrip(*c, n as int);
        }
        let fc = two_pow(c.word_bits - c.tag_bits + 1);
        let m: u64 = if n >= 0 {
            n as u64
        } else {
            (n + (fc as i64)) as u64
        };
        if c.use_lsb_tag {
            let p = two_pow(c.tag_bits - 1);
            proof {
                assert(m * p <= (c.fix_cap() - 1) * p) by (nonlinear_arith)
                    requires
                        m as int <= c.fix_cap() - 1,
                        p >= 0,
                ;
                assert((c.fix_cap() - 1) * p == c.word_cap() - p) by (nonlinear_arith)
                    requires
                        c.fix_cap() * p == c.word_cap(),
                ;
                if n < 0 {
                    assert(m * p == n * p + c.fix_cap() * p) by (nonlinear_arith)
                        requires
                            m == n + c.fix_cap(),
                    ;
                }
                let q = c.word_cap() as int;
                let x = (n as int) * (p as int) + 2;
                if n >= 0 {
                    assert(m * p + 2 == x);
                } else {
                    assert(m * p + 2 == x + q);
                    lemma_mod_multiples_vanish(1, x, q);
                }
                lemma_small_mod((m * p + 2) as nat, c.word_cap());
                assert(spec_pack_fixnum(*c, n as int) == m * p + 2);
            }
            LispObject::from_raw(m * p + 2)
        } else {
            proof {
                let f = c.fix_cap() as int;
                if n >= 0 {
                    lemma_small_mod(n as nat, c.fix_cap());
                } else {
                    lemma_mod_multiples_vanish(1, n as int, f);
                    lemma_small_mod((n + f) as nat, c.fix_cap());
                }
                assert(spec_pack_fixnum(*c, n as int) == m + fc);
            }
            LispObject::from_raw(m + fc)
        }
    }

    /// Unpack the integer held in this word, or `None` when the tag says
    /// it holds something else.
    pub fn to_fixnum(self, c: &Config) -> (r: Option<EmacsInt>)
        requires
            c.wf(),
            c.fits(self@),
            c.spec_tag(self@) < 8,
        ensures
            r is Some <==> spec_is_fixnum(*c, self@),
            r is Some ==> Some(r->Some_0 as int) == spec_to_fixnum(*c, self@),
    {
        if self.is_fixnum(c) {
            proof {
                lemma_cfg_caps(*c);
                lemma2_to64();
                lemma2_to64_rest();
            }
            let raw = self.to_raw();
            let u: u64 = if c.use_lsb_tag {
                let sh = c.tag_bits - 1;
                proof {
                    lemma_u64_shr_is_div(raw, sh);
                    // raw < word_cap, so raw / 4 < fix_cap.
                    assert(pow2((c.tag_bits - 1) as nat) == 4);
                    lemma_fundamental_div_mod(raw as int, 4);
                    assert(raw as int / 4 < c.fix_cap()) by (nonlinear_arith)
                        requires
                            raw as int == 4 * (raw as int / 4) + (raw as int % 4),
                            raw as int % 4 >= 0,
                            (raw as int) < c.word_cap(),
                            c.word_cap() == 4 * c.fix_cap(),
                    ;
                }
                raw >> sh
            } else {
                let im = c.intmask();
                proof {
                    lemma_u64_low_bits_mask_is_mod(raw, c.valbits() + 1);
                    assert(im as nat == low_bits_mask(c.valbits() + 1));
                }
                raw & im
            };
            assert((u as nat) == spec_fixnum_payload(*c, self@));
            assert((u as nat) < c.fix_cap());
            let vc = two_pow(c.word_bits - c.tag_bits);
            let fc = two_pow(c.word_bits - c.tag_bits + 1);
            if u < vc {
                Some(u as i64)
            } else {
                Some(-((fc - u) as i64))
            }
        } else {
            None
        }
    }
}

} // verus!
