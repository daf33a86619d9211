//! The tagged word itself: wrapping, classification and payload extraction.

use vstd::prelude::*;
use vstd::arithmetic::power2::{pow2, lemma2_to64, lemma2_to64_rest};
use vstd::bits::{low_bits_mask, lemma_u64_low_bits_mask_is_mod, lemma_u64_shr_is_div};
use core::marker::PhantomData;
use crate::config::{Config, EmacsUint};

verus! {

/// A Lisp value: one machine word holding a type tag and a payload.  The
/// payload is either an inline integer (a fixnum) or the masked address of
/// an out-of-line box owned by the host allocator.  The word is stored in
/// the unsigned reading; under a 32-bit configuration only the low 32 bits
/// are used.
#[derive(Clone, Copy, PartialEq, Eq, Structural, Debug)]
#[verifier::ext_equal]
pub struct LispObject {
    raw: u64,
}

impl View for LispObject {
    type V = u64;

    closed spec fn view(&self) -> u64 {
        self.raw
    }
}

/// Two tagged values are equal exactly when their raw words are.
pub proof fn lemma_lisp_object_eq(a: LispObject, b: LispObject)
    ensures
        (a == b) <==> (a@ == b@),
{
    if a@ == b@ {
        assert(a =~= b);
    }
}

impl LispObject {
    /// Wrap a raw word.  Unchecked: the caller guarantees that `i` encodes
    /// a well-formed value under the active configuration.
    pub fn from_raw(i: EmacsUint) -> (r: LispObject)
        ensures
            r@ == i,
    {
        LispObject { raw: i }
    }

    /// The raw word of this value.
    pub fn to_raw(self) -> (r: EmacsUint)
        ensures
            r == self@,
    {
        self.raw
    }
}

/// The nil sentinel: the symbol whose word is all zero.
pub fn qnil() -> (r: LispObject)
    ensures
        r@ == 0,
{
    LispObject { raw: 0 }
}

/// The eight type tag codes.  `Lisp_Int0`/`Lisp_Int1` jointly mean
/// "integer"; spending two codes on integers reclaims one extra payload
/// bit for fixnums.  The numeric codes of `Lisp_Int1` and `Lisp_Cons`
/// (6 and 3) swap with the tagging mode, so that integers keep the
/// cheaper tag form; see `spec_type_code`.
#[derive(Clone, Copy, PartialEq, Eq, Structural, Debug)]
#[allow(non_camel_case_types)]
pub enum LispType {
    Lisp_Symbol,
    Lisp_Misc,
    Lisp_Int0,
    Lisp_Int1,
    Lisp_String,
    Lisp_Vectorlike,
    Lisp_Cons,
    Lisp_Float,
}

/// The numeric tag code of each type under configuration `c`.
pub open spec fn spec_type_code(c: Config, t: LispType) -> nat {
    match t {
        LispType::Lisp_Symbol => 0,
        LispType::Lisp_Misc => 1,
        LispType::Lisp_Int0 => 2,
        LispType::Lisp_Int1 => if c.use_lsb_tag { 6 } else { 3 },
        LispType::Lisp_String => 4,
        LispType::Lisp_Vectorlike => 5,
        LispType::Lisp_Cons => if c.use_lsb_tag { 3 } else { 6 },
        LispType::Lisp_Float => 7,
    }
}

/// The classification of a raw word whose tag code is below 8.
pub open spec fn spec_type_of(c: Config, w: u64) -> LispType {
    let t = c.spec_tag(w);
    if t == 0 {
        LispType::Lisp_Symbol
    } else if t == 1 {
        LispType::Lisp_Misc
    } else if t == 2 {
        LispType::Lisp_Int0
    } else if t == 4 {
        LispType::Lisp_String
    } else if t == 5 {
        LispType::Lisp_Vectorlike
    } else if t == 7 {
        LispType::Lisp_Float
    } else if t == spec_type_code(c, LispType::Lisp_Int1) {
        LispType::Lisp_Int1
    } else {
        LispType::Lisp_Cons
    }
}

/// Classification is the inverse of the code assignment: reading the tag
/// of a legitimately constructed word names the type that carries that
/// code.
pub proof fn lemma_type_code_of(c: Config, w: u64)
    requires
        c.wf(),
        c.spec_tag(w) < 8,
    ensures
        spec_type_code(c, spec_type_of(c, w)) == c.spec_tag(w),
{
}

/// Any word whose tag is the cons code classifies as a cons, in either
/// tagging mode.
pub proof fn lemma_cons_tag_classifies(c: Config, w: u64)
    requires
        c.wf(),
        c.fits(w),
        c.spec_tag(w) == spec_type_code(c, LispType::Lisp_Cons),
    ensures
        spec_type_of(c, w) == LispType::Lisp_Cons,
{
}

/// The numeric tag code of a type, as the executable code computes it.
pub fn type_code(c: &Config, t: LispType) -> (r: u64)
    ensures
        r as nat == spec_type_code(*c, t),
{
    match t {
        LispType::Lisp_Symbol => 0,
        LispType::Lisp_Misc => 1,
        LispType::Lisp_Int0 => 2,
        LispType::Lisp_Int1 => if c.use_lsb_tag { 6 } else { 3 },
        LispType::Lisp_String => 4,
        LispType::Lisp_Vectorlike => 5,
        LispType::Lisp_Cons => if c.use_lsb_tag { 3 } else { 6 },
        LispType::Lisp_Float => 7,
    }
}

/// The tags whose payload is a masked address of an out-of-line box.
pub open spec fn spec_pointer_bearing(t: LispType) -> bool {
    ||| t == LispType::Lisp_Misc
    ||| t == LispType::Lisp_String
    ||| t == LispType::Lisp_Vectorlike
    ||| t == LispType::Lisp_Cons
    ||| t == LispType::Lisp_Float
}

impl LispObject {
    /// The raw tag code of the word: `raw & ~VALMASK` under low-bit
    /// tagging, `raw >> VALBITS` under high-bit tagging.  Total: defined
    /// even for codes that no legitimate value carries, so that the debug
    /// formatter can report them.
    pub fn raw_tag_code(self, c: &Config) -> (code: u64)
        requires
            c.wf(),
            c.fits(self@),
        ensures
            code as nat == c.spec_tag(self@),
    {
        let raw = self.to_raw();
        if c.use_lsb_tag {
            let vm = c.valmask();
            let code = raw & !vm;
            proof {
                lemma2_to64();
                lemma2_to64_rest();
                if c.word_bits == 64 {
                    assert(raw & !vm == raw % 8) by (bit_vector)
                        requires
                            vm == 0xFFFF_FFFF_FFFF_FFF8u64,
                    ;
                } else {
                    assert(raw & !vm == raw % 8) by (bit_vector)
                        requires
                            vm == 0xFFFF_FFF8u64,
                            raw < 0x1_0000_0000u64,
                    ;
                }
            }
            code
        } else {
            let sh = c.word_bits - c.tag_bits;
            proof {
                lemma_u64_shr_is_div(raw, sh);
            }
            raw >> sh
        }
    }

    /// The type of this value.  The tag code must be one of the eight
    /// legitimate codes; words with larger codes never arise from
    /// well-formed construction and are only handled, defensively, by the
    /// debug formatter.
    pub fn get_type(self, c: &Config) -> (t: LispType)
        requires
            c.wf(),
            c.fits(self@),
            c.spec_tag(self@) < 8,
        ensures
            t == spec_type_of(*c, self@),
    {
        let code = self.raw_tag_code(c);
        if code == 0 {
            LispType::Lisp_Symbol
        } else if code == 1 {
            LispType::Lisp_Misc
        } else if code == 2 {
            LispType::Lisp_Int0
        } else if code == 4 {
            LispType::Lisp_String
        } else if code == 5 {
            LispType::Lisp_Vectorlike
        } else if code == 7 {
            LispType::Lisp_Float
        } else if code == type_code(c, LispType::Lisp_Int1) {
            LispType::Lisp_Int1
        } else {
            LispType::Lisp_Cons
        }
    }

    /// Recover the untagged address held in a pointer-bearing word:
    /// `raw & VALMASK`.  Calling this on a non-pointer-bearing value is a
    /// contract violation, not a reported error.
    pub fn get_untaggedptr(self, c: &Config) -> (p: u64)
        requires
            c.wf(),
            c.fits(self@),
            c.spec_tag(self@) < 8,
            spec_pointer_bearing(spec_type_of(*c, self@)),
        ensures
            p as nat == c.spec_untag(self@),
    {
        let raw = self.to_raw();
        let vm = c.valmask();
        let p = raw & vm;
        proof {
            lemma2_to64();
            lemma2_to64_rest();
            if c.use_lsb_tag {
                if c.word_bits == 64 {
                    assert((raw & vm) + raw % 8 == raw) by (bit_vector)
                        requires
                            vm == 0xFFFF_FFFF_FFFF_FFF8u64,
                    ;
                } else {
                    assert((raw & vm) + raw % 8 == raw) by (bit_vector)
                        requires
                            vm == 0xFFFF_FFF8u64,
                            raw < 0x1_0000_0000u64,
                    ;
                }
            } else {
                lemma_u64_low_bits_mask_is_mod(raw, c.valbits());
                assert(vm as nat == low_bits_mask(c.valbits()));
            }
        }
        p
    }

    /// Whether this value is a symbol.
    pub fn is_symbol(self, c: &Config) -> (b: bool)
        requires
            c.wf(),
            c.fits(self@),
            c.spec_tag(self@) < 8,
        ensures
            b == (spec_type_of(*c, self@) == LispType::Lisp_Symbol),
    {
        self.get_type(c) == LispType::Lisp_Symbol
    }

    /// Whether this value is a string box reference.
    pub fn is_string(self, c: &Config) -> (b: bool)
        requires
            c.wf(),
            c.fits(self@),
            c.spec_tag(self@) < 8,
        ensures
            b == (spec_type_of(*c, self@) == LispType::Lisp_String),
    {
        self.get_type(c) == LispType::Lisp_String
    }
}

/// Return the type of a Lisp value.
#[allow(non_snake_case)]
pub fn XTYPE(c: &Config, a: LispObject) -> (t: LispType)
    requires
        c.wf(),
        c.fits(a@),
        c.spec_tag(a@) < 8,
    ensures
        t == spec_type_of(*c, a@),
{
    a.get_type(c)
}

/// Convert a tagged word to the untagged address it carries.  The type
/// argument only documents the caller's expectation, as the original
/// macro's did.
#[allow(non_snake_case)]
pub fn XUNTAG(c: &Config, a: LispObject, _ty: LispType) -> (p: u64)
    requires
        c.wf(),
        c.fits(a@),
        c.spec_tag(a@) < 8,
        spec_pointer_bearing(spec_type_of(*c, a@)),
    ensures
        p as nat == c.spec_untag(a@),
{
    a.get_untaggedptr(c)
}

/// A non-owning reference into a box that the host allocator owns,
/// carried as a plain address.  This layer never dereferences it; the
/// host resolves it against its own memory.
#[derive(Debug)]
pub struct ExternalPtr<T> {
    addr: u64,
    marker: PhantomData<T>,
}

impl<T> Clone for ExternalPtr<T> {
    fn clone(&self) -> (r: Self)
        ensures
            r == *self,
    {
        ExternalPtr { addr: self.addr, marker: PhantomData }
    }
}

impl<T> Copy for ExternalPtr<T> {

}

impl<T> ExternalPtr<T> {
    /// The address this reference carries.
    pub closed spec fn spec_addr(self) -> u64 {
        self.addr
    }

    /// Wrap an address obtained from a tagged word.
    pub fn new(p: u64) -> (r: ExternalPtr<T>)
        ensures
            r.spec_addr() == p,
    {
        ExternalPtr { addr: p, marker: PhantomData }
    }

    /// The raw address, for the host to resolve.
    pub fn as_ptr(&self) -> (r: u64)
        ensures
            r == self.spec_addr(),
    {
        self.addr
    }
}

/// Flag bits packed into a character code above the character value
/// itself, which occupies the low `CHARACTERBITS` bits.
#[derive(Clone, Copy, PartialEq, Eq, Structural, Debug)]
#[allow(non_camel_case_types)]
pub enum CharBits {
    CHAR_ALT,
    CHAR_SUPER,
    CHAR_HYPER,
    CHAR_SHIFT,
    CHAR_CTL,
    CHAR_META,
    CHAR_MODIFIER_MASK,
    CHARACTERBITS,
}

/// The numeric value of each character flag.
pub open spec fn spec_char_bit(b: CharBits) -> u32 {
    match b {
        CharBits::CHAR_ALT => 0x0400000,
        CharBits::CHAR_SUPER => 0x0800000,
        CharBits::CHAR_HYPER => 0x1000000,
        CharBits::CHAR_SHIFT => 0x2000000,
        CharBits::CHAR_CTL => 0x4000000,
        CharBits::CHAR_META => 0x8000000,
        CharBits::CHAR_MODIFIER_MASK => 0xFC00000,
        CharBits::CHARACTERBITS => 22,
    }
}

/// The modifier mask is exactly the union of the six modifier bits.
pub proof fn lemma_char_modifier_mask()
    ensures
        spec_char_bit(CharBits::CHAR_MODIFIER_MASK) == (spec_char_bit(CharBits::CHAR_ALT) | spec_char_bit(
            CharBits::CHAR_SUPER,
        ) | spec_char_bit(CharBits::CHAR_HYPER) | spec_char_bit(CharBits::CHAR_SHIFT) | spec_char_bit(
            CharBits::CHAR_CTL,
        ) | spec_char_bit(CharBits::CHAR_META)),
{
    assert(0xFC00000u32 == (0x0400000u32 | 0x0800000u32 | 0x1000000u32 | 0x2000000u32
        | 0x4000000u32 | 0x8000000u32)) by (bit_vector);
}

impl CharBits {
    /// The numeric value of this flag.
    pub fn value(self) -> (r: u32)
        ensures
            r == spec_char_bit(self),
    {
        match self {
            CharBits::CHAR_ALT => 0x0400000,
            CharBits::CHAR_SUPER => 0x0800000,
            CharBits::CHAR_HYPER => 0x1000000,
            CharBits::CHAR_SHIFT => 0x2000000,
            CharBits::CHAR_CTL => 0x4000000,
            CharBits::CHAR_META => 0x8000000,
            CharBits::CHAR_MODIFIER_MASK => 0xFC00000,
            CharBits::CHARACTERBITS => 22,
        }
    }
}

/// A string box: character and byte counts, an opaque reference to the
/// host's interval table, and the address of the byte data.  All storage
/// belongs to the host allocator; the addresses are opaque words here.
#[derive(Clone, Copy, PartialEq, Eq, Structural, Debug)]
pub struct LispString {
    /// Number of characters.
    pub size: i64,
    /// Number of bytes.
    pub size_byte: i64,
    /// Address of the text-property interval tree, or zero.
    pub intervals: u64,
    /// Address of the byte data.
    pub data: u64,
}

/// A typed runtime error: the value did not satisfy the predicate that
/// the operation demanded.  The host evaluator treats it as an abrupt,
/// non-local exit and catches it at a well-defined boundary.
#[derive(Clone, Copy, PartialEq, Eq, Structural, Debug)]
pub struct LispSignal {
    pub predicate: LispObject,
    pub value: LispObject,
}

/// The type-error signalling primitive: build the error that the host
/// propagates to its handler.
pub fn wrong_type_argument(predicate: LispObject, value: LispObject) -> (e: LispSignal)
    ensures
        e.predicate == predicate,
        e.value == value,
{
    LispSignal { predicate, value }
}

} // verus!
