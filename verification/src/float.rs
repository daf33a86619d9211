//! Float boxes and the numeric accessors.
//!
//! A float box stores one double-width floating-point value out of line.
//! This layer never computes with the value: it hands out the raw bit
//! pattern, and the host (which owns the floating-point type) widens it.

use vstd::prelude::*;
use vstd::arithmetic::power2::lemma_pow2_pos;
use vstd::bytes::{spec_u32_from_le_bytes, spec_u64_from_le_bytes, u32_from_le_bytes, u64_from_le_bytes};
use vstd::slice::slice_subrange;
use crate::config::Config;
use crate::fixnum::{spec_is_fixnum, spec_to_fixnum};
use crate::lisp::{ExternalPtr, LispObject, LispType, spec_type_of};

verus! {

/// The byte width of the boxed floating-point value.  The box is sized
/// to the larger of the floating-point value and a pointer, and on both
/// supported word widths that larger size is eight bytes.
pub const EMACS_FLOAT_SIZE: usize = 8;

/// A float box: eight bytes holding either the bit pattern of a
/// double-width floating-point value or, only while the box sits on the
/// allocator's free list, the address of the next free box.  The two
/// readings alias the same storage and are never simultaneously valid;
/// whether the box is live or free — state the allocator tracks, not the
/// type — selects the reading.
pub struct LispFloat {
    data: [u8; 8],
}

impl View for LispFloat {
    type V = Seq<u8>;

    closed spec fn view(&self) -> Seq<u8> {
        self.data@
    }
}

/// The free-list reading of a float box: the address of the next free
/// box, as wide as the configured word.
#[derive(Clone, Copy, PartialEq, Eq, Structural, Debug)]
pub struct LispFloatChainRepr(pub u64);

/// The chain address stored in the first pointer-width bytes of the box,
/// little endian.
pub open spec fn spec_float_chain(c: Config, bytes: Seq<u8>) -> u64 {
    if c.word_bits == 64 {
        spec_u64_from_le_bytes(bytes)
    } else {
        spec_u32_from_le_bytes(bytes.subrange(0, 4)) as u64
    }
}

impl LispFloat {
    /// Build a box from its raw bytes, as the host allocator lays them
    /// out.
    pub fn new(data: [u8; 8]) -> (r: LispFloat)
        ensures
            r@ == data@,
    {
        LispFloat { data }
    }

    /// The live reading: the bit pattern of the boxed double-width
    /// floating-point value, little endian.  No validation — the caller
    /// must know the box is live, not on the free list.
    pub fn as_data(&self) -> (bits: u64)
        ensures
            bits == spec_u64_from_le_bytes(self@),
    {
        u64_from_le_bytes(self.data.as_slice())
    }

    /// The free-list reading: the same bytes as the address of the next
    /// free box.  Valid only while the allocator holds this box on its
    /// free list; this layer cannot check that.
    pub fn as_chain(&self, c: &Config) -> (r: LispFloatChainRepr)
        requires
            c.wf(),
        ensures
            r.0 == spec_float_chain(*c, self@),
    {
        if c.word_bits == 64 {
            LispFloatChainRepr(u64_from_le_bytes(self.data.as_slice()))
        } else {
            let lo = slice_subrange(self.data.as_slice(), 0, 4);
            LispFloatChainRepr(u32_from_le_bytes(lo) as u64)
        }
    }
}

/// A non-owning reference to a float box.
pub type LispFloatRef = ExternalPtr<LispFloat>;

/// The numeric content of a tagged value: the inline integer, or the bit
/// pattern of the boxed double.  The host widens either form to its
/// floating-point type.
#[derive(Clone, Copy, PartialEq, Eq, Structural, Debug)]
pub enum LispNumber {
    Fixnum(i64),
    Float(u64),
}

impl LispObject {
    /// Whether this value references a float box.
    pub fn is_float(self, c: &Config) -> (b: bool)
        requires
            c.wf(),
            c.fits(self@),
            c.spec_tag(self@) < 8,
        ensures
            b == (spec_type_of(*c, self@) == LispType::Lisp_Float),
    {
        self.get_type(c) == LispType::Lisp_Float
    }

    /// The reference to the float box this word carries.  Unchecked: the
    /// caller guarantees the word is a float reference.
    pub fn to_float_unchecked(self, c: &Config) -> (r: LispFloatRef)
        requires
            c.wf(),
            c.fits(self@),
            c.spec_tag(self@) < 8,
            spec_type_of(*c, self@) == LispType::Lisp_Float,
        ensures
            r.spec_addr() as nat == c.spec_untag(self@),
    {
        LispFloatRef::new(self.get_untaggedptr(c))
    }

    /// The bit pattern of the float this value references, or `None`
    /// when it references none.  The host resolves the reference:
    /// `boxv` is the borrowed view of the box this word points to,
    /// if it points to one.
    pub fn to_float(self, c: &Config, boxv: Option<&LispFloat>) -> (r: Option<u64>)
        requires
            c.wf(),
            c.fits(self@),
            c.spec_tag(self@) < 8,
            spec_type_of(*c, self@) == LispType::Lisp_Float ==> boxv is Some,
        ensures
            spec_type_of(*c, self@) == LispType::Lisp_Float ==> r == Some(
                spec_u64_from_le_bytes(boxv->Some_0@),
            ),
            spec_type_of(*c, self@) != LispType::Lisp_Float ==> r is None,
    {
        if self.is_float(c) {
            Some(boxv.unwrap().as_data())
        } else {
            None
        }
    }

    /// The numeric content of this value, if it is a number of any kind:
    /// the bit pattern of the boxed double for a float reference, the
    /// inline integer for a fixnum, `None` for everything else.
    pub fn extract_float(self, c: &Config, boxv: Option<&LispFloat>) -> (r: Option<LispNumber>)
        requires
            c.wf(),
            c.fits(self@),
            c.spec_tag(self@) < 8,
            spec_type_of(*c, self@) == LispType::Lisp_Float ==> boxv is Some,
        ensures
            spec_type_of(*c, self@) == LispType::Lisp_Float ==> r == Some(
                LispNumber::Float(spec_u64_from_le_bytes(boxv->Some_0@)),
            ),
            spec_type_of(*c, self@) != LispType::Lisp_Float && spec_is_fixnum(*c, self@) ==> {
                &&& r matches Some(LispNumber::Fixnum(v))
                &&& Some(v as int) == spec_to_fixnum(*c, self@)
            },
            spec_type_of(*c, self@) != LispType::Lisp_Float && !spec_is_fixnum(*c, self@)
                ==> r is None,
    {
        if self.is_float(c) {
            Some(LispNumber::Float(boxv.unwrap().as_data()))
        } else {
            match self.to_fixnum(c) {
                Some(n) => Some(LispNumber::Fixnum(n)),
                None => None,
            }
        }
    }

    /// Whether this value is a number of any kind.
    pub fn is_number(self, c: &Config) -> (b: bool)
        requires
            c.wf(),
            c.fits(self@),
            c.spec_tag(self@) < 8,
        ensures
            b == (spec_is_fixnum(*c, self@) || spec_type_of(*c, self@) == LispType::Lisp_Float),
    {
        self.is_integer(c) || self.is_float(c)
    }
}

/// The nil sentinel is a symbol: its word is all zero, its tag is the
/// symbol code, and it is neither an integer nor a float, so it has no
/// numeric content.
pub proof fn lemma_nil_classification(c: Config)
    requires
        c.wf(),
    ensures
        c.fits(0u64),
        c.spec_tag(0u64) == 0,
        spec_type_of(c, 0u64) == LispType::Lisp_Symbol,
        !spec_is_fixnum(c, 0u64),
        spec_to_fixnum(c, 0u64) is None,
{
    lemma_pow2_pos(c.word_bits as nat);
    lemma_pow2_pos(c.tag_bits as nat);
    lemma_pow2_pos(c.valbits());
}

} // verus!
