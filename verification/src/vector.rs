//! Vector-like boxes: the packed header that describes their size and
//! sub-type, and the subr (primitive function) record built on it.

use vstd::prelude::*;

verus! {

/// Width of the element-count field of a pseudovector header.
pub const PSEUDOVECTOR_SIZE_BITS: u64 = 12;

/// Mask of the element-count field: the low `PSEUDOVECTOR_SIZE_BITS`
/// bits.
pub const PSEUDOVECTOR_SIZE_MASK: u64 = 0xFFF;

/// Width of the "rest" field of a pseudovector header.
pub const PSEUDOVECTOR_REST_BITS: u64 = 12;

/// Mask of the "rest" field: the 12 bits above the count.
pub const PSEUDOVECTOR_REST_MASK: u64 = 0xFFF000;

/// Bits below the sub-type field: count plus rest.
pub const PSEUDOVECTOR_AREA_BITS: u64 = PSEUDOVECTOR_SIZE_BITS + PSEUDOVECTOR_REST_BITS;

/// Mask of the six-bit sub-type field, above the area bits.
pub const PVEC_TYPE_MASK: u64 = 0x3F000000;

/// The sub-types a vector-like box can carry.
#[derive(Clone, Copy, PartialEq, Eq, Structural, Debug)]
#[allow(non_camel_case_types)]
pub enum PvecType {
    PVEC_NORMAL_VECTOR,
    PVEC_FREE,
    PVEC_PROCESS,
    PVEC_FRAME,
    PVEC_WINDOW,
    PVEC_BOOL_VECTOR,
    PVEC_BUFFER,
    PVEC_HASH_TABLE,
    PVEC_TERMINAL,
    PVEC_WINDOW_CONFIGURATION,
    PVEC_SUBR,
    PVEC_OTHER,
    PVEC_XWIDGET,
    PVEC_XWIDGET_VIEW,
    PVEC_COMPILED,
    PVEC_CHAR_TABLE,
    PVEC_SUB_CHAR_TABLE,
    PVEC_FONT,
}

/// The numeric code of each sub-type, in declaration order from zero.
pub open spec fn spec_pvec_code(t: PvecType) -> nat {
    match t {
        PvecType::PVEC_NORMAL_VECTOR => 0,
        PvecType::PVEC_FREE => 1,
        PvecType::PVEC_PROCESS => 2,
        PvecType::PVEC_FRAME => 3,
        PvecType::PVEC_WINDOW => 4,
        PvecType::PVEC_BOOL_VECTOR => 5,
        PvecType::PVEC_BUFFER => 6,
        PvecType::PVEC_HASH_TABLE => 7,
        PvecType::PVEC_TERMINAL => 8,
        PvecType::PVEC_WINDOW_CONFIGURATION => 9,
        PvecType::PVEC_SUBR => 10,
        PvecType::PVEC_OTHER => 11,
        PvecType::PVEC_XWIDGET => 12,
        PvecType::PVEC_XWIDGET_VIEW => 13,
        PvecType::PVEC_COMPILED => 14,
        PvecType::PVEC_CHAR_TABLE => 15,
        PvecType::PVEC_SUB_CHAR_TABLE => 16,
        PvecType::PVEC_FONT => 17,
    }
}

/// The sub-type a six-bit code names, if any: the field can hold codes
/// up to 63, but only 18 are assigned.
pub open spec fn spec_pvec_from_code(code: nat) -> Option<PvecType> {
    if code == 0 {
        Some(PvecType::PVEC_NORMAL_VECTOR)
    } else if code == 1 {
        Some(PvecType::PVEC_FREE)
    } else if code == 2 {
        Some(PvecType::PVEC_PROCESS)
    } else if code == 3 {
        Some(PvecType::PVEC_FRAME)
    } else if code == 4 {
        Some(PvecType::PVEC_WINDOW)
    } else if code == 5 {
        Some(PvecType::PVEC_BOOL_VECTOR)
    } else if code == 6 {
        Some(PvecType::PVEC_BUFFER)
    } else if code == 7 {
        Some(PvecType::PVEC_HASH_TABLE)
    } else if code == 8 {
        Some(PvecType::PVEC_TERMINAL)
    } else if code == 9 {
        Some(PvecType::PVEC_WINDOW_CONFIGURATION)
    } else if code == 10 {
        Some(PvecType::PVEC_SUBR)
    } else if code == 11 {
        Some(PvecType::PVEC_OTHER)
    } else if code == 12 {
        Some(PvecType::PVEC_XWIDGET)
    } else if code == 13 {
        Some(PvecType::PVEC_XWIDGET_VIEW)
    } else if code == 14 {
        Some(PvecType::PVEC_COMPILED)
    } else if code == 15 {
        Some(PvecType::PVEC_CHAR_TABLE)
    } else if code == 16 {
        Some(PvecType::PVEC_SUB_CHAR_TABLE)
    } else if code == 17 {
        Some(PvecType::PVEC_FONT)
    } else {
        None
    }
}

/// Each sub-type's code names that sub-type back.
pub proof fn lemma_pvec_code_roundtrip(t: PvecType)
    ensures
        spec_pvec_from_code(spec_pvec_code(t)) == Some(t),
{
}

/// Classify a six-bit sub-type code.
pub fn pvec_from_code(code: u64) -> (r: Option<PvecType>)
    ensures
        r == spec_pvec_from_code(code as nat),
{
    if code == 0 {
        Some(PvecType::PVEC_NORMAL_VECTOR)
    } else if code == 1 {
        Some(PvecType::PVEC_FREE)
    } else if code == 2 {
        Some(PvecType::PVEC_PROCESS)
    } else if code == 3 {
        Some(PvecType::PVEC_FRAME)
    } else if code == 4 {
        Some(PvecType::PVEC_WINDOW)
    } else if code == 5 {
        Some(PvecType::PVEC_BOOL_VECTOR)
    } else if code == 6 {
        Some(PvecType::PVEC_BUFFER)
    } else if code == 7 {
        Some(PvecType::PVEC_HASH_TABLE)
    } else if code == 8 {
        Some(PvecType::PVEC_TERMINAL)
    } else if code == 9 {
        Some(PvecType::PVEC_WINDOW_CONFIGURATION)
    } else if code == 10 {
        Some(PvecType::PVEC_SUBR)
    } else if code == 11 {
        Some(PvecType::PVEC_OTHER)
    } else if code == 12 {
        Some(PvecType::PVEC_XWIDGET)
    } else if code == 13 {
        Some(PvecType::PVEC_XWIDGET_VIEW)
    } else if code == 14 {
        Some(PvecType::PVEC_COMPILED)
    } else if code == 15 {
        Some(PvecType::PVEC_CHAR_TABLE)
    } else if code == 16 {
        Some(PvecType::PVEC_SUB_CHAR_TABLE)
    } else if code == 17 {
        Some(PvecType::PVEC_FONT)
    } else {
        None
    }
}

/// The header of a vector-like box.  For a true vector the size field is
/// the length; for a pseudovector it packs an element count (12 bits), a
/// "rest" count (12 bits) and a sub-type code (6 bits), decoded below.
#[derive(Clone, Copy, PartialEq, Eq, Structural, Debug)]
pub struct VectorLikeHeader {
    pub size: i64,
}

impl VectorLikeHeader {
    /// The size field read as the word's unsigned bit pattern: the
    /// host's GC may set the high (sign) bits as flags, which must not
    /// disturb the packed fields below.
    pub open spec fn spec_size_bits(self) -> u64 {
        self.size as u64
    }

    /// The pseudovector element count: bits [0, 12) of the size field.
    pub fn pseudovector_size(&self) -> (n: u64)
        ensures
            n as nat == (self.spec_size_bits() as nat) % 4096,
            n < 4096,
    {
        #[verifier::truncate]
        let s = self.size as u64;
        proof {
            assert(s & 0xFFFu64 == s % 4096 && s % 4096 < 4096) by (bit_vector);
        }
        s & PSEUDOVECTOR_SIZE_MASK
    }

    /// The pseudovector "rest" field: bits [12, 24) of the size field.
    pub fn pseudovector_rest(&self) -> (n: u64)
        ensures
            n as nat == ((self.spec_size_bits() as nat) / 4096) % 4096,
            n < 4096,
    {
        #[verifier::truncate]
        let s = self.size as u64;
        proof {
            assert((s & 0xFFF000u64) >> 12u64 == (s / 4096) % 4096 && (s / 4096) % 4096 < 4096)
                by (bit_vector);
        }
        (s & PSEUDOVECTOR_REST_MASK) >> PSEUDOVECTOR_SIZE_BITS
    }

    /// The pseudovector sub-type code: bits [24, 30) of the size field.
    pub fn pseudovector_type_code(&self) -> (n: u64)
        ensures
            n as nat == ((self.spec_size_bits() as nat) / 0x1000000) % 64,
            n < 64,
    {
        #[verifier::truncate]
        let s = self.size as u64;
        proof {
            assert((s & 0x3F000000u64) >> 24u64 == (s / 0x1000000) % 64 && (s / 0x1000000) % 64
                < 64) by (bit_vector);
        }
        (s & PVEC_TYPE_MASK) >> PSEUDOVECTOR_AREA_BITS
    }

    /// The named sub-type of this pseudovector, when its code is one of
    /// the assigned ones.
    pub fn pseudovector_type(&self) -> (r: Option<PvecType>)
        ensures
            r == spec_pvec_from_code(((self.spec_size_bits() as nat) / 0x1000000) % 64),
    {
        pvec_from_code(self.pseudovector_type_code())
    }
}

/// An elisp-callable primitive function, laid out as a vector-like box.
/// The host owns the code and string storage; the addresses are opaque
/// words here.
#[derive(Clone, Copy, PartialEq, Eq, Structural, Debug)]
pub struct LispSubr {
    pub header: VectorLikeHeader,
    /// Address of the host function called when the elisp function is
    /// invoked.
    pub function: u64,
    /// The minimum number of arguments to the elisp function.
    pub min_args: i16,
    /// The maximum number of arguments, or `MANY` for no limit.
    pub max_args: i16,
    /// Address of the function's name in elisp.
    pub symbol_name: u64,
    /// Address of the interactive specification, or zero when the
    /// function is not interactive.
    pub intspec: u64,
    /// Address of the docstring.
    pub doc: u64,
}

/// Used to denote functions that have no limit on the maximum number of
/// arguments.
pub const MANY: i16 = -2;

} // verus!
