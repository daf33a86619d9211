//! Miscellaneous boxes: objects that share a common fixed header whose
//! first field names their sub-kind.

use vstd::prelude::*;
use crate::config::Config;
use crate::lisp::{ExternalPtr, LispObject, LispType, spec_type_of};

verus! {

/// The sub-kinds a miscellaneous box can carry, plus the `Free` sentinel
/// for boxes on the allocator's free list.
#[derive(Clone, Copy, PartialEq, Eq, Structural, Debug)]
pub enum LispMiscType {
    Free,
    Marker,
    Overlay,
    SaveValue,
    Finalizer,
}

/// The two-byte wire code of each sub-kind.  The codes start at the
/// arbitrary large base 0x5eab so that a stray or corrupted word is
/// unlikely to alias a legitimate code: a diagnostic safety margin, not
/// a correctness guarantee.
pub open spec fn spec_misc_code(t: LispMiscType) -> u16 {
    match t {
        LispMiscType::Free => 0x5eab,
        LispMiscType::Marker => 0x5eac,
        LispMiscType::Overlay => 0x5ead,
        LispMiscType::SaveValue => 0x5eae,
        LispMiscType::Finalizer => 0x5eaf,
    }
}

/// The sub-kind a two-byte code names, if any.
pub open spec fn spec_misc_from_code(code: u16) -> Option<LispMiscType> {
    if code == 0x5eab {
        Some(LispMiscType::Free)
    } else if code == 0x5eac {
        Some(LispMiscType::Marker)
    } else if code == 0x5ead {
        Some(LispMiscType::Overlay)
    } else if code == 0x5eae {
        Some(LispMiscType::SaveValue)
    } else if code == 0x5eaf {
        Some(LispMiscType::Finalizer)
    } else {
        None
    }
}

/// Each sub-kind's code names that sub-kind back.
pub proof fn lemma_misc_code_roundtrip(t: LispMiscType)
    ensures
        spec_misc_from_code(spec_misc_code(t)) == Some(t),
{
}

/// The wire code of a sub-kind.
pub fn misc_code(t: LispMiscType) -> (r: u16)
    ensures
        r == spec_misc_code(t),
{
    match t {
        LispMiscType::Free => 0x5eab,
        LispMiscType::Marker => 0x5eac,
        LispMiscType::Overlay => 0x5ead,
        LispMiscType::SaveValue => 0x5eae,
        LispMiscType::Finalizer => 0x5eaf,
    }
}

/// Classify a wire code.
pub fn misc_from_code(code: u16) -> (r: Option<LispMiscType>)
    ensures
        r == spec_misc_from_code(code),
{
    if code == 0x5eab {
        Some(LispMiscType::Free)
    } else if code == 0x5eac {
        Some(LispMiscType::Marker)
    } else if code == 0x5ead {
        Some(LispMiscType::Overlay)
    } else if code == 0x5eae {
        Some(LispMiscType::SaveValue)
    } else if code == 0x5eaf {
        Some(LispMiscType::Finalizer)
    } else {
        None
    }
}

/// The fixed header every miscellaneous box starts with: the sub-kind
/// plus a reserved half-word (a GC mark bit and padding in the host's
/// layout; opaque here).  Exactly four bytes, whatever the word width,
/// since both parts are fixed-width.
#[derive(Clone, Copy, PartialEq, Eq, Structural, Debug)]
pub struct LispMiscAny {
    pub ty: LispMiscType,
    pub padding: u16,
}

impl LispMiscAny {
    /// Build a header carrying the given sub-kind, with the reserved
    /// half-word cleared.
    pub fn new(ty: LispMiscType) -> (r: LispMiscAny)
        ensures
            r.ty == ty,
    {
        LispMiscAny { ty, padding: 0 }
    }

    /// Classify the box: read the sub-kind from its header.
    pub fn get_type(&self) -> (t: LispMiscType)
        ensures
            t == self.ty,
    {
        self.ty
    }
}

/// A non-owning reference to a miscellaneous box.
pub type LispMiscRef = ExternalPtr<LispMiscAny>;

impl LispObject {
    /// Whether this value references a miscellaneous box.
    pub fn is_misc(self, c: &Config) -> (b: bool)
        requires
            c.wf(),
            c.fits(self@),
            c.spec_tag(self@) < 8,
        ensures
            b == (spec_type_of(*c, self@) == LispType::Lisp_Misc),
    {
        self.get_type(c) == LispType::Lisp_Misc
    }

    /// The reference to the miscellaneous box this word carries.
    /// Unchecked: the caller guarantees that the word is a misc
    /// reference; the host resolves the address against its own heap.
    pub fn to_misc_unchecked(self, c: &Config) -> (r: LispMiscRef)
        requires
            c.wf(),
            c.fits(self@),
            c.spec_tag(self@) < 8,
            spec_type_of(*c, self@) == LispType::Lisp_Misc,
        ensures
            r.spec_addr() as nat == c.spec_untag(self@),
    {
        LispMiscRef::new(self.get_untaggedptr(c))
    }
}

} // verus!
