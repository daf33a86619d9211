//! Cons cells and the list primitives built directly on the tag layer.

use vstd::prelude::*;
use crate::config::Config;
use crate::lisp::{
    LispObject, LispSignal, LispType, XTYPE, lemma_lisp_object_eq, qnil, spec_type_of,
    wrong_type_argument,
};

verus! {

/// A cons cell: a pair of tagged values used to build linked lists.  The
/// cell is owned by the host allocator; this layer only reads borrowed
/// views of it.
#[derive(Clone, Copy, PartialEq, Eq, Structural, Debug)]
pub struct LispCons {
    /// Car of this cons cell.
    pub car: LispObject,
    /// Cdr of this cons cell, or the chain used for the free list.
    pub cdr: LispObject,
}

/// The allocator's bookkeeping view of a cons cell on the free list: the
/// address of the next free cell.
#[derive(Clone, Copy, PartialEq, Eq, Structural, Debug)]
pub struct LispConsChain {
    pub chain: u64,
}

/// Whether `x` references a cons cell.
#[allow(non_snake_case)]
pub fn CONSP(c: &Config, x: LispObject) -> (b: bool)
    requires
        c.wf(),
        c.fits(x@),
        c.spec_tag(x@) < 8,
    ensures
        b == (spec_type_of(*c, x@) == LispType::Lisp_Cons),
{
    XTYPE(c, x) == LispType::Lisp_Cons
}

/// Is `object` nil?
#[allow(non_snake_case)]
pub fn NILP(object: LispObject) -> (b: bool)
    ensures
        b == (object@ == 0),
{
    let nil = qnil();
    proof {
        lemma_lisp_object_eq(object, nil);
    }
    object == nil
}

/// Read the cdr field out of a resolved cons cell.
#[allow(non_snake_case)]
pub fn XCDR(cell: &LispCons) -> (r: LispObject)
    ensures
        r == cell.cdr,
{
    cell.cdr
}

/// Take the cdr of `object`.
///
/// The reference into the host heap cannot be followed here, so the host
/// resolves it: `cell` is the borrowed view of the box `object` points
/// to, or `None` when `object` points to none.  Returns the cdr of a
/// cons, nil for nil, and the wrong-type-argument signal (with the nil
/// predicate, as the host's list layer passes it) for any other value.
pub fn cdr(c: &Config, object: LispObject, cell: Option<&LispCons>) -> (r: Result<
    LispObject,
    LispSignal,
>)
    requires
        c.wf(),
        c.fits(object@),
        c.spec_tag(object@) < 8,
        spec_type_of(*c, object@) == LispType::Lisp_Cons ==> cell is Some,
    ensures
        spec_type_of(*c, object@) == LispType::Lisp_Cons ==> r == Ok::<LispObject, LispSignal>(
            cell->Some_0.cdr,
        ),
        spec_type_of(*c, object@) != LispType::Lisp_Cons && object@ == 0 ==> r is Ok
            && r->Ok_0@ == 0,
        spec_type_of(*c, object@) != LispType::Lisp_Cons && object@ != 0 ==> r is Err
            && r->Err_0.predicate@ == 0 && r->Err_0.value == object,
{
    if CONSP(c, object) {
        Ok(XCDR(cell.unwrap()))
    } else if NILP(object) {
        Ok(qnil())
    } else {
        Err(wrong_type_argument(qnil(), object))
    }
}

} // verus!
