//! A tagged-value representation layer for a dynamically typed Lisp
//! interpreter.
//!
//! Runtime values are packed into a single machine word: a few bits hold a
//! type tag and the remaining bits hold either an inline integer (a fixnum)
//! or the address of an out-of-line box owned by the host allocator.  The
//! word width, the tag width and the tagging mode (low-order or high-order
//! tag bits) are configuration inputs fixed once by the host; every
//! operation here is parametric over them.

pub mod config;
pub mod debug;
pub mod fixnum;
pub mod float;
pub mod lisp;
pub mod lists;
pub mod misc;
pub mod vector;

pub use config::Config;
pub use config::EmacsInt;
pub use config::EmacsUint;
pub use debug::hex_string;
pub use float::EMACS_FLOAT_SIZE;
pub use float::LispFloat;
pub use float::LispFloatChainRepr;
pub use float::LispFloatRef;
pub use float::LispNumber;
pub use lisp::CharBits;
pub use lisp::ExternalPtr;
pub use lisp::LispObject;
pub use lisp::LispSignal;
pub use lisp::LispString;
pub use lisp::LispType;
pub use lisp::XTYPE;
pub use lisp::XUNTAG;
pub use lisp::qnil;
pub use lisp::type_code;
pub use lisp::wrong_type_argument;
pub use lists::CONSP;
pub use lists::LispCons;
pub use lists::LispConsChain;
pub use lists::NILP;
pub use lists::XCDR;
pub use lists::cdr;
pub use misc::LispMiscAny;
pub use misc::LispMiscRef;
pub use misc::LispMiscType;
pub use misc::misc_code;
pub use misc::misc_from_code;
pub use vector::LispSubr;
pub use vector::MANY;
pub use vector::PSEUDOVECTOR_AREA_BITS;
pub use vector::PvecType;
pub use vector::VectorLikeHeader;
pub use vector::pvec_from_code;
