//! Diagnostic rendering of tagged values.
//!
//! For every legitimate tag the rendering names the tag, the address at
//! which the word itself sits and the raw word in hexadecimal; a word
//! whose tag code is 8 or more renders as a distinguished invalid form
//! instead of being classified.  Diagnostics only: never a basis for
//! control flow.

use vstd::prelude::*;
use vstd::string::StringExecFns;
use crate::config::Config;
use crate::lisp::{LispObject, LispType, spec_type_of};

verus! {

/// The capital hexadecimal digit of a value below 16.
pub open spec fn spec_hex_digit(d: nat) -> char {
    if d == 0 {
        '0'
    } else if d == 1 {
        '1'
    } else if d == 2 {
        '2'
    } else if d == 3 {
        '3'
    } else if d == 4 {
        '4'
    } else if d == 5 {
        '5'
    } else if d == 6 {
        '6'
    } else if d == 7 {
        '7'
    } else if d == 8 {
        '8'
    } else if d == 9 {
        '9'
    } else if d == 10 {
        'A'
    } else if d == 11 {
        'B'
    } else if d == 12 {
        'C'
    } else if d == 13 {
        'D'
    } else if d == 14 {
        'E'
    } else {
        'F'
    }
}

/// The capital hexadecimal digits of `x`, most significant first, with
/// no leading zeroes (a single `0` for zero).
pub open spec fn spec_hex_digits(x: nat) -> Seq<char>
    decreases x,
{
    if x < 16 {
        seq![spec_hex_digit(x)]
    } else {
        spec_hex_digits(x / 16) + seq![spec_hex_digit(x % 16)]
    }
}

/// The diagnostic hexadecimal form: `0x` followed by the capital digits.
pub open spec fn spec_hex(x: nat) -> Seq<char> {
    seq!['0', 'x'] + spec_hex_digits(x)
}

/// The name a tag renders under.  Both integer tags render as `INT`.
pub open spec fn spec_tag_label(t: LispType) -> Seq<char> {
    match t {
        LispType::Lisp_Symbol => "SYMBOL"@,
        LispType::Lisp_Misc => "MISC"@,
        LispType::Lisp_Int0 => "INT"@,
        LispType::Lisp_Int1 => "INT"@,
        LispType::Lisp_String => "STRING"@,
        LispType::Lisp_Vectorlike => "VECTOR-LIKE"@,
        LispType::Lisp_Cons => "CONS"@,
        LispType::Lisp_Float => "FLOAT"@,
    }
}

/// The full rendering of the word `w` sitting at address `addr`.
pub open spec fn spec_debug_render(c: Config, w: u64, addr: u64) -> Seq<char> {
    if c.spec_tag(w) >= 8 {
        "#<INVALID-OBJECT @ "@ + spec_hex(addr as nat) + ": VAL("@ + spec_hex(w as nat) + ")>"@
    } else {
        "#<"@ + spec_tag_label(spec_type_of(c, w)) + " @ "@ + spec_hex(addr as nat) + ": VAL("@
            + spec_hex(w as nat) + ")>"@
    }
}

/// One capital hexadecimal digit, as a string slice.
fn hex_digit_str(d: u64) -> (s: &'static str)
    requires
        d < 16,
    ensures
        s@ == seq![spec_hex_digit(d as nat)],
{
    proof {
        reveal_strlit("0");
        reveal_strlit("1");
        reveal_strlit("2");
        reveal_strlit("3");
        reveal_strlit("4");
        reveal_strlit("5");
        reveal_strlit("6");
        reveal_strlit("7");
        reveal_strlit("8");
        reveal_strlit("9");
        reveal_strlit("A");
        reveal_strlit("B");
        reveal_strlit("C");
        reveal_strlit("D");
        reveal_strlit("E");
        reveal_strlit("F");
        assert("0"@ =~= seq![spec_hex_digit(0)]);
        assert("1"@ =~= seq![spec_hex_digit(1)]);
        assert("2"@ =~= seq![spec_hex_digit(2)]);
        assert("3"@ =~= seq![spec_hex_digit(3)]);
        assert("4"@ =~= seq![spec_hex_digit(4)]);
        assert("5"@ =~= seq![spec_hex_digit(5)]);
        assert("6"@ =~= seq![spec_hex_digit(6)]);
        assert("7"@ =~= seq![spec_hex_digit(7)]);
        assert("8"@ =~= seq![spec_hex_digit(8)]);
        assert("9"@ =~= seq![spec_hex_digit(9)]);
        assert("A"@ =~= seq![spec_hex_digit(10)]);
        assert("B"@ =~= seq![spec_hex_digit(11)]);
        assert("C"@ =~= seq![spec_hex_digit(12)]);
        assert("D"@ =~= seq![spec_hex_digit(13)]);
        assert("E"@ =~= seq![spec_hex_digit(14)]);
        assert("F"@ =~= seq![spec_hex_digit(15)]);
    }
    match d {
        0 => "0",
        1 => "1",
        2 => "2",
        3 => "3",
        4 => "4",
        5 => "5",
        6 => "6",
        7 => "7",
        8 => "8",
        9 => "9",
        10 => "A",
        11 => "B",
        12 => "C",
        13 => "D",
        14 => "E",
        _ => "F",
    }
}

/// The capital hexadecimal digits of `x`.
fn hex_digits_string(x: u64) -> (s: String)
    ensures
        s@ == spec_hex_digits(x as nat),
    decreases x,
{
    if x < 16 {
        String::from_str(hex_digit_str(x))
    } else {
        let mut s = hex_digits_string(x / 16);
        s.append(hex_digit_str(x % 16));
        s
    }
}

/// Render `x` in the diagnostic hexadecimal form `0x...`.
pub fn hex_string(x: u64) -> (s: String)
    ensures
        s@ == spec_hex(x as nat),
{
    let mut s = String::from_str("0x");
    proof {
        reveal_strlit("0x");
        assert("0x"@ =~= seq!['0', 'x']);
    }
    let digits = hex_digits_string(x);
    s.append(digits.as_str());
    s
}

impl LispObject {
    /// Produce the diagnostic rendering of this value: its tag's name,
    /// the address at which the word itself sits (supplied by the
    /// caller, which knows where it keeps the word) and the raw word in
    /// hexadecimal.  A tag code of 8 or more, which legitimate
    /// construction never produces, renders as the distinguished
    /// invalid-object form rather than being classified.
    pub fn debug_render(self, c: &Config, self_addr: u64) -> (s: String)
        requires
            c.wf(),
            c.fits(self@),
        ensures
            s@ == spec_debug_render(*c, self@, self_addr),
    {
        let code = self.raw_tag_code(c);
        let raw = self.to_raw();
        if code >= 8 {
            let mut s = String::from_str("#<INVALID-OBJECT @ ");
            s.append(hex_string(self_addr).as_str());
            s.append(": VAL(");
            s.append(hex_string(raw).as_str());
            s.append(")>");
            s
        } else {
            let ty = self.get_type(c);
            let label: &'static str = match ty {
                LispType::Lisp_Symbol => "SYMBOL",
                LispType::Lisp_Misc => "MISC",
                LispType::Lisp_Int0 => "INT",
                LispType::Lisp_Int1 => "INT",
                LispType::Lisp_String => "STRING",
                LispType::Lisp_Vectorlike => "VECTOR-LIKE",
                LispType::Lisp_Cons => "CONS",
                LispType::Lisp_Float => "FLOAT",
            };
            let mut s = String::from_str("#<");
            s.append(label);
            s.append(" @ ");
            s.append(hex_string(self_addr).as_str());
            s.append(": VAL(");
            s.append(hex_string(raw).as_str());
            s.append(")>");
            s
        }
    }
}

} // verus!
