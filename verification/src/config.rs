//! Build configuration of the tagged-value layer.
//!
//! The host evaluator fixes, once, the width of the machine word, the number
//! of tag bits and the tagging mode (tag in the low-order or the high-order
//! bits of the word).  Every derived bound used by the encoding is computed
//! from these three inputs, so a single implementation serves the narrow and
//! the wide word layout alike.

use vstd::prelude::*;
use vstd::arithmetic::power2::{
    pow2,
    lemma_pow2_adds,
    lemma_pow2_pos,
    lemma_pow2_strictly_increases,
    lemma2_to64,
    lemma2_to64_rest,
};
use vstd::arithmetic::div_mod::lemma_fundamental_div_mod_converse;
use vstd::bits::{lemma_u64_pow2_no_overflow, lemma_u64_shl_is_mul, lemma_u64_shr_is_div};

verus! {

/// An integer wide enough to hold a tagged word, read as signed.
pub type EmacsInt = i64;

/// The unsigned reading of the same word.
pub type EmacsUint = u64;

/// The externally supplied representation parameters.
///
/// `word_bits` is the width of the tagged word (32 or 64), `tag_bits` the
/// number of bits that hold the type tag, and `use_lsb_tag` selects whether
/// the tag sits in the low-order bits (`true`) or the high-order bits
/// (`false`) of the word.
#[derive(Clone, Copy, PartialEq, Eq, Structural, Debug)]
pub struct Config {
    pub word_bits: u64,
    pub tag_bits: u64,
    pub use_lsb_tag: bool,
}

impl Config {
    /// A valid configuration.
    ///
    /// Under low-bit tagging the integer tag pair (`Lisp_Int0`,
    /// `Lisp_Int1`) must sit at codes 2 and `2 + 2^(tag_bits-1)`, and the
    /// fixed code assignment pins `Lisp_Int1` at 6; this forces exactly
    /// three tag bits.  Under high-bit tagging any small tag width works.
    pub open spec fn wf(self) -> bool {
        &&& (self.word_bits == 32 || self.word_bits == 64)
        &&& 3 <= self.tag_bits <= 8
        &&& (self.use_lsb_tag ==> self.tag_bits == 3)
    }

    /// Number of payload bits (`VALBITS`).
    pub open spec fn valbits(self) -> nat {
        (self.word_bits - self.tag_bits) as nat
    }

    /// `2^word_bits`: one past the largest word.
    pub open spec fn word_cap(self) -> nat {
        pow2(self.word_bits as nat)
    }

    /// `2^tag_bits`: one past the largest tag code.
    pub open spec fn tag_cap(self) -> nat {
        pow2(self.tag_bits as nat)
    }

    /// `2^valbits`: one past `VAL_MAX`.
    pub open spec fn val_cap(self) -> nat {
        pow2(self.valbits())
    }

    /// `2^(valbits+1)`: the number of distinct fixnums (`INTMASK + 1`).
    pub open spec fn fix_cap(self) -> nat {
        pow2(self.valbits() + 1)
    }

    /// Whether a raw word lies within the configured word width.
    pub open spec fn fits(self, w: u64) -> bool {
        (w as nat) < self.word_cap()
    }

    /// The tag code held in a raw word.
    pub open spec fn spec_tag(self, w: u64) -> nat {
        if self.use_lsb_tag {
            (w as nat) % self.tag_cap()
        } else {
            (w as nat) / self.val_cap()
        }
    }

    /// The untagged pointer payload of a raw word (`raw & VALMASK`).
    pub open spec fn spec_untag(self, w: u64) -> nat {
        if self.use_lsb_tag {
            ((w as nat) - (w as nat) % self.tag_cap()) as nat
        } else {
            (w as nat) % self.val_cap()
        }
    }

    /// Largest inline integer.
    pub open spec fn spec_most_positive_fixnum(self) -> int {
        self.val_cap() - 1
    }

    /// Smallest inline integer.
    pub open spec fn spec_most_negative_fixnum(self) -> int {
        -1 - self.spec_most_positive_fixnum()
    }

    /// Whether `n` can be stored inline as a fixnum.
    pub open spec fn fixnum_in_range(self, n: int) -> bool {
        self.spec_most_negative_fixnum() <= n <= self.spec_most_positive_fixnum()
    }
}

/// `2^k` as a word, computed as the original formulas do, by shifting.
pub fn two_pow(k: u64) -> (r: u64)
    requires
        k < 64,
    ensures
        r as nat == pow2(k as nat),
{
    proof {
        lemma_u64_pow2_no_overflow(k as nat);
        lemma_u64_shl_is_mul(1u64, k);
    }
    1u64 << k
}

/// `(2^a - 1) / 2^b == 2^(a-b) - 1` for `b <= a`: shifting an all-ones
/// field right keeps it all ones.
proof fn lemma_pow2_mask_shift(a: nat, b: nat)
    requires
        b <= a,
    ensures
        (pow2(a) - 1) as int / pow2(b) as int == pow2((a - b) as nat) - 1,
{
    lemma_pow2_adds((a - b) as nat, b);
    lemma_pow2_pos(b);
    lemma_pow2_pos((a - b) as nat);
    assert((pow2(a) - 1) as int == (pow2((a - b) as nat) - 1) * pow2(b) + (pow2(b) - 1))
        by (nonlinear_arith)
        requires
            pow2(a) == pow2((a - b) as nat) * pow2(b),
            pow2(b) >= 1,
    ;
    lemma_fundamental_div_mod_converse(
        (pow2(a) - 1) as int,
        pow2(b) as int,
        (pow2((a - b) as nat) - 1) as int,
        (pow2(b) - 1) as int,
    );
}

/// Relations between the derived capacities of a valid configuration.
pub proof fn lemma_cfg_caps(c: Config)
    requires
        c.wf(),
    ensures
        c.word_cap() == c.tag_cap() * c.val_cap(),
        c.fix_cap() == 2 * c.val_cap(),
        c.word_cap() == pow2((c.tag_bits - 1) as nat) * c.fix_cap(),
        8 <= c.tag_cap() <= 256,
        c.val_cap() >= pow2(24),
        c.fix_cap() <= pow2(62),
        c.word_cap() <= pow2(64),
        pow2((c.tag_bits - 1) as nat) >= 4,
{
    lemma_pow2_adds(c.tag_bits as nat, c.valbits());
    lemma_pow2_adds(1, c.valbits());
    lemma_pow2_adds((c.tag_bits - 1) as nat, c.valbits() + 1);
    lemma2_to64();
    if c.tag_bits < 8 {
        lemma_pow2_strictly_increases(c.tag_bits as nat, 8);
    }
    if c.valbits() > 24 {
        lemma_pow2_strictly_increases(24, c.valbits());
    }
    if c.valbits() + 1 < 62 {
        lemma_pow2_strictly_increases(c.valbits() + 1, 62);
    }
    if (c.word_bits as nat) < 64 {
        lemma_pow2_strictly_increases(c.word_bits as nat, 64);
    }
    if 3 < c.tag_bits {
        lemma_pow2_strictly_increases(2, (c.tag_bits - 1) as nat);
    }
}

impl Config {
    /// Largest value of the word's signed integer type (`WORD_MAX_SIGNED`).
    pub fn word_max_signed(&self) -> (r: u64)
        requires
            self.wf(),
        ensures
            r as nat == pow2((self.word_bits - 1) as nat) - 1,
    {
        proof {
            lemma_pow2_pos((self.word_bits - 1) as nat);
        }
        two_pow(self.word_bits - 1) - 1
    }

    /// All word bits set: `2^word_bits - 1`.
    pub fn word_mask(&self) -> (r: u64)
        requires
            self.wf(),
        ensures
            r as nat == self.word_cap() - 1,
    {
        if self.word_bits == 64 {
            proof {
                lemma2_to64_rest();
            }
            0xFFFF_FFFF_FFFF_FFFFu64
        } else {
            proof {
                lemma_pow2_pos(self.word_bits as nat);
            }
            two_pow(self.word_bits) - 1
        }
    }

    /// `VAL_MAX = WORD_MAX_SIGNED >> (tag_bits - 1)`: the highest untagged
    /// payload value.
    pub fn val_max(&self) -> (r: u64)
        requires
            self.wf(),
        ensures
            r as nat == self.val_cap() - 1,
    {
        let wm = self.word_max_signed();
        let sh = self.tag_bits - 1;
        proof {
            lemma_u64_shr_is_div(wm, sh);
            lemma_pow2_mask_shift((self.word_bits - 1) as nat, (self.tag_bits - 1) as nat);
        }
        wm >> sh
    }

    /// `VALMASK`: the payload mask.  Under low-bit tagging this is the bit
    /// pattern of `-(1 << tag_bits)` reinterpreted in the word's unsigned
    /// type, that is `2^word_bits - 2^tag_bits` with the sign extension
    /// kept; under high-bit tagging it is `VAL_MAX`.
    pub fn valmask(&self) -> (r: u64)
        requires
            self.wf(),
        ensures
            self.use_lsb_tag ==> r as nat == self.word_cap() - self.tag_cap(),
            !self.use_lsb_tag ==> r as nat == self.val_cap() - 1,
    {
        if self.use_lsb_tag {
            proof {
                lemma_cfg_caps(*self);
                lemma_pow2_pos(self.tag_bits as nat);
                lemma_pow2_strictly_increases(self.tag_bits as nat, self.word_bits as nat);
            }
            self.word_mask() - (two_pow(self.tag_bits) - 1)
        } else {
            self.val_max()
        }
    }

    /// `INTMASK = WORD_MAX_SIGNED >> (tag_bits - 2)`: the mask of the bits
    /// a fixnum payload occupies.
    pub fn intmask(&self) -> (r: u64)
        requires
            self.wf(),
        ensures
            r as nat == self.fix_cap() - 1,
    {
        let wm = self.word_max_signed();
        let sh = self.tag_bits - 2;
        proof {
            lemma_u64_shr_is_div(wm, sh);
            lemma_pow2_mask_shift((self.word_bits - 1) as nat, (self.tag_bits - 2) as nat);
        }
        wm >> sh
    }

    /// `MOST_POSITIVE_FIXNUM`, the largest inline integer.
    pub fn most_positive_fixnum(&self) -> (r: i64)
        requires
            self.wf(),
        ensures
            r as int == self.spec_most_positive_fixnum(),
    {
        let v = self.val_max();
        proof {
            if self.valbits() < 63 {
                lemma_pow2_strictly_increases(self.valbits(), 63);
            }
            lemma2_to64_rest();
        }
        v as i64
    }

    /// `MOST_NEGATIVE_FIXNUM = -1 - MOST_POSITIVE_FIXNUM`.
    pub fn most_negative_fixnum(&self) -> (r: i64)
        requires
            self.wf(),
        ensures
            r as int == self.spec_most_negative_fixnum(),
    {
        -1 - self.most_positive_fixnum()
    }
}

} // verus!
