//! The nucleotide alphabet and its complement table.

use vstd::prelude::*;

verus! {

/// ASCII `A`.
pub const SYM_A: u8 = 65;

/// ASCII `C`.
pub const SYM_C: u8 = 67;

/// ASCII `G`.
pub const SYM_G: u8 = 71;

/// ASCII `T`.
pub const SYM_T: u8 = 84;

/// A byte is a nucleotide symbol when it is one of the four letters
/// `A`, `C`, `G`, `T`.
pub open spec fn is_symbol(b: u8) -> bool {
    b == SYM_A || b == SYM_C || b == SYM_G || b == SYM_T
}

/// Every byte of the sequence is a nucleotide symbol.
pub open spec fn valid_sequence(s: Seq<u8>) -> bool {
    forall|i: int| 0 <= i < s.len() ==> is_symbol(s[i])
}

/// The Watson-Crick pairing partner: `A` with `T` and `C` with `G`.
pub open spec fn complement(b: u8) -> u8
    recommends
        is_symbol(b),
{
    if b == SYM_A {
        SYM_T
    } else if b == SYM_T {
        SYM_A
    } else if b == SYM_C {
        SYM_G
    } else {
        SYM_C
    }
}

/// Complementing twice gives the symbol back.
pub proof fn lemma_complement_involution(b: u8)
    requires
        is_symbol(b),
    ensures
        complement(complement(b)) == b,
        is_symbol(complement(b)),
{
}

/// Maps a nucleotide symbol to its complement.
pub fn complement_symbol(b: u8) -> (r: u8)
    requires
        is_symbol(b),
    ensures
        r == complement(b),
{
    if b == SYM_A {
        SYM_T
    } else if b == SYM_T {
        SYM_A
    } else if b == SYM_C {
        SYM_G
    } else {
        SYM_C
    }
}

} // verus!
