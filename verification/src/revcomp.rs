//! Reverse complement of a nucleotide sequence.

use vstd::prelude::*;

use crate::symbol::complement;
use crate::symbol::complement_symbol;
use crate::symbol::is_symbol;
use crate::symbol::valid_sequence;

verus! {

/// The reverse complement: the sequence read backwards, each symbol replaced
/// by its pairing partner.
pub open spec fn rev_comp(s: Seq<u8>) -> Seq<u8> {
    Seq::new(s.len(), |i: int| complement(s[s.len() - 1 - i]))
}

/// Computes the reverse complement of a valid nucleotide sequence.
pub fn reverse_complement(forwards: &[u8]) -> (r: Vec<u8>)
    requires
        valid_sequence(forwards@),
    ensures
        r@ == rev_comp(forwards@),
        r@.len() == forwards@.len(),
        valid_sequence(r@),
        forall|i: int|
            0 <= i < forwards@.len() ==> r@[i] == complement(
                forwards@[forwards@.len() - 1 - i],
            ),
{
    let n = forwards.len();
    let mut result: Vec<u8> = Vec::new();
    let mut i: usize = 0;
    while i < n
        invariant
            n == forwards@.len(),
            i <= n,
            valid_sequence(forwards@),
            result@.len() == i,
            forall|j: int| 0 <= j < i ==> result@[j] == complement(forwards@[n - 1 - j]),
        decreases n - i,
    {
        let b = *vstd::slice::slice_index_get(forwards, n - 1 - i);
        assert(is_symbol(b));
        result.push(complement_symbol(b));
        i += 1;
    }
    proof {
        assert(result@ =~= rev_comp(forwards@));
    }
    result
}

/// Taking the reverse complement twice gives the original sequence back.
pub proof fn lemma_reverse_complement_involution(s: Seq<u8>)
    requires
        valid_sequence(s),
    ensures
        rev_comp(rev_comp(s)) == s,
{
    assert forall|i: int| 0 <= i < s.len() implies rev_comp(rev_comp(s))[i] == s[i] by {
        lemma_complement_involution_at(s, i);
    }
    assert(rev_comp(rev_comp(s)) =~= s);
}

/// The reverse complement keeps the length and is itself a valid sequence.
pub proof fn lemma_rev_comp_valid(s: Seq<u8>)
    requires
        valid_sequence(s),
    ensures
        rev_comp(s).len() == s.len(),
        valid_sequence(rev_comp(s)),
{
}

proof fn lemma_complement_involution_at(s: Seq<u8>, i: int)
    requires
        valid_sequence(s),
        0 <= i < s.len(),
    ensures
        rev_comp(rev_comp(s))[i] == s[i],
{
    crate::symbol::lemma_complement_involution(s[i]);
}

} // verus!
