//! The records the tool emits: the full reference sequence, and on request a
//! trailing subsequence together with its reverse complement.

use vstd::prelude::*;
use vstd::string::StringSliceAdditionalSpecFns;

use crate::fasta::spec_fasta_record;
use crate::fasta::write_fasta_record;
use crate::revcomp::rev_comp;
use crate::revcomp::reverse_complement;
use crate::symbol::valid_sequence;

verus! {

/// The bytes of both subsequence records: the trailing `count` symbols of
/// `s` under the name `random_contig`, then their reverse complement under
/// the name `random_contig_rev`.
pub open spec fn spec_subsequence_records(
    s: Seq<u8>,
    count: int,
    line_width: Option<usize>,
) -> Seq<u8>
    recommends
        0 <= count <= s.len(),
{
    let tail = s.skip(s.len() - count);
    spec_fasta_record(("random_contig").spec_bytes(), tail, line_width) + spec_fasta_record(
        ("random_contig_rev").spec_bytes(),
        rev_comp(tail),
        line_width,
    )
}

/// Serializes the whole sequence as the one FASTA record `random_reference`.
pub fn reference_record(sequence: &[u8], line_width: Option<usize>) -> (out: Vec<u8>)
    requires
        match line_width {
            Option::Some(w) => w > 0,
            Option::None => true,
        },
    ensures
        out@ == spec_fasta_record(("random_reference").spec_bytes(), sequence@, line_width),
{
    let mut out: Vec<u8> = Vec::new();
    write_fasta_record("random_reference", sequence, &mut out, line_width);
    proof {
        assert(out@ =~= spec_fasta_record(
            ("random_reference").spec_bytes(),
            sequence@,
            line_width,
        ));
    }
    out
}

/// Serializes the trailing `subsequence_length` symbols and their reverse
/// complement as the two FASTA records `random_contig` and
/// `random_contig_rev`, in that order. Returns `None` exactly when the
/// requested length exceeds the sequence length.
pub fn subsequence_records(
    sequence: &[u8],
    subsequence_length: usize,
    line_width: Option<usize>,
) -> (out: Option<Vec<u8>>)
    requires
        valid_sequence(sequence@),
        match line_width {
            Option::Some(w) => w > 0,
            Option::None => true,
        },
    ensures
        match out {
            Option::Some(v) => subsequence_length <= sequence@.len() && v@
                == spec_subsequence_records(sequence@, subsequence_length as int, line_width),
            Option::None => subsequence_length > sequence@.len(),
        },
{
    if subsequence_length > sequence.len() {
        return Option::None;
    }
    let start = sequence.len() - subsequence_length;
    let tail = vstd::slice::slice_subrange(sequence, start, sequence.len());
    proof {
        assert(tail@ =~= sequence@.skip(start as int));
        assert(valid_sequence(tail@));
    }
    let rc = reverse_complement(tail);
    let mut out: Vec<u8> = Vec::new();
    write_fasta_record("random_contig", tail, &mut out, line_width);
    write_fasta_record("random_contig_rev", rc.as_slice(), &mut out, line_width);
    proof {
        assert(out@ =~= spec_subsequence_records(
            sequence@,
            subsequence_length as int,
            line_width,
        ));
    }
    Option::Some(out)
}

} // verus!
