//! FASTA serialization: a named sequence becomes a header line and the
//! sequence data, either as one line or wrapped at a fixed width.

use vstd::prelude::*;
use vstd::string::StringSliceAdditionalSpecFns;

verus! {

/// ASCII `>`: marks a FASTA header line.
pub const HEADER_MARK: u8 = 62;

/// ASCII line feed: the line terminator.
pub const NEWLINE: u8 = 10;

/// The data lines of one record at wrap width `width`: consecutive chunks of
/// at most `width` bytes, each followed by a line terminator. An empty
/// sequence yields no line at all.
pub open spec fn wrapped_body(s: Seq<u8>, width: nat) -> Seq<u8>
    recommends
        width > 0,
    decreases s.len(),
    when width > 0
{
    if s.len() == 0 {
        Seq::empty()
    } else if s.len() <= width {
        s + seq![NEWLINE]
    } else {
        s.take(width as int) + seq![NEWLINE] + wrapped_body(s.skip(width as int), width)
    }
}

/// The data part of one record: a single terminated line, or wrapped lines.
pub open spec fn record_body(s: Seq<u8>, line_width: Option<usize>) -> Seq<u8> {
    match line_width {
        Option::Some(w) => wrapped_body(s, w as nat),
        Option::None => s + seq![NEWLINE],
    }
}

/// One whole FASTA record: `>`, the name, a terminator, then the data part.
pub open spec fn spec_fasta_record(name: Seq<u8>, s: Seq<u8>, line_width: Option<usize>) -> Seq<
    u8,
> {
    seq![HEADER_MARK] + name + seq![NEWLINE] + record_body(s, line_width)
}

/// Unfolds one line off the front of `wrapped_body`.
proof fn lemma_wrapped_body_step(s: Seq<u8>, width: nat)
    requires
        width > 0,
        s.len() > 0,
    ensures
        ({
            let step = if s.len() <= width {
                s.len() as int
            } else {
                width as int
            };
            wrapped_body(s, width) == s.take(step) + seq![NEWLINE] + wrapped_body(
                s.skip(step),
                width,
            )
        }),
{
    if s.len() <= width {
        assert(s.take(s.len() as int) =~= s);
        assert(s.skip(s.len() as int) =~= Seq::<u8>::empty());
        assert(s.take(s.len() as int) + seq![NEWLINE] + wrapped_body(
            s.skip(s.len() as int),
            width,
        ) =~= s + seq![NEWLINE]);
    }
}

/// The data bytes of serialized output: everything but the line terminators.
pub open spec fn data_bytes(s: Seq<u8>) -> Seq<u8> {
    s.filter(|b: u8| b != NEWLINE)
}

/// The number of emitted lines: one per line terminator.
pub open spec fn line_count(s: Seq<u8>) -> int {
    s.filter(|b: u8| b == NEWLINE).len() as int
}

proof fn lemma_filter_all_kept(s: Seq<u8>, pred: spec_fn(u8) -> bool)
    requires
        forall|i: int| 0 <= i < s.len() ==> pred(s[i]),
    ensures
        s.filter(pred) == s,
    decreases s.len(),
{
    reveal(Seq::filter);
    if s.len() != 0 {
        lemma_filter_all_kept(s.drop_last(), pred);
        assert(s.drop_last().push(s.last()) =~= s);
    }
}

proof fn lemma_filter_none_kept(s: Seq<u8>, pred: spec_fn(u8) -> bool)
    requires
        forall|i: int| 0 <= i < s.len() ==> !pred(s[i]),
    ensures
        s.filter(pred) == Seq::<u8>::empty(),
    decreases s.len(),
{
    reveal(Seq::filter);
    if s.len() != 0 {
        lemma_filter_none_kept(s.drop_last(), pred);
    }
}

/// Wrapping at a positive width and re-joining the lines (stripping the line
/// terminators) reconstructs the sequence exactly, and the number of emitted
/// lines is `ceil(len / width)` for a non-empty sequence and `0` otherwise.
pub proof fn lemma_wrap_round_trip(s: Seq<u8>, width: nat)
    requires
        width > 0,
        forall|i: int| 0 <= i < s.len() ==> s[i] != NEWLINE,
    ensures
        data_bytes(wrapped_body(s, width)) == s,
        line_count(wrapped_body(s, width)) == if s.len() == 0 {
            0int
        } else {
            (s.len() + width - 1) / width as int
        },
    decreases s.len(),
{
    let keep = |b: u8| b != NEWLINE;
    let isnl = |b: u8| b == NEWLINE;
    let nl = seq![NEWLINE];
    if s.len() == 0 {
        reveal(Seq::filter);
    } else {
        let n = s.len() as int;
        let w = width as int;
        let step = if n <= w {
            n
        } else {
            w
        };
        lemma_wrapped_body_step(s, width);
        let head = s.take(step);
        let rest = s.skip(step);
        lemma_wrap_round_trip(rest, width);
        Seq::filter_distributes_over_add(head, nl, keep);
        Seq::filter_distributes_over_add(head + nl, wrapped_body(rest, width), keep);
        Seq::filter_distributes_over_add(head, nl, isnl);
        Seq::filter_distributes_over_add(head + nl, wrapped_body(rest, width), isnl);
        lemma_filter_all_kept(head, keep);
        lemma_filter_none_kept(nl, keep);
        lemma_filter_none_kept(head, isnl);
        lemma_filter_all_kept(nl, isnl);
        assert(data_bytes(wrapped_body(s, width)) =~= s);
        if n <= w {
            vstd::arithmetic::div_mod::lemma_basic_div(n - 1, w);
            vstd::arithmetic::div_mod::lemma_div_plus_one(n - 1, w);
            assert(line_count(wrapped_body(s, width)) == 1);
            assert((n + w - 1) / w == 1);
        } else {
            assert(line_count(wrapped_body(s, width)) == 1 + line_count(
                wrapped_body(rest, width),
            ));
            assert(line_count(wrapped_body(rest, width)) == (n - 1) / w);
            vstd::arithmetic::div_mod::lemma_div_plus_one(n - 1, w);
        }
    }
}

/// Serializes one FASTA record onto the end of `out`: a header line `>name`,
/// then the sequence, as one line when `line_width` is absent and wrapped to
/// `line_width` symbols per line otherwise.
pub fn write_fasta_record(
    name: &str,
    sequence: &[u8],
    out: &mut Vec<u8>,
    line_width: Option<usize>,
)
    requires
        match line_width {
            Option::Some(w) => w > 0,
            Option::None => true,
        },
    ensures
        final (out)@ == old(out)@ + spec_fasta_record(name.spec_bytes(), sequence@, line_width),
{
    let ghost target = old(out)@ + spec_fasta_record(name.spec_bytes(), sequence@, line_width);
    out.push(HEADER_MARK);
    out.extend_from_slice(name.as_bytes());
    out.push(NEWLINE);
    assert(out@ =~= old(out)@ + seq![HEADER_MARK] + name.spec_bytes() + seq![NEWLINE]);
    match line_width {
        Option::Some(w) => {
            proof {
                assert(sequence@.skip(0) =~= sequence@);
                assert(out@ + wrapped_body(sequence@, w as nat) =~= target);
            }
            let mut i: usize = 0;
            while i < sequence.len()
                invariant
                    w > 0,
                    i <= sequence@.len(),
                    out@ + wrapped_body(sequence@.skip(i as int), w as nat) == target,
                decreases sequence@.len() - i,
            {
                let remaining = sequence.len() - i;
                let step = if remaining < w {
                    remaining
                } else {
                    w
                };
                let chunk = vstd::slice::slice_subrange(sequence, i, i + step);
                out.extend_from_slice(chunk);
                out.push(NEWLINE);
                proof {
                    let rest = sequence@.skip(i as int);
                    lemma_wrapped_body_step(rest, w as nat);
                    assert(rest.take(step as int) =~= sequence@.subrange(
                        i as int,
                        i + step as int,
                    ));
                    assert(rest.skip(step as int) =~= sequence@.skip(i + step as int));
                    assert(out@ + wrapped_body(sequence@.skip(i + step as int), w as nat)
                        =~= target);
                }
                i = i + step;
            }
            proof {
                assert(sequence@.skip(i as int) =~= Seq::<u8>::empty());
                assert(out@ + Seq::<u8>::empty() =~= out@);
            }
        },
        Option::None => {
            out.extend_from_slice(sequence);
            out.push(NEWLINE);
            assert(out@ =~= target);
        },
    }
}

} // verus!
