use fasta_gen::fasta::write_fasta_record;
use fasta_gen::generator::generate;
use fasta_gen::records::reference_record;
use fasta_gen::records::subsequence_records;
use fasta_gen::revcomp::reverse_complement;

/// Splits serialized FASTA bytes into (name, sequence) records.
fn parse_fasta(bytes: &[u8]) -> Vec<(String, Vec<u8>)> {
    let text = std::str::from_utf8(bytes).unwrap();
    assert!(text.is_empty() || text.ends_with('\n'), "must end in a terminator");
    let mut records: Vec<(String, Vec<u8>)> = Vec::new();
    for line in text.lines() {
        if let Some(name) = line.strip_prefix('>') {
            records.push((name.to_string(), Vec::new()));
        } else {
            records.last_mut().unwrap().1.extend_from_slice(line.as_bytes());
        }
    }
    records
}

#[test]
fn record_without_wrapping_is_one_line() {
    let mut out = Vec::new();
    write_fasta_record("x", b"ACGT", &mut out, None);
    assert_eq!(out, b">x\nACGT\n");
}

#[test]
fn record_wrapping_splits_into_chunks() {
    let mut out = Vec::new();
    write_fasta_record("n", b"ACGTACG", &mut out, Some(3));
    assert_eq!(out, b">n\nACG\nTAC\nG\n");
}

#[test]
fn record_wrapping_exact_multiple() {
    let mut out = Vec::new();
    write_fasta_record("n", b"ACGTAC", &mut out, Some(3));
    assert_eq!(out, b">n\nACG\nTAC\n");
}

#[test]
fn record_wrapping_empty_sequence_has_no_line() {
    let mut out = Vec::new();
    write_fasta_record("n", b"", &mut out, Some(5));
    assert_eq!(out, b">n\n");
}

#[test]
fn record_appends_to_existing_buffer() {
    let mut out = b"abc".to_vec();
    write_fasta_record("n", b"AC", &mut out, None);
    assert_eq!(out, b"abc>n\nAC\n");
}

#[test]
fn wrapped_lines_rejoin_to_the_sequence() {
    let sequence = generate(1000);
    for width in [1usize, 3, 7, 60, 999, 1000, 5000] {
        let mut out = Vec::new();
        write_fasta_record("w", &sequence, &mut out, Some(width));
        let body = &out[3..];
        let lines: Vec<&[u8]> = body.split(|&b| b == b'\n').filter(|l| !l.is_empty()).collect();
        let expected_lines = (sequence.len() + width - 1) / width;
        assert_eq!(lines.len(), expected_lines);
        let rejoined: Vec<u8> = lines.concat();
        assert_eq!(rejoined, sequence);
        assert!(lines.iter().all(|l| l.len() <= width));
        for l in &lines[..lines.len() - 1] {
            assert_eq!(l.len(), width);
        }
    }
}

#[test]
fn empty_reference_record_is_header_and_empty_line() {
    let sequence = generate(0);
    let out = reference_record(&sequence, None);
    assert_eq!(out, b">random_reference\n\n");
}

#[test]
fn full_scenario_with_subsequence() {
    let sequence = generate(10000);
    let reference = reference_record(&sequence, None);
    let reference_records = parse_fasta(&reference);
    assert_eq!(reference_records.len(), 1);
    assert_eq!(reference_records[0].0, "random_reference");
    assert_eq!(reference_records[0].1.len(), 10000);
    assert_eq!(reference_records[0].1, sequence);

    let out = subsequence_records(&sequence, 500, None).expect("500 <= 10000");
    let records = parse_fasta(&out);
    assert_eq!(records.len(), 2);
    assert_eq!(records[0].0, "random_contig");
    assert_eq!(records[1].0, "random_contig_rev");
    assert_eq!(records[0].1.len(), 500);
    assert_eq!(records[1].1.len(), 500);
    assert_eq!(records[0].1, sequence[sequence.len() - 500..].to_vec());
    assert_eq!(records[1].1, reverse_complement(&records[0].1));
}

#[test]
fn subsequence_records_respect_line_width() {
    let sequence = generate(100);
    let out = subsequence_records(&sequence, 10, Some(4)).expect("10 <= 100");
    let records = parse_fasta(&out);
    assert_eq!(records.len(), 2);
    assert_eq!(records[0].1, sequence[90..].to_vec());
    assert_eq!(records[1].1, reverse_complement(&sequence[90..]));
}

#[test]
fn oversized_subsequence_is_refused() {
    let sequence = generate(100);
    assert!(subsequence_records(&sequence, 101, None).is_none());
    assert!(subsequence_records(&[], 1, None).is_none());
    assert!(subsequence_records(&sequence, 100, None).is_some());
}
