use fasta_gen::generator::generate;
use fasta_gen::generator::generate_with;
use fasta_gen::revcomp::reverse_complement;
use fasta_gen::weights::repetition_weights;
use rand::SeedableRng;

fn is_nucleotide(b: u8) -> bool {
    b == b'A' || b == b'C' || b == b'G' || b == b'T'
}

fn complement_of(b: u8) -> u8 {
    match b {
        b'A' => b'T',
        b'T' => b'A',
        b'C' => b'G',
        b'G' => b'C',
        other => panic!("not a nucleotide: {other}"),
    }
}

#[test]
fn generate_zero_is_empty() {
    assert_eq!(generate(0), Vec::<u8>::new());
}

#[test]
fn generate_has_exact_length_and_alphabet() {
    for &len in &[1usize, 2, 10, 1000, 4097] {
        let s = generate(len);
        assert_eq!(s.len(), len);
        assert!(s.iter().all(|&b| is_nucleotide(b)));
    }
}

#[test]
fn generate_with_seeded_rng_is_reproducible() {
    let mut rng1 = rand::rngs::SmallRng::seed_from_u64(42);
    let mut rng2 = rand::rngs::SmallRng::seed_from_u64(42);
    let a = generate_with(300, &mut rng1);
    let b = generate_with(300, &mut rng2);
    assert_eq!(a, b);
    assert_eq!(a.len(), 300);
    assert!(a.iter().all(|&b| is_nucleotide(b)));
}

#[test]
fn reverse_complement_basic() {
    assert_eq!(reverse_complement(b"AACG"), b"CGTT");
    assert_eq!(reverse_complement(b""), b"");
    assert_eq!(reverse_complement(b"A"), b"T");
    assert_eq!(reverse_complement(b"ACGT"), b"ACGT");
}

#[test]
fn reverse_complement_pointwise() {
    let s = generate(257);
    let rc = reverse_complement(&s);
    assert_eq!(rc.len(), s.len());
    let n = s.len();
    for i in 0..n {
        assert_eq!(rc[i], complement_of(s[n - 1 - i]));
    }
}

#[test]
fn reverse_complement_is_an_involution() {
    let s = generate(512);
    let back = reverse_complement(&reverse_complement(&s));
    assert_eq!(back, s);
}

#[test]
fn weight_table_values() {
    let w = repetition_weights();
    assert_eq!(w.len(), 100);
    assert_eq!(w[0], 0);
    assert_eq!(w[1], 2_001_000_000);
    assert_eq!(w[2], 40_900_000);
    assert_eq!(w[3], 40_810_000);
    assert_eq!(w[4], 40_729_000);
    assert_eq!(w[5], 1_656_100);
    assert_eq!(w[10], 1_387_419);
    assert_eq!(w[11], 348_677);
    assert!(w[99] > 0);
}

#[test]
fn weight_table_decreasing_beyond_four() {
    let w = repetition_weights();
    for r in 4..99 {
        assert!(w[r] > w[r + 1], "weights must fall from {r} to {}", r + 1);
    }
    for r in 2..100 {
        assert!(w[1] > w[r]);
    }
}

#[test]
fn run_length_one_is_the_dominant_mode() {
    let s = generate(200_000);
    let mut histogram = [0usize; 202];
    let mut run = 1usize;
    for i in 1..=s.len() {
        if i < s.len() && s[i] == s[i - 1] {
            run = (run + 1).min(201);
        } else {
            histogram[run] += 1;
            run = 1;
        }
    }
    let best = (1..202).max_by_key(|&r| histogram[r]).unwrap();
    assert_eq!(best, 1, "run length 1 must be the dominant mode");
}
