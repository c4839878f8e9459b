//! The sequence generator: a weighted run-length model over `{A, C, G, T}`.

use vstd::prelude::*;

use crate::rand_source::choose_byte;
use crate::rand_source::dist_weights;
use crate::rand_source::rng_from_entropy;
use crate::rand_source::sample_run_length;
use crate::rand_source::weighted_index_new;
use crate::symbol::is_symbol;
use crate::symbol::valid_sequence;
use crate::symbol::SYM_A;
use crate::symbol::SYM_C;
use crate::symbol::SYM_G;
use crate::symbol::SYM_T;
use crate::weights::repetition_weights;
use crate::weights::RUN_DOMAIN;

verus! {

/// The four nucleotide letters, in a vector for uniform drawing.
fn alphabet() -> (v: Vec<u8>)
    ensures
        v@.len() == 4,
        valid_sequence(v@),
{
    let mut v: Vec<u8> = Vec::new();
    v.push(SYM_A);
    v.push(SYM_C);
    v.push(SYM_G);
    v.push(SYM_T);
    v
}

/// Generates a random nucleotide sequence of exactly `length` symbols with
/// the supplied generator.
///
/// Symbols come in runs: each round picks one of the four letters uniformly
/// and a run length from the weighted table, then appends that many copies,
/// stopping early once the sequence is full.
pub fn generate_with(length: usize, rng: &mut rand::rngs::SmallRng) -> (r: Vec<u8>)
    ensures
        r@.len() == length,
        valid_sequence(r@),
{
    let letters = alphabet();
    let weights = repetition_weights();
    let dist = weighted_index_new(&weights);
    let mut result: Vec<u8> = Vec::new();
    while result.len() < length
        invariant
            result@.len() <= length,
            valid_sequence(result@),
            dist_weights(dist).len() == RUN_DOMAIN,
            dist_weights(dist)[0] == 0,
            letters@.len() == 4,
            valid_sequence(letters@),
        decreases length - result@.len(),
    {
        let symbol = choose_byte(rng, letters.as_slice());
        assert(is_symbol(symbol));
        let repetitions = sample_run_length(rng, &dist);
        assert(repetitions >= 1);
        let ghost prev_len = result@.len();
        let mut k: usize = 0;
        while k < repetitions && result.len() < length
            invariant
                k <= repetitions,
                is_symbol(symbol),
                result@.len() == prev_len + k,
                result@.len() <= length,
                valid_sequence(result@),
            decreases repetitions - k,
        {
            result.push(symbol);
            k += 1;
        }
    }
    result
}

/// Generates a random nucleotide sequence of exactly `length` symbols,
/// seeded from system entropy.
pub fn generate(length: usize) -> (r: Vec<u8>)
    ensures
        r@.len() == length,
        valid_sequence(r@),
{
    let mut rng = rng_from_entropy();
    generate_with(length, &mut rng)
}

} // verus!
