//! Random nucleotide reference sequences, verified.
//!
//! The library generates a random sequence over the alphabet `{A, C, G, T}`
//! with a weighted run-length model, computes reverse complements, and
//! serializes named sequences as FASTA records into byte buffers. File
//! handling and command-line parsing live outside the library.

pub mod fasta;
pub mod generator;
pub mod rand_source;
pub mod records;
pub mod revcomp;
pub mod symbol;
pub mod weights;
