//! Solvers for a fixed catalog of biological-sequence challenges: symbol
//! counting, transcription, reverse complement, translation, protein mass,
//! Hamming distance and motif search, together with a registry that
//! dispatches on a challenge number and a session state machine that drives
//! an interactive terminal.
pub mod alphabet;
pub mod fasta;
pub mod model;
pub mod operations;
pub mod registry;
pub mod sequence;
pub mod session;
pub mod text;

pub use alphabet::{amino_acid_mass, codon_table, codon_to_amino_acid};
pub use fasta::fasta_records;
pub use model::{EngineError, FunctionResult, RosalindInputType};
pub use operations::{
    count_nucleotides, find_motif, gc_count, hamming_distance, protein_mass, reverse_complement,
    transcribe_dna, translate_rna,
};
pub use registry::{
    describe, invoke, list, two_sequence_input, two_sequence_input_v2, ChallengeDescriptor,
    RosalindInput,
};
pub use session::{parse_command, parse_number, Action, Command, SessionState};
