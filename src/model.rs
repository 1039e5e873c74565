//! The typed inputs and results that every challenge shares, and the errors
//! that the engine reports.
use vstd::prelude::*;

verus! {

/// The sequences handed to a challenge: one, or an ordered pair.
#[derive(Debug, Clone)]
pub enum RosalindInputType {
    OneSequence(String),
    TwoSequence([String; 2]),
}

/// What a challenge computes, one variant per family of results.
#[derive(Debug, Clone, PartialEq)]
pub enum FunctionResult {
    /// Each distinct symbol with the number of times it occurs, in order of
    /// first occurrence.
    NucleotideCount(Vec<(char, usize)>),
    TranscribedDNA(String),
    ReverseComplement(String),
    TranslatedRNA(String),
    /// A mass in thousandths of a dalton (three decimal places).
    ProteinMass(u128),
    HammingDistance(usize),
    /// The 1-based positions at which a motif starts, ascending.
    MotifStartingLocations(Vec<usize>),
}

/// The recoverable failures of the engine.
#[derive(Debug, Clone, Copy, PartialEq, Eq)]
pub enum EngineError {
    /// A symbol outside the alphabet that the challenge accepts.
    InvalidSymbol,
    /// Paired sequences whose lengths must agree do not.
    LengthMismatch,
    /// A motif of length zero.
    EmptyMotif,
    /// A symbol with no entry in the mass table.
    UnknownSymbol,
    /// A challenge number that the registry does not hold.
    UnknownChallenge,
    /// A number of sequences other than the challenge's arity.
    ArityMismatch,
    /// A line that is neither a command nor a challenge number.
    MalformedCommand,
}

impl RosalindInputType {
    /// The number of sequences held.
    pub open spec fn arity(&self) -> nat {
        match self {
            RosalindInputType::OneSequence(_) => 1,
            RosalindInputType::TwoSequence(_) => 2,
        }
    }

    /// The sequences held, in order, as symbol sequences.
    pub open spec fn sequences(&self) -> Seq<Seq<char>> {
        match self {
            RosalindInputType::OneSequence(s) => seq![s@],
            RosalindInputType::TwoSequence(p) => seq![p[0]@, p[1]@],
        }
    }

    /// The single sequence of a one-sequence input.
    pub fn unwrap_sequence(&self) -> (r: String)
        requires
            self is OneSequence,
        ensures
            r@ == self.sequences()[0],
    {
        match self {
            RosalindInputType::OneSequence(t) => t.clone(),
            RosalindInputType::TwoSequence(_) => {
                proof {
                    assert(false);
                }
                String::new()
            },
        }
    }

    /// The pair of sequences of a two-sequence input.
    pub fn unwrap_sequence_list(&self) -> (r: [String; 2])
        requires
            self is TwoSequence,
        ensures
            r[0]@ == self.sequences()[0],
            r[1]@ == self.sequences()[1],
    {
        match self {
            RosalindInputType::TwoSequence(t) => [t[0].clone(), t[1].clone()],
            RosalindInputType::OneSequence(_) => {
                proof {
                    assert(false);
                }
                [String::new(), String::new()]
            },
        }
    }
}

} // verus!
