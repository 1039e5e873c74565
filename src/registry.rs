//! The catalog of challenges: each number names one operation and the
//! number of sequences it takes. `invoke` is the one way to run an
//! operation, and it checks that number before it builds the input.
use vstd::prelude::*;
use crate::model::{EngineError, FunctionResult, RosalindInputType};
use crate::text::texts;
use crate::operations::{
    count_nucleotides, count_outcome, find_motif, hamming_distance, hamming_outcome,
    motif_outcome, protein_mass, protein_mass_outcome, reverse_complement,
    reverse_complement_outcome, transcribe_dna, transcribe_outcome, translate_outcome,
    translate_rna,
};

verus! {

/// The challenges of the catalog, in the order of their numbers.
#[derive(Debug, Clone, Copy, PartialEq, Eq)]
pub enum RosalindInput {
    One,
    Two,
    Three,
    Four,
    Five,
    Six,
    Seven,
}

/// Number of challenges in the catalog.
pub const CHALLENGE_COUNT: u32 = 7;

/// The challenge with number `id`, if the catalog holds one.
pub open spec fn challenge_of(id: int) -> Option<RosalindInput> {
    if id == 1 {
        Some(RosalindInput::One)
    } else if id == 2 {
        Some(RosalindInput::Two)
    } else if id == 3 {
        Some(RosalindInput::Three)
    } else if id == 4 {
        Some(RosalindInput::Four)
    } else if id == 5 {
        Some(RosalindInput::Five)
    } else if id == 6 {
        Some(RosalindInput::Six)
    } else if id == 7 {
        Some(RosalindInput::Seven)
    } else {
        None
    }
}

impl RosalindInput {
    /// The challenge's number in the catalog.
    pub open spec fn number(self) -> nat {
        match self {
            RosalindInput::One => 1,
            RosalindInput::Two => 2,
            RosalindInput::Three => 3,
            RosalindInput::Four => 4,
            RosalindInput::Five => 5,
            RosalindInput::Six => 6,
            RosalindInput::Seven => 7,
        }
    }

    /// How many sequences the challenge takes.
    pub open spec fn arity_of(self) -> nat {
        match self {
            RosalindInput::Six | RosalindInput::Seven => 2,
            _ => 1,
        }
    }

    /// The challenge's display name.
    pub open spec fn title(self) -> &'static str {
        match self {
            RosalindInput::One => "Counting DNA Nucleotides",
            RosalindInput::Two => "Transcribing DNA into RNA",
            RosalindInput::Three => "Complementing a Strand of DNA",
            RosalindInput::Four => "Translating RNA into Protein",
            RosalindInput::Five => "Calculating Protein Mass",
            RosalindInput::Six => "Counting Point Mutations",
            RosalindInput::Seven => "Finding a Motif in DNA",
        }
    }

    /// What it means for `r` to be the result of running the challenge on
    /// `inputs`.
    pub open spec fn outcome(
        self,
        inputs: Seq<Seq<char>>,
        r: Result<FunctionResult, EngineError>,
    ) -> bool {
        match self {
            RosalindInput::One => count_outcome(inputs[0], r),
            RosalindInput::Two => transcribe_outcome(inputs[0], r),
            RosalindInput::Three => reverse_complement_outcome(inputs[0], r),
            RosalindInput::Four => translate_outcome(inputs[0], r),
            RosalindInput::Five => protein_mass_outcome(inputs[0], r),
            RosalindInput::Six => hamming_outcome(inputs[0], inputs[1], r),
            RosalindInput::Seven => motif_outcome(inputs[0], inputs[1], r),
        }
    }

    /// The challenge with number `id`, if the catalog holds one.
    pub fn from_id(id: u32) -> (r: Option<RosalindInput>)
        ensures
            r == challenge_of(id as int),
    {
        match id {
            1 => Some(RosalindInput::One),
            2 => Some(RosalindInput::Two),
            3 => Some(RosalindInput::Three),
            4 => Some(RosalindInput::Four),
            5 => Some(RosalindInput::Five),
            6 => Some(RosalindInput::Six),
            7 => Some(RosalindInput::Seven),
            _ => None,
        }
    }

    /// The challenge's number in the catalog.
    pub fn id(&self) -> (r: u32)
        ensures
            r == self.number(),
            challenge_of(r as int) == Some(*self),
    {
        match self {
            RosalindInput::One => 1,
            RosalindInput::Two => 2,
            RosalindInput::Three => 3,
            RosalindInput::Four => 4,
            RosalindInput::Five => 5,
            RosalindInput::Six => 6,
            RosalindInput::Seven => 7,
        }
    }

    /// How many sequences the challenge takes.
    pub fn arity(&self) -> (r: usize)
        ensures
            r == self.arity_of(),
    {
        match self {
            RosalindInput::Six | RosalindInput::Seven => 2,
            _ => 1,
        }
    }

    /// The challenge's display name.
    pub fn name(&self) -> (r: &'static str)
        ensures
            r == self.title(),
    {
        match self {
            RosalindInput::One => "Counting DNA Nucleotides",
            RosalindInput::Two => "Transcribing DNA into RNA",
            RosalindInput::Three => "Complementing a Strand of DNA",
            RosalindInput::Four => "Translating RNA into Protein",
            RosalindInput::Five => "Calculating Protein Mass",
            RosalindInput::Six => "Counting Point Mutations",
            RosalindInput::Seven => "Finding a Motif in DNA",
        }
    }
}

/// One entry of the catalog.
#[derive(Debug, Clone, Copy, PartialEq, Eq)]
pub struct ChallengeDescriptor {
    pub id: u32,
    pub name: &'static str,
    pub arity: usize,
    pub challenge: RosalindInput,
}

/// The catalog entry for challenge number `id`.
pub fn describe(id: u32) -> (r: Option<ChallengeDescriptor>)
    ensures
        r is Some <==> challenge_of(id as int) is Some,
        r matches Some(d) ==> {
            &&& challenge_of(id as int) == Some(d.challenge)
            &&& d.id == id
            &&& d.name == d.challenge.title()
            &&& d.arity == d.challenge.arity_of()
        },
{
    match RosalindInput::from_id(id) {
        Some(c) => Some(ChallengeDescriptor { id, name: c.name(), arity: c.arity(), challenge: c }),
        None => None,
    }
}

/// Every challenge number with its display name, in ascending order.
pub fn list() -> (r: Vec<(u32, &'static str)>)
    ensures
        r.len() == CHALLENGE_COUNT,
        forall|k: int|
            0 <= k < r.len() ==> {
                &&& (#[trigger] r[k]).0 == k + 1
                &&& challenge_of(k + 1) matches Some(c) && r[k].1 == c.title()
            },
{
    let mut r: Vec<(u32, &'static str)> = Vec::new();
    for id in 1..CHALLENGE_COUNT + 1
        invariant
            r.len() == id - 1,
            forall|k: int|
                0 <= k < r.len() ==> {
                    &&& (#[trigger] r[k]).0 == k + 1
                    &&& challenge_of(k + 1) matches Some(c) && r[k].1 == c.title()
                },
    {
        match RosalindInput::from_id(id) {
            Some(c) => r.push((id, c.name())),
            None => {
                assert(false);
            },
        }
    }
    r
}

/// A pair of sequences to compare.
pub fn two_sequence_input(first: String, second: String) -> (r: RosalindInputType)
    ensures
        r is TwoSequence,
        r.sequences() == seq![first@, second@],
{
    RosalindInputType::TwoSequence([first, second])
}

/// A sequence and the motif to search for in it.
pub fn two_sequence_input_v2(dna: String, motif: String) -> (r: RosalindInputType)
    ensures
        r is TwoSequence,
        r.sequences() == seq![dna@, motif@],
{
    RosalindInputType::TwoSequence([dna, motif])
}

/// Runs challenge number `id` on `raw_inputs`. The number of inputs must be
/// the challenge's arity; the operation is not run otherwise.
pub fn invoke(id: u32, raw_inputs: &Vec<String>) -> (r: Result<FunctionResult, EngineError>)
    ensures
        challenge_of(id as int) is None ==> r == Err::<FunctionResult, EngineError>(
            EngineError::UnknownChallenge,
        ),
        challenge_of(id as int) matches Some(c) ==> if raw_inputs.len() != c.arity_of() {
            r == Err::<FunctionResult, EngineError>(EngineError::ArityMismatch)
        } else {
            c.outcome(texts(raw_inputs@), r)
        },
{
    let c = match RosalindInput::from_id(id) {
        Some(c) => c,
        None => return Err(EngineError::UnknownChallenge),
    };
    if raw_inputs.len() != c.arity() {
        return Err(EngineError::ArityMismatch);
    }
    if c.arity() == 1 {
        let input = RosalindInputType::OneSequence(raw_inputs[0].clone());
        assert(input.sequences()[0] == texts(raw_inputs@)[0]);
        match c {
            RosalindInput::One => count_nucleotides(input),
            RosalindInput::Two => transcribe_dna(input),
            RosalindInput::Three => reverse_complement(input),
            RosalindInput::Four => translate_rna(input),
            _ => protein_mass(input),
        }
    } else {
        let first = raw_inputs[0].clone();
        let second = raw_inputs[1].clone();
        assert(texts(raw_inputs@)[0] == first@ && texts(raw_inputs@)[1] == second@);
        match c {
            RosalindInput::Six => hamming_distance(two_sequence_input(first, second)),
            _ => find_motif(two_sequence_input_v2(first, second)),
        }
    }
}

} // verus!
