//! The challenge operations. Each takes the input shape of its arity and
//! returns a typed result or a recoverable error.
use vstd::prelude::*;
use crate::alphabet::{amino_acid_mass, codon_to_amino_acid, mass_of, STOP};
use crate::model::{EngineError, FunctionResult, RosalindInputType};
use crate::sequence::{
    lemma_count_absent, lemma_count_bounded, lemma_count_push,
    complement, count_of, is_dna, is_dna_base, is_tally_of, is_weighable, mismatches,
    motif_positions, occurs_at, reverse_complemented, starts_before, to_thousandths,
    total_mass, transcribed, transcribed_base, translated,
};
use crate::text::{chars_of, string_of};

verus! {

/// The outcome of counting the symbols of `s`.
pub open spec fn count_outcome(s: Seq<char>, r: Result<FunctionResult, EngineError>) -> bool {
    r matches Ok(FunctionResult::NucleotideCount(t)) && is_tally_of(t@, s)
}

fn tally(s: &Vec<char>) -> (t: Vec<(char, usize)>)
    ensures
        is_tally_of(t@, s@),
{
    let mut t: Vec<(char, usize)> = Vec::new();
    for i in 0..s.len()
        invariant
            is_tally_of(t@, s@.take(i as int)),
    {
        let c = s[i];
        let ghost before = s@.take(i as int);
        let ghost after = s@.take(i + 1);
        proof {
            assert(after =~= before.push(c));
            lemma_count_push(before, c);
            lemma_count_bounded(before, c);
            assert forall|x: char| before.contains(x) implies after.contains(x) by {
                let k = choose|k: int| 0 <= k < before.len() && before[k] == x;
                assert(after[k] == x);
            }
            assert(after[i as int] == c);
        }
        let mut found: bool = false;
        let mut j: usize = 0;
        while j < t.len()
            invariant_except_break
                !found,
            invariant
                0 <= j <= t.len(),
                forall|k: int| 0 <= k < j ==> t[k].0 != c,
            ensures
                found ==> j < t.len() && t[j as int].0 == c,
                !found ==> forall|k: int| 0 <= k < t.len() ==> t[k].0 != c,
            decreases t.len() - j,
        {
            if t[j].0 == c {
                found = true;
                break;
            }
            j = j + 1;
        }
        let ghost old_t = t@;
        if found {
            let n = t[j].1;
            t.set(j, (c, n + 1));
        } else {
            t.push((c, 1));
        }
        proof {
            assert forall|k: int| 0 <= k < old_t.len() implies #[trigger] t[k].0 == old_t[k].0 by {
                if found && k == j {
                    assert(old_t[k].0 == c);
                }
            }
            assert forall|k: int| 0 <= k < t.len() implies after.contains(#[trigger] t[k].0)
                && t[k].1 == count_of(after, t[k].0) by {
                if k < old_t.len() && !(found && k == j) {
                    assert(t[k] == old_t[k]);
                    assert(before.contains(t[k].0));
                } else {
                    assert(t[k].0 == c);
                    if !found {
                        lemma_count_absent(before, c);
                    }
                }
            }
            assert forall|x: char| after.contains(x) implies exists|k: int|
                0 <= k < t.len() && t[k].0 == x by {
                if x == c {
                    if found {
                        assert(t[j as int].0 == x);
                    } else {
                        assert(t[old_t.len() as int].0 == x);
                    }
                } else {
                    let k = choose|k: int| 0 <= k < after.len() && after[k] == x;
                    assert(before[k] == x);
                    assert(before.contains(x));
                    let w = choose|w: int| 0 <= w < old_t.len() && old_t[w].0 == x;
                    assert(t[w].0 == x);
                }
            }
        }
    }
    assert(s@.take(s.len() as int) =~= s@);
    t
}

/// Counts how often each symbol occurs in a sequence.
pub fn count_nucleotides(input: RosalindInputType) -> (r: Result<FunctionResult, EngineError>)
    requires
        input is OneSequence,
    ensures
        count_outcome(input.sequences()[0], r),
{
    let dna = input.unwrap_sequence();
    let symbols = chars_of(dna.as_str());
    Ok(FunctionResult::NucleotideCount(tally(&symbols)))
}

/// The outcome of transcribing `s`.
pub open spec fn transcribe_outcome(s: Seq<char>, r: Result<FunctionResult, EngineError>) -> bool {
    r matches Ok(FunctionResult::TranscribedDNA(t)) && t@ == transcribed(s)
}

/// Transcribes DNA into RNA: every `T` becomes `U`, all else is kept.
pub fn transcribe_dna(input: RosalindInputType) -> (r: Result<FunctionResult, EngineError>)
    requires
        input is OneSequence,
    ensures
        transcribe_outcome(input.sequences()[0], r),
        r matches Ok(FunctionResult::TranscribedDNA(t)) && t@.len() == input.sequences()[0].len()
            && !t@.contains('T'),
{
    let dna = chars_of(input.unwrap_sequence().as_str());
    let mut rna: Vec<char> = Vec::new();
    for i in 0..dna.len()
        invariant
            rna@ == transcribed(dna@.take(i as int)),
    {
        let c = dna[i];
        rna.push(if c == 'T' { 'U' } else { c });
        assert(transcribed(dna@.take(i + 1)) =~= transcribed(dna@.take(i as int)).push(
            transcribed_base(c),
        ));
    }
    assert(dna@.take(dna.len() as int) =~= dna@);
    assert(!rna@.contains('T')) by {
        if rna@.contains('T') {
            let k = choose|k: int| 0 <= k < rna@.len() && rna@[k] == 'T';
            assert(rna@[k] == transcribed_base(dna@[k]));
        }
    }
    Ok(FunctionResult::TranscribedDNA(string_of(&rna)))
}

/// The outcome of taking the reverse complement of `s`.
pub open spec fn reverse_complement_outcome(
    s: Seq<char>,
    r: Result<FunctionResult, EngineError>,
) -> bool {
    if is_dna(s) {
        r matches Ok(FunctionResult::ReverseComplement(t)) && t@ == reverse_complemented(s)
    } else {
        r == Err::<FunctionResult, EngineError>(EngineError::InvalidSymbol)
    }
}

/// Reverses a DNA sequence and exchanges `A` with `T` and `C` with `G`; any
/// other symbol is rejected.
pub fn reverse_complement(input: RosalindInputType) -> (r: Result<FunctionResult, EngineError>)
    requires
        input is OneSequence,
    ensures
        reverse_complement_outcome(input.sequences()[0], r),
{
    let dna = chars_of(input.unwrap_sequence().as_str());
    let n = dna.len();
    let mut out: Vec<char> = Vec::new();
    for k in 0..n
        invariant
            n == dna.len(),
            dna@ == input.sequences()[0],
            out@ =~= Seq::new(k as nat, |i: int| complement(dna@[n - 1 - i])),
            forall|i: int| n - k <= i < n ==> is_dna_base(#[trigger] dna@[i]),
    {
        let c = dna[n - 1 - k];
        if c != 'A' && c != 'T' && c != 'C' && c != 'G' {
            assert(!is_dna_base(dna@[n - 1 - k]));
            return Err(EngineError::InvalidSymbol);
        }
        let partner = if c == 'A' {
            'T'
        } else if c == 'T' {
            'A'
        } else if c == 'C' {
            'G'
        } else {
            'C'
        };
        out.push(partner);
    }
    assert(is_dna(dna@));
    Ok(FunctionResult::ReverseComplement(string_of(&out)))
}

/// The outcome of translating `s`.
pub open spec fn translate_outcome(s: Seq<char>, r: Result<FunctionResult, EngineError>) -> bool {
    r matches Ok(FunctionResult::TranslatedRNA(t)) && t@ == translated(s)
}

/// Translates RNA into protein, codon by codon, up to the first stop codon.
pub fn translate_rna(input: RosalindInputType) -> (r: Result<FunctionResult, EngineError>)
    requires
        input is OneSequence,
    ensures
        translate_outcome(input.sequences()[0], r),
{
    let rna = chars_of(input.unwrap_sequence().as_str());
    let n = rna.len();
    let mut protein: Vec<char> = Vec::new();
    let mut i: usize = 0;
    let mut stopped: bool = false;
    assert(rna@.skip(0) =~= rna@);
    assert(protein@ + rna@ =~= rna@);
    while !stopped && 3 <= n - i
        invariant
            n == rna.len(),
            i <= n,
            stopped ==> translated(rna@) == protein@,
            !stopped ==> translated(rna@) == protein@ + translated(rna@.skip(i as int)),
        decreases n - i + if stopped {
            0int
        } else {
            1int
        },
    {
        let ghost rest = rna@.skip(i as int);
        assert(rest.skip(3) =~= rna@.skip(i + 3));
        assert(rest[0] == rna@[i as int] && rest[1] == rna@[i + 1] && rest[2] == rna@[i + 2]);
        match codon_to_amino_acid(rna[i], rna[i + 1], rna[i + 2]) {
            Some(residue) => {
                if residue == STOP {
                    stopped = true;
                } else {
                    assert(protein@.push(residue) + translated(rna@.skip(i + 3)) =~= protein@ + (
                    seq![residue] + translated(rna@.skip(i + 3))));
                    protein.push(residue);
                    i = i + 3;
                }
            },
            None => {
                i = i + 3;
            },
        }
    }
    if !stopped {
        assert(protein@ + translated(rna@.skip(i as int)) =~= protein@);
    }
    Ok(FunctionResult::TranslatedRNA(string_of(&protein)))
}

/// The largest mass of one residue, in hundred-thousandths of a dalton.
pub const HEAVIEST_RESIDUE: u64 = 18607931;

proof fn lemma_mass_bounded(c: char)
    ensures
        mass_of(c) is Some ==> mass_of(c).unwrap() <= HEAVIEST_RESIDUE,
{
}

/// The outcome of weighing the protein `s`.
pub open spec fn protein_mass_outcome(s: Seq<char>, r: Result<FunctionResult, EngineError>) -> bool {
    if is_weighable(s) {
        r matches Ok(FunctionResult::ProteinMass(m)) && m == to_thousandths(total_mass(s))
    } else {
        r == Err::<FunctionResult, EngineError>(EngineError::UnknownSymbol)
    }
}

/// The monoisotopic mass of a protein, in thousandths of a dalton, rounded
/// half away from zero; a symbol that is not a standard residue is rejected.
pub fn protein_mass(input: RosalindInputType) -> (r: Result<FunctionResult, EngineError>)
    requires
        input is OneSequence,
    ensures
        protein_mass_outcome(input.sequences()[0], r),
{
    let protein = chars_of(input.unwrap_sequence().as_str());
    let mut sum: u128 = 0;
    for i in 0..protein.len()
        invariant
            protein@ == input.sequences()[0],
            sum == total_mass(protein@.take(i as int)),
            sum <= i * HEAVIEST_RESIDUE,
            forall|k: int| 0 <= k < i ==> (#[trigger] mass_of(protein@[k])) is Some,
    {
        let c = protein[i];
        assert(protein@.take(i + 1).drop_last() =~= protein@.take(i as int));
        match amino_acid_mass(c) {
            Some(m) => {
                proof {
                    lemma_mass_bounded(c);
                }
                sum = sum + m as u128;
            },
            None => {
                assert(!is_weighable(protein@));
                return Err(EngineError::UnknownSymbol);
            },
        }
    }
    assert(protein@.take(protein.len() as int) =~= protein@);
    Ok(FunctionResult::ProteinMass((sum + 50) / 100))
}

/// The outcome of comparing `s` with `t` position by position.
pub open spec fn hamming_outcome(
    s: Seq<char>,
    t: Seq<char>,
    r: Result<FunctionResult, EngineError>,
) -> bool {
    if s.len() == t.len() {
        r matches Ok(FunctionResult::HammingDistance(d)) && d == mismatches(s, t, s.len())
    } else {
        r == Err::<FunctionResult, EngineError>(EngineError::LengthMismatch)
    }
}

/// The number of positions at which two sequences of equal length differ;
/// sequences of different lengths are rejected.
pub fn hamming_distance(input: RosalindInputType) -> (r: Result<FunctionResult, EngineError>)
    requires
        input is TwoSequence,
    ensures
        hamming_outcome(input.sequences()[0], input.sequences()[1], r),
        input.sequences()[0].len() != input.sequences()[1].len() ==> r
            == Err::<FunctionResult, EngineError>(EngineError::LengthMismatch),
{
    let pair = input.unwrap_sequence_list();
    let s = chars_of(pair[0].as_str());
    let t = chars_of(pair[1].as_str());
    if s.len() != t.len() {
        return Err(EngineError::LengthMismatch);
    }
    let mut distance: usize = 0;
    for i in 0..s.len()
        invariant
            s.len() == t.len(),
            distance == mismatches(s@, t@, i as nat),
            distance <= i,
    {
        if s[i] != t[i] {
            distance = distance + 1;
        }
    }
    Ok(FunctionResult::HammingDistance(distance))
}

fn occurs_at_index(hay: &Vec<char>, needle: &Vec<char>, i: usize) -> (b: bool)
    ensures
        b == occurs_at(hay@, needle@, i as int),
{
    if i > hay.len() || needle.len() > hay.len() - i {
        return false;
    }
    let mut j: usize = 0;
    while j < needle.len()
        invariant
            i + needle.len() <= hay.len(),
            j <= needle.len(),
            forall|k: int| 0 <= k < j ==> hay@[i + k] == needle@[k],
        decreases needle.len() - j,
    {
        if hay[i + j] != needle[j] {
            assert(hay@.subrange(i as int, i + needle.len())[j as int] != needle@[j as int]);
            return false;
        }
        j = j + 1;
    }
    assert(hay@.subrange(i as int, i + needle.len()) =~= needle@);
    true
}

/// The outcome of searching `hay` for `needle`.
pub open spec fn motif_outcome(
    hay: Seq<char>,
    needle: Seq<char>,
    r: Result<FunctionResult, EngineError>,
) -> bool {
    if needle.len() == 0 {
        r == Err::<FunctionResult, EngineError>(EngineError::EmptyMotif)
    } else {
        r matches Ok(FunctionResult::MotifStartingLocations(p)) && p@.map_values(
            |x: usize| x as int,
        ) == motif_positions(hay, needle)
    }
}

/// The 1-based positions, ascending, at which the second sequence occurs in
/// the first, overlapping occurrences included; an empty motif is rejected.
pub fn find_motif(input: RosalindInputType) -> (r: Result<FunctionResult, EngineError>)
    requires
        input is TwoSequence,
    ensures
        motif_outcome(input.sequences()[0], input.sequences()[1], r),
{
    let pair = input.unwrap_sequence_list();
    let hay = chars_of(pair[0].as_str());
    let needle = chars_of(pair[1].as_str());
    if needle.len() == 0 {
        return Err(EngineError::EmptyMotif);
    }
    let mut positions: Vec<usize> = Vec::new();
    for i in 0..hay.len()
        invariant
            positions@.map_values(|x: usize| x as int) == starts_before(hay@, needle@, i as nat),
    {
        if occurs_at_index(&hay, &needle, i) {
            positions.push(i + 1);
            assert(positions@.map_values(|x: usize| x as int) =~= starts_before(
                hay@,
                needle@,
                i as nat,
            ).push(i + 1));
        }
    }
    Ok(FunctionResult::MotifStartingLocations(positions))
}

/// How many symbols of a sequence are `G` or `C`.
pub fn gc_count(sequence: &str) -> (r: usize)
    ensures
        r == count_of(sequence@, 'G') + count_of(sequence@, 'C'),
{
    let symbols = chars_of(sequence);
    let mut n: usize = 0;
    for i in 0..symbols.len()
        invariant
            n == count_of(symbols@.take(i as int), 'G') + count_of(symbols@.take(i as int), 'C'),
            n <= i,
    {
        proof {
            assert(symbols@.take(i + 1) =~= symbols@.take(i as int).push(symbols@[i as int]));
            lemma_count_push(symbols@.take(i as int), symbols@[i as int]);
        }
        if symbols[i] == 'G' || symbols[i] == 'C' {
            n = n + 1;
        }
    }
    assert(symbols@.take(symbols.len() as int) =~= symbols@);
    n
}

} // verus!
