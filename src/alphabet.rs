//! The fixed lookup data: the RNA codon table and the monoisotopic masses
//! of the standard amino acids.
use vstd::prelude::*;

verus! {

/// Number of codons in the RNA codon table.
pub const CODON_COUNT: usize = 64;

/// The marker that the codon table gives for a stop codon.
pub const STOP: char = '*';

/// A nucleotide of RNA.
pub open spec fn is_rna_base(c: char) -> bool {
    c == 'U' || c == 'C' || c == 'A' || c == 'G'
}

/// The RNA bases in the order in which the codon table lists them.
pub open spec fn rna_base(i: int) -> char {
    if i == 0 {
        'U'
    } else if i == 1 {
        'C'
    } else if i == 2 {
        'A'
    } else {
        'G'
    }
}

/// The codon at position `k` of the codon table.
pub open spec fn codon_at(k: int) -> Seq<char> {
    seq![rna_base(k / 16), rna_base((k / 4) % 4), rna_base(k % 4)]
}

/// The standard genetic code: the residue that the codon `a b c` encodes,
/// `STOP` for a stop codon, and none for a triple that is not a codon.
pub open spec fn residue_of(a: char, b: char, c: char) -> Option<char> {
    match (a, b, c) {
        ('U', _, _) => match (b, c) {
            ('U', 'U') => Some('F'),
            ('U', 'C') => Some('F'),
            ('U', 'A') => Some('L'),
            ('U', 'G') => Some('L'),
            ('C', 'U') => Some('S'),
            ('C', 'C') => Some('S'),
            ('C', 'A') => Some('S'),
            ('C', 'G') => Some('S'),
            ('A', 'U') => Some('Y'),
            ('A', 'C') => Some('Y'),
            ('A', 'A') => Some('*'),
            ('A', 'G') => Some('*'),
            ('G', 'U') => Some('C'),
            ('G', 'C') => Some('C'),
            ('G', 'A') => Some('*'),
            ('G', 'G') => Some('W'),
            _ => None,
        },
        ('C', _, _) => match (b, c) {
            ('U', 'U') => Some('L'),
            ('U', 'C') => Some('L'),
            ('U', 'A') => Some('L'),
            ('U', 'G') => Some('L'),
            ('C', 'U') => Some('P'),
            ('C', 'C') => Some('P'),
            ('C', 'A') => Some('P'),
            ('C', 'G') => Some('P'),
            ('A', 'U') => Some('H'),
            ('A', 'C') => Some('H'),
            ('A', 'A') => Some('Q'),
            ('A', 'G') => Some('Q'),
            ('G', 'U') => Some('R'),
            ('G', 'C') => Some('R'),
            ('G', 'A') => Some('R'),
            ('G', 'G') => Some('R'),
            _ => None,
        },
        ('A', _, _) => match (b, c) {
            ('U', 'U') => Some('I'),
            ('U', 'C') => Some('I'),
            ('U', 'A') => Some('I'),
            ('U', 'G') => Some('M'),
            ('C', 'U') => Some('T'),
            ('C', 'C') => Some('T'),
            ('C', 'A') => Some('T'),
            ('C', 'G') => Some('T'),
            ('A', 'U') => Some('N'),
            ('A', 'C') => Some('N'),
            ('A', 'A') => Some('K'),
            ('A', 'G') => Some('K'),
            ('G', 'U') => Some('S'),
            ('G', 'C') => Some('S'),
            ('G', 'A') => Some('R'),
            ('G', 'G') => Some('R'),
            _ => None,
        },
        ('G', _, _) => match (b, c) {
            ('U', 'U') => Some('V'),
            ('U', 'C') => Some('V'),
            ('U', 'A') => Some('V'),
            ('U', 'G') => Some('V'),
            ('C', 'U') => Some('A'),
            ('C', 'C') => Some('A'),
            ('C', 'A') => Some('A'),
            ('C', 'G') => Some('A'),
            ('A', 'U') => Some('D'),
            ('A', 'C') => Some('D'),
            ('A', 'A') => Some('E'),
            ('A', 'G') => Some('E'),
            ('G', 'U') => Some('G'),
            ('G', 'C') => Some('G'),
            ('G', 'A') => Some('G'),
            ('G', 'G') => Some('G'),
            _ => None,
        },
        _ => None,
    }
}

/// The monoisotopic mass of an amino acid, in hundred-thousandths of a
/// dalton; none for a symbol that is not one of the twenty standard residues.
pub open spec fn mass_of(symbol: char) -> Option<nat> {
    match symbol {
        'A' => Some(7103711),
        'C' => Some(10300919),
        'D' => Some(11502694),
        'E' => Some(12904259),
        'F' => Some(14706841),
        'G' => Some(5702146),
        'H' => Some(13705891),
        'I' => Some(11308406),
        'K' => Some(12809496),
        'L' => Some(11308406),
        'M' => Some(13104049),
        'N' => Some(11404293),
        'P' => Some(9705276),
        'Q' => Some(12805858),
        'R' => Some(15610111),
        'S' => Some(8703203),
        'T' => Some(10104768),
        'V' => Some(9906841),
        'W' => Some(18607931),
        'Y' => Some(16306333),
        _ => None,
    }
}

/// Translates one codon through the standard genetic code.
pub fn codon_to_amino_acid(a: char, b: char, c: char) -> (r: Option<char>)
    ensures
        r == residue_of(a, b, c),
{
    match (a, b, c) {
            ('U', _, _) => match (b, c) {
                ('U', 'U') => Some('F'),
                ('U', 'C') => Some('F'),
                ('U', 'A') => Some('L'),
                ('U', 'G') => Some('L'),
                ('C', 'U') => Some('S'),
                ('C', 'C') => Some('S'),
                ('C', 'A') => Some('S'),
                ('C', 'G') => Some('S'),
                ('A', 'U') => Some('Y'),
                ('A', 'C') => Some('Y'),
                ('A', 'A') => Some('*'),
                ('A', 'G') => Some('*'),
                ('G', 'U') => Some('C'),
                ('G', 'C') => Some('C'),
                ('G', 'A') => Some('*'),
                ('G', 'G') => Some('W'),
                _ => None,
            },
            ('C', _, _) => match (b, c) {
                ('U', 'U') => Some('L'),
                ('U', 'C') => Some('L'),
                ('U', 'A') => Some('L'),
                ('U', 'G') => Some('L'),
                ('C', 'U') => Some('P'),
                ('C', 'C') => Some('P'),
                ('C', 'A') => Some('P'),
                ('C', 'G') => Some('P'),
                ('A', 'U') => Some('H'),
                ('A', 'C') => Some('H'),
                ('A', 'A') => Some('Q'),
                ('A', 'G') => Some('Q'),
                ('G', 'U') => Some('R'),
                ('G', 'C') => Some('R'),
                ('G', 'A') => Some('R'),
                ('G', 'G') => Some('R'),
                _ => None,
            },
            ('A', _, _) => match (b, c) {
                ('U', 'U') => Some('I'),
                ('U', 'C') => Some('I'),
                ('U', 'A') => Some('I'),
                ('U', 'G') => Some('M'),
                ('C', 'U') => Some('T'),
                ('C', 'C') => Some('T'),
                ('C', 'A') => Some('T'),
                ('C', 'G') => Some('T'),
                ('A', 'U') => Some('N'),
                ('A', 'C') => Some('N'),
                ('A', 'A') => Some('K'),
                ('A', 'G') => Some('K'),
                ('G', 'U') => Some('S'),
                ('G', 'C') => Some('S'),
                ('G', 'A') => Some('R'),
                ('G', 'G') => Some('R'),
                _ => None,
            },
            ('G', _, _) => match (b, c) {
                ('U', 'U') => Some('V'),
                ('U', 'C') => Some('V'),
                ('U', 'A') => Some('V'),
                ('U', 'G') => Some('V'),
                ('C', 'U') => Some('A'),
                ('C', 'C') => Some('A'),
                ('C', 'A') => Some('A'),
                ('C', 'G') => Some('A'),
                ('A', 'U') => Some('D'),
                ('A', 'C') => Some('D'),
                ('A', 'A') => Some('E'),
                ('A', 'G') => Some('E'),
                ('G', 'U') => Some('G'),
                ('G', 'C') => Some('G'),
                ('G', 'A') => Some('G'),
                ('G', 'G') => Some('G'),
                _ => None,
            },
        _ => None,
    }
}

/// The monoisotopic mass of an amino acid, in hundred-thousandths of a dalton.
pub fn amino_acid_mass(symbol: char) -> (r: Option<u64>)
    ensures
        r.is_some() == mass_of(symbol).is_some(),
        r.is_some() ==> r.unwrap() as nat == mass_of(symbol).unwrap(),
{
    match symbol {
            'A' => Some(7103711),
            'C' => Some(10300919),
            'D' => Some(11502694),
            'E' => Some(12904259),
            'F' => Some(14706841),
            'G' => Some(5702146),
            'H' => Some(13705891),
            'I' => Some(11308406),
            'K' => Some(12809496),
            'L' => Some(11308406),
            'M' => Some(13104049),
            'N' => Some(11404293),
            'P' => Some(9705276),
            'Q' => Some(12805858),
            'R' => Some(15610111),
            'S' => Some(8703203),
            'T' => Some(10104768),
            'V' => Some(9906841),
            'W' => Some(18607931),
            'Y' => Some(16306333),
        _ => None,
    }
}

fn rna_base_at(i: usize) -> (r: char)
    requires
        i < 4,
    ensures
        r == rna_base(i as int),
{
    if i == 0 {
        'U'
    } else if i == 1 {
        'C'
    } else if i == 2 {
        'A'
    } else {
        'G'
    }
}

/// The whole codon table: every codon over `U C A G`, in the usual order,
/// with the residue it encodes.
pub fn codon_table() -> (r: Vec<([char; 3], char)>)
    ensures
        r.len() == CODON_COUNT,
        forall|k: int|
            0 <= k < CODON_COUNT ==> {
                &&& (#[trigger] r[k]).0@ == codon_at(k)
                &&& residue_of(codon_at(k)[0], codon_at(k)[1], codon_at(k)[2]) == Some(r[k].1)
            },
{
    let mut r: Vec<([char; 3], char)> = Vec::new();
    for k in 0..CODON_COUNT
        invariant
            r.len() == k,
            forall|j: int|
                0 <= j < k ==> {
                    &&& (#[trigger] r[j]).0@ == codon_at(j)
                    &&& residue_of(codon_at(j)[0], codon_at(j)[1], codon_at(j)[2]) == Some(
                        r[j].1,
                    )
                },
    {
        let a = rna_base_at(k / 16);
        let b = rna_base_at((k / 4) % 4);
        let c = rna_base_at(k % 4);
        let codon = [a, b, c];
        assert(codon@ =~= codon_at(k as int));
        match codon_to_amino_acid(a, b, c) {
            Some(residue) => r.push((codon, residue)),
            None => {
                assert(false);
            },
        }
    }
    r
}

} // verus!
