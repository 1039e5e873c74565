//! Mathematical descriptions of what each challenge computes, over symbol
//! sequences, and the laws that relate them.
use vstd::prelude::*;
use crate::alphabet::{residue_of, mass_of, STOP};

verus! {

/// How many times `c` occurs in `s`.
pub open spec fn count_of(s: Seq<char>, c: char) -> nat
    decreases s.len(),
{
    if s.len() == 0 {
        0
    } else {
        count_of(s.drop_last(), c) + if s.last() == c {
            1nat
        } else {
            0nat
        }
    }
}

/// Appending `c` adds one occurrence of `c` and none of any other symbol.
pub proof fn lemma_count_push(p: Seq<char>, c: char)
    ensures
        forall|k: char|
            #[trigger] count_of(p.push(c), k) == count_of(p, k) + if k == c {
                1nat
            } else {
                0nat
            },
{
    assert(p.push(c).drop_last() =~= p);
}

/// A symbol occurs at most as often as the sequence is long.
pub proof fn lemma_count_bounded(s: Seq<char>, c: char)
    ensures
        count_of(s, c) <= s.len(),
    decreases s.len(),
{
    if s.len() > 0 {
        lemma_count_bounded(s.drop_last(), c);
    }
}

/// A symbol that does not occur has count zero.
pub proof fn lemma_count_absent(s: Seq<char>, c: char)
    requires
        !s.contains(c),
    ensures
        count_of(s, c) == 0,
    decreases s.len(),
{
    if s.len() > 0 {
        assert forall|x: char| s.drop_last().contains(x) implies s.contains(x) by {
            let k = choose|k: int| 0 <= k < s.len() - 1 && s.drop_last()[k] == x;
            assert(s[k] == x);
        }
        assert(s[s.len() - 1] == s.last());
        lemma_count_absent(s.drop_last(), c);
    }
}

/// `t` lists each distinct symbol of `s` once, with its number of occurrences.
pub open spec fn is_tally_of(t: Seq<(char, usize)>, s: Seq<char>) -> bool {
    &&& forall|i: int, j: int| 0 <= i < j < t.len() ==> t[i].0 != t[j].0
    &&& forall|i: int|
        0 <= i < t.len() ==> s.contains(#[trigger] t[i].0) && t[i].1 == count_of(s, t[i].0)
    &&& forall|c: char| #[trigger] s.contains(c) ==> exists|i: int| 0 <= i < t.len() && t[i].0 == c
}

/// A symbol of the DNA alphabet.
pub open spec fn is_dna_base(c: char) -> bool {
    c == 'A' || c == 'C' || c == 'G' || c == 'T'
}

/// Every symbol of `s` is a DNA base.
pub open spec fn is_dna(s: Seq<char>) -> bool {
    forall|i: int| 0 <= i < s.len() ==> is_dna_base(#[trigger] s[i])
}

/// `T` becomes `U`; every other symbol is kept.
pub open spec fn transcribed_base(c: char) -> char {
    if c == 'T' {
        'U'
    } else {
        c
    }
}

/// The RNA that a DNA sequence is transcribed into.
pub open spec fn transcribed(s: Seq<char>) -> Seq<char> {
    s.map_values(|c: char| transcribed_base(c))
}

/// The Watson-Crick partner of a DNA base.
pub open spec fn complement(c: char) -> char {
    if c == 'A' {
        'T'
    } else if c == 'T' {
        'A'
    } else if c == 'C' {
        'G'
    } else if c == 'G' {
        'C'
    } else {
        c
    }
}

/// The reverse complement of a DNA sequence.
pub open spec fn reverse_complemented(s: Seq<char>) -> Seq<char> {
    Seq::new(s.len(), |i: int| complement(s[s.len() - 1 - i]))
}

/// The protein that an RNA sequence encodes: codons are read three symbols
/// at a time from the start, a trailing partial codon is ignored, triples
/// that are not codons are skipped, and reading stops at the first stop codon.
pub open spec fn translated(s: Seq<char>) -> Seq<char>
    decreases s.len(),
{
    if s.len() < 3 {
        Seq::empty()
    } else {
        match residue_of(s[0], s[1], s[2]) {
            Some(a) => if a == STOP {
                Seq::empty()
            } else {
                seq![a] + translated(s.skip(3))
            },
            None => translated(s.skip(3)),
        }
    }
}

/// Every symbol of `s` has a mass.
pub open spec fn is_weighable(s: Seq<char>) -> bool {
    forall|i: int| 0 <= i < s.len() ==> (#[trigger] mass_of(s[i])).is_some()
}

/// The sum of the masses of the symbols of `s`, in hundred-thousandths of a
/// dalton (a symbol without a mass adds nothing).
pub open spec fn total_mass(s: Seq<char>) -> nat
    decreases s.len(),
{
    if s.len() == 0 {
        0
    } else {
        total_mass(s.drop_last()) + match mass_of(s.last()) {
            Some(m) => m,
            None => 0,
        }
    }
}

/// A mass in hundred-thousandths of a dalton rounded, half away from zero,
/// to thousandths.
pub open spec fn to_thousandths(m: nat) -> nat {
    (m + 50) / 100
}

/// The number of positions below `n` at which `s` and `t` differ.
pub open spec fn mismatches(s: Seq<char>, t: Seq<char>, n: nat) -> nat
    decreases n,
{
    if n == 0 {
        0
    } else {
        mismatches(s, t, (n - 1) as nat) + if s[n - 1] != t[n - 1] {
            1nat
        } else {
            0nat
        }
    }
}

/// `needle` occurs in `hay` starting at index `i` (0-based).
pub open spec fn occurs_at(hay: Seq<char>, needle: Seq<char>, i: int) -> bool {
    0 <= i && i + needle.len() <= hay.len() && hay.subrange(i, i + needle.len()) == needle
}

/// The 1-based starting positions below `n + 1` of the occurrences of
/// `needle` in `hay`, ascending.
pub open spec fn starts_before(hay: Seq<char>, needle: Seq<char>, n: nat) -> Seq<int>
    decreases n,
{
    if n == 0 {
        Seq::empty()
    } else if occurs_at(hay, needle, n - 1) {
        starts_before(hay, needle, (n - 1) as nat).push(n as int)
    } else {
        starts_before(hay, needle, (n - 1) as nat)
    }
}

/// The 1-based starting positions of every occurrence of `needle` in `hay`,
/// overlapping ones included, ascending.
pub open spec fn motif_positions(hay: Seq<char>, needle: Seq<char>) -> Seq<int> {
    starts_before(hay, needle, hay.len())
}

/// Taking the reverse complement twice gives back the sequence, for every
/// DNA sequence; the reverse complement of DNA is DNA again.
pub proof fn lemma_reverse_complement_involutive(s: Seq<char>)
    requires
        is_dna(s),
    ensures
        is_dna(reverse_complemented(s)),
        reverse_complemented(reverse_complemented(s)) == s,
{
    let once = reverse_complemented(s);
    assert forall|i: int| 0 <= i < once.len() implies is_dna_base(#[trigger] once[i]) by {
        assert(is_dna_base(s[s.len() - 1 - i]));
    }
    assert forall|i: int| 0 <= i < s.len() implies reverse_complemented(once)[i] == s[i] by {
        assert(is_dna_base(s[i]));
    }
    assert(reverse_complemented(once) =~= s);
}

} // verus!
