//! Grouping the lines of a FASTA file into records: a line that starts with
//! `>` opens a record and names it, the lines after it hold its sequence.
use vstd::prelude::*;
use crate::text::{chars_of, string_of, texts};

verus! {

/// A line that opens a record.
pub open spec fn is_header(line: Seq<char>) -> bool {
    line.len() > 0 && line[0] == '>'
}

/// The names read so far, the sequences completed so far, and the sequence
/// being read, after the lines `lines`.
pub open spec fn fasta_scan(lines: Seq<Seq<char>>) -> (Seq<Seq<char>>, Seq<Seq<char>>, Seq<char>)
    decreases lines.len(),
{
    if lines.len() == 0 {
        (Seq::empty(), Seq::empty(), Seq::empty())
    } else {
        let (names, done, current) = fasta_scan(lines.drop_last());
        let line = lines.last();
        if is_header(line) {
            (
                names.push(line.skip(1)),
                if current.len() > 0 {
                    done.push(current)
                } else {
                    done
                },
                Seq::empty(),
            )
        } else {
            (names, done, current + line)
        }
    }
}

/// The names of the records of a FASTA file, in order.
pub open spec fn fasta_names(lines: Seq<Seq<char>>) -> Seq<Seq<char>> {
    fasta_scan(lines).0
}

/// The non-empty sequences of the records of a FASTA file, in order.
pub open spec fn fasta_sequences(lines: Seq<Seq<char>>) -> Seq<Seq<char>> {
    let (_, done, current) = fasta_scan(lines);
    if current.len() > 0 {
        done.push(current)
    } else {
        done
    }
}

/// Splits the lines of a FASTA file into the record names and the record
/// sequences; a record with no sequence lines adds a name and no sequence.
pub fn fasta_records(lines: &Vec<String>) -> (r: (Vec<String>, Vec<String>))
    ensures
        texts(r.0@) == fasta_names(texts(lines@)),
        texts(r.1@) == fasta_sequences(texts(lines@)),
{
    let mut names: Vec<String> = Vec::new();
    let mut done: Vec<String> = Vec::new();
    let mut current: Vec<char> = Vec::new();
    for i in 0..lines.len()
        invariant
            (texts(names@), texts(done@), current@) == fasta_scan(texts(lines@).take(i as int)),
    {
        let ghost prefix = texts(lines@).take(i + 1);
        assert(prefix.drop_last() =~= texts(lines@).take(i as int));
        let line = chars_of(lines[i].as_str());
        assert(prefix.last() == line@);
        if line.len() > 0 && line[0] == '>' {
            let mut name: Vec<char> = Vec::new();
            for k in 1..line.len()
                invariant
                    1 <= k <= line.len(),
                    name@ == line@.subrange(1, k as int),
            {
                name.push(line[k]);
                assert(line@.subrange(1, k + 1) =~= line@.subrange(1, k as int).push(line@[k as int]));
            }
            assert(line@.subrange(1, line.len() as int) =~= line@.skip(1));
            let ghost names_before = names@;
            names.push(string_of(&name));
            assert(texts(names@) =~= texts(names_before).push(name@));
            if current.len() > 0 {
                let ghost done_before = done@;
                done.push(string_of(&current));
                assert(texts(done@) =~= texts(done_before).push(current@));
            }
            current = Vec::new();
        } else {
            let ghost current_before = current@;
            for k in 0..line.len()
                invariant
                    current@ == current_before + line@.take(k as int),
            {
                current.push(line[k]);
                assert(line@.take(k + 1) =~= line@.take(k as int).push(line@[k as int]));
            }
            assert(line@.take(line.len() as int) =~= line@);
        }
    }
    assert(texts(lines@).take(lines.len() as int) =~= texts(lines@));
    if current.len() > 0 {
        let ghost done_before = done@;
        done.push(string_of(&current));
        assert(texts(done@) =~= texts(done_before).push(current@));
    }
    (names, done)
}

} // verus!
