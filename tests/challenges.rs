use std::collections::HashMap;

use rosalind::{
    count_nucleotides, find_motif, hamming_distance, protein_mass, reverse_complement,
    transcribe_dna, translate_rna, EngineError, FunctionResult, RosalindInputType,
};

fn one(s: &str) -> RosalindInputType {
    RosalindInputType::OneSequence(s.to_string())
}

fn two(a: &str, b: &str) -> RosalindInputType {
    RosalindInputType::TwoSequence([a.to_string(), b.to_string()])
}

#[test]
fn count_nucleotides_test() {
    let expected_values = [('A', 20), ('C', 12), ('G', 17), ('T', 21)];
    let expected_result: HashMap<char, usize> = expected_values.iter().cloned().collect();
    let actual_result = count_nucleotides(RosalindInputType::OneSequence(
        "AGCTTTTCATTCTGACTGCAACGGGCAATATGTCTCTGTGTGGATTAAAAAAAGAGTGTCTGATAGCAGC".to_string(),
    ));
    if let Ok(FunctionResult::NucleotideCount(actual_count)) = actual_result {
        let actual_count: HashMap<char, usize> = actual_count.into_iter().collect();
        assert_eq!(actual_count, expected_result);
    } else {
        panic!("Unexpected function result");
    }
}

#[test]
fn transcribe_dna_test() {
    let expected_result = "GAUGGAACUUGACUACGUAAAUU";
    let actual_result = transcribe_dna(RosalindInputType::OneSequence(
        "GATGGAACTTGACTACGTAAATT".to_string(),
    ));

    if let Ok(FunctionResult::TranscribedDNA(actual_rna)) = actual_result {
        assert_eq!(actual_rna, expected_result);
    } else {
        panic!("Unexpected function result");
    }
}

#[test]
fn reverse_complement_test() {
    let expected_result = "ACCGGGTTTT";
    let actual_result =
        reverse_complement(RosalindInputType::OneSequence("AAAACCCGGT".to_string()));

    if let Ok(FunctionResult::ReverseComplement(actual_dna)) = actual_result {
        assert_eq!(actual_dna, expected_result);
    } else {
        panic!("Unexpected function result");
    }
}

#[test]
fn translate_rna_test() {
    let expected_result = "MAMAPRTEINSTRING";
    let actual_result = translate_rna(RosalindInputType::OneSequence(
        "AUGGCCAUGGCGCCCAGAACUGAGAUCAAUAGUACCCGUAUUAACGGGUGA".to_string(),
    ));

    if let Ok(FunctionResult::TranslatedRNA(actual_protein)) = actual_result {
        assert_eq!(actual_protein, expected_result);
    } else {
        panic!("Unexpected function result");
    }
}

#[test]
fn protein_mass_test() {
    let expected_result = 821.392;
    let actual_result = protein_mass(RosalindInputType::OneSequence("SKADYEK".to_string()));

    if let Ok(FunctionResult::ProteinMass(actual_mass)) = actual_result {
        assert_eq!(actual_mass as f64 / 1000.0, expected_result);
    } else {
        panic!("Unexpected function result");
    }
}

#[test]
fn hamming_distance_test() {
    let expected_result = 7;
    let actual_result = hamming_distance(RosalindInputType::TwoSequence([
        "GAGCCTACTAACGGGAT".to_string(),
        "CATCGTAATGACGGCCT".to_string(),
    ]));

    if let Ok(FunctionResult::HammingDistance(actual_distance)) = actual_result {
        assert_eq!(actual_distance, expected_result);
    } else {
        panic!("Unexpected function result");
    }
}

#[test]
fn find_motif_test() {
    let expected_result = vec![2, 4, 10];
    let actual_result = find_motif(RosalindInputType::TwoSequence([
        "GATATATGCATATACTT".to_string(),
        "ATAT".to_string(),
    ]));

    if let Ok(FunctionResult::MotifStartingLocations(actual_locations)) = actual_result {
        assert_eq!(actual_locations, expected_result);
    } else {
        panic!("Unexpected function result");
    }
}

#[test]
fn count_of_empty_sequence_is_empty() {
    assert_eq!(count_nucleotides(one("")), Ok(FunctionResult::NucleotideCount(vec![])));
}

#[test]
fn count_lists_symbols_in_order_of_first_occurrence() {
    assert_eq!(
        count_nucleotides(one("GGAG")),
        Ok(FunctionResult::NucleotideCount(vec![('G', 3), ('A', 1)]))
    );
}

#[test]
fn transcription_removes_every_t_and_keeps_length() {
    let dna = "TTACGTT";
    match transcribe_dna(one(dna)) {
        Ok(FunctionResult::TranscribedDNA(rna)) => {
            assert_eq!(rna, "UUACGUU");
            assert_eq!(rna.chars().count(), dna.chars().count());
            assert!(!rna.contains('T'));
        }
        other => panic!("unexpected {:?}", other),
    }
}

#[test]
fn transcription_is_case_sensitive() {
    assert_eq!(transcribe_dna(one("tT")), Ok(FunctionResult::TranscribedDNA("tU".to_string())));
}

#[test]
fn reverse_complement_twice_gives_back_the_sequence() {
    let dna = "GATTACACCG";
    let once = match reverse_complement(one(dna)) {
        Ok(FunctionResult::ReverseComplement(s)) => s,
        other => panic!("unexpected {:?}", other),
    };
    assert_eq!(once, "CGGTGTAATC");
    assert_eq!(
        reverse_complement(one(&once)),
        Ok(FunctionResult::ReverseComplement(dna.to_string()))
    );
}

#[test]
fn reverse_complement_rejects_other_symbols() {
    assert_eq!(reverse_complement(one("ACGU")), Err(EngineError::InvalidSymbol));
    assert_eq!(reverse_complement(one("")), Ok(FunctionResult::ReverseComplement(String::new())));
}

#[test]
fn translation_stops_at_the_first_stop_codon() {
    assert_eq!(
        translate_rna(one("AUGGCCUAAGCC")),
        Ok(FunctionResult::TranslatedRNA("MA".to_string()))
    );
    assert_eq!(translate_rna(one("UAGAUG")), Ok(FunctionResult::TranslatedRNA(String::new())));
}

#[test]
fn translation_ignores_a_partial_codon_and_skips_unknown_ones() {
    assert_eq!(translate_rna(one("AUGGC")), Ok(FunctionResult::TranslatedRNA("M".to_string())));
    assert_eq!(
        translate_rna(one("AUGXYZGCC")),
        Ok(FunctionResult::TranslatedRNA("MA".to_string()))
    );
}

#[test]
fn protein_mass_rounds_to_thousandths() {
    // G weighs 57.02146: three decimals give 57.021; two G give 114.04292 -> 114.043.
    assert_eq!(protein_mass(one("G")), Ok(FunctionResult::ProteinMass(57021)));
    assert_eq!(protein_mass(one("GG")), Ok(FunctionResult::ProteinMass(114043)));
    assert_eq!(protein_mass(one("")), Ok(FunctionResult::ProteinMass(0)));
}

#[test]
fn protein_mass_rejects_unknown_symbols() {
    assert_eq!(protein_mass(one("SKB")), Err(EngineError::UnknownSymbol));
}

#[test]
fn hamming_distance_of_unequal_lengths_is_an_error() {
    assert_eq!(hamming_distance(two("ACGT", "ACG")), Err(EngineError::LengthMismatch));
    assert_eq!(hamming_distance(two("", "A")), Err(EngineError::LengthMismatch));
}

#[test]
fn hamming_distance_of_equal_sequences_is_zero() {
    assert_eq!(hamming_distance(two("ACGT", "ACGT")), Ok(FunctionResult::HammingDistance(0)));
    assert_eq!(hamming_distance(two("", "")), Ok(FunctionResult::HammingDistance(0)));
}

#[test]
fn motif_search_edge_cases() {
    assert_eq!(find_motif(two("ACGT", "")), Err(EngineError::EmptyMotif));
    assert_eq!(
        find_motif(two("AC", "ACGT")),
        Ok(FunctionResult::MotifStartingLocations(vec![]))
    );
    assert_eq!(
        find_motif(two("AAAA", "AA")),
        Ok(FunctionResult::MotifStartingLocations(vec![1, 2, 3]))
    );
    assert_eq!(
        find_motif(two("ACGT", "ACGT")),
        Ok(FunctionResult::MotifStartingLocations(vec![1]))
    );
}

#[test]
fn unwrapping_inputs() {
    assert_eq!(one("ACG").unwrap_sequence(), "ACG");
    let pair = two("AC", "GT").unwrap_sequence_list();
    assert_eq!(pair, ["AC".to_string(), "GT".to_string()]);
}
