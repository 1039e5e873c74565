use rosalind::{
    amino_acid_mass, codon_table, codon_to_amino_acid, describe, fasta_records, gc_count, invoke,
    list, parse_command, parse_number, two_sequence_input, two_sequence_input_v2, Action, Command,
    EngineError, FunctionResult, RosalindInput, RosalindInputType, SessionState,
};

fn strings(v: &[&str]) -> Vec<String> {
    v.iter().map(|s| s.to_string()).collect()
}

#[test]
fn codon_lookup() {
    assert_eq!(codon_to_amino_acid('A', 'U', 'G'), Some('M'));
    assert_eq!(codon_to_amino_acid('U', 'A', 'A'), Some('*'));
    assert_eq!(codon_to_amino_acid('U', 'G', 'A'), Some('*'));
    assert_eq!(codon_to_amino_acid('G', 'G', 'G'), Some('G'));
    assert_eq!(codon_to_amino_acid('A', 'T', 'G'), None);
}

#[test]
fn codon_table_holds_every_codon() {
    let table = codon_table();
    assert_eq!(table.len(), 64);
    assert_eq!(table[0], (['U', 'U', 'U'], 'F'));
    assert_eq!(table[63], (['G', 'G', 'G'], 'G'));
    let stops = table.iter().filter(|(_, r)| *r == '*').count();
    assert_eq!(stops, 3);
}

#[test]
fn mass_lookup() {
    assert_eq!(amino_acid_mass('A'), Some(7103711));
    assert_eq!(amino_acid_mass('W'), Some(18607931));
    assert_eq!(amino_acid_mass('B'), None);
}

#[test]
fn gc_count_counts_g_and_c() {
    assert_eq!(gc_count("AGCTTGCA"), 4);
    assert_eq!(gc_count(""), 0);
}

#[test]
fn pair_constructors() {
    match two_sequence_input("AC".to_string(), "GT".to_string()) {
        RosalindInputType::TwoSequence([a, b]) => {
            assert_eq!(a, "AC");
            assert_eq!(b, "GT");
        }
        _ => panic!("expected a pair"),
    }
    match two_sequence_input_v2("GATTACA".to_string(), "TA".to_string()) {
        RosalindInputType::TwoSequence([a, b]) => {
            assert_eq!(a, "GATTACA");
            assert_eq!(b, "TA");
        }
        _ => panic!("expected a pair"),
    }
}

#[test]
fn registry_catalog() {
    let entries = list();
    assert_eq!(entries.len(), 7);
    assert_eq!(entries[0], (1, "Counting DNA Nucleotides"));
    assert_eq!(entries[6], (7, "Finding a Motif in DNA"));
    let d = describe(6).unwrap();
    assert_eq!(d.arity, 2);
    assert_eq!(d.challenge, RosalindInput::Six);
    assert_eq!(describe(4).unwrap().arity, 1);
    assert!(describe(0).is_none());
    assert!(describe(8).is_none());
    assert_eq!(RosalindInput::from_id(3), Some(RosalindInput::Three));
    assert_eq!(RosalindInput::Seven.id(), 7);
}

#[test]
fn invoke_rejects_unknown_challenges() {
    assert_eq!(invoke(0, &strings(&["ACGT"])), Err(EngineError::UnknownChallenge));
    assert_eq!(invoke(8, &strings(&["ACGT"])), Err(EngineError::UnknownChallenge));
}

#[test]
fn invoke_checks_arity_before_running() {
    assert_eq!(invoke(6, &strings(&["ACGT"])), Err(EngineError::ArityMismatch));
    assert_eq!(invoke(7, &strings(&[])), Err(EngineError::ArityMismatch));
    assert_eq!(invoke(1, &strings(&["A", "C"])), Err(EngineError::ArityMismatch));
    // Sequences that the operation itself would reject still give the arity error.
    assert_eq!(invoke(3, &strings(&["XX", "YY"])), Err(EngineError::ArityMismatch));
}

#[test]
fn invoke_dispatches_to_the_operation() {
    assert_eq!(
        invoke(2, &strings(&["GATT"])),
        Ok(FunctionResult::TranscribedDNA("GAUU".to_string()))
    );
    assert_eq!(
        invoke(6, &strings(&["GAGCCTACTAACGGGAT", "CATCGTAATGACGGCCT"])),
        Ok(FunctionResult::HammingDistance(7))
    );
    assert_eq!(
        invoke(7, &strings(&["GATATATGCATATACTT", "ATAT"])),
        Ok(FunctionResult::MotifStartingLocations(vec![2, 4, 10]))
    );
    assert_eq!(invoke(5, &strings(&["SKADYEK"])), Ok(FunctionResult::ProteinMass(821392)));
}

#[test]
fn parsing_lines() {
    let chars = |s: &str| s.chars().collect::<Vec<char>>();
    assert_eq!(parse_command(&chars("exit")), Some(Command::Exit));
    assert_eq!(parse_command(&chars("help")), Some(Command::Help));
    assert_eq!(parse_command(&chars("rosalind")), Some(Command::Rosalind));
    assert_eq!(parse_command(&chars("acoustics")), Some(Command::Acoustics));
    assert_eq!(parse_command(&chars("Exit")), None);
    assert_eq!(parse_number(&chars("42")), Some(42));
    assert_eq!(parse_number(&chars("007")), Some(7));
    assert_eq!(parse_number(&chars("99999999999999")), Some(4294967296));
    assert_eq!(parse_number(&chars("")), None);
    assert_eq!(parse_number(&chars("4a")), None);
    assert_eq!(parse_number(&chars("-3")), None);
}

#[test]
fn session_unknown_challenge_stays_in_selection() {
    let (state, action) = SessionState::new().step("rosalind");
    assert!(matches!(state, SessionState::AwaitingChallengeSelection));
    assert!(matches!(action, Action::ShowChallenges));
    for line in ["0", "8", "123456789012345678901234567890"] {
        let (next, action) = state.clone().step(line);
        assert!(matches!(next, SessionState::AwaitingChallengeSelection));
        assert!(matches!(action, Action::Reject(EngineError::UnknownChallenge)));
    }
    let (next, action) = state.step("hello");
    assert!(matches!(next, SessionState::AwaitingChallengeSelection));
    assert!(matches!(action, Action::Reject(EngineError::MalformedCommand)));
}

#[test]
fn session_collects_two_sequences_then_solves() {
    let (state, _) = SessionState::new().step("rosalind");
    let (state, action) = state.step("6");
    assert!(matches!(action, Action::Prompt { challenge: RosalindInput::Six, index: 0 }));
    let (state, action) = state.step("GAGCCTACTAACGGGAT");
    assert!(matches!(action, Action::Prompt { challenge: RosalindInput::Six, index: 1 }));
    let (state, action) = state.step("CATCGTAATGACGGCCT");
    assert!(matches!(state, SessionState::AwaitingChallengeSelection));
    match action {
        Action::Solved { challenge, result } => {
            assert_eq!(challenge, RosalindInput::Six);
            assert_eq!(result, Ok(FunctionResult::HammingDistance(7)));
        }
        other => panic!("unexpected {:?}", other),
    }
}

#[test]
fn session_reports_operation_errors_and_recovers() {
    let (state, _) = SessionState::new().step("rosalind");
    let (state, _) = state.step("3");
    let (state, action) = state.step("ACGU");
    assert!(matches!(state, SessionState::AwaitingChallengeSelection));
    match action {
        Action::Solved { result, .. } => assert_eq!(result, Err(EngineError::InvalidSymbol)),
        other => panic!("unexpected {:?}", other),
    }
}

#[test]
fn session_commands() {
    let start = SessionState::new();
    let (state, action) = start.step("help");
    assert!(matches!(state, SessionState::AwaitingCommand));
    assert!(matches!(action, Action::ShowCommands));
    let (state, action) = state.step("3");
    assert!(matches!(state, SessionState::AwaitingCommand));
    assert!(matches!(action, Action::Reject(EngineError::MalformedCommand)));
    let (state, action) = state.step("acoustics");
    assert!(matches!(state, SessionState::AwaitingCommand));
    assert!(matches!(action, Action::ShowAcoustics));
    let (state, action) = state.step("exit");
    assert!(matches!(state, SessionState::Finished));
    assert!(matches!(action, Action::Quit));
    let (state, _) = SessionState::new().step("rosalind");
    let (state, _) = state.step("1");
    let (state, action) = state.step("exit");
    assert!(matches!(state, SessionState::Finished));
    assert!(matches!(action, Action::Quit));
}

#[test]
fn fasta_grouping() {
    let lines = strings(&[">one", "ACG", "TT", ">two", ">three", "GG"]);
    let (names, sequences) = fasta_records(&lines);
    assert_eq!(names, strings(&["one", "two", "three"]));
    assert_eq!(sequences, strings(&["ACGTT", "GG"]));
    let (names, sequences) = fasta_records(&strings(&[]));
    assert!(names.is_empty() && sequences.is_empty());
}
