//! The interactive session: a state machine that reads one line at a time,
//! collects as many sequences as the selected challenge takes, runs it, and
//! says what the terminal should do next.
use vstd::prelude::*;
use crate::model::{EngineError, FunctionResult};
use crate::registry::{challenge_of, invoke, RosalindInput};
use crate::text::{chars_of, texts};

verus! {

/// The commands of the terminal.
#[derive(Debug, Clone, Copy, PartialEq, Eq)]
pub enum Command {
    /// End the session.
    Exit,
    /// Show the list of commands.
    Help,
    /// Show the challenges and wait for a challenge number.
    Rosalind,
    /// Show the bioacoustics notice.
    Acoustics,
}

/// The command that a line names, if any.
pub open spec fn command_of(line: Seq<char>) -> Option<Command> {
    if line == seq!['e', 'x', 'i', 't'] {
        Some(Command::Exit)
    } else if line == seq!['h', 'e', 'l', 'p'] {
        Some(Command::Help)
    } else if line == seq!['r', 'o', 's', 'a', 'l', 'i', 'n', 'd'] {
        Some(Command::Rosalind)
    } else if line == seq!['a', 'c', 'o', 'u', 's', 't', 'i', 'c', 's'] {
        Some(Command::Acoustics)
    } else {
        None
    }
}

/// A decimal digit.
pub open spec fn is_digit(c: char) -> bool {
    '0' <= c && c <= '9'
}

/// A non-empty line of decimal digits.
pub open spec fn is_decimal(line: Seq<char>) -> bool {
    line.len() > 0 && forall|i: int| 0 <= i < line.len() ==> is_digit(#[trigger] line[i])
}

/// The number that a line of decimal digits denotes.
pub open spec fn decimal_value(line: Seq<char>) -> nat
    decreases line.len(),
{
    if line.len() == 0 {
        0
    } else {
        decimal_value(line.drop_last()) * 10 + (line.last() as nat - '0' as nat) as nat
    }
}

/// Parsed numbers are held up to this bound, above every challenge number.
pub const NUMBER_CAP: u64 = 4294967296;

/// The number that a line denotes, held up to `NUMBER_CAP`; none for a line
/// that is not a decimal number.
pub fn parse_number(line: &Vec<char>) -> (r: Option<u64>)
    ensures
        r is Some <==> is_decimal(line@),
        r matches Some(v) ==> v == if decimal_value(line@) < NUMBER_CAP {
            decimal_value(line@)
        } else {
            NUMBER_CAP as nat
        },
{
    if line.len() == 0 {
        return None;
    }
    let mut v: u64 = 0;
    for i in 0..line.len()
        invariant
            forall|k: int| 0 <= k < i ==> is_digit(#[trigger] line@[k]),
            v == if decimal_value(line@.take(i as int)) < NUMBER_CAP {
                decimal_value(line@.take(i as int))
            } else {
                NUMBER_CAP as nat
            },
    {
        let c = line[i];
        if !('0' <= c && c <= '9') {
            assert(!is_digit(line@[i as int]));
            return None;
        }
        assert(line@.take(i + 1).drop_last() =~= line@.take(i as int));
        let d = (c as u32 - '0' as u32) as u64;
        if v < NUMBER_CAP {
            let next = v * 10 + d;
            v = if next < NUMBER_CAP { next } else { NUMBER_CAP };
        }
    }
    assert(line@.take(line.len() as int) =~= line@);
    Some(v)
}

/// Whether two symbol sequences are equal.
fn same_text(a: &Vec<char>, b: &[char]) -> (r: bool)
    ensures
        r == (a@ == b@),
{
    if a.len() != b.len() {
        return false;
    }
    for i in 0..a.len()
        invariant
            a.len() == b@.len(),
            forall|k: int| 0 <= k < i ==> a@[k] == b@[k],
    {
        if a[i] != b[i] {
            return false;
        }
    }
    assert(a@ =~= b@);
    true
}

/// The command that a line names, if any.
pub fn parse_command(line: &Vec<char>) -> (r: Option<Command>)
    ensures
        r == command_of(line@),
{
    let exit = ['e', 'x', 'i', 't'];
    let help = ['h', 'e', 'l', 'p'];
    let rosalind = ['r', 'o', 's', 'a', 'l', 'i', 'n', 'd'];
    let acoustics = ['a', 'c', 'o', 'u', 's', 't', 'i', 'c', 's'];
    assert(exit@ =~= seq!['e', 'x', 'i', 't']);
    assert(help@ =~= seq!['h', 'e', 'l', 'p']);
    assert(rosalind@ =~= seq!['r', 'o', 's', 'a', 'l', 'i', 'n', 'd']);
    assert(acoustics@ =~= seq!['a', 'c', 'o', 'u', 's', 't', 'i', 'c', 's']);
    if same_text(line, &exit) {
        Some(Command::Exit)
    } else if same_text(line, &help) {
        Some(Command::Help)
    } else if same_text(line, &rosalind) {
        Some(Command::Rosalind)
    } else if same_text(line, &acoustics) {
        Some(Command::Acoustics)
    } else {
        None
    }
}

/// Where the session stands.
#[derive(Debug, Clone)]
pub enum SessionState {
    /// Waiting for a command.
    AwaitingCommand,
    /// Waiting for a challenge number or a command.
    AwaitingChallengeSelection,
    /// Reading the sequences of a challenge: `remaining` more are due.
    CollectingSequences { challenge: RosalindInput, collected: Vec<String>, remaining: usize },
    /// The session has ended.
    Finished,
}

/// What the terminal should do after a line.
#[derive(Debug)]
pub enum Action {
    /// End the session.
    Quit,
    /// Show the list of commands.
    ShowCommands,
    /// Show the list of challenges.
    ShowChallenges,
    /// Show the bioacoustics notice.
    ShowAcoustics,
    /// Ask for sequence number `index` (0-based) of `challenge`.
    Prompt { challenge: RosalindInput, index: usize },
    /// Report what challenge `challenge` gave.
    Solved { challenge: RosalindInput, result: Result<FunctionResult, EngineError> },
    /// Report an input that could not be used.
    Reject(EngineError),
}

impl SessionState {
    /// The session's own consistency: while sequences are being collected,
    /// those held and those due add up to the challenge's arity, and at
    /// least one is due.
    pub open spec fn wf(&self) -> bool {
        *self matches SessionState::CollectingSequences { challenge, collected, remaining } ==> {
            &&& remaining >= 1
            &&& collected.len() + remaining == challenge.arity_of()
        }
    }

    /// The state that a session starts in.
    pub fn new() -> (r: SessionState)
        ensures
            r is AwaitingCommand,
            r.wf(),
    {
        SessionState::AwaitingCommand
    }

    /// The effect of the commands that every waiting state accepts alike.
    pub open spec fn command_step(self, c: Command, next: SessionState, action: Action) -> bool {
        match c {
            Command::Exit => next is Finished && action is Quit,
            Command::Help => next == self && action is ShowCommands,
            Command::Rosalind => next is AwaitingChallengeSelection && action is ShowChallenges,
            Command::Acoustics => next == self && action is ShowAcoustics,
        }
    }

    /// The transition table: `next` and `action` follow from the session in
    /// `self` reading `line`.
    pub open spec fn transition(
        self,
        line: Seq<char>,
        next: SessionState,
        action: Action,
    ) -> bool {
        match self {
            SessionState::Finished => next is Finished && action is Quit,
            SessionState::AwaitingCommand => match command_of(line) {
                Some(c) => self.command_step(c, next, action),
                None => next == self && action == Action::Reject(EngineError::MalformedCommand),
            },
            SessionState::AwaitingChallengeSelection => match command_of(line) {
                Some(c) => self.command_step(c, next, action),
                None => if !is_decimal(line) {
                    next == self && action == Action::Reject(EngineError::MalformedCommand)
                } else {
                    match challenge_of(decimal_value(line) as int) {
                        None => next == self && action == Action::Reject(
                            EngineError::UnknownChallenge,
                        ),
                        Some(ch) => {
                            &&& next matches SessionState::CollectingSequences {
                                challenge,
                                collected,
                                remaining,
                            }
                            &&& challenge == ch
                            &&& collected@.len() == 0
                            &&& remaining == ch.arity_of()
                            &&& action == Action::Prompt { challenge: ch, index: 0 }
                        },
                    }
                },
            },
            SessionState::CollectingSequences { challenge, collected, remaining } => {
                if command_of(line) == Some(Command::Exit) {
                    next is Finished && action is Quit
                } else if remaining > 1 {
                    &&& next matches SessionState::CollectingSequences {
                        challenge: c2,
                        collected: got,
                        remaining: left,
                    }
                    &&& c2 == challenge
                    &&& texts(got@) == texts(collected@).push(line)
                    &&& left == remaining - 1
                    &&& action == Action::Prompt { challenge, index: got.len() }
                } else {
                    &&& next is AwaitingChallengeSelection
                    &&& action matches Action::Solved { challenge: c2, result }
                    &&& c2 == challenge
                    &&& challenge.outcome(texts(collected@).push(line), result)
                }
            },
        }
    }

    /// Reads one line, already trimmed, and moves the session on.
    pub fn step(self, line: &str) -> (r: (SessionState, Action))
        requires
            self.wf(),
        ensures
            r.0.wf(),
            self.transition(line@, r.0, r.1),
            self is AwaitingChallengeSelection && command_of(line@) is None && is_decimal(line@)
                && challenge_of(decimal_value(line@) as int) is None ==> r.0 is AwaitingChallengeSelection
                && r.1 == Action::Reject(EngineError::UnknownChallenge),
    {
        let text = chars_of(line);
        let command = parse_command(&text);
        match self {
            SessionState::Finished => (SessionState::Finished, Action::Quit),
            SessionState::AwaitingCommand => match command {
                Some(c) => SessionState::AwaitingCommand.on_command(c),
                None => (SessionState::AwaitingCommand, Action::Reject(EngineError::MalformedCommand)),
            },
            SessionState::AwaitingChallengeSelection => match command {
                Some(c) => SessionState::AwaitingChallengeSelection.on_command(c),
                None => match parse_number(&text) {
                    None => (
                        SessionState::AwaitingChallengeSelection,
                        Action::Reject(EngineError::MalformedCommand),
                    ),
                    Some(v) => {
                        let found = if v <= u32::MAX as u64 {
                            RosalindInput::from_id(v as u32)
                        } else {
                            None
                        };
                        match found {
                            None => (
                                SessionState::AwaitingChallengeSelection,
                                Action::Reject(EngineError::UnknownChallenge),
                            ),
                            Some(ch) => (
                                SessionState::CollectingSequences {
                                    challenge: ch,
                                    collected: Vec::new(),
                                    remaining: ch.arity(),
                                },
                                Action::Prompt { challenge: ch, index: 0 },
                            ),
                        }
                    },
                },
            },
            SessionState::CollectingSequences { challenge, collected, remaining } => {
                if let Some(Command::Exit) = command {
                    return (SessionState::Finished, Action::Quit);
                }
                let mut got = collected;
                got.push(line.to_owned());
                let index = got.len();
                assert(texts(got@) =~= texts(collected@).push(line@));
                if remaining > 1 {
                    (
                        SessionState::CollectingSequences {
                            challenge,
                            collected: got,
                            remaining: remaining - 1,
                        },
                        Action::Prompt { challenge, index },
                    )
                } else {
                    let result = invoke(challenge.id(), &got);
                    (SessionState::AwaitingChallengeSelection, Action::Solved { challenge, result })
                }
            },
        }
    }

    fn on_command(self, c: Command) -> (r: (SessionState, Action))
        requires
            self is AwaitingCommand || self is AwaitingChallengeSelection,
        ensures
            r.0.wf(),
            self.command_step(c, r.0, r.1),
    {
        match c {
            Command::Exit => (SessionState::Finished, Action::Quit),
            Command::Help => (self, Action::ShowCommands),
            Command::Rosalind => (SessionState::AwaitingChallengeSelection, Action::ShowChallenges),
            Command::Acoustics => (self, Action::ShowAcoustics),
        }
    }
}

} // verus!
