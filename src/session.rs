//! The account session: a loop that reads a line, decides what it asks
//! for, has the engine carry out at most one request, and goes on until
//! the line `exit`.

use crate::command::{
    denotes, explains, kind_named, parses, AccountCli, AccountCommand, CommandKind, ParseError,
};
use crate::dispatch::{
    is_query, prepare, prepares, requests, transfers_nothing, CommandError, EngineRequest,
};
use crate::text::{decimal_value, split_words, str_equal, views, words};
use vstd::prelude::*;

verus! {

/// Where the account session stands.
#[derive(Clone, Copy, Debug, PartialEq, Eq, Structural)]
pub enum SessionState {
    /// Waiting for the next line.
    AwaitingInput,
    /// One engine request is in flight.
    Dispatching,
    /// The session is over.
    Exited,
}

/// What the session asks of its surroundings after a line.
#[derive(Debug, Clone, PartialEq, Eq)]
pub enum SessionAction {
    /// Nothing: the line was empty.
    Nothing,
    /// Show the help text.
    ShowHelp,
    /// Clear the terminal.
    ClearScreen,
    /// Leave the session.
    Exit,
    /// Show why the line is not a command.
    ReportParseError(ParseError),
    /// Show why the command was not handed to the engine.
    ReportError(CommandError),
    /// Have the engine carry out the request, then report its outcome.
    Dispatch(EngineRequest),
}

/// Whether the words are exactly the one word `w`.
pub open spec fn is_single(ws: Seq<Seq<char>>, w: Seq<char>) -> bool {
    ws.len() == 1 && ws[0] == w
}

/// Whether a line ends the session.
pub open spec fn is_exit_line(l: Seq<char>) -> bool {
    is_single(words(l), "exit"@)
}

/// Whether a line is one of the prompt's own commands that show the help.
pub open spec fn is_help_line(l: Seq<char>) -> bool {
    is_single(words(l), "h"@) || is_single(words(l), "help"@)
}

pub open spec fn is_clear_line(l: Seq<char>) -> bool {
    is_single(words(l), "clear"@)
}

/// Whether `a` is what the session does on the line `l`.
pub open spec fn action_for(l: Seq<char>, a: SessionAction) -> bool {
    let w = words(l);
    if w.len() == 0 {
        a is Nothing
    } else if is_exit_line(l) {
        a is Exit
    } else if is_help_line(l) {
        a is ShowHelp
    } else if is_clear_line(l) {
        a is ClearScreen
    } else if !parses(w) {
        match a {
            SessionAction::ShowHelp => explains(ParseError::HelpRequested, w),
            SessionAction::ReportParseError(e) => !(e is HelpRequested) && explains(e, w),
            _ => false,
        }
    } else {
        exists|c: AccountCommand|
            #![trigger denotes(c, w)]
            denotes(c, w) && match a {
                SessionAction::Dispatch(q) => prepares(c) && requests(c, q),
                SessionAction::ReportError(e) => !prepares(c) && (e is ZeroAmount
                    <==> transfers_nothing(c)),
                _ => false,
            }
    }
}

/// The state after a line was read in `AwaitingInput`.
pub open spec fn state_after_line(l: Seq<char>, a: SessionAction) -> SessionState {
    if is_exit_line(l) {
        SessionState::Exited
    } else if a is Dispatch {
        SessionState::Dispatching
    } else {
        SessionState::AwaitingInput
    }
}

/// The state after a line was read and its request, if any, came back.
pub open spec fn settled_after_line(s: SessionState, l: Seq<char>) -> SessionState {
    if s is Exited || is_exit_line(l) {
        SessionState::Exited
    } else {
        SessionState::AwaitingInput
    }
}

/// The state after each of `lines` was read in turn, each request coming
/// back before the next line.
pub open spec fn state_after_lines(s: SessionState, lines: Seq<Seq<char>>) -> SessionState
    decreases lines.len(),
{
    if lines.len() == 0 {
        s
    } else {
        settled_after_line(state_after_lines(s, lines.drop_last()), lines.last())
    }
}

/// The state machine of one account session.
pub struct AccountSession {
    state: SessionState,
}

fn is_single_word(w: &Vec<String>, word: &str) -> (r: bool)
    ensures
        r == is_single(views(w@), word@),
{
    w.len() == 1 && str_equal(w[0].as_str(), word)
}

impl AccountSession {
    pub closed spec fn view_state(&self) -> SessionState {
        self.state
    }

    /// A session waiting for its first line.
    pub fn new() -> (r: AccountSession)
        ensures
            r.view_state() == SessionState::AwaitingInput,
    {
        AccountSession { state: SessionState::AwaitingInput }
    }

    /// Where the session stands.
    pub fn state(&self) -> (r: SessionState)
        ensures
            r == self.view_state(),
    {
        self.state
    }

    /// Reads one line: decides what it asks for and moves on.
    pub fn on_line(&mut self, line: &str) -> (a: SessionAction)
        requires
            old(self).view_state() == SessionState::AwaitingInput,
        ensures
            action_for(line@, a),
            final(self).view_state() == state_after_line(line@, a),
            a is Exit <==> is_exit_line(line@),
    {
        let w = split_words(line);
        let ghost ws = views(w@);
        assert(ws == words(line@));
        if w.len() == 0 {
            return SessionAction::Nothing;
        }
        if is_single_word(&w, "exit") {
            self.state = SessionState::Exited;
            return SessionAction::Exit;
        }
        if is_single_word(&w, "h") || is_single_word(&w, "help") {
            return SessionAction::ShowHelp;
        }
        if is_single_word(&w, "clear") {
            return SessionAction::ClearScreen;
        }
        match AccountCli::parse_words(&w) {
            Err(ParseError::HelpRequested) => SessionAction::ShowHelp,
            Err(e) => SessionAction::ReportParseError(e),
            Ok(cli) => {
                if let AccountCommand::Exit = cli.command {
                    proof {
                        assert(ws.len() == 1);
                        assert(ws =~= seq!["exit"@]);
                    }
                    self.state = SessionState::Exited;
                    return SessionAction::Exit;
                }
                match prepare(&cli.command) {
                    Ok(q) => {
                        self.state = SessionState::Dispatching;
                        SessionAction::Dispatch(q)
                    },
                    Err(e) => SessionAction::ReportError(e),
                }
            },
        }
    }

    /// The request in flight came back, done or failed: either way the
    /// session waits for the next line.
    pub fn on_outcome(&mut self)
        requires
            old(self).view_state() == SessionState::Dispatching,
        ensures
            final(self).view_state() == SessionState::AwaitingInput,
    {
        self.state = SessionState::AwaitingInput;
    }
}

/// The session ends on no line but `exit`: after any lines none of which is
/// `exit`, whatever they held and however their requests ended, it still
/// waits for input.
pub proof fn lemma_session_survives_errors(lines: Seq<Seq<char>>)
    requires
        forall|i: int| 0 <= i < lines.len() ==> !is_exit_line(#[trigger] lines[i]),
    ensures
        state_after_lines(SessionState::AwaitingInput, lines) == SessionState::AwaitingInput,
    decreases lines.len(),
{
    if lines.len() > 0 {
        let init = lines.drop_last();
        assert forall|i: int| 0 <= i < init.len() implies !is_exit_line(#[trigger] init[i]) by {
            assert(init[i] == lines[i]);
        }
        lemma_session_survives_errors(init);
        assert(!is_exit_line(lines[lines.len() - 1]));
    }
}

/// Once a session has ended, some line was `exit`.
pub proof fn lemma_session_ends_only_on_exit(lines: Seq<Seq<char>>)
    requires
        state_after_lines(SessionState::AwaitingInput, lines) == SessionState::Exited,
    ensures
        exists|i: int| 0 <= i < lines.len() && is_exit_line(#[trigger] lines[i]),
{
    if forall|i: int| 0 <= i < lines.len() ==> !is_exit_line(#[trigger] lines[i]) {
        lemma_session_survives_errors(lines);
    }
}

/// A transfer of nothing is refused before the engine is asked: a line that
/// reads as `send` or `send-micro` with an amount of zero makes no request.
pub proof fn lemma_zero_transfer_is_refused(line: Seq<char>, a: SessionAction)
    requires
        action_for(line, a),
        parses(words(line)),
        kind_named(words(line)[0]) == Some(CommandKind::Send) || kind_named(words(line)[0])
            == Some(CommandKind::SendMicro),
        decimal_value(words(line)[2]) == 0,
    ensures
        a matches SessionAction::ReportError(CommandError::ZeroAmount { .. }),
{
    let w = words(line);
    assert(w.len() == 3);
    let c = choose|c: AccountCommand| denotes(c, w) && match a {
        SessionAction::Dispatch(q) => prepares(c) && requests(c, q),
        SessionAction::ReportError(e) => !prepares(c) && (e is ZeroAmount <==> transfers_nothing(c)),
        _ => false,
    };
    assert(!prepares(c));
    assert(transfers_nothing(c));
}

/// Asking for the balance, or for the addresses, twice in a row makes the
/// same request both times, and one that only reads the account: with no
/// change in between, the engine gives the same answer, which is shown the
/// same way.
pub proof fn lemma_queries_repeat(line: Seq<char>, a1: SessionAction, a2: SessionAction)
    requires
        words(line) == seq!["balance"@] || words(line) == seq!["addresses"@],
        action_for(line, a1),
        action_for(line, a2),
    ensures
        a1 == a2,
        a1 matches SessionAction::Dispatch(q) && is_query(q),
{
    reveal_strlit("balance");
    reveal_strlit("addresses");
    reveal_strlit("exit");
    reveal_strlit("h");
    reveal_strlit("help");
    reveal_strlit("clear");
    let w = words(line);
    assert("balance"@.len() == 7);
    assert("addresses"@.len() == 9);
    assert("exit"@.len() == 4);
    assert("h"@.len() == 1);
    assert("help"@.len() == 4);
    assert("clear"@.len() == 5);
    assert(w[0].len() == 7 || w[0].len() == 9);
    assert(w[0] != "exit"@);
    assert(w[0] != "h"@);
    assert(w[0] != "help"@);
    assert(w[0] != "clear"@);
    if w[0] == "balance"@ {
        assert(kind_named(w[0]) == Some(CommandKind::Balance));
    } else {
        assert(kind_named(w[0]) == Some(CommandKind::Addresses));
    }
    assert(parses(w));
}

} // verus!
