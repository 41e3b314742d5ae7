//! The decisions of the command/response protocol.
//!
//! Every call on the bridge is one exchange: the caller's command and a fixed
//! sentinel are queued for the interpreter, then lines are read back from its
//! diagnostic stream (and, for a query, from its primary output stream). A
//! `Session` decides, line by line, what to read next and what the call
//! returns; the code that owns the child process performs the reads.
use vstd::prelude::*;

use crate::error::InterpreterError;

verus! {

/// The characters that `char::is_whitespace` accepts: those with the Unicode
/// `White_Space` property.
pub open spec fn is_white_space(c: char) -> bool {
    let u = c as u32;
    (0x9 <= u <= 0xd) || u == 0x20 || u == 0x85 || u == 0xa0 || u == 0x1680 || (0x2000 <= u
        <= 0x200a) || u == 0x2028 || u == 0x2029 || u == 0x202f || u == 0x205f || u == 0x3000
}

/// `s` without its trailing whitespace.
pub open spec fn trim_end_of(s: Seq<char>) -> Seq<char>
    decreases s.len(),
{
    if s.len() > 0 && is_white_space(s.last()) {
        trim_end_of(s.drop_last())
    } else {
        s
    }
}

/// Relies on `str::trim_end`: it removes the trailing characters for which
/// `char::is_whitespace` holds, and nothing else.
#[verifier::external_body]
fn trim_line_end(s: &str) -> (r: String)
    ensures
        r@ == trim_end_of(s@),
{
    s.trim_end().to_string()
}

/// The sentinel: a command whose only effect is to print a newline (and the
/// newline that `puts` appends) to the diagnostic stream.
pub open spec fn sentinel_command() -> Seq<char> {
    seq!['p', 'u', 't', 's', ' ', 's', 't', 'd', 'e', 'r', 'r', ' ', '"', '\\', 'n', '"']
}

/// The two lines, each empty, that the sentinel writes to the diagnostic stream.
pub open spec fn sentinel_lines() -> Seq<Seq<char>> {
    seq![seq!['\n'], seq!['\n']]
}

/// A query wrapped so that its value is printed and flushed to the primary
/// output stream: `puts [<query>]; flush stdout`.
pub open spec fn query_command(query: Seq<char>) -> Seq<char> {
    seq!['p', 'u', 't', 's', ' ', '['] + query + seq![
        ']',
        ';',
        ' ',
        'f',
        'l',
        'u',
        's',
        'h',
        ' ',
        's',
        't',
        'd',
        'o',
        'u',
        't',
    ]
}

/// A line read whole ends in its newline; a read without it means that the
/// stream has ended.
pub open spec fn is_whole_line(line: Seq<char>) -> bool {
    line.len() > 0 && line.last() == '\n'
}

/// A line from the diagnostic stream reports an error when it holds anything
/// but whitespace.
pub open spec fn reports_error(line: Seq<char>) -> bool {
    trim_end_of(line).len() > 0
}

/// Where an exchange stands.
#[derive(Debug, Clone, Copy, PartialEq, Eq, Structural)]
pub enum Stage {
    /// No exchange in progress.
    Idle,
    /// The command and the sentinel are queued; no blank line of the sentinel
    /// has been read yet.
    AwaitingDiagnostic,
    /// The sentinel's first blank line has been read; its second is next.
    AwaitingSentinel,
    /// The query succeeded; its value is the next line of the primary output.
    AwaitingResponse,
}

/// The protocol state of one bridge.
#[derive(Debug, Clone, Copy, PartialEq, Eq, Structural)]
pub struct Session {
    /// False once the bridge has been torn down.
    pub alive: bool,
    /// The exchange in progress, if any.
    pub stage: Stage,
    /// Whether the exchange in progress is a query.
    pub query: bool,
    /// Whether the exchange in progress has read an error line.
    pub failed: bool,
}

/// What the owner of the child process does next.
#[derive(Debug)]
pub enum Action {
    /// Read one line from the diagnostic stream and hand it to `on_line`.
    ReadDiagnostic,
    /// Read one line from the primary output stream and hand it to `on_line`.
    ReadOutput,
    /// The exchange is over: `Ok(None)` for a command, `Ok(Some(value))` for a
    /// query, or the error.
    Done(Result<Option<String>, InterpreterError>),
}

/// Why a new exchange is refused, if it is.
pub open spec fn refusal(s: Session) -> Option<InterpreterError> {
    if s.alive {
        None
    } else {
        Some(InterpreterError::DeadInterpreter)
    }
}

/// The session once an exchange has been accepted or refused.
pub open spec fn after_begin(s: Session, query: bool) -> Session {
    if s.alive {
        Session { stage: Stage::AwaitingDiagnostic, query, failed: false, ..s }
    } else {
        s
    }
}

/// The session at rest once an exchange is over.
pub open spec fn at_rest(s: Session) -> Session {
    Session { stage: Stage::Idle, failed: false, ..s }
}

/// The session once a line has been read. An exchange reads diagnostic lines
/// until it has read the sentinel's two blank lines; an error line among them
/// marks it failed. A query that did not fail then reads one output line. A
/// read that ends the stream ends the exchange.
pub open spec fn after_line(s: Session, line: Seq<char>) -> Session {
    if s.stage == Stage::Idle {
        s
    } else if !is_whole_line(line) {
        at_rest(s)
    } else {
        match s.stage {
            Stage::AwaitingDiagnostic => if reports_error(line) {
                Session { failed: true, ..s }
            } else {
                Session { stage: Stage::AwaitingSentinel, ..s }
            },
            Stage::AwaitingSentinel => if reports_error(line) {
                Session { failed: true, ..s }
            } else if s.query && s.alive && !s.failed {
                Session { stage: Stage::AwaitingResponse, ..s }
            } else {
                at_rest(s)
            },
            _ => at_rest(s),
        }
    }
}

/// The action decided on a line.
pub open spec fn line_action(s: Session, line: Seq<char>, a: Action) -> bool {
    if s.stage == Stage::Idle {
        false
    } else if !is_whole_line(line) {
        a == Action::Done(Err(InterpreterError::FailedCommandResult))
    } else {
        match s.stage {
            Stage::AwaitingDiagnostic => a == Action::ReadDiagnostic,
            Stage::AwaitingSentinel => if reports_error(line) {
                a == Action::ReadDiagnostic
            } else if s.failed {
                a == Action::Done(Err(InterpreterError::MalformedCommand))
            } else if !s.query {
                a == Action::Done(Ok(None))
            } else if s.alive {
                a == Action::ReadOutput
            } else {
                a == Action::Done(Err(InterpreterError::DeadInterpreter))
            },
            _ => match a {
                Action::Done(Ok(Some(r))) => r@ == trim_end_of(line),
                _ => false,
            },
        }
    }
}

/// The session once the bridge has been torn down.
pub open spec fn after_teardown(s: Session) -> Session {
    Session { alive: false, ..at_rest(s) }
}

/// What remains of a line once its trailing whitespace is removed ends in no
/// whitespace.
pub proof fn lemma_trim_end_ends_in_no_white_space(s: Seq<char>)
    ensures
        trim_end_of(s).len() == 0 || !is_white_space(trim_end_of(s).last()),
    decreases s.len(),
{
    if s.len() > 0 && is_white_space(s.last()) {
        lemma_trim_end_ends_in_no_white_space(s.drop_last());
    }
}

/// A command that succeeds writes nothing to the diagnostic stream, so its
/// exchange reads exactly the two lines of the sentinel, returns success, and
/// ends with the session live and at rest: no line is left behind for the next
/// exchange to misread.
pub proof fn lemma_success_consumes_sentinel(s: Session)
    requires
        s.alive,
        s.stage == Stage::Idle,
    ensures
        ({
            let s1 = after_begin(s, false);
            let s2 = after_line(s1, sentinel_lines()[0]);
            let s3 = after_line(s2, sentinel_lines()[1]);
            &&& refusal(s) is None
            &&& line_action(s1, sentinel_lines()[0], Action::ReadDiagnostic)
            &&& line_action(s2, sentinel_lines()[1], Action::Done(Ok(None)))
            &&& s3 == (Session { query: false, failed: false, ..s })
        }),
{
    reveal_with_fuel(trim_end_of, 2);
    assert(seq!['\n'].drop_last() =~= Seq::<char>::empty());
}

/// A query that succeeds reads the two lines of the sentinel, then exactly one
/// line of the primary output, whose trimmed text it returns; the session is
/// then live and at rest.
pub proof fn lemma_query_success_reads_one_response(s: Session, response: Seq<char>)
    requires
        s.alive,
        s.stage == Stage::Idle,
        is_whole_line(response),
    ensures
        ({
            let s1 = after_begin(s, true);
            let s2 = after_line(s1, sentinel_lines()[0]);
            let s3 = after_line(s2, sentinel_lines()[1]);
            let s4 = after_line(s3, response);
            &&& line_action(s1, sentinel_lines()[0], Action::ReadDiagnostic)
            &&& line_action(s2, sentinel_lines()[1], Action::ReadOutput)
            &&& s3.stage == Stage::AwaitingResponse
            &&& forall|a: Action| #[trigger]
                line_action(s3, response, a) ==> (a matches Action::Done(Ok(Some(r))) && r@
                    == trim_end_of(response))
            &&& s4 == (Session { query: true, failed: false, ..s })
        }),
{
    reveal_with_fuel(trim_end_of, 2);
    assert(seq!['\n'].drop_last() =~= Seq::<char>::empty());
}

/// A command (or query) that the interpreter rejects writes an error line
/// before the sentinel's two blank lines. Its exchange reads all three, ends
/// with `MalformedCommand`, and leaves the session exactly as a successful
/// exchange would: live, at rest, with nothing of its own left on the stream,
/// so the next exchange's result depends on its own lines alone.
pub proof fn lemma_malformed_keeps_session(s: Session, error_line: Seq<char>, query: bool)
    requires
        s.alive,
        s.stage == Stage::Idle,
        is_whole_line(error_line),
        reports_error(error_line),
    ensures
        ({
            let s1 = after_begin(s, query);
            let s2 = after_line(s1, error_line);
            let s3 = after_line(s2, sentinel_lines()[0]);
            let s4 = after_line(s3, sentinel_lines()[1]);
            &&& line_action(s1, error_line, Action::ReadDiagnostic)
            &&& line_action(s2, sentinel_lines()[0], Action::ReadDiagnostic)
            &&& line_action(
                s3,
                sentinel_lines()[1],
                Action::Done(Err(InterpreterError::MalformedCommand)),
            )
            &&& s4 == (Session { query, failed: false, ..s })
            &&& refusal(s4) is None
        }),
{
    reveal_with_fuel(trim_end_of, 2);
    assert(seq!['\n'].drop_last() =~= Seq::<char>::empty());
}

/// When a stream ends (the child has exited), the exchange in progress ends
/// with `FailedCommandResult`, never with success, and the session is at rest.
pub proof fn lemma_end_of_stream_fails(s: Session, line: Seq<char>, a: Action)
    requires
        s.stage != Stage::Idle,
        !is_whole_line(line),
        line_action(s, line, a),
    ensures
        a == Action::Done(Err(InterpreterError::FailedCommandResult)),
        after_line(s, line) == at_rest(s),
{
}

/// Once the bridge is torn down, every exchange, command or query, is refused
/// at once with `DeadInterpreter` and changes nothing: no line is queued and
/// none is read.
pub proof fn lemma_teardown_is_final(s: Session, query: bool)
    ensures
        refusal(after_teardown(s)) == Some(InterpreterError::DeadInterpreter),
        after_begin(after_teardown(s), query) == after_teardown(s),
        after_teardown(after_teardown(s)) == after_teardown(s),
{
}

/// The value that a query returns never ends in a newline, nor in any other
/// whitespace.
pub proof fn lemma_response_has_no_trailing_newline(s: Session, line: Seq<char>, a: Action)
    requires
        s.stage == Stage::AwaitingResponse,
        line_action(s, line, a),
    ensures
        a matches Action::Done(result) && (result matches Ok(Some(r)) ==> (r@.len() == 0 || (
        r@.last() != '\n' && !is_white_space(r@.last())))),
{
    lemma_trim_end_ends_in_no_white_space(line);
}

/// Whether `line` ends in a newline.
fn whole_line(line: &str) -> (r: bool)
    ensures
        r == is_whole_line(line@),
{
    let n = line.unicode_len();
    n > 0 && line.get_char(n - 1) == '\n'
}

impl Session {
    /// A live session with no exchange in progress.
    pub fn new() -> (r: Session)
        ensures
            r.alive,
            r.stage == Stage::Idle,
            !r.query,
            !r.failed,
    {
        Session { alive: true, stage: Stage::Idle, query: false, failed: false }
    }

    /// Starts the exchange of a command: on success, the lines to queue for
    /// the interpreter, in order (the command, then the sentinel).
    pub fn begin_command(&mut self, text: String) -> (r: Result<Vec<String>, InterpreterError>)
        requires
            old(self).stage == Stage::Idle,
        ensures
            *final(self) == after_begin(*old(self), false),
            match refusal(*old(self)) {
                Some(e) => r == Err::<Vec<String>, InterpreterError>(e),
                None => r is Ok && r->Ok_0@.len() == 2 && r->Ok_0@[0]@ == text@
                    && r->Ok_0@[1]@ == sentinel_command(),
            },
    {
        if !self.alive {
            return Err(InterpreterError::DeadInterpreter);
        }
        self.stage = Stage::AwaitingDiagnostic;
        self.query = false;
        self.failed = false;
        let sentinel = String::from_str("puts stderr \"\\n\"");
        proof {
            reveal_strlit("puts stderr \"\\n\"");
            assert(sentinel@ =~= sentinel_command());
        }
        let mut lines: Vec<String> = Vec::new();
        lines.push(text);
        lines.push(sentinel);
        Ok(lines)
    }

    /// Starts the exchange of a query: on success, the lines to queue for the
    /// interpreter (the wrapped query, then the sentinel).
    pub fn begin_query(&mut self, query: String) -> (r: Result<Vec<String>, InterpreterError>)
        requires
            old(self).stage == Stage::Idle,
        ensures
            *final(self) == after_begin(*old(self), true),
            match refusal(*old(self)) {
                Some(e) => r == Err::<Vec<String>, InterpreterError>(e),
                None => r is Ok && r->Ok_0@.len() == 2 && r->Ok_0@[0]@ == query_command(query@)
                    && r->Ok_0@[1]@ == sentinel_command(),
            },
    {
        if !self.alive {
            return Err(InterpreterError::DeadInterpreter);
        }
        let wrapped = String::from_str("puts [").concat(query.as_str()).concat("]; flush stdout");
        proof {
            reveal_strlit("puts [");
            reveal_strlit("]; flush stdout");
            assert(wrapped@ =~= query_command(query@));
        }
        let r = self.begin_command(wrapped);
        self.query = true;
        r
    }

    /// Decides on what a read that the last action asked for returned: a whole
    /// line with its newline, or less at the end of the stream.
    pub fn on_line(&mut self, line: &str) -> (a: Action)
        requires
            old(self).stage != Stage::Idle,
        ensures
            *final(self) == after_line(*old(self), line@),
            line_action(*old(self), line@, a),
    {
        if !whole_line(line) {
            self.stage = Stage::Idle;
            self.failed = false;
            return Action::Done(Err(InterpreterError::FailedCommandResult));
        }
        match self.stage {
            Stage::AwaitingResponse => {
                self.stage = Stage::Idle;
                self.failed = false;
                Action::Done(Ok(Some(trim_line_end(line))))
            },
            _ => {
                let trimmed = trim_line_end(line);
                if trimmed.unicode_len() > 0 {
                    self.failed = true;
                    Action::ReadDiagnostic
                } else if self.stage == Stage::AwaitingDiagnostic {
                    self.stage = Stage::AwaitingSentinel;
                    Action::ReadDiagnostic
                } else if self.failed {
                    self.stage = Stage::Idle;
                    self.failed = false;
                    Action::Done(Err(InterpreterError::MalformedCommand))
                } else if !self.query {
                    self.stage = Stage::Idle;
                    Action::Done(Ok(None))
                } else if self.alive {
                    self.stage = Stage::AwaitingResponse;
                    Action::ReadOutput
                } else {
                    self.stage = Stage::Idle;
                    Action::Done(Err(InterpreterError::DeadInterpreter))
                }
            },
        }
    }

    /// Ends the exchange in progress because a line could not be queued.
    pub fn on_send_failed(&mut self) -> (a: Action)
        ensures
            *final(self) == at_rest(*old(self)),
            a == Action::Done(Err(InterpreterError::FailedCommand)),
    {
        self.stage = Stage::Idle;
        self.failed = false;
        Action::Done(Err(InterpreterError::FailedCommand))
    }

    /// Ends the exchange in progress because a stream could not be read.
    pub fn on_read_failed(&mut self) -> (a: Action)
        ensures
            *final(self) == at_rest(*old(self)),
            a == Action::Done(Err(InterpreterError::FailedCommandResult)),
    {
        self.stage = Stage::Idle;
        self.failed = false;
        Action::Done(Err(InterpreterError::FailedCommandResult))
    }

    /// Marks the bridge as torn down: every later exchange is refused.
    pub fn teardown(&mut self)
        ensures
            *final(self) == after_teardown(*old(self)),
    {
        self.alive = false;
        self.stage = Stage::Idle;
        self.failed = false;
    }
}

} // verus!
