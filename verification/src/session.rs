//! The per-line decision of the session loop.
//!
//! The loop itself — printing the prompt, reading a line, performing the
//! decided effect — lives with the caller, which alone holds process-lifetime
//! authority. This module decides what one line of input means: whether the
//! session ends, stays silent, or answers with a message, and with which one.

use vstd::prelude::*;

use crate::input::InputBuffer;
use crate::meta_command;
use crate::meta_command::MetaCommandResult;
use crate::statement::{recognized_keyword, PrepareStatementResult, Statement};
use crate::text::{trim_of, trimmed};

verus! {

/// What the session loop is to do after one line of input.
#[derive(Debug, PartialEq, Eq)]
pub enum LineOutcome {
    /// End the process with exit code 0, printing nothing further.
    Exit,
    /// Print nothing but the next prompt.
    Silent,
    /// Print this message, then the next prompt.
    Output(String),
}

/// Whether a raw line ends the session: it trims to the exit command.
pub open spec fn exits(raw: Seq<char>) -> bool {
    trim_of(raw) == ".exit"@
}

/// Whether a raw line is answered with no output at all: it is blank.
pub open spec fn silent(raw: Seq<char>) -> bool {
    trim_of(raw).len() == 0
}

/// The message printed for a raw line that neither ends the session nor is
/// blank: a diagnostic naming the line verbatim where it is not recognized,
/// the statement's acknowledgment where it is.
pub open spec fn printed(raw: Seq<char>) -> Seq<char> {
    let t = trim_of(raw);
    if t[0] == '.' {
        "Unrecognized command at start of "@ + raw
    } else if t == "insert"@ {
        "This is where  we would do an insert."@
    } else if t == "select"@ {
        "This is where  we would do a select."@
    } else {
        "Unrecognized keyword at start of "@ + raw
    }
}

/// Decides one line: a line that trims to nothing or to a leading sentinel
/// goes to the meta-command handler, every other line is prepared as a
/// statement and, on success, executed.
pub fn process_line(input_buffer: &InputBuffer) -> (r: LineOutcome)
    ensures
        match r {
            LineOutcome::Exit => exits(input_buffer@),
            LineOutcome::Silent => !exits(input_buffer@) && silent(input_buffer@),
            LineOutcome::Output(m) => !exits(input_buffer@) && !silent(input_buffer@) && m@
                == printed(input_buffer@),
        },
{
    proof {
        reveal_strlit(".exit");
        reveal_strlit("insert");
        reveal_strlit("select");
    }
    let t = trimmed(input_buffer.buffer.as_str());
    let is_meta = t.as_str().unicode_len() == 0 || t.as_str().get_char(0) == '.';
    if is_meta {
        match meta_command::execute(input_buffer) {
            MetaCommandResult::EXIT => LineOutcome::Exit,
            MetaCommandResult::SUCCESS => LineOutcome::Silent,
            MetaCommandResult::UNRECOGNIZED_COMMAND => LineOutcome::Output(
                String::from_str("Unrecognized command at start of ").concat(
                    input_buffer.buffer.as_str(),
                ),
            ),
        }
    } else {
        let mut statement = Statement::default();
        match statement.prepare(input_buffer) {
            PrepareStatementResult::SUCCESS => match statement.execute() {
                Some(m) => LineOutcome::Output(m),
                None => unreached(),
            },
            PrepareStatementResult::UNRECOGNIZED_STATEMENT => LineOutcome::Output(
                String::from_str("Unrecognized keyword at start of ").concat(
                    input_buffer.buffer.as_str(),
                ),
            ),
        }
    }
}

/// A line that is not blank, does not begin with the sentinel and matches no
/// statement keyword is answered with the keyword diagnostic: it never ends
/// the session and no statement is executed, so the answer is neither of the
/// execution acknowledgments.
pub proof fn lemma_unrecognized_statement_is_rejected(raw: Seq<char>)
    requires
        trim_of(raw).len() > 0,
        trim_of(raw)[0] != '.',
        !recognized_keyword(trim_of(raw)),
    ensures
        !exits(raw),
        !silent(raw),
        printed(raw) == "Unrecognized keyword at start of "@ + raw,
        printed(raw) != "This is where  we would do an insert."@,
        printed(raw) != "This is where  we would do a select."@,
{
    reveal_strlit(".exit");
    reveal_strlit("Unrecognized keyword at start of ");
    reveal_strlit("This is where  we would do an insert.");
    reveal_strlit("This is where  we would do a select.");
    assert(printed(raw)[0] == 'U');
}

/// Every line that trims to the exit command ends the session.
pub proof fn lemma_exit_line_ends_session(raw: Seq<char>)
    requires
        trim_of(raw) == ".exit"@,
    ensures
        exits(raw),
{
}

/// A blank line is answered with no output at all, and does not end the
/// session.
pub proof fn lemma_blank_line_is_silent(raw: Seq<char>)
    requires
        trim_of(raw).len() == 0,
    ensures
        silent(raw),
        !exits(raw),
{
    reveal_strlit(".exit");
}

} // verus!
