//! Handling of meta-commands: lines that begin, after trimming, with the
//! sentinel character `.`, and blank lines.
//!
//! The handler only decides; it performs no effect. In particular the exit
//! command is answered with [`MetaCommandResult::EXIT`], a control-flow signal
//! that only the session loop may act upon by ending the process.

#![allow(non_camel_case_types)]

use vstd::prelude::*;

use crate::input::InputBuffer;
use crate::text::{trim_of, trimmed};

verus! {

/// The outcome of handling one meta-command line.
#[derive(Clone, Copy, Debug, PartialEq, Eq, Structural)]
pub enum MetaCommandResult {
    /// The line was recognized and needs no further action: it was blank.
    SUCCESS,
    /// The line was not a recognized meta-command.
    UNRECOGNIZED_COMMAND,
    /// The line was the exit command: the session loop must end the process.
    EXIT,
}

/// Handles one line already routed to the meta-command path: the exit command
/// asks for termination, a blank line is a harmless no-op, and anything else
/// is reported as unrecognized.
pub fn execute(input_buffer: &InputBuffer) -> (r: MetaCommandResult)
    ensures
        r == MetaCommandResult::EXIT <==> trim_of(input_buffer@) == ".exit"@,
        r == MetaCommandResult::SUCCESS <==> trim_of(input_buffer@).len() == 0,
        r == MetaCommandResult::UNRECOGNIZED_COMMAND <==> (trim_of(input_buffer@).len() > 0
            && trim_of(input_buffer@) != ".exit"@),
{
    proof {
        reveal_strlit(".exit");
    }
    let t = trimmed(input_buffer.buffer.as_str());
    if t == String::from_str(".exit") {
        MetaCommandResult::EXIT
    } else if t.as_str().unicode_len() == 0 {
        MetaCommandResult::SUCCESS
    } else {
        MetaCommandResult::UNRECOGNIZED_COMMAND
    }
}

} // verus!
