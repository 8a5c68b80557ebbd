//! Preparation and execution of statements: lines that do not begin with the
//! meta-command sentinel.
//!
//! Preparation is the single gate between raw text and a typed [`Statement`]:
//! it matches the trimmed line against the closed set of statement keywords
//! and fixes the statement's kind. Execution dispatches purely on that kind
//! and yields the message the session loop is to print; it never re-inspects
//! the raw text. The storage backend is not part of this crate, so execution
//! currently acknowledges the operation instead of performing it.

#![allow(non_camel_case_types)]

use vstd::prelude::*;

use crate::input::InputBuffer;
use crate::text::{trim_of, trimmed};

verus! {

/// The kind of a statement. `NONE` is the kind of a statement that has not
/// been prepared; execution does nothing with it.
#[derive(Clone, Copy, Debug, PartialEq, Eq, Structural)]
pub enum StatementType {
    NONE,
    INSERT,
    SELECT,
}

impl Default for StatementType {
    fn default() -> (r: Self)
        ensures
            r == StatementType::NONE,
    {
        StatementType::NONE
    }
}

/// The outcome of preparing one statement line.
#[derive(Clone, Copy, Debug, PartialEq, Eq, Structural)]
pub enum PrepareStatementResult {
    /// The line matched a statement keyword; the statement is executable.
    SUCCESS,
    /// The line matched no statement keyword; the statement is unchanged.
    UNRECOGNIZED_STATEMENT,
}

/// Whether a trimmed line matches one of the recognized statement keywords.
pub open spec fn recognized_keyword(t: Seq<char>) -> bool {
    t == "insert"@ || t == "select"@
}

/// The statement kind a trimmed line prepares to: `NONE` where the line
/// matches no keyword.
pub open spec fn kind_of(t: Seq<char>) -> StatementType {
    if t == "insert"@ {
        StatementType::INSERT
    } else if t == "select"@ {
        StatementType::SELECT
    } else {
        StatementType::NONE
    }
}

/// Preparation is pure and deterministic: the kind a line prepares to, and
/// whether preparation succeeds at all, depend on the line's characters alone,
/// so preparing the same line repeatedly yields the same kind every time.
pub proof fn lemma_prepare_deterministic(a: Seq<char>, b: Seq<char>)
    requires
        a == b,
    ensures
        kind_of(trim_of(a)) == kind_of(trim_of(b)),
        recognized_keyword(trim_of(a)) == recognized_keyword(trim_of(b)),
{
}

/// A typed statement. Its kind is set exactly once, by [`Statement::prepare`],
/// before execution is attempted.
pub struct Statement {
    pub stype: StatementType,
}

impl Default for Statement {
    fn default() -> (r: Self)
        ensures
            r.stype == StatementType::NONE,
    {
        Statement { stype: StatementType::NONE }
    }
}

impl Statement {
    /// Matches the trimmed line against the statement keywords: `insert` and
    /// `select` fix the statement's kind and succeed; any other line leaves
    /// the statement untouched and is reported as unrecognized.
    pub fn prepare(&mut self, input_buffer: &InputBuffer) -> (r: PrepareStatementResult)
        ensures
            r == PrepareStatementResult::SUCCESS <==> recognized_keyword(trim_of(input_buffer@)),
            recognized_keyword(trim_of(input_buffer@)) ==> final(self).stype == kind_of(
                trim_of(input_buffer@),
            ),
            !recognized_keyword(trim_of(input_buffer@)) ==> *final(self) == *old(self),
    {
        proof {
            reveal_strlit("insert");
            reveal_strlit("select");
        }
        let t = trimmed(input_buffer.buffer.as_str());
        if t == String::from_str("insert") {
            self.stype = StatementType::INSERT;
            PrepareStatementResult::SUCCESS
        } else if t == String::from_str("select") {
            self.stype = StatementType::SELECT;
            PrepareStatementResult::SUCCESS
        } else {
            PrepareStatementResult::UNRECOGNIZED_STATEMENT
        }
    }

    /// Executes a prepared statement: dispatching purely on the kind, it
    /// yields the acknowledgment the session loop is to print. A statement
    /// that was never prepared yields nothing.
    pub fn execute(&self) -> (r: Option<String>)
        ensures
            self.stype == StatementType::INSERT ==> (r matches Some(m) && m@
                == "This is where  we would do an insert."@),
            self.stype == StatementType::SELECT ==> (r matches Some(m) && m@
                == "This is where  we would do a select."@),
            self.stype == StatementType::NONE ==> r is None,
    {
        match self.stype {
            StatementType::INSERT => Some(String::from_str("This is where  we would do an insert.")),
            StatementType::SELECT => Some(String::from_str("This is where  we would do a select.")),
            StatementType::NONE => None,
        }
    }
}

} // verus!
