use bazeenga_db::input::InputBuffer;
use bazeenga_db::meta_command;
use bazeenga_db::meta_command::MetaCommandResult;
use bazeenga_db::session::{process_line, LineOutcome};
use bazeenga_db::statement::{PrepareStatementResult, Statement, StatementType};

fn buffer_with(line: &str) -> InputBuffer {
    let mut b = InputBuffer::new();
    b.buffer.push_str(line);
    b
}

#[test]
fn new_buffer_is_empty() {
    let b = InputBuffer::new();
    assert_eq!(b.buffer, "");
}

#[test]
fn default_statement_has_no_kind() {
    let s = Statement::default();
    assert_eq!(s.stype, StatementType::NONE);
    assert_eq!(StatementType::default(), StatementType::NONE);
}

#[test]
fn insert_line_prepares_and_acknowledges() {
    let b = buffer_with("insert");
    let mut s = Statement::default();
    assert_eq!(s.prepare(&b), PrepareStatementResult::SUCCESS);
    assert_eq!(s.stype, StatementType::INSERT);
    assert_eq!(
        s.execute(),
        Some(String::from("This is where  we would do an insert."))
    );
    assert_eq!(
        process_line(&b),
        LineOutcome::Output(String::from("This is where  we would do an insert."))
    );
}

#[test]
fn select_line_prepares_and_acknowledges() {
    let b = buffer_with("select");
    let mut s = Statement::default();
    assert_eq!(s.prepare(&b), PrepareStatementResult::SUCCESS);
    assert_eq!(s.stype, StatementType::SELECT);
    assert_eq!(
        s.execute(),
        Some(String::from("This is where  we would do a select."))
    );
    assert_eq!(
        process_line(&b),
        LineOutcome::Output(String::from("This is where  we would do a select."))
    );
}

#[test]
fn keywords_are_matched_after_trimming() {
    let b = buffer_with("  insert \n");
    let mut s = Statement::default();
    assert_eq!(s.prepare(&b), PrepareStatementResult::SUCCESS);
    assert_eq!(s.stype, StatementType::INSERT);
}

#[test]
fn keyword_typo_is_rejected_and_not_executed() {
    let b = buffer_with("selec");
    let mut s = Statement::default();
    assert_eq!(s.prepare(&b), PrepareStatementResult::UNRECOGNIZED_STATEMENT);
    assert_eq!(s.stype, StatementType::NONE);
    assert_eq!(s.execute(), None);
    assert_eq!(
        process_line(&b),
        LineOutcome::Output(String::from("Unrecognized keyword at start of selec"))
    );
}

#[test]
fn keyword_matching_is_case_sensitive() {
    let b = buffer_with("INSERT");
    let mut s = Statement::default();
    assert_eq!(s.prepare(&b), PrepareStatementResult::UNRECOGNIZED_STATEMENT);
    assert_eq!(s.stype, StatementType::NONE);
}

#[test]
fn keyword_with_trailing_operand_is_rejected() {
    let b = buffer_with("insert 1 user foo@bar");
    let mut s = Statement::default();
    assert_eq!(s.prepare(&b), PrepareStatementResult::UNRECOGNIZED_STATEMENT);
    assert_eq!(
        process_line(&b),
        LineOutcome::Output(String::from(
            "Unrecognized keyword at start of insert 1 user foo@bar"
        ))
    );
}

#[test]
fn preparing_the_same_line_is_deterministic() {
    let b = buffer_with("insert");
    let mut first = Statement::default();
    let r1 = first.prepare(&b);
    let mut second = Statement::default();
    let r2 = second.prepare(&b);
    assert_eq!(r1, r2);
    assert_eq!(first.stype, second.stype);
    let r3 = second.prepare(&b);
    assert_eq!(r3, r1);
    assert_eq!(second.stype, StatementType::INSERT);
}

#[test]
fn exit_command_asks_for_termination() {
    let b = buffer_with(".exit");
    assert_eq!(meta_command::execute(&b), MetaCommandResult::EXIT);
    assert_eq!(process_line(&b), LineOutcome::Exit);
}

#[test]
fn exit_command_is_matched_after_trimming() {
    let b = buffer_with("  .exit \n");
    assert_eq!(meta_command::execute(&b), MetaCommandResult::EXIT);
    assert_eq!(process_line(&b), LineOutcome::Exit);
}

#[test]
fn unknown_meta_command_is_reported() {
    let b = buffer_with(".bogus");
    assert_eq!(
        meta_command::execute(&b),
        MetaCommandResult::UNRECOGNIZED_COMMAND
    );
    assert_eq!(
        process_line(&b),
        LineOutcome::Output(String::from("Unrecognized command at start of .bogus"))
    );
}

#[test]
fn bare_sentinel_is_reported() {
    let b = buffer_with(".");
    assert_eq!(
        meta_command::execute(&b),
        MetaCommandResult::UNRECOGNIZED_COMMAND
    );
    assert_eq!(
        process_line(&b),
        LineOutcome::Output(String::from("Unrecognized command at start of ."))
    );
}

#[test]
fn empty_line_is_silent() {
    let b = InputBuffer::new();
    assert_eq!(meta_command::execute(&b), MetaCommandResult::SUCCESS);
    assert_eq!(process_line(&b), LineOutcome::Silent);
}

#[test]
fn whitespace_only_line_is_silent() {
    let b = buffer_with(" \t \n");
    assert_eq!(meta_command::execute(&b), MetaCommandResult::SUCCESS);
    assert_eq!(process_line(&b), LineOutcome::Silent);
}

#[test]
fn executing_an_unprepared_statement_does_nothing() {
    let s = Statement::default();
    assert_eq!(s.execute(), None);
}
