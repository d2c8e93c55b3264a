use semantic_index::protocol::{InsertStep, STALE_ROW};
use semantic_index::sqlite::{
    Reply, SqlFailure, SqlFailureKind, BEGIN, COMMIT, INSERT_FILE, INSERT_VECTOR, ROLLBACK,
};

fn failed(message: &str) -> Reply {
    Err(SqlFailure { kind: SqlFailureKind::SqliteFailure, message: message.to_string() })
}

fn run(newest: i64, replies: Vec<Reply>) -> InsertStep {
    let mut step = InsertStep::Begin;
    for reply in replies {
        step = step.advance(reply, newest);
    }
    step
}

#[test]
fn an_insert_the_engine_accepts_is_stored() {
    assert_eq!(run(0, vec![Ok(0), Ok(1), Ok(1), Ok(1)]), InsertStep::Stored { row: 1 });
    assert_eq!(run(41, vec![Ok(41), Ok(42), Ok(42), Ok(42)]), InsertStep::Stored { row: 42 });
}

#[test]
fn the_steps_follow_each_other() {
    assert_eq!(InsertStep::Begin.advance(Ok(0), 0), InsertStep::WriteFile);
    assert_eq!(InsertStep::WriteFile.advance(Ok(3), 2), InsertStep::WriteVector { row: 3 });
    assert_eq!(InsertStep::WriteVector { row: 3 }.advance(Ok(9), 2), InsertStep::Commit { row: 3 });
    assert_eq!(InsertStep::Commit { row: 3 }.advance(Ok(9), 2), InsertStep::Stored { row: 3 });
}

#[test]
fn a_failed_begin_ends_the_insert_at_once() {
    assert_eq!(
        run(0, vec![failed("cannot start a transaction")]),
        InsertStep::Failed { cause: "cannot start a transaction".to_string() }
    );
}

#[test]
fn a_failed_write_is_rolled_back() {
    assert_eq!(
        run(0, vec![Ok(0), failed("disk full")]),
        InsertStep::Rollback { cause: "disk full".to_string() }
    );
    assert_eq!(
        run(0, vec![Ok(0), Ok(1), failed("wrong dimension")]),
        InsertStep::Rollback { cause: "wrong dimension".to_string() }
    );
    assert_eq!(
        run(0, vec![Ok(0), Ok(1), Ok(1), failed("busy")]),
        InsertStep::Rollback { cause: "busy".to_string() }
    );
}

#[test]
fn after_the_rollback_the_insert_has_failed_with_the_first_cause() {
    assert_eq!(
        run(0, vec![Ok(0), Ok(1), failed("wrong dimension"), Ok(1)]),
        InsertStep::Failed { cause: "wrong dimension".to_string() }
    );
    assert_eq!(
        run(0, vec![Ok(0), Ok(1), failed("wrong dimension"), failed("no transaction")]),
        InsertStep::Failed { cause: "wrong dimension".to_string() }
    );
}

#[test]
fn a_row_identity_that_is_not_new_is_rolled_back() {
    assert_eq!(
        InsertStep::WriteFile.advance(Ok(7), 7),
        InsertStep::Rollback { cause: STALE_ROW.to_string() }
    );
    assert_eq!(
        InsertStep::WriteFile.advance(Ok(3), 7),
        InsertStep::Rollback { cause: STALE_ROW.to_string() }
    );
    assert_eq!(run(7, vec![Ok(7), Ok(7), Ok(7)]), InsertStep::Failed { cause: STALE_ROW.to_string() });
}

#[test]
fn an_insert_that_has_ended_stays_as_it_is() {
    assert_eq!(InsertStep::Stored { row: 4 }.advance(failed("late"), 0), InsertStep::Stored { row: 4 });
    assert_eq!(
        InsertStep::Failed { cause: "first".to_string() }.advance(Ok(9), 0),
        InsertStep::Failed { cause: "first".to_string() }
    );
}

#[test]
fn only_stored_and_failed_have_ended() {
    assert!(InsertStep::Stored { row: 1 }.ended());
    assert!(InsertStep::Failed { cause: String::new() }.ended());
    assert!(!InsertStep::Begin.ended());
    assert!(!InsertStep::WriteFile.ended());
    assert!(!InsertStep::WriteVector { row: 1 }.ended());
    assert!(!InsertStep::Commit { row: 1 }.ended());
    assert!(!InsertStep::Rollback { cause: String::new() }.ended());
}

#[test]
fn every_insert_ends_within_five_replies() {
    let outcomes: [fn() -> Reply; 2] = [|| Ok(1), || failed("no")];
    for pattern in 0..32u32 {
        let mut step = InsertStep::Begin;
        for i in 0..5 {
            step = step.advance(outcomes[((pattern >> i) & 1) as usize](), 0);
        }
        assert!(step.ended());
    }
}

#[test]
fn each_step_has_its_statement() {
    assert_eq!(InsertStep::Begin.statement(), "begin");
    assert_eq!(InsertStep::WriteFile.statement(), "insert into files (file_path) values (?1)");
    assert_eq!(
        InsertStep::WriteVector { row: 1 }.statement(),
        "insert into vss_files (rowid, file_embedding) values (?1, ?2)"
    );
    assert_eq!(InsertStep::Commit { row: 1 }.statement(), "commit");
    assert_eq!(InsertStep::Rollback { cause: String::new() }.statement(), "rollback");
    assert_eq!(InsertStep::Begin.statement(), BEGIN);
    assert_eq!(InsertStep::WriteFile.statement(), INSERT_FILE);
    assert_eq!(InsertStep::WriteVector { row: 9 }.statement(), INSERT_VECTOR);
    assert_eq!(InsertStep::Commit { row: 9 }.statement(), COMMIT);
    assert_eq!(InsertStep::Rollback { cause: "x".to_string() }.statement(), ROLLBACK);
}
