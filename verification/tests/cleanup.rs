use backend::cleanup::{Cleanup, CleanupAction, CleanupQuery, CleanupStep};
use backend::ops::Reply;

#[test]
fn cleanup_removes_entries_records_then_objects() {
    let (mut c, step) = Cleanup::start();
    assert_eq!(step, CleanupStep::Run(CleanupAction::BeginTx));
    assert_eq!(c.advance(Reply::Done), CleanupStep::Run(CleanupAction::Query(CleanupQuery::ListExpiredFiles)));
    let rows = vec![(1, "a".to_string()), (2, "b".to_string())];
    assert_eq!(c.advance(Reply::TrashFiles(rows)), CleanupStep::Run(CleanupAction::Query(CleanupQuery::PurgeExpiredEntries)));
    assert_eq!(
        c.advance(Reply::RowsAffected(5)),
        CleanupStep::Run(CleanupAction::Query(CleanupQuery::DeleteFileRecords { file_ids: vec![1, 2] }))
    );
    assert_eq!(c.advance(Reply::RowsAffected(2)), CleanupStep::Run(CleanupAction::CommitTx));
    assert_eq!(
        c.advance(Reply::Done),
        CleanupStep::Run(CleanupAction::DeleteObjects { keys: vec!["a".to_string(), "b".to_string()] })
    );
    assert_eq!(c.advance(Reply::Failed { unique_violation: false, message: "s3".to_string() }), CleanupStep::Finish(Ok(5)));
}

#[test]
fn cleanup_with_nothing_stored() {
    let (mut c, _) = Cleanup::start();
    c.advance(Reply::Done);
    c.advance(Reply::TrashFiles(vec![]));
    assert_eq!(c.advance(Reply::RowsAffected(3)), CleanupStep::Run(CleanupAction::CommitTx));
    assert_eq!(c.advance(Reply::Done), CleanupStep::Finish(Ok(3)));
}

#[test]
fn cleanup_failures_end_it() {
    let (mut c, _) = Cleanup::start();
    c.advance(Reply::Done);
    assert_eq!(
        c.advance(Reply::Failed { unique_violation: false, message: "db".to_string() }),
        CleanupStep::Finish(Err("db".to_string()))
    );
    let (mut c, _) = Cleanup::start();
    assert_eq!(
        c.advance(Reply::RowsAffected(1)),
        CleanupStep::Finish(Err("unexpected reply to the requested work".to_string()))
    );
}
