//! Emptying the trash: entries deleted longer ago than their owner's retention
//! period are removed for good, together with their stored objects.
use vstd::prelude::*;
use crate::ops::Reply;
use crate::vecs::split_rows;

verus! {

/// A statement of the trash cleanup.
#[derive(Debug, PartialEq)]
pub enum CleanupQuery {
    /// File record ids and object keys of expired deleted files (owners with a retention above 0 days).
    ListExpiredFiles,
    /// Removes all expired deleted entries.
    PurgeExpiredEntries,
    DeleteFileRecords { file_ids: Vec<u128> },
}

/// SQL of `CleanupQuery::ListExpiredFiles`.
pub const SQL_LIST_EXPIRED_FILES: &'static str = "SELECT fs.file_id, f.s3_fileid FROM filesystem fs JOIN files f ON fs.file_id = f.id JOIN users u ON fs.owner_username = u.username WHERE fs.deleted_at IS NOT NULL AND u.trash_retention_days > 0 AND fs.deleted_at < NOW() - make_interval(days => u.trash_retention_days) AND fs.type = 'file_link'";

/// SQL of `CleanupQuery::PurgeExpiredEntries`.
pub const SQL_PURGE_EXPIRED_ENTRIES: &'static str = "DELETE FROM filesystem fs USING users u WHERE fs.owner_username = u.username AND fs.deleted_at IS NOT NULL AND u.trash_retention_days > 0 AND fs.deleted_at < NOW() - make_interval(days => u.trash_retention_days)";

/// SQL of `CleanupQuery::DeleteFileRecords`.
pub const SQL_DELETE_EXPIRED_FILE_RECORDS: &'static str = "DELETE FROM files WHERE id = ANY($1)";

impl CleanupQuery {
    /// The statement's SQL text; `$1` is bound to its value, if it has one.
    pub fn sql(&self) -> (r: &'static str)
        ensures
            r == match self {
                CleanupQuery::ListExpiredFiles => SQL_LIST_EXPIRED_FILES,
                CleanupQuery::PurgeExpiredEntries => SQL_PURGE_EXPIRED_ENTRIES,
                CleanupQuery::DeleteFileRecords { .. } => SQL_DELETE_EXPIRED_FILE_RECORDS,
            },
    {
        match self {
            CleanupQuery::ListExpiredFiles => SQL_LIST_EXPIRED_FILES,
            CleanupQuery::PurgeExpiredEntries => SQL_PURGE_EXPIRED_ENTRIES,
            CleanupQuery::DeleteFileRecords { .. } => SQL_DELETE_EXPIRED_FILE_RECORDS,
        }
    }
}

/// Outside work that the cleanup asks for next.
#[derive(Debug, PartialEq)]
pub enum CleanupAction {
    BeginTx,
    Query(CleanupQuery),
    CommitTx,
    /// Deletes objects from the bucket; a failure is only reported, not fatal.
    DeleteObjects { keys: Vec<String> },
}

#[derive(Debug, PartialEq)]
pub enum CleanupStep {
    Run(CleanupAction),
    /// The number of entries removed, or why the cleanup failed.
    Finish(Result<usize, String>),
}

/// Where the cleanup stands.
#[derive(Debug, PartialEq)]
pub enum CleanupStage {
    Begin,
    Listing,
    Purging { keys: Vec<String>, file_ids: Vec<u128> },
    Records { keys: Vec<String>, purged: u64 },
    Committing { keys: Vec<String>, purged: u64 },
    Objects { purged: u64 },
    Finished,
}

pub open spec fn cleanup_unexpected(ns: CleanupStage, step: CleanupStep) -> bool {
    &&& ns is Finished
    &&& step matches CleanupStep::Finish(Err(m))
    &&& m@ == "unexpected reply to the requested work"@
}

/// A failure of the outside work ends the cleanup with its text.
pub open spec fn cleanup_otherwise(r: Reply, ns: CleanupStage, step: CleanupStep) -> bool {
    match r {
        Reply::Failed { message, .. } => ns is Finished && step == CleanupStep::Finish(Err(message)),
        _ => cleanup_unexpected(ns, step),
    }
}

/// The step that follows reply `r` in stage `s`.
pub open spec fn cleanup_steps(s: CleanupStage, r: Reply, ns: CleanupStage, step: CleanupStep) -> bool {
    match s {
        CleanupStage::Begin => match r {
            Reply::Done => ns is Listing && step == CleanupStep::Run(
                CleanupAction::Query(CleanupQuery::ListExpiredFiles),
            ),
            _ => cleanup_otherwise(r, ns, step),
        },
        CleanupStage::Listing => match r {
            Reply::TrashFiles(rows) => {
                &&& ns matches CleanupStage::Purging { keys, file_ids }
                &&& keys@.len() == rows@.len() && file_ids@.len() == rows@.len()
                &&& forall|i: int| 0 <= i < rows@.len() ==> #[trigger] keys@[i] == rows@[i].1 && file_ids@[i] == rows@[i].0
                &&& step == CleanupStep::Run(CleanupAction::Query(CleanupQuery::PurgeExpiredEntries))
            },
            _ => cleanup_otherwise(r, ns, step),
        },
        CleanupStage::Purging { keys, file_ids } => match r {
            Reply::RowsAffected(n) => if file_ids@.len() == 0 {
                ns == CleanupStage::Committing { keys, purged: n } && step == CleanupStep::Run(CleanupAction::CommitTx)
            } else {
                ns == CleanupStage::Records { keys, purged: n } && step == CleanupStep::Run(
                    CleanupAction::Query(CleanupQuery::DeleteFileRecords { file_ids }),
                )
            },
            _ => cleanup_otherwise(r, ns, step),
        },
        CleanupStage::Records { keys, purged } => match r {
            Reply::RowsAffected(_) => ns == CleanupStage::Committing { keys, purged } && step == CleanupStep::Run(
                CleanupAction::CommitTx,
            ),
            _ => cleanup_otherwise(r, ns, step),
        },
        CleanupStage::Committing { keys, purged } => match r {
            Reply::Done => if keys@.len() == 0 {
                ns is Finished && step == CleanupStep::Finish(Ok(purged as usize))
            } else {
                ns == CleanupStage::Objects { purged } && step == CleanupStep::Run(CleanupAction::DeleteObjects { keys })
            },
            _ => cleanup_otherwise(r, ns, step),
        },
        CleanupStage::Objects { purged } => ns is Finished && step == CleanupStep::Finish(Ok(purged as usize)),
        CleanupStage::Finished => cleanup_unexpected(ns, step),
    }
}

/// One run of the cleanup.
pub struct Cleanup {
    pub stage: CleanupStage,
}

impl Cleanup {
    /// Starts the cleanup: everything happens in one transaction.
    pub fn start() -> (r: (Cleanup, CleanupStep))
        ensures
            r.0.stage is Begin,
            r.1 == CleanupStep::Run(CleanupAction::BeginTx),
    {
        (Cleanup { stage: CleanupStage::Begin }, CleanupStep::Run(CleanupAction::BeginTx))
    }

    /// Takes the reply to the last requested action and gives the next step.
    pub fn advance(&mut self, reply: Reply) -> (step: CleanupStep)
        ensures
            cleanup_steps(old(self).stage, reply, final(self).stage, step),
    {
        let mut s = CleanupStage::Finished;
        std::mem::swap(&mut s, &mut self.stage);
        let unexpected = CleanupStep::Finish(Err(String::from_str("unexpected reply to the requested work")));
        let (ns, step) = match s {
            CleanupStage::Begin => match reply {
                Reply::Done => (CleanupStage::Listing, CleanupStep::Run(CleanupAction::Query(CleanupQuery::ListExpiredFiles))),
                Reply::Failed { message, .. } => (CleanupStage::Finished, CleanupStep::Finish(Err(message))),
                _ => (CleanupStage::Finished, unexpected),
            },
            CleanupStage::Listing => match reply {
                Reply::TrashFiles(rows) => {
                    let (keys, file_ids) = split_rows(rows);
                    (
                        CleanupStage::Purging { keys, file_ids },
                        CleanupStep::Run(CleanupAction::Query(CleanupQuery::PurgeExpiredEntries)),
                    )
                },
                Reply::Failed { message, .. } => (CleanupStage::Finished, CleanupStep::Finish(Err(message))),
                _ => (CleanupStage::Finished, unexpected),
            },
            CleanupStage::Purging { keys, file_ids } => match reply {
                Reply::RowsAffected(n) => if file_ids.len() == 0 {
                    (CleanupStage::Committing { keys, purged: n }, CleanupStep::Run(CleanupAction::CommitTx))
                } else {
                    (
                        CleanupStage::Records { keys, purged: n },
                        CleanupStep::Run(CleanupAction::Query(CleanupQuery::DeleteFileRecords { file_ids })),
                    )
                },
                Reply::Failed { message, .. } => (CleanupStage::Finished, CleanupStep::Finish(Err(message))),
                _ => (CleanupStage::Finished, unexpected),
            },
            CleanupStage::Records { keys, purged } => match reply {
                Reply::RowsAffected(_) => (CleanupStage::Committing { keys, purged }, CleanupStep::Run(CleanupAction::CommitTx)),
                Reply::Failed { message, .. } => (CleanupStage::Finished, CleanupStep::Finish(Err(message))),
                _ => (CleanupStage::Finished, unexpected),
            },
            CleanupStage::Committing { keys, purged } => match reply {
                Reply::Done => if keys.len() == 0 {
                    (CleanupStage::Finished, CleanupStep::Finish(Ok(purged as usize)))
                } else {
                    (CleanupStage::Objects { purged }, CleanupStep::Run(CleanupAction::DeleteObjects { keys }))
                },
                Reply::Failed { message, .. } => (CleanupStage::Finished, CleanupStep::Finish(Err(message))),
                _ => (CleanupStage::Finished, unexpected),
            },
            CleanupStage::Objects { purged } => (CleanupStage::Finished, CleanupStep::Finish(Ok(purged as usize))),
            CleanupStage::Finished => (CleanupStage::Finished, unexpected),
        };
        self.stage = ns;
        step
    }
}

/// Stored objects are deleted only after the removal of their entries was committed,
/// and a failure to delete them does not fail the cleanup.
pub proof fn lemma_cleanup_objects_after_commit(s: CleanupStage, r: Reply, ns: CleanupStage, keys: Vec<String>, r2: Reply, ns2: CleanupStage, step2: CleanupStep)
    requires
        cleanup_steps(s, r, ns, CleanupStep::Run(CleanupAction::DeleteObjects { keys })),
        cleanup_steps(ns, r2, ns2, step2),
    ensures
        s is Committing && r is Done,
        step2 is Finish && step2->Finish_0 is Ok,
{
}

} // verus!
