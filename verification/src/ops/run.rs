//! A run of one operation: the caller performs each requested action and feeds
//! the reply back, until the run finishes with the operation's answer.
use vstd::prelude::*;
use crate::crypto::{check_password, salt_and_hash_password, PasswordCheck};
use crate::ids::fresh_object_key;
use crate::ops::models::auth::{Session, SessionType};
use crate::ops::models::filesystem::{FileEntry, FileRow, FileUrl, TrashEntry, TrashRow};
use crate::ops::protocol::{
    file_entry, finishes, fails, op_wf, opens, otherwise, refuses, stage_wf, steps, stores_session, trash_entry,
    unexpected_reply_text, Stage, MAX_PURGED_OBJECTS,
};
use crate::vecs::{reversed, split_rows};
use crate::ops::{Action, DbRequest, OpArgs, OpCtx, OpError, OpSuccess, Reply, Step};

verus! {

/// One operation in progress.
pub struct OpRun {
    pub stage: Stage,
}

/// The text `prefix` followed by `text`.
pub(crate) fn prefixed(prefix: &str, text: &str) -> (r: String)
    ensures
        r@ == prefix@ + text@,
{
    let mut r = String::from_str(prefix);
    r.append(text);
    r
}

fn unexpected() -> (e: OpError)
    ensures
        e matches OpError::Generic(m) && m@ == unexpected_reply_text(),
{
    OpError::Generic(String::from_str("unexpected reply to the requested work"))
}

fn done(r: Result<OpSuccess, OpError>) -> (out: (Stage, Step))
    ensures
        finishes(out.0, out.1, r),
{
    (Stage::Finished, Step::Finish(r))
}

fn unexpected_step() -> (out: (Stage, Step))
    ensures
        fails(out.0, out.1, unexpected_reply_text()),
{
    done(Err(unexpected()))
}

fn other(reply: Reply) -> (out: (Stage, Step))
    ensures
        otherwise(reply, out.0, out.1),
{
    match reply {
        Reply::Failed { message, .. } => done(Err(OpError::Generic(message))),
        _ => unexpected_step(),
    }
}

fn refuse(text: &str) -> (out: (Stage, Step))
    ensures
        refuses(out.0, out.1, text@),
{
    done(Err(OpError::Unauthorized { reason: String::from_str(text) }))
}

/// Opens a session for `user_id` and waits for it to be stored.
fn store_session(user_id: u128, username: String, membership_id: Option<u128>, token_type: SessionType) -> (out: (
    Stage,
    Step,
))
    ensures
        stores_session(user_id, username, membership_id, token_type, out.0, out.1),
{
    let (session, request) = Session::new(user_id, username, membership_id);
    (
        Stage::SessionStore { username: session.username, token: session.token, token_type },
        Step::Run(Action::Query(request)),
    )
}

impl OpRun {
    /// Starts `op` for `ctx`; `allow_register` says whether new accounts may be created.
    pub fn start(op: OpArgs, ctx: Option<OpCtx>, allow_register: bool) -> (r: (OpRun, Step))
        requires
            op_wf(op),
        ensures
            opens(op, ctx, allow_register, r.0.stage, r.1),
            stage_wf(r.0.stage),
    {
        let (stage, step) = open(op, ctx, allow_register);
        (OpRun { stage }, step)
    }

    /// Takes the reply to the last requested action and gives the next step.
    pub fn advance(&mut self, reply: Reply) -> (step: Step)
        requires
            stage_wf(old(self).stage),
        ensures
            steps(old(self).stage, reply, final(self).stage, step),
            stage_wf(final(self).stage),
    {
        let mut stage = Stage::Finished;
        std::mem::swap(&mut stage, &mut self.stage);
        let (ns, step) = next(stage, reply);
        self.stage = ns;
        step
    }

    /// Whether the run has given its answer.
    pub fn is_finished(&self) -> (r: bool)
        ensures
            r == self.stage is Finished,
    {
        match self.stage {
            Stage::Finished => true,
            _ => false,
        }
    }
}

fn open(op: OpArgs, ctx: Option<OpCtx>, allow_register: bool) -> (r: (Stage, Step))
    requires
        op_wf(op),
    ensures
        opens(op, ctx, allow_register, r.0, r.1),
        stage_wf(r.0),
{
    let needs_login = match &op {
        OpArgs::CreateUser { .. } => false,
        OpArgs::CreateLoginSession { .. } => false,
        _ => true,
    };
    let user_only = match &op {
        OpArgs::CreateGroup { .. } => true,
        OpArgs::ListGroups => true,
        OpArgs::CreateGroupSession { .. } => true,
        OpArgs::AcceptGroupInvite { .. } => true,
        OpArgs::DenyGroupInvite { .. } => true,
        OpArgs::ChangePassword { .. } => true,
        _ => false,
    };
    if needs_login && ctx.is_none() {
        return done(Err(OpError::UserNotLoggedIn));
    }
    if user_only {
        if let Some(c) = &ctx {
            if c.is_group() {
                return done(Err(OpError::UserOnlyOp));
            }
        }
    }
    let acct: u128 = match &ctx {
        Some(c) => c.account_id(),
        None => 0,
    };
    match op {
        OpArgs::CreateFolder { name, parent_id } => (
            Stage::AwaitExec {
                if_none: Some(OpError::EntityConflict { reason: "A folder with that name already exists" }),
                if_unique: None,
                success: OpSuccess::FolderCreated,
            },
            Step::Run(Action::Query(DbRequest::InsertFolder { name, owner_id: acct, parent_id })),
        ),
        OpArgs::ListFolder { parent_id } => (
            Stage::AwaitFolders,
            Step::Run(Action::Query(DbRequest::ListFolders { owner_id: acct, parent_id })),
        ),
        OpArgs::DeleteFolder { id } => (
            Stage::AwaitExec {
                if_none: Some(OpError::EntityNotFound { reason: "Folder not found" }),
                if_unique: None,
                success: OpSuccess::FolderDeleted,
            },
            Step::Run(Action::Query(DbRequest::SoftDeleteFolder { id, owner_id: acct })),
        ),
        OpArgs::RenameFolder { id, name } => (
            Stage::AwaitExec {
                if_none: Some(OpError::EntityNotFound { reason: "Folder not found" }),
                if_unique: None,
                success: OpSuccess::FolderRenamed,
            },
            Step::Run(Action::Query(DbRequest::RenameFolder { name, id, owner_id: acct })),
        ),
        OpArgs::UploadFile { data, name, mime_type, parent_id } => {
            let key = fresh_object_key();
            let size_bytes = data.len() as i64;
            let put_key = key.clone();
            let put_mime = mime_type.clone();
            (
                Stage::UploadPut { owner_id: acct, key, size_bytes, name, mime_type, parent_id },
                Step::Run(Action::PutObject { key: put_key, data, mime_type: put_mime }),
            )
        },
        OpArgs::ListFiles { parent_id } => (
            Stage::AwaitFileRows,
            Step::Run(Action::Query(DbRequest::ListFiles { owner_id: acct, parent_id })),
        ),
        OpArgs::RenameFile { id, name } => (
            Stage::AwaitExec {
                if_none: Some(OpError::EntityNotFound { reason: "File not found" }),
                if_unique: Some("A file with that name already exists"),
                success: OpSuccess::FileRenamed,
            },
            Step::Run(Action::Query(DbRequest::RenameFile { name, id, owner_id: acct })),
        ),
        OpArgs::DeleteFile { id } => (
            Stage::AwaitExec {
                if_none: Some(OpError::EntityNotFound { reason: "File not found" }),
                if_unique: None,
                success: OpSuccess::FileDeleted,
            },
            Step::Run(Action::Query(DbRequest::SoftDeleteFile { id, owner_id: acct })),
        ),
        OpArgs::Reorder { ids } => (Stage::ReorderBegin { owner_id: acct, ids }, Step::Run(Action::BeginTx)),
        OpArgs::MoveEntry { id, parent_id } => (
            Stage::AwaitExec {
                if_none: Some(OpError::EntityNotFound { reason: "Entry or target not found" }),
                if_unique: Some("An item with that name already exists in the target folder"),
                success: OpSuccess::EntryMoved,
            },
            Step::Run(Action::Query(DbRequest::MoveEntry { parent_id, id, owner_id: acct })),
        ),
        OpArgs::ListTrash => (
            Stage::AwaitTrashRows,
            Step::Run(Action::Query(DbRequest::ListTrash { owner_id: acct })),
        ),
        OpArgs::RestoreEntry { id } => (
            Stage::AwaitExec {
                if_none: Some(OpError::EntityNotFound { reason: "Trash item not found" }),
                if_unique: Some(
                    "A non-deleted item with that name already exists in the target folder. Rename it first.",
                ),
                success: OpSuccess::EntryRestored,
            },
            Step::Run(Action::Query(DbRequest::RestoreEntry { id, owner_id: acct })),
        ),
        OpArgs::DeleteTrashEntry { id } => (Stage::PurgeBegin { owner_id: acct, id }, Step::Run(Action::BeginTx)),
        OpArgs::CreateUser { username, password, name } => {
            if !allow_register {
                return done(Err(OpError::EntityConflict { reason: "Registration is disabled" }));
            }
            let password_hash = salt_and_hash_password(password.as_str());
            (Stage::SignupBegin { username, name, password_hash }, Step::Run(Action::BeginTx))
        },
        OpArgs::CreateLoginSession { username, password } => (
            Stage::LoginBegin { username, password },
            Step::Run(Action::BeginTx),
        ),
        OpArgs::DeleteSession { id } => (
            Stage::AwaitExec {
                if_none: Some(OpError::Unauthorized { reason: String::from_str("No active session") }),
                if_unique: None,
                success: OpSuccess::DeletedSession { id, token_type: SessionType::Login },
            },
            Step::Run(Action::Query(DbRequest::DeleteSession { user_id: acct, id })),
        ),
        OpArgs::ChangeUsername { new_username } => (
            Stage::AwaitExec {
                if_none: None,
                if_unique: Some("Username already exists"),
                success: OpSuccess::UsernameChanged,
            },
            Step::Run(Action::Query(DbRequest::UpdateUsername { username: new_username, id: acct })),
        ),
        OpArgs::ChangePassword { curr_password, new_password } => (
            Stage::PasswordLookup { owner_id: acct, current: curr_password, new_password },
            Step::Run(Action::Query(DbRequest::FindPasswordHash { id: acct })),
        ),
        OpArgs::GetTrashRetention => (
            Stage::AwaitRetention,
            Step::Run(Action::Query(DbRequest::FindTrashRetention { id: acct })),
        ),
        OpArgs::SetTrashRetention { days } => {
            if !(days == 0 || days == 7 || days == 14 || days == 30 || days == 60 || days == 90) {
                return done(
                    Err(OpError::ValidationFailed { reason: String::from_str("Invalid retention period") }),
                );
            }
            (
                Stage::AwaitExec { if_none: None, if_unique: None, success: OpSuccess::TrashRetentionSet },
                Step::Run(Action::Query(DbRequest::UpdateTrashRetention { days, id: acct })),
            )
        },
        OpArgs::CreateGroup { username, name } => (
            Stage::GroupBegin { owner_id: acct, username, name },
            Step::Run(Action::BeginTx),
        ),
        OpArgs::ListGroups => (
            Stage::AwaitMembers,
            Step::Run(Action::Query(DbRequest::ListMemberships { user_id: acct })),
        ),
        OpArgs::CreateGroupSession { group_id } => {
            let username = match &ctx {
                Some(c) => c.username(),
                None => String::new(),
            };
            (
                Stage::MembershipBegin {
                    lookup: DbRequest::FindAcceptedMembership { user_id: acct, group_id },
                    group_id,
                    username,
                    missing: "User is not a member of the group they want to start a session for",
                },
                Step::Run(Action::BeginTx),
            )
        },
        OpArgs::AcceptGroupInvite { group_id } => {
            let username = match &ctx {
                Some(c) => c.username(),
                None => String::new(),
            };
            (
                Stage::MembershipBegin {
                    lookup: DbRequest::AcceptInvite { user_id: acct, group_id },
                    group_id,
                    username,
                    missing: "User does not have a pending invite for the requested group",
                },
                Step::Run(Action::BeginTx),
            )
        },
        OpArgs::DenyGroupInvite { group_id } => (
            Stage::AwaitExec {
                if_none: Some(OpError::EntityNotFound {
                    reason: "User does not have a pending invite for the requested group",
                }),
                if_unique: None,
                success: OpSuccess::GroupInviteDenied,
            },
            Step::Run(Action::Query(DbRequest::DeleteInvite { user_id: acct, group_id })),
        ),
    }
}

fn next(stage: Stage, reply: Reply) -> (r: (Stage, Step))
    requires
        stage_wf(stage),
    ensures
        steps(stage, reply, r.0, r.1),
        stage_wf(r.0),
{
    match stage {
        Stage::Finished => unexpected_step(),
        Stage::AwaitExec { if_none, if_unique, success } => on_exec(if_none, if_unique, success, reply),
        Stage::AwaitFolders => match reply {
            Reply::Folders(folders) => done(Ok(OpSuccess::Folders { folders })),
            _ => other(reply),
        },
        Stage::AwaitRetention => match reply {
            Reply::Number(days) => done(Ok(OpSuccess::TrashRetention { days })),
            _ => other(reply),
        },
        Stage::AwaitMembers => match reply {
            Reply::Members(group_members) => done(Ok(OpSuccess::GroupMembers { group_members })),
            _ => other(reply),
        },
        Stage::AwaitCommit { success } => match reply {
            Reply::Done => done(Ok(success)),
            _ => other(reply),
        },
        Stage::UploadPut { owner_id, key, size_bytes, name, mime_type, parent_id } => match reply {
            Reply::Done => (
                Stage::UploadBegin { owner_id, key, size_bytes, name, mime_type, parent_id },
                Step::Run(Action::BeginTx),
            ),
            Reply::Failed { message, .. } => done(
                Err(OpError::Generic(prefixed("S3 upload error: ", message.as_str()))),
            ),
            _ => unexpected_step(),
        },
        Stage::UploadBegin { owner_id, key, size_bytes, name, mime_type, parent_id } => match reply {
            Reply::Done => (
                Stage::UploadRecord { owner_id, name, parent_id },
                Step::Run(Action::Query(DbRequest::InsertFile { owner_id, s3_key: key, size_bytes, mime_type })),
            ),
            _ => other(reply),
        },
        Stage::UploadRecord { owner_id, name, parent_id } => match reply {
            Reply::Found(Some(file_id)) => (
                Stage::UploadLink,
                Step::Run(Action::Query(DbRequest::InsertFileLink { name, owner_id, parent_id, file_id })),
            ),
            _ => other(reply),
        },
        Stage::UploadLink => match reply {
            Reply::RowsAffected(n) => if n == 0 {
                done(Err(OpError::EntityConflict { reason: "A file with that name already exists" }))
            } else {
                (Stage::AwaitCommit { success: OpSuccess::FileUploaded }, Step::Run(Action::CommitTx))
            },
            _ => other(reply),
        },
        Stage::AwaitFileRows => match reply {
            Reply::Files(rows) => on_file_rows(rows),
            _ => other(reply),
        },
        Stage::AwaitFileUrls { rows } => match reply {
            Reply::Urls(urls) => on_file_urls(rows, urls),
            _ => other(reply),
        },
        Stage::AwaitTrashRows => match reply {
            Reply::Trash(rows) => on_trash_rows(rows),
            _ => other(reply),
        },
        Stage::AwaitTrashUrls { rows } => match reply {
            Reply::Urls(urls) => on_trash_urls(rows, urls),
            _ => other(reply),
        },
        Stage::ReorderBegin { owner_id, ids } => match reply {
            Reply::Done => if ids.len() == 0 {
                (Stage::AwaitCommit { success: OpSuccess::Reordered }, Step::Run(Action::CommitTx))
            } else {
                let first = ids[0];
                (
                    Stage::ReorderStep { owner_id, ids, next: 1 },
                    Step::Run(Action::Query(DbRequest::SetSortOrder { sort_order: 1, id: first, owner_id })),
                )
            },
            _ => other(reply),
        },
        Stage::ReorderStep { owner_id, ids, next } => match reply {
            Reply::RowsAffected(_) => if next >= ids.len() {
                (Stage::AwaitCommit { success: OpSuccess::Reordered }, Step::Run(Action::CommitTx))
            } else {
                let id = ids[next];
                let sort_order = (next + 1) as i32;
                (
                    Stage::ReorderStep { owner_id, ids, next: next + 1 },
                    Step::Run(Action::Query(DbRequest::SetSortOrder { sort_order, id, owner_id })),
                )
            },
            _ => other(reply),
        },
        Stage::PurgeBegin { owner_id, id } => match reply {
            Reply::Done => (
                Stage::PurgeListing { owner_id, id },
                Step::Run(Action::Query(DbRequest::ListTrashFiles { owner_id, id })),
            ),
            _ => other(reply),
        },
        Stage::PurgeListing { owner_id, id } => match reply {
            Reply::TrashFiles(rows) => on_purge_listing(owner_id, id, rows),
            _ => other(reply),
        },
        Stage::PurgeEntries { owner_id, keys, file_ids } => match reply {
            Reply::RowsAffected(n) => if n == 0 {
                done(Err(OpError::EntityNotFound { reason: "Trash item not found" }))
            } else if file_ids.len() == 0 {
                (Stage::PurgeCommit { keys }, Step::Run(Action::CommitTx))
            } else {
                (
                    Stage::PurgeRecords { keys },
                    Step::Run(Action::Query(DbRequest::DeleteFileRecords { owner_id, file_ids })),
                )
            },
            _ => other(reply),
        },
        Stage::PurgeRecords { keys } => match reply {
            Reply::RowsAffected(_) => (Stage::PurgeCommit { keys }, Step::Run(Action::CommitTx)),
            _ => other(reply),
        },
        Stage::PurgeCommit { keys } => match reply {
            Reply::Done => if keys.len() == 0 {
                done(Ok(OpSuccess::TrashEntryDeleted))
            } else {
                (Stage::PurgeObjects, Step::Run(Action::DeleteObjects { keys }))
            },
            _ => other(reply),
        },
        Stage::PurgeObjects => done(Ok(OpSuccess::TrashEntryDeleted)),
        Stage::SignupBegin { username, name, password_hash } => match reply {
            Reply::Done => {
                let u = username.clone();
                (
                    Stage::SignupInsert { username },
                    Step::Run(Action::Query(DbRequest::InsertUser { username: u, name, password_hash })),
                )
            },
            _ => other(reply),
        },
        Stage::SignupInsert { username } => match reply {
            Reply::Found(None) => done(Err(OpError::EntityConflict { reason: "Username already exists" })),
            Reply::Found(Some(user_id)) => store_session(user_id, username, None, SessionType::Login),
            _ => other(reply),
        },
        Stage::GroupBegin { owner_id, username, name } => match reply {
            Reply::Done => {
                let u = username.clone();
                (
                    Stage::GroupInsert { owner_id, username },
                    Step::Run(Action::Query(DbRequest::InsertGroup { username: u, name })),
                )
            },
            _ => other(reply),
        },
        Stage::GroupInsert { owner_id, username } => match reply {
            Reply::Found(None) => done(Err(OpError::EntityConflict { reason: "Username already exists" })),
            Reply::Found(Some(group_id)) => (
                Stage::GroupOwner { group_id, username },
                Step::Run(Action::Query(DbRequest::InsertOwnerMembership { group_id, user_id: owner_id })),
            ),
            _ => other(reply),
        },
        Stage::GroupOwner { group_id, username } => match reply {
            Reply::Found(Some(membership_id)) => store_session(
                group_id,
                username,
                Some(membership_id),
                SessionType::GroupSession,
            ),
            _ => other(reply),
        },
        Stage::MembershipBegin { lookup, group_id, username, missing } => match reply {
            Reply::Done => (Stage::MembershipLookup { group_id, username, missing }, Step::Run(Action::Query(lookup))),
            _ => other(reply),
        },
        Stage::MembershipLookup { group_id, username, missing } => match reply {
            Reply::Found(None) => done(Err(OpError::EntityNotFound { reason: missing })),
            Reply::Found(Some(membership_id)) => store_session(
                group_id,
                username,
                Some(membership_id),
                SessionType::GroupSession,
            ),
            _ => other(reply),
        },
        Stage::LoginBegin { username, password } => match reply {
            Reply::Done => {
                let u = username.clone();
                (
                    Stage::LoginLookup { username, password },
                    Step::Run(Action::Query(DbRequest::FindCredentials { username: u })),
                )
            },
            _ => other(reply),
        },
        Stage::LoginLookup { username, password } => match reply {
            Reply::Credentials(user_id, hash) => match check_password(password.as_str(), hash.as_str()) {
                PasswordCheck::Malformed(e) => done(
                    Err(OpError::Generic(prefixed("Failed to parse password hash: ", e.as_str()))),
                ),
                PasswordCheck::Match => store_session(user_id, username, None, SessionType::Login),
                PasswordCheck::Mismatch => refuse("Invalid username or password"),
            },
            Reply::Failed { .. } => refuse("Invalid username or password"),
            _ => unexpected_step(),
        },
        Stage::SessionStore { username, token, token_type } => match reply {
            Reply::Done => (
                Stage::AwaitCommit { success: OpSuccess::CreatedSession { username, token, token_type } },
                Step::Run(Action::CommitTx),
            ),
            Reply::Failed { message, .. } => done(
                Err(OpError::Generic(prefixed("Failed to create session: ", message.as_str()))),
            ),
            _ => unexpected_step(),
        },
        Stage::PasswordLookup { owner_id, current, new_password } => match reply {
            Reply::Text(hash) => match check_password(current.as_str(), hash.as_str()) {
                PasswordCheck::Malformed(e) => done(
                    Err(OpError::Generic(prefixed("Failed to parse password hash: ", e.as_str()))),
                ),
                PasswordCheck::Match => {
                    let password_hash = salt_and_hash_password(new_password.as_str());
                    (
                        Stage::AwaitExec { if_none: None, if_unique: None, success: OpSuccess::PasswordChanged },
                        Step::Run(Action::Query(DbRequest::UpdatePassword { password_hash, id: owner_id })),
                    )
                },
                PasswordCheck::Mismatch => refuse("Incorrect password"),
            },
            _ => other(reply),
        },
    }
}

fn on_exec(if_none: Option<OpError>, if_unique: Option<&'static str>, success: OpSuccess, reply: Reply) -> (r: (
    Stage,
    Step,
))
    ensures
        steps(Stage::AwaitExec { if_none, if_unique, success }, reply, r.0, r.1),
{
    match reply {
        Reply::RowsAffected(n) => {
            if n == 0 {
                if let Some(e) = if_none {
                    return done(Err(e));
                }
            }
            done(Ok(success))
        },
        Reply::Failed { unique_violation, message } => {
            if unique_violation {
                if let Some(reason) = if_unique {
                    return done(Err(OpError::EntityConflict { reason }));
                }
            }
            done(Err(OpError::Generic(message)))
        },
        _ => unexpected_step(),
    }
}

fn on_file_rows(rows: Vec<FileRow>) -> (r: (Stage, Step))
    ensures
        steps(Stage::AwaitFileRows, Reply::Files(rows), r.0, r.1),
{
    if rows.len() == 0 {
        return done(Ok(OpSuccess::Files { files: Vec::new() }));
    }
    let mut keys: Vec<Option<String>> = Vec::new();
    let mut i: usize = 0;
    while i < rows.len()
        invariant
            i <= rows@.len(),
            keys@.len() == i,
            forall|j: int| 0 <= j < i ==> (#[trigger] keys@[j] matches Some(k) && k@ == rows@[j].s3_fileid@),
        decreases rows@.len() - i,
    {
        keys.push(Some(rows[i].s3_fileid.clone()));
        i = i + 1;
    }
    (Stage::AwaitFileUrls { rows }, Step::Run(Action::PresignUrls { keys }))
}

fn on_file_urls(rows: Vec<FileRow>, urls: Vec<Option<String>>) -> (r: (Stage, Step))
    ensures
        steps(Stage::AwaitFileUrls { rows }, Reply::Urls(urls), r.0, r.1),
{
    if urls.len() != rows.len() {
        return unexpected_step();
    }
    let mut i: usize = 0;
    while i < urls.len()
        invariant
            i <= urls@.len(),
            forall|j: int| 0 <= j < i ==> (#[trigger] urls@[j]) is Some,
        decreases urls@.len() - i,
    {
        if urls[i].is_none() {
            return unexpected_step();
        }
        i = i + 1;
    }
    let ghost rows0 = rows@;
    let ghost urls0 = urls@;
    let n = rows.len();
    let mut rows_rev = reversed(rows);
    let mut urls_rev = reversed(urls);
    let mut files: Vec<FileEntry> = Vec::new();
    while rows_rev.len() > 0
        invariant
            n == rows0.len(),
            urls0.len() == n,
            forall|j: int| 0 <= j < n ==> (#[trigger] urls0[j]) is Some,
            files@.len() + rows_rev@.len() == n,
            urls_rev@.len() == rows_rev@.len(),
            forall|j: int| 0 <= j < rows_rev@.len() ==> #[trigger] rows_rev@[j] == rows0[n - 1 - j],
            forall|j: int| 0 <= j < urls_rev@.len() ==> #[trigger] urls_rev@[j] == urls0[n - 1 - j],
            forall|j: int| 0 <= j < files@.len() ==> #[trigger] files@[j] == file_entry(rows0[j], urls0[j]->0),
        decreases rows_rev@.len(),
    {
        let row = rows_rev.pop().unwrap();
        let url = urls_rev.pop().unwrap();
        let ghost k = files@.len() as int;
        assert(urls0[k] is Some);
        let url = url.unwrap();
        files.push(
            FileEntry {
                id: row.id,
                name: row.name,
                mime_type: row.mime_type,
                size_bytes: row.size_bytes,
                url: FileUrl { url },
            },
        );
    }
    done(Ok(OpSuccess::Files { files }))
}

fn on_trash_rows(rows: Vec<TrashRow>) -> (r: (Stage, Step))
    ensures
        steps(Stage::AwaitTrashRows, Reply::Trash(rows), r.0, r.1),
{
    if rows.len() == 0 {
        return done(Ok(OpSuccess::TrashItems { items: Vec::new() }));
    }
    let mut keys: Vec<Option<String>> = Vec::new();
    let mut i: usize = 0;
    while i < rows.len()
        invariant
            i <= rows@.len(),
            keys@.len() == i,
            forall|j: int| 0 <= j < i ==> match (#[trigger] keys@[j], rows@[j].s3_fileid) {
                (Some(k), Some(f)) => k@ == f@,
                (None, None) => true,
                _ => false,
            },
        decreases rows@.len() - i,
    {
        let key = match &rows[i].s3_fileid {
            Some(f) => Some(f.clone()),
            None => None,
        };
        keys.push(key);
        i = i + 1;
    }
    (Stage::AwaitTrashUrls { rows }, Step::Run(Action::PresignUrls { keys }))
}

fn on_trash_urls(rows: Vec<TrashRow>, urls: Vec<Option<String>>) -> (r: (Stage, Step))
    ensures
        steps(Stage::AwaitTrashUrls { rows }, Reply::Urls(urls), r.0, r.1),
{
    if urls.len() != rows.len() {
        return unexpected_step();
    }
    let mut i: usize = 0;
    while i < urls.len()
        invariant
            i <= urls@.len(),
            urls@.len() == rows@.len(),
            forall|j: int| 0 <= j < i ==> ((#[trigger] urls@[j]) is Some <==> rows@[j].s3_fileid is Some),
        decreases urls@.len() - i,
    {
        if urls[i].is_some() != rows[i].s3_fileid.is_some() {
            return unexpected_step();
        }
        i = i + 1;
    }
    let ghost rows0 = rows@;
    let ghost urls0 = urls@;
    let n = rows.len();
    let mut rows_rev = reversed(rows);
    let mut urls_rev = reversed(urls);
    let mut items: Vec<TrashEntry> = Vec::new();
    while rows_rev.len() > 0
        invariant
            n == rows0.len(),
            urls0.len() == n,
            items@.len() + rows_rev@.len() == n,
            urls_rev@.len() == rows_rev@.len(),
            forall|j: int| 0 <= j < rows_rev@.len() ==> #[trigger] rows_rev@[j] == rows0[n - 1 - j],
            forall|j: int| 0 <= j < urls_rev@.len() ==> #[trigger] urls_rev@[j] == urls0[n - 1 - j],
            forall|j: int| 0 <= j < items@.len() ==> #[trigger] items@[j] == trash_entry(rows0[j], urls0[j]),
        decreases rows_rev@.len(),
    {
        let row = rows_rev.pop().unwrap();
        let url = urls_rev.pop().unwrap();
        let url = match url {
            Some(u) => Some(FileUrl { url: u }),
            None => None,
        };
        items.push(
            TrashEntry {
                id: row.id,
                name: row.name,
                kind: row.kind,
                mime_type: row.mime_type,
                deleted_at: row.deleted_at,
                url,
            },
        );
    }
    done(Ok(OpSuccess::TrashItems { items }))
}

fn on_purge_listing(owner_id: u128, id: u128, rows: Vec<(u128, String)>) -> (r: (Stage, Step))
    ensures
        steps(Stage::PurgeListing { owner_id, id }, Reply::TrashFiles(rows), r.0, r.1),
{
    if rows.len() > MAX_PURGED_OBJECTS {
        return done(Err(OpError::TooManyItems));
    }
    let (keys, file_ids) = split_rows(rows);
    (
        Stage::PurgeEntries { owner_id, keys, file_ids },
        Step::Run(Action::Query(DbRequest::PurgeTrashEntry { owner_id, id })),
    )
}

} // verus!
