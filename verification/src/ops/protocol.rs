//! The operation protocol as a relation: which step follows a request, and which
//! step follows each reply in each stage of a run.
use vstd::prelude::*;
use crate::crypto::{argon2_accepts, is_session_token, phc_parse_error};
use crate::ids::is_hyphenated_hex_char;
use crate::ops::models::auth::{SessionType, SESSION_LIFETIME_SECS};
use crate::ops::models::filesystem::{FileEntry, FileRow, FileUrl, TrashEntry, TrashRow};
use crate::ops::{Action, DbRequest, OpArgs, OpCtx, OpError, OpSuccess, Reply, Step};
use crate::text::utf8_len;

verus! {

/// Where a run stands: what it waits for, with what it still needs.
#[derive(Debug, PartialEq)]
pub enum Stage {
    Finished,
    /// A statement whose affected-row count decides the answer.
    AwaitExec { if_none: Option<OpError>, if_unique: Option<&'static str>, success: OpSuccess },
    AwaitFolders,
    AwaitRetention,
    AwaitMembers,
    AwaitCommit { success: OpSuccess },
    UploadPut {
        owner_id: u128,
        key: String,
        size_bytes: i64,
        name: String,
        mime_type: String,
        parent_id: Option<u128>,
    },
    UploadBegin {
        owner_id: u128,
        key: String,
        size_bytes: i64,
        name: String,
        mime_type: String,
        parent_id: Option<u128>,
    },
    UploadRecord { owner_id: u128, name: String, parent_id: Option<u128> },
    UploadLink,
    AwaitFileRows,
    AwaitFileUrls { rows: Vec<FileRow> },
    AwaitTrashRows,
    AwaitTrashUrls { rows: Vec<TrashRow> },
    ReorderBegin { owner_id: u128, ids: Vec<u128> },
    /// Waits for the position update of `ids[next - 1]`.
    ReorderStep { owner_id: u128, ids: Vec<u128>, next: usize },
    PurgeBegin { owner_id: u128, id: u128 },
    PurgeListing { owner_id: u128, id: u128 },
    PurgeEntries { owner_id: u128, keys: Vec<String>, file_ids: Vec<u128> },
    PurgeRecords { keys: Vec<String> },
    PurgeCommit { keys: Vec<String> },
    PurgeObjects,
    SignupBegin { username: String, name: String, password_hash: String },
    SignupInsert { username: String },
    GroupBegin { owner_id: u128, username: String, name: String },
    GroupInsert { owner_id: u128, username: String },
    GroupOwner { group_id: u128, username: String },
    MembershipBegin { lookup: DbRequest, group_id: u128, username: String, missing: &'static str },
    MembershipLookup { group_id: u128, username: String, missing: &'static str },
    LoginBegin { username: String, password: String },
    LoginLookup { username: String, password: String },
    SessionStore { username: String, token: String, token_type: SessionType },
    PasswordLookup { owner_id: u128, current: String, new_password: String },
}

/// Largest number of stored objects one trash entry may be purged with.
pub const MAX_PURGED_OBJECTS: usize = 1000;

/// Operations that anyone may run; all others need an account.
pub open spec fn needs_login(op: OpArgs) -> bool {
    !(op is CreateUser || op is CreateLoginSession)
}

/// Operations that only a personal account (not a group) may run.
pub open spec fn user_only(op: OpArgs) -> bool {
    ||| op is CreateGroup
    ||| op is ListGroups
    ||| op is CreateGroupSession
    ||| op is AcceptGroupInvite
    ||| op is DenyGroupInvite
    ||| op is ChangePassword
}

/// The retention periods, in days, that may be chosen for the trash.
pub open spec fn valid_retention_days(d: i32) -> bool {
    d == 0 || d == 7 || d == 14 || d == 30 || d == 60 || d == 90
}

/// Password hashing accepts every password up to `u32::MAX` bytes.
pub open spec fn hashable(password: Seq<char>) -> bool {
    utf8_len(password) <= 0xFFFF_FFFF
}

/// The request can be run: every password that it would hash is hashable.
pub open spec fn op_wf(op: OpArgs) -> bool {
    match op {
        OpArgs::CreateUser { password, .. } => hashable(password@),
        OpArgs::ChangePassword { new_password, .. } => hashable(new_password@),
        _ => true,
    }
}

/// What a stage holds is consistent.
pub open spec fn stage_wf(s: Stage) -> bool {
    match s {
        Stage::ReorderStep { ids, next, .. } => 1 <= next <= ids@.len(),
        Stage::PasswordLookup { new_password, .. } => hashable(new_password@),
        Stage::MembershipBegin { lookup, .. } => lookup is FindAcceptedMembership || lookup is AcceptInvite,
        _ => true,
    }
}

/// Text of the error that answers a reply of the wrong kind.
pub open spec fn unexpected_reply_text() -> Seq<char> {
    "unexpected reply to the requested work"@
}

pub open spec fn finishes(ns: Stage, step: Step, r: Result<OpSuccess, OpError>) -> bool {
    ns is Finished && step == Step::Finish(r)
}

/// Finishes with an unexpected failure whose description is `text`.
pub open spec fn fails(ns: Stage, step: Step, text: Seq<char>) -> bool {
    &&& ns is Finished
    &&& step matches Step::Finish(Err(OpError::Generic(m)))
    &&& m@ == text
}

/// Finishes refusing the credentials, for the reason `text`.
pub open spec fn refuses(ns: Stage, step: Step, text: Seq<char>) -> bool {
    &&& ns is Finished
    &&& step matches Step::Finish(Err(OpError::Unauthorized { reason }))
    &&& reason@ == text
}

pub open spec fn runs(ns: Stage, step: Step, next: Stage, a: Action) -> bool {
    ns == next && step == Step::Run(a)
}

/// A failure of the outside work becomes an unexpected failure with its text;
/// any other reply does not fit the stage.
pub open spec fn otherwise(r: Reply, ns: Stage, step: Step) -> bool {
    match r {
        Reply::Failed { message, .. } => finishes(ns, step, Err(OpError::Generic(message))),
        _ => fails(ns, step, unexpected_reply_text()),
    }
}

/// Opens a session for `user_id` with a fresh token and waits for it to be stored.
pub open spec fn stores_session(
    user_id: u128,
    username: String,
    membership_id: Option<u128>,
    token_type: SessionType,
    ns: Stage,
    step: Step,
) -> bool {
    &&& ns matches Stage::SessionStore { username: u, token, token_type: tt }
    &&& u == username && tt == token_type && is_session_token(token@)
    &&& step matches Step::Run(Action::Query(DbRequest::InsertSession { user_id: uid, token: t, membership_id: m, lifetime_secs: l }))
    &&& uid == user_id && t@ == token@ && m == membership_id && l == SESSION_LIFETIME_SECS
}

pub open spec fn file_entry(row: FileRow, url: String) -> FileEntry {
    FileEntry {
        id: row.id,
        name: row.name,
        mime_type: row.mime_type,
        size_bytes: row.size_bytes,
        url: FileUrl { url },
    }
}

pub open spec fn trash_entry(row: TrashRow, url: Option<String>) -> TrashEntry {
    TrashEntry {
        id: row.id,
        name: row.name,
        kind: row.kind,
        mime_type: row.mime_type,
        deleted_at: row.deleted_at,
        url: match url {
            Some(u) => Some(FileUrl { url: u }),
            None => None,
        },
    }
}

/// The keys to presign for a file listing: each row's object key, in order.
pub open spec fn file_keys(rows: Seq<FileRow>, keys: Seq<Option<String>>) -> bool {
    &&& keys.len() == rows.len()
    &&& forall|i: int| 0 <= i < rows.len() ==> (#[trigger] keys[i] matches Some(k) && k@ == rows[i].s3_fileid@)
}

/// The keys to presign for a trash listing: each row's object key, if it has one, in order.
pub open spec fn trash_keys(rows: Seq<TrashRow>, keys: Seq<Option<String>>) -> bool {
    &&& keys.len() == rows.len()
    &&& forall|i: int| 0 <= i < rows.len() ==> match (#[trigger] keys[i], rows[i].s3_fileid) {
        (Some(k), Some(f)) => k@ == f@,
        (None, None) => true,
        _ => false,
    }
}

/// The URLs answered for a file listing: one per row.
pub open spec fn file_urls_fit(rows: Seq<FileRow>, urls: Seq<Option<String>>) -> bool {
    urls.len() == rows.len() && forall|i: int| 0 <= i < urls.len() ==> (#[trigger] urls[i]) is Some
}

/// The URLs answered for a trash listing: one per row that has an object.
pub open spec fn trash_urls_fit(rows: Seq<TrashRow>, urls: Seq<Option<String>>) -> bool {
    urls.len() == rows.len() && forall|i: int|
        0 <= i < urls.len() ==> ((#[trigger] urls[i]) is Some <==> rows[i].s3_fileid is Some)
}

/// The first step of `op` run as `ctx`.
pub open spec fn opens(op: OpArgs, ctx: Option<OpCtx>, allow_register: bool, st: Stage, step: Step) -> bool {
    if needs_login(op) && ctx is None {
        finishes(st, step, Err(OpError::UserNotLoggedIn))
    } else if user_only(op) && (ctx matches Some(c) && c is Group) {
        finishes(st, step, Err(OpError::UserOnlyOp))
    } else {
        let acct = ctx->0.spec_account_id();
        match op {
            OpArgs::CreateFolder { name, parent_id } => runs(
                st,
                step,
                Stage::AwaitExec {
                    if_none: Some(OpError::EntityConflict { reason: "A folder with that name already exists" }),
                    if_unique: None,
                    success: OpSuccess::FolderCreated,
                },
                Action::Query(DbRequest::InsertFolder { name, owner_id: acct, parent_id }),
            ),
            OpArgs::ListFolder { parent_id } => runs(
                st,
                step,
                Stage::AwaitFolders,
                Action::Query(DbRequest::ListFolders { owner_id: acct, parent_id }),
            ),
            OpArgs::DeleteFolder { id } => runs(
                st,
                step,
                Stage::AwaitExec {
                    if_none: Some(OpError::EntityNotFound { reason: "Folder not found" }),
                    if_unique: None,
                    success: OpSuccess::FolderDeleted,
                },
                Action::Query(DbRequest::SoftDeleteFolder { id, owner_id: acct }),
            ),
            OpArgs::RenameFolder { id, name } => runs(
                st,
                step,
                Stage::AwaitExec {
                    if_none: Some(OpError::EntityNotFound { reason: "Folder not found" }),
                    if_unique: None,
                    success: OpSuccess::FolderRenamed,
                },
                Action::Query(DbRequest::RenameFolder { name, id, owner_id: acct }),
            ),
            OpArgs::UploadFile { data, name, mime_type, parent_id } => {
                &&& st matches Stage::UploadPut { owner_id, key, size_bytes, name: n, mime_type: mt, parent_id: p }
                &&& owner_id == acct && size_bytes == data@.len() as i64 && n == name && mt == mime_type && p == parent_id
                &&& key@.len() == 36 && forall|i: int| 0 <= i < key@.len() ==> is_hyphenated_hex_char(#[trigger] key@[i])
                &&& step matches Step::Run(Action::PutObject { key: k, data: d, mime_type: m })
                &&& k@ == key@ && d == data && m@ == mime_type@
            },
            OpArgs::ListFiles { parent_id } => runs(
                st,
                step,
                Stage::AwaitFileRows,
                Action::Query(DbRequest::ListFiles { owner_id: acct, parent_id }),
            ),
            OpArgs::RenameFile { id, name } => runs(
                st,
                step,
                Stage::AwaitExec {
                    if_none: Some(OpError::EntityNotFound { reason: "File not found" }),
                    if_unique: Some("A file with that name already exists"),
                    success: OpSuccess::FileRenamed,
                },
                Action::Query(DbRequest::RenameFile { name, id, owner_id: acct }),
            ),
            OpArgs::DeleteFile { id } => runs(
                st,
                step,
                Stage::AwaitExec {
                    if_none: Some(OpError::EntityNotFound { reason: "File not found" }),
                    if_unique: None,
                    success: OpSuccess::FileDeleted,
                },
                Action::Query(DbRequest::SoftDeleteFile { id, owner_id: acct }),
            ),
            OpArgs::Reorder { ids } => runs(st, step, Stage::ReorderBegin { owner_id: acct, ids }, Action::BeginTx),
            OpArgs::MoveEntry { id, parent_id } => runs(
                st,
                step,
                Stage::AwaitExec {
                    if_none: Some(OpError::EntityNotFound { reason: "Entry or target not found" }),
                    if_unique: Some("An item with that name already exists in the target folder"),
                    success: OpSuccess::EntryMoved,
                },
                Action::Query(DbRequest::MoveEntry { parent_id, id, owner_id: acct }),
            ),
            OpArgs::ListTrash => runs(
                st,
                step,
                Stage::AwaitTrashRows,
                Action::Query(DbRequest::ListTrash { owner_id: acct }),
            ),
            OpArgs::RestoreEntry { id } => runs(
                st,
                step,
                Stage::AwaitExec {
                    if_none: Some(OpError::EntityNotFound { reason: "Trash item not found" }),
                    if_unique: Some(
                        "A non-deleted item with that name already exists in the target folder. Rename it first.",
                    ),
                    success: OpSuccess::EntryRestored,
                },
                Action::Query(DbRequest::RestoreEntry { id, owner_id: acct }),
            ),
            OpArgs::DeleteTrashEntry { id } => runs(st, step, Stage::PurgeBegin { owner_id: acct, id }, Action::BeginTx),
            OpArgs::CreateUser { username, password, name } => if !allow_register {
                finishes(st, step, Err(OpError::EntityConflict { reason: "Registration is disabled" }))
            } else {
                &&& st matches Stage::SignupBegin { username: u, name: n, password_hash }
                &&& u == username && n == name
                &&& phc_parse_error(password_hash@) is None && argon2_accepts(password@, password_hash@)
                &&& step == Step::Run(Action::BeginTx)
            },
            OpArgs::CreateLoginSession { username, password } => runs(
                st,
                step,
                Stage::LoginBegin { username, password },
                Action::BeginTx,
            ),
            OpArgs::DeleteSession { id } => {
                &&& st matches Stage::AwaitExec { if_none: Some(OpError::Unauthorized { reason }), if_unique: None, success }
                &&& reason@ == "No active session"@
                &&& success == OpSuccess::DeletedSession { id, token_type: SessionType::Login }
                &&& step == Step::Run(Action::Query(DbRequest::DeleteSession { user_id: acct, id }))
            },
            OpArgs::ChangeUsername { new_username } => runs(
                st,
                step,
                Stage::AwaitExec {
                    if_none: None,
                    if_unique: Some("Username already exists"),
                    success: OpSuccess::UsernameChanged,
                },
                Action::Query(DbRequest::UpdateUsername { username: new_username, id: acct }),
            ),
            OpArgs::ChangePassword { curr_password, new_password } => runs(
                st,
                step,
                Stage::PasswordLookup { owner_id: acct, current: curr_password, new_password },
                Action::Query(DbRequest::FindPasswordHash { id: acct }),
            ),
            OpArgs::GetTrashRetention => runs(
                st,
                step,
                Stage::AwaitRetention,
                Action::Query(DbRequest::FindTrashRetention { id: acct }),
            ),
            OpArgs::SetTrashRetention { days } => if !valid_retention_days(days) {
                ns_validation_failed(st, step, "Invalid retention period"@)
            } else {
                runs(
                    st,
                    step,
                    Stage::AwaitExec { if_none: None, if_unique: None, success: OpSuccess::TrashRetentionSet },
                    Action::Query(DbRequest::UpdateTrashRetention { days, id: acct }),
                )
            },
            OpArgs::CreateGroup { username, name } => runs(
                st,
                step,
                Stage::GroupBegin { owner_id: acct, username, name },
                Action::BeginTx,
            ),
            OpArgs::ListGroups => runs(
                st,
                step,
                Stage::AwaitMembers,
                Action::Query(DbRequest::ListMemberships { user_id: acct }),
            ),
            OpArgs::CreateGroupSession { group_id } => {
                &&& st matches Stage::MembershipBegin { lookup, group_id: g, username, missing }
                &&& lookup == DbRequest::FindAcceptedMembership { user_id: acct, group_id }
                &&& g == group_id && username@ == ctx->0.spec_username()
                &&& missing == "User is not a member of the group they want to start a session for"
                &&& step == Step::Run(Action::BeginTx)
            },
            OpArgs::AcceptGroupInvite { group_id } => {
                &&& st matches Stage::MembershipBegin { lookup, group_id: g, username, missing }
                &&& lookup == DbRequest::AcceptInvite { user_id: acct, group_id }
                &&& g == group_id && username@ == ctx->0.spec_username()
                &&& missing == "User does not have a pending invite for the requested group"
                &&& step == Step::Run(Action::BeginTx)
            },
            OpArgs::DenyGroupInvite { group_id } => runs(
                st,
                step,
                Stage::AwaitExec {
                    if_none: Some(OpError::EntityNotFound {
                        reason: "User does not have a pending invite for the requested group",
                    }),
                    if_unique: None,
                    success: OpSuccess::GroupInviteDenied,
                },
                Action::Query(DbRequest::DeleteInvite { user_id: acct, group_id }),
            ),
        }
    }
}

/// Finishes refusing the input as invalid, for the reason `text`.
pub open spec fn ns_validation_failed(ns: Stage, step: Step, text: Seq<char>) -> bool {
    &&& ns is Finished
    &&& step matches Step::Finish(Err(OpError::ValidationFailed { reason }))
    &&& reason@ == text
}

/// The step that follows reply `r` in stage `s`, leading to stage `ns`.
pub open spec fn steps(s: Stage, r: Reply, ns: Stage, step: Step) -> bool {
    match s {
        Stage::Finished => fails(ns, step, unexpected_reply_text()),
        Stage::AwaitExec { if_none, if_unique, success } => match r {
            Reply::RowsAffected(n) => if n == 0 && if_none is Some {
                finishes(ns, step, Err(if_none->0))
            } else {
                finishes(ns, step, Ok(success))
            },
            Reply::Failed { unique_violation, message } => if unique_violation && if_unique is Some {
                finishes(ns, step, Err(OpError::EntityConflict { reason: if_unique->0 }))
            } else {
                finishes(ns, step, Err(OpError::Generic(message)))
            },
            _ => fails(ns, step, unexpected_reply_text()),
        },
        Stage::AwaitFolders => match r {
            Reply::Folders(folders) => finishes(ns, step, Ok(OpSuccess::Folders { folders })),
            _ => otherwise(r, ns, step),
        },
        Stage::AwaitRetention => match r {
            Reply::Number(days) => finishes(ns, step, Ok(OpSuccess::TrashRetention { days })),
            _ => otherwise(r, ns, step),
        },
        Stage::AwaitMembers => match r {
            Reply::Members(group_members) => finishes(ns, step, Ok(OpSuccess::GroupMembers { group_members })),
            _ => otherwise(r, ns, step),
        },
        Stage::AwaitCommit { success } => match r {
            Reply::Done => finishes(ns, step, Ok(success)),
            _ => otherwise(r, ns, step),
        },
        Stage::UploadPut { owner_id, key, size_bytes, name, mime_type, parent_id } => match r {
            Reply::Done => runs(
                ns,
                step,
                Stage::UploadBegin { owner_id, key, size_bytes, name, mime_type, parent_id },
                Action::BeginTx,
            ),
            Reply::Failed { message, .. } => fails(ns, step, "S3 upload error: "@ + message@),
            _ => fails(ns, step, unexpected_reply_text()),
        },
        Stage::UploadBegin { owner_id, key, size_bytes, name, mime_type, parent_id } => match r {
            Reply::Done => runs(
                ns,
                step,
                Stage::UploadRecord { owner_id, name, parent_id },
                Action::Query(DbRequest::InsertFile { owner_id, s3_key: key, size_bytes, mime_type }),
            ),
            _ => otherwise(r, ns, step),
        },
        Stage::UploadRecord { owner_id, name, parent_id } => match r {
            Reply::Found(Some(file_id)) => runs(
                ns,
                step,
                Stage::UploadLink,
                Action::Query(DbRequest::InsertFileLink { name, owner_id, parent_id, file_id }),
            ),
            _ => otherwise(r, ns, step),
        },
        Stage::UploadLink => match r {
            Reply::RowsAffected(n) => if n == 0 {
                finishes(ns, step, Err(OpError::EntityConflict { reason: "A file with that name already exists" }))
            } else {
                runs(ns, step, Stage::AwaitCommit { success: OpSuccess::FileUploaded }, Action::CommitTx)
            },
            _ => otherwise(r, ns, step),
        },
        Stage::AwaitFileRows => match r {
            Reply::Files(rows) => if rows@.len() == 0 {
                &&& ns is Finished
                &&& step matches Step::Finish(Ok(OpSuccess::Files { files }))
                &&& files@.len() == 0
            } else {
                &&& ns == Stage::AwaitFileUrls { rows }
                &&& step matches Step::Run(Action::PresignUrls { keys })
                &&& file_keys(rows@, keys@)
            },
            _ => otherwise(r, ns, step),
        },
        Stage::AwaitFileUrls { rows } => match r {
            Reply::Urls(urls) => if file_urls_fit(rows@, urls@) {
                &&& ns is Finished
                &&& step matches Step::Finish(Ok(OpSuccess::Files { files }))
                &&& files@.len() == rows@.len()
                &&& forall|i: int| 0 <= i < rows@.len() ==> #[trigger] files@[i] == file_entry(rows@[i], urls@[i]->0)
            } else {
                fails(ns, step, unexpected_reply_text())
            },
            _ => otherwise(r, ns, step),
        },
        Stage::AwaitTrashRows => match r {
            Reply::Trash(rows) => if rows@.len() == 0 {
                &&& ns is Finished
                &&& step matches Step::Finish(Ok(OpSuccess::TrashItems { items }))
                &&& items@.len() == 0
            } else {
                &&& ns == Stage::AwaitTrashUrls { rows }
                &&& step matches Step::Run(Action::PresignUrls { keys })
                &&& trash_keys(rows@, keys@)
            },
            _ => otherwise(r, ns, step),
        },
        Stage::AwaitTrashUrls { rows } => match r {
            Reply::Urls(urls) => if trash_urls_fit(rows@, urls@) {
                &&& ns is Finished
                &&& step matches Step::Finish(Ok(OpSuccess::TrashItems { items }))
                &&& items@.len() == rows@.len()
                &&& forall|i: int| 0 <= i < rows@.len() ==> #[trigger] items@[i] == trash_entry(rows@[i], urls@[i])
            } else {
                fails(ns, step, unexpected_reply_text())
            },
            _ => otherwise(r, ns, step),
        },
        Stage::ReorderBegin { owner_id, ids } => match r {
            Reply::Done => if ids@.len() == 0 {
                runs(ns, step, Stage::AwaitCommit { success: OpSuccess::Reordered }, Action::CommitTx)
            } else {
                runs(
                    ns,
                    step,
                    Stage::ReorderStep { owner_id, ids, next: 1 },
                    Action::Query(DbRequest::SetSortOrder { sort_order: 1, id: ids@[0], owner_id }),
                )
            },
            _ => otherwise(r, ns, step),
        },
        Stage::ReorderStep { owner_id, ids, next } => match r {
            Reply::RowsAffected(_) => if next >= ids@.len() {
                runs(ns, step, Stage::AwaitCommit { success: OpSuccess::Reordered }, Action::CommitTx)
            } else {
                runs(
                    ns,
                    step,
                    Stage::ReorderStep { owner_id, ids, next: (next + 1) as usize },
                    Action::Query(DbRequest::SetSortOrder {
                        sort_order: (next + 1) as i32,
                        id: ids@[next as int],
                        owner_id,
                    }),
                )
            },
            _ => otherwise(r, ns, step),
        },
        Stage::PurgeBegin { owner_id, id } => match r {
            Reply::Done => runs(
                ns,
                step,
                Stage::PurgeListing { owner_id, id },
                Action::Query(DbRequest::ListTrashFiles { owner_id, id }),
            ),
            _ => otherwise(r, ns, step),
        },
        Stage::PurgeListing { owner_id, id } => match r {
            Reply::TrashFiles(rows) => if rows@.len() > MAX_PURGED_OBJECTS {
                finishes(ns, step, Err(OpError::TooManyItems))
            } else {
                &&& ns matches Stage::PurgeEntries { owner_id: o, keys, file_ids }
                &&& o == owner_id
                &&& keys@.len() == rows@.len() && file_ids@.len() == rows@.len()
                &&& forall|i: int| 0 <= i < rows@.len() ==> #[trigger] keys@[i] == rows@[i].1 && file_ids@[i] == rows@[i].0
                &&& step == Step::Run(Action::Query(DbRequest::PurgeTrashEntry { owner_id, id }))
            },
            _ => otherwise(r, ns, step),
        },
        Stage::PurgeEntries { owner_id, keys, file_ids } => match r {
            Reply::RowsAffected(n) => if n == 0 {
                finishes(ns, step, Err(OpError::EntityNotFound { reason: "Trash item not found" }))
            } else if file_ids@.len() == 0 {
                runs(ns, step, Stage::PurgeCommit { keys }, Action::CommitTx)
            } else {
                runs(ns, step, Stage::PurgeRecords { keys }, Action::Query(DbRequest::DeleteFileRecords { owner_id, file_ids }))
            },
            _ => otherwise(r, ns, step),
        },
        Stage::PurgeRecords { keys } => match r {
            Reply::RowsAffected(_) => runs(ns, step, Stage::PurgeCommit { keys }, Action::CommitTx),
            _ => otherwise(r, ns, step),
        },
        Stage::PurgeCommit { keys } => match r {
            Reply::Done => if keys@.len() == 0 {
                finishes(ns, step, Ok(OpSuccess::TrashEntryDeleted))
            } else {
                runs(ns, step, Stage::PurgeObjects, Action::DeleteObjects { keys })
            },
            _ => otherwise(r, ns, step),
        },
        Stage::PurgeObjects => finishes(ns, step, Ok(OpSuccess::TrashEntryDeleted)),
        Stage::SignupBegin { username, name, password_hash } => match r {
            Reply::Done => {
                &&& ns == Stage::SignupInsert { username }
                &&& step matches Step::Run(Action::Query(DbRequest::InsertUser { username: u, name: n, password_hash: h }))
                &&& u@ == username@ && n == name && h == password_hash
            },
            _ => otherwise(r, ns, step),
        },
        Stage::SignupInsert { username } => match r {
            Reply::Found(None) => finishes(ns, step, Err(OpError::EntityConflict { reason: "Username already exists" })),
            Reply::Found(Some(user_id)) => stores_session(user_id, username, None, SessionType::Login, ns, step),
            _ => otherwise(r, ns, step),
        },
        Stage::GroupBegin { owner_id, username, name } => match r {
            Reply::Done => {
                &&& ns == Stage::GroupInsert { owner_id, username }
                &&& step matches Step::Run(Action::Query(DbRequest::InsertGroup { username: u, name: n }))
                &&& u@ == username@ && n == name
            },
            _ => otherwise(r, ns, step),
        },
        Stage::GroupInsert { owner_id, username } => match r {
            Reply::Found(None) => finishes(ns, step, Err(OpError::EntityConflict { reason: "Username already exists" })),
            Reply::Found(Some(group_id)) => runs(
                ns,
                step,
                Stage::GroupOwner { group_id, username },
                Action::Query(DbRequest::InsertOwnerMembership { group_id, user_id: owner_id }),
            ),
            _ => otherwise(r, ns, step),
        },
        Stage::GroupOwner { group_id, username } => match r {
            Reply::Found(Some(membership_id)) => stores_session(
                group_id,
                username,
                Some(membership_id),
                SessionType::GroupSession,
                ns,
                step,
            ),
            _ => otherwise(r, ns, step),
        },
        Stage::MembershipBegin { lookup, group_id, username, missing } => match r {
            Reply::Done => runs(ns, step, Stage::MembershipLookup { group_id, username, missing }, Action::Query(lookup)),
            _ => otherwise(r, ns, step),
        },
        Stage::MembershipLookup { group_id, username, missing } => match r {
            Reply::Found(None) => finishes(ns, step, Err(OpError::EntityNotFound { reason: missing })),
            Reply::Found(Some(membership_id)) => stores_session(
                group_id,
                username,
                Some(membership_id),
                SessionType::GroupSession,
                ns,
                step,
            ),
            _ => otherwise(r, ns, step),
        },
        Stage::LoginBegin { username, password } => match r {
            Reply::Done => {
                &&& ns == Stage::LoginLookup { username, password }
                &&& step matches Step::Run(Action::Query(DbRequest::FindCredentials { username: u }))
                &&& u@ == username@
            },
            _ => otherwise(r, ns, step),
        },
        Stage::LoginLookup { username, password } => match r {
            Reply::Credentials(user_id, hash) => match phc_parse_error(hash@) {
                Some(e) => fails(ns, step, "Failed to parse password hash: "@ + e),
                None => if argon2_accepts(password@, hash@) {
                    stores_session(user_id, username, None, SessionType::Login, ns, step)
                } else {
                    refuses(ns, step, "Invalid username or password"@)
                },
            },
            Reply::Failed { .. } => refuses(ns, step, "Invalid username or password"@),
            _ => fails(ns, step, unexpected_reply_text()),
        },
        Stage::SessionStore { username, token, token_type } => match r {
            Reply::Done => runs(
                ns,
                step,
                Stage::AwaitCommit { success: OpSuccess::CreatedSession { username, token, token_type } },
                Action::CommitTx,
            ),
            Reply::Failed { message, .. } => fails(ns, step, "Failed to create session: "@ + message@),
            _ => fails(ns, step, unexpected_reply_text()),
        },
        Stage::PasswordLookup { owner_id, current, new_password } => match r {
            Reply::Text(hash) => match phc_parse_error(hash@) {
                Some(e) => fails(ns, step, "Failed to parse password hash: "@ + e),
                None => if argon2_accepts(current@, hash@) {
                    &&& ns == Stage::AwaitExec { if_none: None, if_unique: None, success: OpSuccess::PasswordChanged }
                    &&& step matches Step::Run(Action::Query(DbRequest::UpdatePassword { password_hash, id }))
                    &&& id == owner_id
                    &&& phc_parse_error(password_hash@) is None && argon2_accepts(new_password@, password_hash@)
                } else {
                    refuses(ns, step, "Incorrect password"@)
                },
            },
            _ => otherwise(r, ns, step),
        },
    }
}

/// Stages in which the run holds an open transaction (its commit not yet answered).
pub open spec fn holds_tx(s: Stage) -> bool {
    ||| s is UploadRecord
    ||| s is UploadLink
    ||| s is AwaitCommit
    ||| s is ReorderStep
    ||| s is PurgeListing
    ||| s is PurgeEntries
    ||| s is PurgeRecords
    ||| s is PurgeCommit
    ||| s is SignupInsert
    ||| s is GroupInsert
    ||| s is GroupOwner
    ||| s is MembershipLookup
    ||| s is LoginLookup
    ||| s is SessionStore
}

/// Stages that wait for a transaction to be opened.
pub open spec fn opens_tx(s: Stage) -> bool {
    ||| s is UploadBegin
    ||| s is ReorderBegin
    ||| s is PurgeBegin
    ||| s is SignupBegin
    ||| s is GroupBegin
    ||| s is MembershipBegin
    ||| s is LoginBegin
}

/// The account whose filesystem rows a statement touches, for statements on the filesystem.
pub open spec fn fs_owner(a: Action) -> Option<u128> {
    match a {
        Action::Query(q) => match q {
            DbRequest::InsertFolder { owner_id, .. } => Some(owner_id),
            DbRequest::ListFolders { owner_id, .. } => Some(owner_id),
            DbRequest::SoftDeleteFolder { owner_id, .. } => Some(owner_id),
            DbRequest::RenameFolder { owner_id, .. } => Some(owner_id),
            DbRequest::InsertFile { owner_id, .. } => Some(owner_id),
            DbRequest::InsertFileLink { owner_id, .. } => Some(owner_id),
            DbRequest::ListFiles { owner_id, .. } => Some(owner_id),
            DbRequest::RenameFile { owner_id, .. } => Some(owner_id),
            DbRequest::SoftDeleteFile { owner_id, .. } => Some(owner_id),
            DbRequest::SetSortOrder { owner_id, .. } => Some(owner_id),
            DbRequest::MoveEntry { owner_id, .. } => Some(owner_id),
            DbRequest::ListTrash { owner_id } => Some(owner_id),
            DbRequest::RestoreEntry { owner_id, .. } => Some(owner_id),
            DbRequest::ListTrashFiles { owner_id, .. } => Some(owner_id),
            DbRequest::PurgeTrashEntry { owner_id, .. } => Some(owner_id),
            DbRequest::DeleteFileRecords { owner_id, .. } => Some(owner_id),
            _ => None,
        },
        _ => None,
    }
}

/// The account that a stage of a filesystem operation acts for.
pub open spec fn stage_owner(s: Stage) -> Option<u128> {
    match s {
        Stage::UploadPut { owner_id, .. } => Some(owner_id),
        Stage::UploadBegin { owner_id, .. } => Some(owner_id),
        Stage::UploadRecord { owner_id, .. } => Some(owner_id),
        Stage::ReorderBegin { owner_id, .. } => Some(owner_id),
        Stage::ReorderStep { owner_id, .. } => Some(owner_id),
        Stage::PurgeBegin { owner_id, .. } => Some(owner_id),
        Stage::PurgeListing { owner_id, .. } => Some(owner_id),
        Stage::PurgeEntries { owner_id, .. } => Some(owner_id),
        _ => None,
    }
}

/// How many more replies a run in this stage needs at most before it answers.
pub open spec fn stage_rank(s: Stage) -> nat {
    match s {
        Stage::Finished => 0,
        Stage::AwaitExec { .. } => 1,
        Stage::AwaitFolders => 1,
        Stage::AwaitRetention => 1,
        Stage::AwaitMembers => 1,
        Stage::AwaitCommit { .. } => 1,
        Stage::AwaitFileUrls { .. } => 1,
        Stage::AwaitTrashUrls { .. } => 1,
        Stage::PurgeObjects => 1,
        Stage::AwaitFileRows => 2,
        Stage::AwaitTrashRows => 2,
        Stage::SessionStore { .. } => 2,
        Stage::PurgeCommit { .. } => 2,
        Stage::UploadLink => 2,
        Stage::PasswordLookup { .. } => 2,
        Stage::ReorderStep { ids, next, .. } => (2 + ids@.len() - next) as nat,
        Stage::PurgeRecords { .. } => 3,
        Stage::UploadRecord { .. } => 3,
        Stage::SignupInsert { .. } => 3,
        Stage::GroupOwner { .. } => 3,
        Stage::MembershipLookup { .. } => 3,
        Stage::LoginLookup { .. } => 3,
        Stage::ReorderBegin { ids, .. } => 3 + ids@.len(),
        Stage::PurgeEntries { .. } => 4,
        Stage::UploadBegin { .. } => 4,
        Stage::SignupBegin { .. } => 4,
        Stage::GroupInsert { .. } => 4,
        Stage::MembershipBegin { .. } => 4,
        Stage::LoginBegin { .. } => 4,
        Stage::PurgeListing { .. } => 5,
        Stage::UploadPut { .. } => 5,
        Stage::GroupBegin { .. } => 5,
        Stage::PurgeBegin { .. } => 6,
    }
}

} // verus!
