//! Operations of the service: what a client asks for, what it gets back, and
//! the protocol (in `run`) by which an operation drives the database and the
//! object store.
pub mod laws;
pub mod models;
pub mod protocol;
pub mod run;
pub mod sql;

use vstd::prelude::*;
use crate::ops::models::auth::{GroupMember, SessionType};
use crate::ops::models::filesystem::{FileEntry, FileRow, Folder, TrashEntry, TrashRow};

verus! {

/// An operation that a client asks for.
#[derive(Debug, PartialEq)]
pub enum OpArgs {
    CreateFolder { name: String, parent_id: Option<u128> },
    ListFolder { parent_id: Option<u128> },
    DeleteFolder { id: u128 },
    RenameFolder { id: u128, name: String },
    UploadFile { data: Vec<u8>, name: String, mime_type: String, parent_id: Option<u128> },
    ListFiles { parent_id: Option<u128> },
    RenameFile { id: u128, name: String },
    DeleteFile { id: u128 },
    Reorder { ids: Vec<u128> },
    MoveEntry { id: u128, parent_id: Option<u128> },
    ListTrash,
    RestoreEntry { id: u128 },
    DeleteTrashEntry { id: u128 },
    CreateUser { username: String, password: String, name: String },
    CreateLoginSession { username: String, password: String },
    DeleteSession { id: u128 },
    ChangeUsername { new_username: String },
    ChangePassword { curr_password: String, new_password: String },
    GetTrashRetention,
    SetTrashRetention { days: i32 },
    CreateGroup { username: String, name: String },
    CreateGroupSession { group_id: u128 },
    ListGroups,
    AcceptGroupInvite { group_id: u128 },
    DenyGroupInvite { group_id: u128 },
}

/// What a successful operation answers.
#[derive(Debug, PartialEq)]
pub enum OpSuccess {
    FolderCreated,
    Folders { folders: Vec<Folder> },
    FolderDeleted,
    FolderRenamed,
    FileUploaded,
    Files { files: Vec<FileEntry> },
    FileRenamed,
    FileDeleted,
    Reordered,
    EntryMoved,
    TrashItems { items: Vec<TrashEntry> },
    EntryRestored,
    TrashEntryDeleted,
    CreatedSession { username: String, token: String, token_type: SessionType },
    DeletedSession { id: u128, token_type: SessionType },
    UsernameChanged,
    PasswordChanged,
    TrashRetention { days: i32 },
    TrashRetentionSet,
    GroupMembers { group_members: Vec<GroupMember> },
    GroupInviteDenied,
}

/// Why an operation failed.
#[derive(Debug, PartialEq)]
pub enum OpError {
    /// An unexpected failure, with its description.
    Generic(String),
    EntityConflict { reason: &'static str },
    EntityNotFound { reason: &'static str },
    UserNotLoggedIn,
    ValidationFailed { reason: String },
    BadRequest { reason: String },
    TooManyItems,
    Unauthorized { reason: String },
    UserOnlyOp,
    GroupOnlyOp,
    OpNeedsPerms { perm: String },
}

/// The account an operation runs as.
#[derive(Clone, PartialEq, Eq, Hash, Debug)]
pub enum OpCtx {
    User { id: u128, username: String },
    Group { id: u128, username: String, active_membership_id: u128 },
}

impl OpCtx {
    /// Id of the account, personal or group.
    pub open spec fn spec_account_id(&self) -> u128 {
        match self {
            OpCtx::User { id, .. } => *id,
            OpCtx::Group { id, .. } => *id,
        }
    }

    /// Name of the account.
    pub open spec fn spec_username(&self) -> Seq<char> {
        match self {
            OpCtx::User { username, .. } => username@,
            OpCtx::Group { username, .. } => username@,
        }
    }

    pub fn account_id(&self) -> (r: u128)
        ensures
            r == self.spec_account_id(),
    {
        match self {
            OpCtx::User { id, .. } => *id,
            OpCtx::Group { id, .. } => *id,
        }
    }

    pub fn is_user(&self) -> (r: bool)
        ensures
            r == self is User,
    {
        match self {
            OpCtx::User { .. } => true,
            _ => false,
        }
    }

    pub fn is_group(&self) -> (r: bool)
        ensures
            r == self is Group,
    {
        match self {
            OpCtx::Group { .. } => true,
            _ => false,
        }
    }

    pub fn username(&self) -> (r: String)
        ensures
            r@ == self.spec_username(),
    {
        match self {
            OpCtx::User { username, .. } => username.clone(),
            OpCtx::Group { username, .. } => username.clone(),
        }
    }
}

/// A statement for the database, with the values bound to it (its SQL text is `sql`).
/// Each runs inside the open transaction if one is open.
#[derive(Debug, PartialEq)]
pub enum DbRequest {
    /// Adds a folder at the end of its parent; no row where the name is taken.
    InsertFolder { name: String, owner_id: u128, parent_id: Option<u128> },
    /// The live folders in a parent, by position.
    ListFolders { owner_id: u128, parent_id: Option<u128> },
    /// Moves a live folder and everything below it to the trash.
    SoftDeleteFolder { id: u128, owner_id: u128 },
    RenameFolder { name: String, id: u128, owner_id: u128 },
    /// Records a stored object; answers the new record's id.
    InsertFile { owner_id: u128, s3_key: String, size_bytes: i64, mime_type: String },
    /// Links a file record into a folder, at the end.
    InsertFileLink { name: String, owner_id: u128, parent_id: Option<u128>, file_id: u128 },
    /// The live files in a parent, by position.
    ListFiles { owner_id: u128, parent_id: Option<u128> },
    RenameFile { name: String, id: u128, owner_id: u128 },
    SoftDeleteFile { id: u128, owner_id: u128 },
    SetSortOrder { sort_order: i32, id: u128, owner_id: u128 },
    /// Moves a live entry to the end of another folder, never into itself or below itself.
    MoveEntry { parent_id: Option<u128>, id: u128, owner_id: u128 },
    /// The topmost deleted entries, newest first.
    ListTrash { owner_id: u128 },
    /// Brings back a deleted entry with everything deleted together with it.
    RestoreEntry { id: u128, owner_id: u128 },
    /// The file records and object keys below a deleted entry.
    ListTrashFiles { owner_id: u128, id: u128 },
    /// Removes a deleted entry and everything below it for good.
    PurgeTrashEntry { owner_id: u128, id: u128 },
    DeleteFileRecords { owner_id: u128, file_ids: Vec<u128> },
    /// Adds a personal account unless the username is taken; answers its id.
    InsertUser { username: String, name: String, password_hash: String },
    /// Adds a group account unless the username is taken; answers its id.
    InsertGroup { username: String, name: String },
    /// Makes a user the accepted owner of a group; answers the membership id.
    InsertOwnerMembership { group_id: u128, user_id: u128 },
    ListMemberships { user_id: u128 },
    /// The id of the user's accepted membership of a group, if any.
    FindAcceptedMembership { user_id: u128, group_id: u128 },
    /// Accepts the user's pending invite to a group; answers the membership id, if any.
    AcceptInvite { user_id: u128, group_id: u128 },
    DeleteInvite { user_id: u128, group_id: u128 },
    /// Id and password hash of the account with this username.
    FindCredentials { username: String },
    /// Stores a session token, valid for `lifetime_secs` from now.
    InsertSession { user_id: u128, token: String, lifetime_secs: u64, membership_id: Option<u128> },
    DeleteSession { user_id: u128, id: u128 },
    UpdateUsername { username: String, id: u128 },
    FindPasswordHash { id: u128 },
    UpdatePassword { password_hash: String, id: u128 },
    FindTrashRetention { id: u128 },
    UpdateTrashRetention { days: i32, id: u128 },
}

/// Outside work that an operation asks for next.
#[derive(Debug, PartialEq)]
pub enum Action {
    Query(DbRequest),
    BeginTx,
    CommitTx,
    /// Stores an object in the bucket.
    PutObject { key: String, data: Vec<u8>, mime_type: String },
    /// Presigns a download URL for each key, in order, stopping at the first failure;
    /// a `None` key gets no URL.
    PresignUrls { keys: Vec<Option<String>> },
    /// Deletes objects from the bucket.
    DeleteObjects { keys: Vec<String> },
}

/// What the outside work answered.
#[derive(Debug, PartialEq)]
pub enum Reply {
    /// The transaction, object or deletion request went through.
    Done,
    RowsAffected(u64),
    /// The id that a statement returned, if a row came back.
    Found(Option<u128>),
    Credentials(u128, String),
    Text(String),
    Number(i32),
    Folders(Vec<Folder>),
    Files(Vec<FileRow>),
    Trash(Vec<TrashRow>),
    /// File record ids with their object keys.
    TrashFiles(Vec<(u128, String)>),
    Members(Vec<GroupMember>),
    Urls(Vec<Option<String>>),
    /// The work failed; `unique_violation` where a uniqueness constraint refused it.
    Failed { unique_violation: bool, message: String },
}

/// What the caller does next.
#[derive(Debug, PartialEq)]
pub enum Step {
    Run(Action),
    Finish(Result<OpSuccess, OpError>),
}

} // verus!
