//! The SQL text of each database statement.
use vstd::prelude::*;
use crate::ops::DbRequest;

verus! {

/// SQL of `DbRequest::InsertFolder`.
pub const SQL_INSERT_FOLDER: &'static str = "INSERT INTO filesystem (name, type, owner_id, parent_id, sort_order) VALUES ($1, 'folder', $2, $3, COALESCE((SELECT MAX(sort_order) FROM filesystem WHERE parent_id IS NOT DISTINCT FROM $3 AND owner_id = $2 AND deleted_at IS NULL), 0) + 1 ) ON CONFLICT (parent_id, name) WHERE deleted_at IS NULL DO NOTHING";

/// SQL of `DbRequest::ListFolders`.
pub const SQL_LIST_FOLDERS: &'static str = "SELECT id, name FROM filesystem WHERE owner_id = $1 AND type = 'folder' AND parent_id IS NOT DISTINCT FROM $2 AND deleted_at IS NULL ORDER BY sort_order";

/// SQL of `DbRequest::SoftDeleteFolder`.
pub const SQL_SOFT_DELETE_FOLDER: &'static str = "UPDATE filesystem SET deleted_at = NOW(), updated_at = NOW() WHERE owner_id = $2 AND deleted_at IS NULL AND path <@ ( SELECT path FROM filesystem WHERE id = $1 AND owner_id = $2 AND type = 'folder' AND deleted_at IS NULL )";

/// SQL of `DbRequest::RenameFolder`.
pub const SQL_RENAME_FOLDER: &'static str = "UPDATE filesystem SET name = $1, updated_at = NOW() WHERE id = $2 AND owner_id = $3 AND type = 'folder' AND deleted_at IS NULL";

/// SQL of `DbRequest::InsertFile`.
pub const SQL_INSERT_FILE: &'static str = "INSERT INTO files (owner_id, s3_fileid, size_bytes, mime_type) VALUES ($1, $2, $3, $4) RETURNING id";

/// SQL of `DbRequest::InsertFileLink`.
pub const SQL_INSERT_FILE_LINK: &'static str = "INSERT INTO filesystem (name, type, owner_id, parent_id, file_id, sort_order) VALUES ($1, 'file_link', $2, $3, $4, COALESCE((SELECT MAX(sort_order) FROM filesystem WHERE parent_id IS NOT DISTINCT FROM $3 AND owner_id = $2 AND deleted_at IS NULL), 0) + 1 )";

/// SQL of `DbRequest::ListFiles`.
pub const SQL_LIST_FILES: &'static str = "SELECT fs.id, fs.name, f.size_bytes, f.mime_type, f.s3_fileid FROM filesystem fs JOIN files f ON fs.file_id = f.id WHERE fs.owner_id = $1 AND fs.type = 'file_link' AND fs.parent_id IS NOT DISTINCT FROM $2 AND fs.deleted_at IS NULL ORDER BY fs.sort_order";

/// SQL of `DbRequest::RenameFile`.
pub const SQL_RENAME_FILE: &'static str = "UPDATE filesystem SET name = $1, updated_at = NOW() WHERE id = $2 AND owner_id = $3 AND type = 'file_link' AND deleted_at IS NULL";

/// SQL of `DbRequest::SoftDeleteFile`.
pub const SQL_SOFT_DELETE_FILE: &'static str = "UPDATE filesystem SET deleted_at = NOW(), updated_at = NOW() WHERE id = $1 AND owner_id = $2 AND type = 'file_link' AND deleted_at IS NULL";

/// SQL of `DbRequest::SetSortOrder`.
pub const SQL_SET_SORT_ORDER: &'static str = "UPDATE filesystem SET sort_order = $1 WHERE id = $2 AND owner_id = $3 AND deleted_at IS NULL";

/// SQL of `DbRequest::MoveEntry`.
pub const SQL_MOVE_ENTRY: &'static str = "UPDATE filesystem SET parent_id = $1, sort_order = COALESCE((SELECT MAX(sort_order) FROM filesystem WHERE parent_id IS NOT DISTINCT FROM $1 AND owner_id = $3 AND deleted_at IS NULL), 0) + 1, updated_at = NOW() WHERE id = $2 AND owner_id = $3 AND deleted_at IS NULL AND id <> $1 AND ($1 IS NULL OR EXISTS ( SELECT 1 FROM filesystem p WHERE p.id = $1 AND p.owner_id = $3 AND p.type = 'folder' AND p.deleted_at IS NULL AND NOT (p.path <@ (SELECT path FROM filesystem WHERE id = $2 AND deleted_at IS NULL)) ))";

/// SQL of `DbRequest::ListTrash`.
pub const SQL_LIST_TRASH: &'static str = "SELECT fs.id, fs.name, fs.type::text AS kind, fs.deleted_at, f.mime_type, f.s3_fileid FROM filesystem fs LEFT JOIN files f ON fs.file_id = f.id WHERE fs.owner_id = $1 AND fs.deleted_at IS NOT NULL AND NOT EXISTS ( SELECT 1 FROM filesystem anc WHERE anc.owner_id = $1 AND anc.deleted_at IS NOT NULL AND anc.id <> fs.id AND fs.path <@ anc.path ) ORDER BY fs.deleted_at DESC, fs.name";

/// SQL of `DbRequest::RestoreEntry`.
pub const SQL_RESTORE_ENTRY: &'static str = "UPDATE filesystem SET deleted_at = NULL, updated_at = NOW() WHERE owner_id = $2 AND deleted_at IS NOT NULL AND path <@ (SELECT path FROM filesystem WHERE id = $1 AND owner_id = $2 AND deleted_at IS NOT NULL) AND deleted_at = (SELECT deleted_at FROM filesystem WHERE id = $1 AND owner_id = $2)";

/// SQL of `DbRequest::ListTrashFiles`.
pub const SQL_LIST_TRASH_FILES: &'static str = "SELECT fs.file_id, f.s3_fileid FROM filesystem fs JOIN files f ON fs.file_id = f.id WHERE fs.owner_id = $1 AND fs.deleted_at IS NOT NULL AND fs.path <@ (SELECT path FROM filesystem WHERE id = $2 AND owner_id = $1 AND deleted_at IS NOT NULL) AND fs.type = 'file_link'";

/// SQL of `DbRequest::PurgeTrashEntry`.
pub const SQL_PURGE_TRASH_ENTRY: &'static str = "DELETE FROM filesystem WHERE owner_id = $1 AND deleted_at IS NOT NULL AND path <@ (SELECT path FROM filesystem WHERE id = $2 AND owner_id = $1 AND deleted_at IS NOT NULL)";

/// SQL of `DbRequest::DeleteFileRecords`.
pub const SQL_DELETE_FILE_RECORDS: &'static str = "DELETE FROM files WHERE owner_id = $1 AND id = ANY($2)";

/// SQL of `DbRequest::InsertUser`.
pub const SQL_INSERT_USER: &'static str = "INSERT INTO users (username, name, password) VALUES ($1, $2, $3) ON CONFLICT (username) DO NOTHING RETURNING id";

/// SQL of `DbRequest::InsertGroup`.
pub const SQL_INSERT_GROUP: &'static str = "INSERT INTO users (username, name, user_type) VALUES ($1, $2, 'group') ON CONFLICT (username) DO NOTHING RETURNING id";

/// SQL of `DbRequest::InsertOwnerMembership`.
pub const SQL_INSERT_OWNER_MEMBERSHIP: &'static str = "INSERT INTO group_members ( group_id, user_id, sender_id, access_level, state ) VALUES ( $1, $2, $2, 'owner', 'accepted' ) RETURNING id";

/// SQL of `DbRequest::ListMemberships`.
pub const SQL_LIST_MEMBERSHIPS: &'static str = "SELECT gm.id, gm.group_id, gm.group_type, u_group.name AS group_name, u_group.username AS group_username, gm.user_id, gm.user_type, gm.sender_id, gm.sender_type, u.username AS sender_username, gm.access_level, gm.state, gm.created_at FROM group_members gm LEFT JOIN users u_group ON gm.group_id = u_group.id AND gm.group_type = u_group.user_type LEFT JOIN users u ON gm.sender_id = u.id AND gm.sender_type = u.user_type WHERE gm.user_id = $1 ORDER BY gm.created_at DESC";

/// SQL of `DbRequest::FindAcceptedMembership`.
pub const SQL_FIND_ACCEPTED_MEMBERSHIP: &'static str = "SELECT id FROM group_members WHERE user_id = $1 AND state = 'accepted' AND group_id = $2";

/// SQL of `DbRequest::AcceptInvite`.
pub const SQL_ACCEPT_INVITE: &'static str = "UPDATE group_members SET state = 'accepted' WHERE user_id = $1 AND state = 'pending_invite' AND group_id = $2 RETURNING id";

/// SQL of `DbRequest::DeleteInvite`.
pub const SQL_DELETE_INVITE: &'static str = "DELETE FROM group_members WHERE user_id = $1 AND state = 'pending_invite' AND group_id = $2";

/// SQL of `DbRequest::FindCredentials`.
pub const SQL_FIND_CREDENTIALS: &'static str = "SELECT id, password FROM users WHERE username = $1";

/// SQL of `DbRequest::InsertSession`.
pub const SQL_INSERT_SESSION: &'static str = "INSERT INTO sessions (user_id, token, expires_at, active_membership_id) VALUES ($1, $2, $3, $4)";

/// SQL of `DbRequest::DeleteSession`.
pub const SQL_DELETE_SESSION: &'static str = "DELETE FROM sessions WHERE user_id = $1 AND id = $2";

/// SQL of `DbRequest::UpdateUsername`.
pub const SQL_UPDATE_USERNAME: &'static str = "UPDATE users SET username = $1 WHERE id = $2";

/// SQL of `DbRequest::FindPasswordHash`.
pub const SQL_FIND_PASSWORD_HASH: &'static str = "SELECT password FROM users WHERE id = $1";

/// SQL of `DbRequest::UpdatePassword`.
pub const SQL_UPDATE_PASSWORD: &'static str = "UPDATE users SET password = $1 WHERE id = $2";

/// SQL of `DbRequest::FindTrashRetention`.
pub const SQL_FIND_TRASH_RETENTION: &'static str = "SELECT trash_retention_days FROM users WHERE id = $1";

/// SQL of `DbRequest::UpdateTrashRetention`.
pub const SQL_UPDATE_TRASH_RETENTION: &'static str = "UPDATE users SET trash_retention_days = $1 WHERE id = $2";

/// Whether `part` occurs in `text`.
pub open spec fn mentions(text: Seq<char>, part: Seq<char>) -> bool {
    exists|i: int| 0 <= i && i + part.len() <= text.len() && #[trigger] text.subrange(i, i + part.len()) == part
}

/// Statements that work on the live (not deleted) entries of the filesystem.
pub open spec fn on_live_entries(r: DbRequest) -> bool {

    r is InsertFolder
    || r is ListFolders
    || r is SoftDeleteFolder
    || r is RenameFolder
    || r is InsertFileLink
    || r is ListFiles
    || r is RenameFile
    || r is SoftDeleteFile
    || r is SetSortOrder
    || r is MoveEntry
}

/// Statements that work on deleted entries: the trash listing, restoring and purging.
pub open spec fn on_deleted_entries(r: DbRequest) -> bool {

    r is ListTrash
    || r is RestoreEntry
    || r is ListTrashFiles
    || r is PurgeTrashEntry
}

/// The SQL text of a statement.
pub open spec fn request_sql(r: DbRequest) -> &'static str {
    match r {
        DbRequest::InsertFolder { .. } => SQL_INSERT_FOLDER,
        DbRequest::ListFolders { .. } => SQL_LIST_FOLDERS,
        DbRequest::SoftDeleteFolder { .. } => SQL_SOFT_DELETE_FOLDER,
        DbRequest::RenameFolder { .. } => SQL_RENAME_FOLDER,
        DbRequest::InsertFile { .. } => SQL_INSERT_FILE,
        DbRequest::InsertFileLink { .. } => SQL_INSERT_FILE_LINK,
        DbRequest::ListFiles { .. } => SQL_LIST_FILES,
        DbRequest::RenameFile { .. } => SQL_RENAME_FILE,
        DbRequest::SoftDeleteFile { .. } => SQL_SOFT_DELETE_FILE,
        DbRequest::SetSortOrder { .. } => SQL_SET_SORT_ORDER,
        DbRequest::MoveEntry { .. } => SQL_MOVE_ENTRY,
        DbRequest::ListTrash { .. } => SQL_LIST_TRASH,
        DbRequest::RestoreEntry { .. } => SQL_RESTORE_ENTRY,
        DbRequest::ListTrashFiles { .. } => SQL_LIST_TRASH_FILES,
        DbRequest::PurgeTrashEntry { .. } => SQL_PURGE_TRASH_ENTRY,
        DbRequest::DeleteFileRecords { .. } => SQL_DELETE_FILE_RECORDS,
        DbRequest::InsertUser { .. } => SQL_INSERT_USER,
        DbRequest::InsertGroup { .. } => SQL_INSERT_GROUP,
        DbRequest::InsertOwnerMembership { .. } => SQL_INSERT_OWNER_MEMBERSHIP,
        DbRequest::ListMemberships { .. } => SQL_LIST_MEMBERSHIPS,
        DbRequest::FindAcceptedMembership { .. } => SQL_FIND_ACCEPTED_MEMBERSHIP,
        DbRequest::AcceptInvite { .. } => SQL_ACCEPT_INVITE,
        DbRequest::DeleteInvite { .. } => SQL_DELETE_INVITE,
        DbRequest::FindCredentials { .. } => SQL_FIND_CREDENTIALS,
        DbRequest::InsertSession { .. } => SQL_INSERT_SESSION,
        DbRequest::DeleteSession { .. } => SQL_DELETE_SESSION,
        DbRequest::UpdateUsername { .. } => SQL_UPDATE_USERNAME,
        DbRequest::FindPasswordHash { .. } => SQL_FIND_PASSWORD_HASH,
        DbRequest::UpdatePassword { .. } => SQL_UPDATE_PASSWORD,
        DbRequest::FindTrashRetention { .. } => SQL_FIND_TRASH_RETENTION,
        DbRequest::UpdateTrashRetention { .. } => SQL_UPDATE_TRASH_RETENTION,
    }
}

impl DbRequest {
    /// The statement's SQL text. The caller binds `$1, $2, ...` to the request's values
    /// in the order in which the statement names them.
    pub fn sql(&self) -> (r: &'static str)
        ensures
            r == request_sql(*self),
    {
        match self {
            DbRequest::InsertFolder { .. } => SQL_INSERT_FOLDER,
            DbRequest::ListFolders { .. } => SQL_LIST_FOLDERS,
            DbRequest::SoftDeleteFolder { .. } => SQL_SOFT_DELETE_FOLDER,
            DbRequest::RenameFolder { .. } => SQL_RENAME_FOLDER,
            DbRequest::InsertFile { .. } => SQL_INSERT_FILE,
            DbRequest::InsertFileLink { .. } => SQL_INSERT_FILE_LINK,
            DbRequest::ListFiles { .. } => SQL_LIST_FILES,
            DbRequest::RenameFile { .. } => SQL_RENAME_FILE,
            DbRequest::SoftDeleteFile { .. } => SQL_SOFT_DELETE_FILE,
            DbRequest::SetSortOrder { .. } => SQL_SET_SORT_ORDER,
            DbRequest::MoveEntry { .. } => SQL_MOVE_ENTRY,
            DbRequest::ListTrash { .. } => SQL_LIST_TRASH,
            DbRequest::RestoreEntry { .. } => SQL_RESTORE_ENTRY,
            DbRequest::ListTrashFiles { .. } => SQL_LIST_TRASH_FILES,
            DbRequest::PurgeTrashEntry { .. } => SQL_PURGE_TRASH_ENTRY,
            DbRequest::DeleteFileRecords { .. } => SQL_DELETE_FILE_RECORDS,
            DbRequest::InsertUser { .. } => SQL_INSERT_USER,
            DbRequest::InsertGroup { .. } => SQL_INSERT_GROUP,
            DbRequest::InsertOwnerMembership { .. } => SQL_INSERT_OWNER_MEMBERSHIP,
            DbRequest::ListMemberships { .. } => SQL_LIST_MEMBERSHIPS,
            DbRequest::FindAcceptedMembership { .. } => SQL_FIND_ACCEPTED_MEMBERSHIP,
            DbRequest::AcceptInvite { .. } => SQL_ACCEPT_INVITE,
            DbRequest::DeleteInvite { .. } => SQL_DELETE_INVITE,
            DbRequest::FindCredentials { .. } => SQL_FIND_CREDENTIALS,
            DbRequest::InsertSession { .. } => SQL_INSERT_SESSION,
            DbRequest::DeleteSession { .. } => SQL_DELETE_SESSION,
            DbRequest::UpdateUsername { .. } => SQL_UPDATE_USERNAME,
            DbRequest::FindPasswordHash { .. } => SQL_FIND_PASSWORD_HASH,
            DbRequest::UpdatePassword { .. } => SQL_UPDATE_PASSWORD,
            DbRequest::FindTrashRetention { .. } => SQL_FIND_TRASH_RETENTION,
            DbRequest::UpdateTrashRetention { .. } => SQL_UPDATE_TRASH_RETENTION,
        }
    }
}

/// Every statement on the filesystem filters out deleted entries (`deleted_at IS NULL`),
/// except those meant for deleted entries, which select only them (`deleted_at IS NOT NULL`).
pub proof fn lemma_deleted_entries_filtered(r: DbRequest)
    ensures
        on_live_entries(r) ==> mentions(request_sql(r)@, "deleted_at IS NULL"@),
        on_deleted_entries(r) ==> mentions(request_sql(r)@, "deleted_at IS NOT NULL"@),
{
    reveal_strlit("deleted_at IS NULL");
    reveal_strlit("deleted_at IS NOT NULL");
    match r {
        DbRequest::InsertFolder { .. } => {
            reveal_strlit("INSERT INTO filesystem (name, type, owner_id, parent_id, sort_order) VALUES ($1, 'folder', $2, $3, COALESCE((SELECT MAX(sort_order) FROM filesystem WHERE parent_id IS NOT DISTINCT FROM $3 AND owner_id = $2 AND deleted_at IS NULL), 0) + 1 ) ON CONFLICT (parent_id, name) WHERE deleted_at IS NULL DO NOTHING");
            assert(SQL_INSERT_FOLDER@.subrange(210int, 210int + "deleted_at IS NULL"@.len()) =~= "deleted_at IS NULL"@);
        },
        DbRequest::ListFolders { .. } => {
            reveal_strlit("SELECT id, name FROM filesystem WHERE owner_id = $1 AND type = 'folder' AND parent_id IS NOT DISTINCT FROM $2 AND deleted_at IS NULL ORDER BY sort_order");
            assert(SQL_LIST_FOLDERS@.subrange(114int, 114int + "deleted_at IS NULL"@.len()) =~= "deleted_at IS NULL"@);
        },
        DbRequest::SoftDeleteFolder { .. } => {
            reveal_strlit("UPDATE filesystem SET deleted_at = NOW(), updated_at = NOW() WHERE owner_id = $2 AND deleted_at IS NULL AND path <@ ( SELECT path FROM filesystem WHERE id = $1 AND owner_id = $2 AND type = 'folder' AND deleted_at IS NULL )");
            assert(SQL_SOFT_DELETE_FOLDER@.subrange(85int, 85int + "deleted_at IS NULL"@.len()) =~= "deleted_at IS NULL"@);
        },
        DbRequest::RenameFolder { .. } => {
            reveal_strlit("UPDATE filesystem SET name = $1, updated_at = NOW() WHERE id = $2 AND owner_id = $3 AND type = 'folder' AND deleted_at IS NULL");
            assert(SQL_RENAME_FOLDER@.subrange(108int, 108int + "deleted_at IS NULL"@.len()) =~= "deleted_at IS NULL"@);
        },
        DbRequest::InsertFileLink { .. } => {
            reveal_strlit("INSERT INTO filesystem (name, type, owner_id, parent_id, file_id, sort_order) VALUES ($1, 'file_link', $2, $3, $4, COALESCE((SELECT MAX(sort_order) FROM filesystem WHERE parent_id IS NOT DISTINCT FROM $3 AND owner_id = $2 AND deleted_at IS NULL), 0) + 1 )");
            assert(SQL_INSERT_FILE_LINK@.subrange(226int, 226int + "deleted_at IS NULL"@.len()) =~= "deleted_at IS NULL"@);
        },
        DbRequest::ListFiles { .. } => {
            reveal_strlit("SELECT fs.id, fs.name, f.size_bytes, f.mime_type, f.s3_fileid FROM filesystem fs JOIN files f ON fs.file_id = f.id WHERE fs.owner_id = $1 AND fs.type = 'file_link' AND fs.parent_id IS NOT DISTINCT FROM $2 AND fs.deleted_at IS NULL ORDER BY fs.sort_order");
            assert(SQL_LIST_FILES@.subrange(212int, 212int + "deleted_at IS NULL"@.len()) =~= "deleted_at IS NULL"@);
        },
        DbRequest::RenameFile { .. } => {
            reveal_strlit("UPDATE filesystem SET name = $1, updated_at = NOW() WHERE id = $2 AND owner_id = $3 AND type = 'file_link' AND deleted_at IS NULL");
            assert(SQL_RENAME_FILE@.subrange(111int, 111int + "deleted_at IS NULL"@.len()) =~= "deleted_at IS NULL"@);
        },
        DbRequest::SoftDeleteFile { .. } => {
            reveal_strlit("UPDATE filesystem SET deleted_at = NOW(), updated_at = NOW() WHERE id = $1 AND owner_id = $2 AND type = 'file_link' AND deleted_at IS NULL");
            assert(SQL_SOFT_DELETE_FILE@.subrange(120int, 120int + "deleted_at IS NULL"@.len()) =~= "deleted_at IS NULL"@);
        },
        DbRequest::SetSortOrder { .. } => {
            reveal_strlit("UPDATE filesystem SET sort_order = $1 WHERE id = $2 AND owner_id = $3 AND deleted_at IS NULL");
            assert(SQL_SET_SORT_ORDER@.subrange(74int, 74int + "deleted_at IS NULL"@.len()) =~= "deleted_at IS NULL"@);
        },
        DbRequest::MoveEntry { .. } => {
            reveal_strlit("UPDATE filesystem SET parent_id = $1, sort_order = COALESCE((SELECT MAX(sort_order) FROM filesystem WHERE parent_id IS NOT DISTINCT FROM $1 AND owner_id = $3 AND deleted_at IS NULL), 0) + 1, updated_at = NOW() WHERE id = $2 AND owner_id = $3 AND deleted_at IS NULL AND id <> $1 AND ($1 IS NULL OR EXISTS ( SELECT 1 FROM filesystem p WHERE p.id = $1 AND p.owner_id = $3 AND p.type = 'folder' AND p.deleted_at IS NULL AND NOT (p.path <@ (SELECT path FROM filesystem WHERE id = $2 AND deleted_at IS NULL)) ))");
            assert(SQL_MOVE_ENTRY@.subrange(162int, 162int + "deleted_at IS NULL"@.len()) =~= "deleted_at IS NULL"@);
        },
        DbRequest::ListTrash { .. } => {
            reveal_strlit("SELECT fs.id, fs.name, fs.type::text AS kind, fs.deleted_at, f.mime_type, f.s3_fileid FROM filesystem fs LEFT JOIN files f ON fs.file_id = f.id WHERE fs.owner_id = $1 AND fs.deleted_at IS NOT NULL AND NOT EXISTS ( SELECT 1 FROM filesystem anc WHERE anc.owner_id = $1 AND anc.deleted_at IS NOT NULL AND anc.id <> fs.id AND fs.path <@ anc.path ) ORDER BY fs.deleted_at DESC, fs.name");
            assert(SQL_LIST_TRASH@.subrange(174int, 174int + "deleted_at IS NOT NULL"@.len()) =~= "deleted_at IS NOT NULL"@);
        },
        DbRequest::RestoreEntry { .. } => {
            reveal_strlit("UPDATE filesystem SET deleted_at = NULL, updated_at = NOW() WHERE owner_id = $2 AND deleted_at IS NOT NULL AND path <@ (SELECT path FROM filesystem WHERE id = $1 AND owner_id = $2 AND deleted_at IS NOT NULL) AND deleted_at = (SELECT deleted_at FROM filesystem WHERE id = $1 AND owner_id = $2)");
            assert(SQL_RESTORE_ENTRY@.subrange(84int, 84int + "deleted_at IS NOT NULL"@.len()) =~= "deleted_at IS NOT NULL"@);
        },
        DbRequest::ListTrashFiles { .. } => {
            reveal_strlit("SELECT fs.file_id, f.s3_fileid FROM filesystem fs JOIN files f ON fs.file_id = f.id WHERE fs.owner_id = $1 AND fs.deleted_at IS NOT NULL AND fs.path <@ (SELECT path FROM filesystem WHERE id = $2 AND owner_id = $1 AND deleted_at IS NOT NULL) AND fs.type = 'file_link'");
            assert(SQL_LIST_TRASH_FILES@.subrange(114int, 114int + "deleted_at IS NOT NULL"@.len()) =~= "deleted_at IS NOT NULL"@);
        },
        DbRequest::PurgeTrashEntry { .. } => {
            reveal_strlit("DELETE FROM filesystem WHERE owner_id = $1 AND deleted_at IS NOT NULL AND path <@ (SELECT path FROM filesystem WHERE id = $2 AND owner_id = $1 AND deleted_at IS NOT NULL)");
            assert(SQL_PURGE_TRASH_ENTRY@.subrange(47int, 47int + "deleted_at IS NOT NULL"@.len()) =~= "deleted_at IS NOT NULL"@);
        },
        _ => {},
    }
}

} // verus!
