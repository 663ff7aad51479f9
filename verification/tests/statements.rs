use backend::ops::DbRequest;

fn live() -> Vec<DbRequest> {
    vec![
        DbRequest::InsertFolder { name: "a".to_string(), owner_id: 1, parent_id: None },
        DbRequest::ListFolders { owner_id: 1, parent_id: None },
        DbRequest::SoftDeleteFolder { id: 2, owner_id: 1 },
        DbRequest::RenameFolder { name: "a".to_string(), id: 2, owner_id: 1 },
        DbRequest::InsertFileLink { name: "a".to_string(), owner_id: 1, parent_id: None, file_id: 3 },
        DbRequest::ListFiles { owner_id: 1, parent_id: None },
        DbRequest::RenameFile { name: "a".to_string(), id: 2, owner_id: 1 },
        DbRequest::SoftDeleteFile { id: 2, owner_id: 1 },
        DbRequest::SetSortOrder { sort_order: 1, id: 2, owner_id: 1 },
        DbRequest::MoveEntry { parent_id: None, id: 2, owner_id: 1 },
    ]
}

fn deleted() -> Vec<DbRequest> {
    vec![
        DbRequest::ListTrash { owner_id: 1 },
        DbRequest::RestoreEntry { id: 2, owner_id: 1 },
        DbRequest::ListTrashFiles { owner_id: 1, id: 2 },
        DbRequest::PurgeTrashEntry { owner_id: 1, id: 2 },
    ]
}

#[test]
fn live_statements_skip_deleted_entries() {
    for r in live() {
        assert!(r.sql().contains("deleted_at IS NULL"), "{:?}", r);
        assert!(r.sql().contains("filesystem"));
    }
}

#[test]
fn trash_statements_select_deleted_entries() {
    for r in deleted() {
        assert!(r.sql().contains("deleted_at IS NOT NULL"), "{:?}", r);
        assert!(!r.sql().contains("deleted_at IS NULL"), "{:?}", r);
    }
}

#[test]
fn placeholders_match_the_bound_values() {
    let r = DbRequest::InsertSession { user_id: 1, token: "t".to_string(), lifetime_secs: 86400, membership_id: None };
    assert!(r.sql().contains("$4") && !r.sql().contains("$5"));
    let r = DbRequest::DeleteFileRecords { owner_id: 1, file_ids: vec![] };
    assert_eq!(r.sql(), "DELETE FROM files WHERE owner_id = $1 AND id = ANY($2)");
}
