use backend::ops::models::auth::SessionType;
use backend::ops::models::filesystem::{FileEntry, FileRow, FileUrl, Folder, TrashEntry, TrashRow};
use backend::ops::protocol::Stage;
use backend::ops::run::OpRun;
use backend::ops::{Action, DbRequest, OpArgs, OpCtx, OpError, OpSuccess, Reply, Step};

const ALICE: u128 = 0x1111;
const GROUP: u128 = 0x2222;

fn user() -> Option<OpCtx> {
    Some(OpCtx::User { id: ALICE, username: "alice".to_string() })
}

fn group() -> Option<OpCtx> {
    Some(OpCtx::Group { id: GROUP, username: "team".to_string(), active_membership_id: 7 })
}

fn failed(message: &str) -> Reply {
    Reply::Failed { unique_violation: false, message: message.to_string() }
}

fn unique(message: &str) -> Reply {
    Reply::Failed { unique_violation: true, message: message.to_string() }
}

fn query(step: Step) -> DbRequest {
    match step {
        Step::Run(Action::Query(q)) => q,
        other => panic!("expected a query, got {:?}", other),
    }
}

fn finish(step: Step) -> Result<OpSuccess, OpError> {
    match step {
        Step::Finish(r) => r,
        other => panic!("expected an answer, got {:?}", other),
    }
}

fn all_ops() -> Vec<OpArgs> {
    vec![
        OpArgs::CreateFolder { name: "docs".to_string(), parent_id: None },
        OpArgs::ListFolder { parent_id: None },
        OpArgs::DeleteFolder { id: 1 },
        OpArgs::RenameFolder { id: 1, name: "x".to_string() },
        OpArgs::UploadFile { data: vec![1, 2], name: "a".to_string(), mime_type: "text/plain".to_string(), parent_id: None },
        OpArgs::ListFiles { parent_id: None },
        OpArgs::RenameFile { id: 1, name: "x".to_string() },
        OpArgs::DeleteFile { id: 1 },
        OpArgs::Reorder { ids: vec![1] },
        OpArgs::MoveEntry { id: 1, parent_id: None },
        OpArgs::ListTrash,
        OpArgs::RestoreEntry { id: 1 },
        OpArgs::DeleteTrashEntry { id: 1 },
        OpArgs::DeleteSession { id: 1 },
        OpArgs::ChangeUsername { new_username: "alice2".to_string() },
        OpArgs::ChangePassword { curr_password: "a".to_string(), new_password: "b".to_string() },
        OpArgs::GetTrashRetention,
        OpArgs::SetTrashRetention { days: 7 },
        OpArgs::CreateGroup { username: "team".to_string(), name: "Team".to_string() },
        OpArgs::CreateGroupSession { group_id: GROUP },
        OpArgs::ListGroups,
        OpArgs::AcceptGroupInvite { group_id: GROUP },
        OpArgs::DenyGroupInvite { group_id: GROUP },
    ]
}

#[test]
fn every_account_operation_needs_login() {
    for op in all_ops() {
        let (run, step) = OpRun::start(op, None, true);
        assert!(run.is_finished());
        assert_eq!(finish(step), Err(OpError::UserNotLoggedIn));
    }
}

#[test]
fn groups_are_refused_user_only_operations() {
    let user_only = vec![
        OpArgs::CreateGroup { username: "t".to_string(), name: "T".to_string() },
        OpArgs::ListGroups,
        OpArgs::CreateGroupSession { group_id: 1 },
        OpArgs::AcceptGroupInvite { group_id: 1 },
        OpArgs::DenyGroupInvite { group_id: 1 },
        OpArgs::ChangePassword { curr_password: "a".to_string(), new_password: "b".to_string() },
    ];
    for op in user_only {
        let (_, step) = OpRun::start(op, group(), true);
        assert_eq!(finish(step), Err(OpError::UserOnlyOp));
    }
    let (_, step) = OpRun::start(OpArgs::ListFolder { parent_id: None }, group(), true);
    assert_eq!(query(step), DbRequest::ListFolders { owner_id: GROUP, parent_id: None });
}

#[test]
fn create_folder_conflict_and_success() {
    let (mut run, step) = OpRun::start(OpArgs::CreateFolder { name: "docs".to_string(), parent_id: Some(9) }, user(), true);
    assert_eq!(query(step), DbRequest::InsertFolder { name: "docs".to_string(), owner_id: ALICE, parent_id: Some(9) });
    assert_eq!(finish(run.advance(Reply::RowsAffected(0))), Err(OpError::EntityConflict { reason: "A folder with that name already exists" }));
    let (mut run, _) = OpRun::start(OpArgs::CreateFolder { name: "docs".to_string(), parent_id: None }, user(), true);
    assert_eq!(finish(run.advance(Reply::RowsAffected(1))), Ok(OpSuccess::FolderCreated));
    let (mut run, _) = OpRun::start(OpArgs::CreateFolder { name: "docs".to_string(), parent_id: None }, user(), true);
    assert_eq!(finish(run.advance(failed("db down"))), Err(OpError::Generic("db down".to_string())));
}

#[test]
fn list_folders_passes_rows_through() {
    let (mut run, step) = OpRun::start(OpArgs::ListFolder { parent_id: Some(3) }, user(), true);
    assert_eq!(query(step), DbRequest::ListFolders { owner_id: ALICE, parent_id: Some(3) });
    let rows = vec![Folder { id: 4, name: "a".to_string() }, Folder { id: 5, name: "b".to_string() }];
    let expected = vec![Folder { id: 4, name: "a".to_string() }, Folder { id: 5, name: "b".to_string() }];
    assert_eq!(finish(run.advance(Reply::Folders(rows))), Ok(OpSuccess::Folders { folders: expected }));
}

#[test]
fn not_found_answers() {
    let cases = vec![
        (OpArgs::DeleteFolder { id: 1 }, "Folder not found", DbRequest::SoftDeleteFolder { id: 1, owner_id: ALICE }),
        (OpArgs::RenameFolder { id: 1, name: "n".to_string() }, "Folder not found", DbRequest::RenameFolder { name: "n".to_string(), id: 1, owner_id: ALICE }),
        (OpArgs::RenameFile { id: 2, name: "n".to_string() }, "File not found", DbRequest::RenameFile { name: "n".to_string(), id: 2, owner_id: ALICE }),
        (OpArgs::DeleteFile { id: 2 }, "File not found", DbRequest::SoftDeleteFile { id: 2, owner_id: ALICE }),
        (OpArgs::MoveEntry { id: 3, parent_id: Some(4) }, "Entry or target not found", DbRequest::MoveEntry { parent_id: Some(4), id: 3, owner_id: ALICE }),
        (OpArgs::RestoreEntry { id: 5 }, "Trash item not found", DbRequest::RestoreEntry { id: 5, owner_id: ALICE }),
        (OpArgs::DenyGroupInvite { group_id: GROUP }, "User does not have a pending invite for the requested group", DbRequest::DeleteInvite { user_id: ALICE, group_id: GROUP }),
    ];
    for (op, reason, request) in cases {
        let (mut run, step) = OpRun::start(op, user(), true);
        assert_eq!(query(step), request);
        assert_eq!(finish(run.advance(Reply::RowsAffected(0))), Err(OpError::EntityNotFound { reason }));
    }
}

#[test]
fn successes_after_rows_changed() {
    let cases = vec![
        (OpArgs::DeleteFolder { id: 1 }, OpSuccess::FolderDeleted),
        (OpArgs::RenameFolder { id: 1, name: "n".to_string() }, OpSuccess::FolderRenamed),
        (OpArgs::RenameFile { id: 2, name: "n".to_string() }, OpSuccess::FileRenamed),
        (OpArgs::DeleteFile { id: 2 }, OpSuccess::FileDeleted),
        (OpArgs::MoveEntry { id: 3, parent_id: None }, OpSuccess::EntryMoved),
        (OpArgs::RestoreEntry { id: 5 }, OpSuccess::EntryRestored),
        (OpArgs::DenyGroupInvite { group_id: GROUP }, OpSuccess::GroupInviteDenied),
        (OpArgs::DeleteSession { id: 8 }, OpSuccess::DeletedSession { id: 8, token_type: SessionType::Login }),
        (OpArgs::ChangeUsername { new_username: "bobby".to_string() }, OpSuccess::UsernameChanged),
        (OpArgs::SetTrashRetention { days: 30 }, OpSuccess::TrashRetentionSet),
    ];
    for (op, success) in cases {
        let (mut run, _) = OpRun::start(op, user(), true);
        assert_eq!(finish(run.advance(Reply::RowsAffected(1))), Ok(success));
    }
}

#[test]
fn unique_violations_become_conflicts_where_the_operation_names_them() {
    let cases = vec![
        (OpArgs::RenameFile { id: 2, name: "n".to_string() }, "A file with that name already exists"),
        (OpArgs::MoveEntry { id: 3, parent_id: None }, "An item with that name already exists in the target folder"),
        (OpArgs::RestoreEntry { id: 5 }, "A non-deleted item with that name already exists in the target folder. Rename it first."),
        (OpArgs::ChangeUsername { new_username: "bobby".to_string() }, "Username already exists"),
    ];
    for (op, reason) in cases {
        let (mut run, _) = OpRun::start(op, user(), true);
        assert_eq!(finish(run.advance(unique("duplicate key"))), Err(OpError::EntityConflict { reason }));
    }
    let (mut run, _) = OpRun::start(OpArgs::RenameFolder { id: 1, name: "n".to_string() }, user(), true);
    assert_eq!(finish(run.advance(unique("duplicate key"))), Err(OpError::Generic("duplicate key".to_string())));
}

#[test]
fn change_username_succeeds_without_rows() {
    let (mut run, step) = OpRun::start(OpArgs::ChangeUsername { new_username: "bobby".to_string() }, user(), true);
    assert_eq!(query(step), DbRequest::UpdateUsername { username: "bobby".to_string(), id: ALICE });
    assert_eq!(finish(run.advance(Reply::RowsAffected(0))), Ok(OpSuccess::UsernameChanged));
}

#[test]
fn delete_session_without_rows_is_unauthorized() {
    let (mut run, step) = OpRun::start(OpArgs::DeleteSession { id: 8 }, user(), true);
    assert_eq!(query(step), DbRequest::DeleteSession { user_id: ALICE, id: 8 });
    assert_eq!(finish(run.advance(Reply::RowsAffected(0))), Err(OpError::Unauthorized { reason: "No active session".to_string() }));
}

#[test]
fn trash_retention_accepts_only_listed_periods() {
    for days in [0, 7, 14, 30, 60, 90] {
        let (_, step) = OpRun::start(OpArgs::SetTrashRetention { days }, user(), true);
        assert_eq!(query(step), DbRequest::UpdateTrashRetention { days, id: ALICE });
    }
    for days in [-1, 1, 8, 31, 365, i32::MAX] {
        let (_, step) = OpRun::start(OpArgs::SetTrashRetention { days }, user(), true);
        assert_eq!(finish(step), Err(OpError::ValidationFailed { reason: "Invalid retention period".to_string() }));
    }
}

#[test]
fn get_trash_retention_reads_the_number() {
    let (mut run, step) = OpRun::start(OpArgs::GetTrashRetention, user(), true);
    assert_eq!(query(step), DbRequest::FindTrashRetention { id: ALICE });
    assert_eq!(finish(run.advance(Reply::Number(14))), Ok(OpSuccess::TrashRetention { days: 14 }));
}

#[test]
fn unexpected_reply_is_a_failure() {
    let (mut run, _) = OpRun::start(OpArgs::GetTrashRetention, user(), true);
    assert_eq!(
        finish(run.advance(Reply::RowsAffected(3))),
        Err(OpError::Generic("unexpected reply to the requested work".to_string()))
    );
    assert_eq!(
        finish(run.advance(Reply::Done)),
        Err(OpError::Generic("unexpected reply to the requested work".to_string()))
    );
}

#[test]
fn upload_stores_object_then_records_it_in_a_transaction() {
    let op = OpArgs::UploadFile {
        data: vec![1, 2, 3],
        name: "a.txt".to_string(),
        mime_type: "text/plain".to_string(),
        parent_id: Some(6),
    };
    let (mut run, step) = OpRun::start(op, user(), true);
    let key = match step {
        Step::Run(Action::PutObject { key, data, mime_type }) => {
            assert_eq!(data, vec![1, 2, 3]);
            assert_eq!(mime_type, "text/plain");
            key
        },
        other => panic!("{:?}", other),
    };
    assert_eq!(key.len(), 36);
    assert!(key.chars().all(|c| c.is_ascii_hexdigit() && !c.is_ascii_uppercase() || c == '-'));
    assert_eq!(run.advance(Reply::Done), Step::Run(Action::BeginTx));
    assert_eq!(
        query(run.advance(Reply::Done)),
        DbRequest::InsertFile { owner_id: ALICE, s3_key: key.clone(), size_bytes: 3, mime_type: "text/plain".to_string() }
    );
    assert_eq!(
        query(run.advance(Reply::Found(Some(77)))),
        DbRequest::InsertFileLink { name: "a.txt".to_string(), owner_id: ALICE, parent_id: Some(6), file_id: 77 }
    );
    assert_eq!(run.advance(Reply::RowsAffected(1)), Step::Run(Action::CommitTx));
    assert_eq!(finish(run.advance(Reply::Done)), Ok(OpSuccess::FileUploaded));
}

#[test]
fn upload_keys_differ_between_runs() {
    let mk = || OpArgs::UploadFile { data: vec![], name: "a".to_string(), mime_type: "x/y".to_string(), parent_id: None };
    let key = |step: Step| match step {
        Step::Run(Action::PutObject { key, .. }) => key,
        other => panic!("{:?}", other),
    };
    let (_, a) = OpRun::start(mk(), user(), true);
    let (_, b) = OpRun::start(mk(), user(), true);
    assert_ne!(key(a), key(b));
}

#[test]
fn upload_failures() {
    let op = || OpArgs::UploadFile { data: vec![1], name: "a".to_string(), mime_type: "x/y".to_string(), parent_id: None };
    let (mut run, _) = OpRun::start(op(), user(), true);
    assert_eq!(finish(run.advance(failed("timeout"))), Err(OpError::Generic("S3 upload error: timeout".to_string())));
    let (mut run, _) = OpRun::start(op(), user(), true);
    run.advance(Reply::Done);
    run.advance(Reply::Done);
    run.advance(Reply::Found(Some(1)));
    assert_eq!(
        finish(run.advance(Reply::RowsAffected(0))),
        Err(OpError::EntityConflict { reason: "A file with that name already exists" })
    );
}

fn file_row(id: u128, key: &str) -> FileRow {
    FileRow { id, name: format!("f{id}"), size_bytes: 10 * id as i64, mime_type: "image/png".to_string(), s3_fileid: key.to_string() }
}

#[test]
fn list_files_presigns_each_key_in_order() {
    let (mut run, step) = OpRun::start(OpArgs::ListFiles { parent_id: None }, user(), true);
    assert_eq!(query(step), DbRequest::ListFiles { owner_id: ALICE, parent_id: None });
    let step = run.advance(Reply::Files(vec![file_row(1, "k1"), file_row(2, "k2")]));
    assert_eq!(step, Step::Run(Action::PresignUrls { keys: vec![Some("k1".to_string()), Some("k2".to_string())] }));
    let r = finish(run.advance(Reply::Urls(vec![Some("u1".to_string()), Some("u2".to_string())])));
    let expected = vec![
        FileEntry { id: 1, name: "f1".to_string(), mime_type: "image/png".to_string(), size_bytes: 10, url: FileUrl { url: "u1".to_string() } },
        FileEntry { id: 2, name: "f2".to_string(), mime_type: "image/png".to_string(), size_bytes: 20, url: FileUrl { url: "u2".to_string() } },
    ];
    assert_eq!(r, Ok(OpSuccess::Files { files: expected }));
}

#[test]
fn list_files_edge_cases() {
    let (mut run, _) = OpRun::start(OpArgs::ListFiles { parent_id: None }, user(), true);
    assert_eq!(finish(run.advance(Reply::Files(vec![]))), Ok(OpSuccess::Files { files: vec![] }));
    let (mut run, _) = OpRun::start(OpArgs::ListFiles { parent_id: None }, user(), true);
    run.advance(Reply::Files(vec![file_row(1, "k1")]));
    assert_eq!(finish(run.advance(failed("presign failed"))), Err(OpError::Generic("presign failed".to_string())));
    let (mut run, _) = OpRun::start(OpArgs::ListFiles { parent_id: None }, user(), true);
    run.advance(Reply::Files(vec![file_row(1, "k1")]));
    assert_eq!(
        finish(run.advance(Reply::Urls(vec![]))),
        Err(OpError::Generic("unexpected reply to the requested work".to_string()))
    );
}

#[test]
fn list_trash_presigns_files_only() {
    let (mut run, step) = OpRun::start(OpArgs::ListTrash, user(), true);
    assert_eq!(query(step), DbRequest::ListTrash { owner_id: ALICE });
    let rows = vec![
        TrashRow { id: 1, name: "dir".to_string(), kind: "folder".to_string(), mime_type: None, deleted_at: 100, s3_fileid: None },
        TrashRow { id: 2, name: "f".to_string(), kind: "file_link".to_string(), mime_type: Some("a/b".to_string()), deleted_at: 50, s3_fileid: Some("k2".to_string()) },
    ];
    let step = run.advance(Reply::Trash(rows));
    assert_eq!(step, Step::Run(Action::PresignUrls { keys: vec![None, Some("k2".to_string())] }));
    let r = finish(run.advance(Reply::Urls(vec![None, Some("u2".to_string())])));
    let expected = vec![
        TrashEntry { id: 1, name: "dir".to_string(), kind: "folder".to_string(), mime_type: None, deleted_at: 100, url: None },
        TrashEntry { id: 2, name: "f".to_string(), kind: "file_link".to_string(), mime_type: Some("a/b".to_string()), deleted_at: 50, url: Some(FileUrl { url: "u2".to_string() }) },
    ];
    assert_eq!(r, Ok(OpSuccess::TrashItems { items: expected }));
}

#[test]
fn reorder_numbers_positions_from_one_in_one_transaction() {
    let (mut run, step) = OpRun::start(OpArgs::Reorder { ids: vec![30, 10, 20] }, user(), true);
    assert_eq!(step, Step::Run(Action::BeginTx));
    assert_eq!(query(run.advance(Reply::Done)), DbRequest::SetSortOrder { sort_order: 1, id: 30, owner_id: ALICE });
    assert_eq!(query(run.advance(Reply::RowsAffected(1))), DbRequest::SetSortOrder { sort_order: 2, id: 10, owner_id: ALICE });
    assert_eq!(query(run.advance(Reply::RowsAffected(0))), DbRequest::SetSortOrder { sort_order: 3, id: 20, owner_id: ALICE });
    assert_eq!(run.advance(Reply::RowsAffected(1)), Step::Run(Action::CommitTx));
    assert_eq!(finish(run.advance(Reply::Done)), Ok(OpSuccess::Reordered));
}

#[test]
fn reorder_empty_and_failing() {
    let (mut run, _) = OpRun::start(OpArgs::Reorder { ids: vec![] }, user(), true);
    assert_eq!(run.advance(Reply::Done), Step::Run(Action::CommitTx));
    assert_eq!(finish(run.advance(Reply::Done)), Ok(OpSuccess::Reordered));
    let (mut run, _) = OpRun::start(OpArgs::Reorder { ids: vec![1, 2] }, user(), true);
    run.advance(Reply::Done);
    assert_eq!(finish(run.advance(failed("deadlock"))), Err(OpError::Generic("deadlock".to_string())));
}

#[test]
fn delete_trash_entry_purges_rows_then_objects() {
    let (mut run, step) = OpRun::start(OpArgs::DeleteTrashEntry { id: 5 }, user(), true);
    assert_eq!(step, Step::Run(Action::BeginTx));
    assert_eq!(query(run.advance(Reply::Done)), DbRequest::ListTrashFiles { owner_id: ALICE, id: 5 });
    let files = vec![(11, "ka".to_string()), (12, "kb".to_string())];
    assert_eq!(query(run.advance(Reply::TrashFiles(files))), DbRequest::PurgeTrashEntry { owner_id: ALICE, id: 5 });
    assert_eq!(query(run.advance(Reply::RowsAffected(3))), DbRequest::DeleteFileRecords { owner_id: ALICE, file_ids: vec![11, 12] });
    assert_eq!(run.advance(Reply::RowsAffected(2)), Step::Run(Action::CommitTx));
    assert_eq!(run.advance(Reply::Done), Step::Run(Action::DeleteObjects { keys: vec!["ka".to_string(), "kb".to_string()] }));
    assert_eq!(finish(run.advance(failed("s3 down"))), Ok(OpSuccess::TrashEntryDeleted));
}

#[test]
fn delete_trash_entry_of_a_folder_without_files() {
    let (mut run, _) = OpRun::start(OpArgs::DeleteTrashEntry { id: 5 }, user(), true);
    run.advance(Reply::Done);
    run.advance(Reply::TrashFiles(vec![]));
    assert_eq!(run.advance(Reply::RowsAffected(1)), Step::Run(Action::CommitTx));
    assert_eq!(finish(run.advance(Reply::Done)), Ok(OpSuccess::TrashEntryDeleted));
}

#[test]
fn delete_trash_entry_limits_and_missing_entries() {
    let (mut run, _) = OpRun::start(OpArgs::DeleteTrashEntry { id: 5 }, user(), true);
    run.advance(Reply::Done);
    let many: Vec<(u128, String)> = (0..1001).map(|i| (i as u128, format!("k{i}"))).collect();
    assert_eq!(finish(run.advance(Reply::TrashFiles(many))), Err(OpError::TooManyItems));
    let (mut run, _) = OpRun::start(OpArgs::DeleteTrashEntry { id: 5 }, user(), true);
    run.advance(Reply::Done);
    let exactly: Vec<(u128, String)> = (0..1000).map(|i| (i as u128, format!("k{i}"))).collect();
    assert_eq!(query(run.advance(Reply::TrashFiles(exactly))), DbRequest::PurgeTrashEntry { owner_id: ALICE, id: 5 });
    assert_eq!(finish(run.advance(Reply::RowsAffected(0))), Err(OpError::EntityNotFound { reason: "Trash item not found" }));
}

fn session_token(step: &Step) -> String {
    match step {
        Step::Run(Action::Query(DbRequest::InsertSession { token, lifetime_secs, .. })) => {
            assert_eq!(*lifetime_secs, 86400);
            token.clone()
        },
        other => panic!("{:?}", other),
    }
}

fn assert_token_shape(token: &str) {
    assert_eq!(token.len(), 256);
    assert!(token.chars().all(|c| c.is_ascii_alphanumeric()));
}

#[test]
fn registration_can_be_disabled() {
    let op = OpArgs::CreateUser { username: "bob".to_string(), password: "pw".to_string(), name: "Bob".to_string() };
    let (run, step) = OpRun::start(op, None, false);
    assert!(run.is_finished());
    assert_eq!(finish(step), Err(OpError::EntityConflict { reason: "Registration is disabled" }));
}

/// Runs a sign-up for `bob` and returns the stored password hash.
fn sign_up_hash(password: &str) -> String {
    let op = OpArgs::CreateUser { username: "bob".to_string(), password: password.to_string(), name: "Bob".to_string() };
    let (mut run, step) = OpRun::start(op, None, true);
    assert_eq!(step, Step::Run(Action::BeginTx));
    match query(run.advance(Reply::Done)) {
        DbRequest::InsertUser { username, name, password_hash } => {
            assert_eq!(username, "bob");
            assert_eq!(name, "Bob");
            password_hash
        },
        other => panic!("{:?}", other),
    }
}

#[test]
fn sign_up_creates_a_login_session() {
    let op = OpArgs::CreateUser { username: "bob".to_string(), password: "hunter22".to_string(), name: "Bob".to_string() };
    let (mut run, _) = OpRun::start(op, None, true);
    run.advance(Reply::Done);
    let step = run.advance(Reply::Found(Some(42)));
    let token = session_token(&step);
    assert_token_shape(&token);
    assert!(matches!(step, Step::Run(Action::Query(DbRequest::InsertSession { user_id: 42, membership_id: None, .. }))));
    assert_eq!(run.advance(Reply::Done), Step::Run(Action::CommitTx));
    assert_eq!(
        finish(run.advance(Reply::Done)),
        Ok(OpSuccess::CreatedSession { username: "bob".to_string(), token, token_type: SessionType::Login })
    );
}

#[test]
fn sign_up_with_a_taken_name() {
    let op = OpArgs::CreateUser { username: "bob".to_string(), password: "pw".to_string(), name: "Bob".to_string() };
    let (mut run, _) = OpRun::start(op, None, true);
    run.advance(Reply::Done);
    assert_eq!(finish(run.advance(Reply::Found(None))), Err(OpError::EntityConflict { reason: "Username already exists" }));
}

#[test]
fn sign_up_hash_is_salted_argon2() {
    let a = sign_up_hash("hunter22");
    let b = sign_up_hash("hunter22");
    assert!(a.starts_with("$argon2"));
    assert!(!a.contains("hunter22"));
    assert_ne!(a, b);
}

fn login(password: &str, stored_hash: &str) -> (OpRun, Step) {
    let op = OpArgs::CreateLoginSession { username: "bob".to_string(), password: password.to_string() };
    let (mut run, step) = OpRun::start(op, None, true);
    assert_eq!(step, Step::Run(Action::BeginTx));
    assert_eq!(query(run.advance(Reply::Done)), DbRequest::FindCredentials { username: "bob".to_string() });
    let step = run.advance(Reply::Credentials(42, stored_hash.to_string()));
    (run, step)
}

#[test]
fn login_with_the_right_password() {
    let hash = sign_up_hash("correct horse");
    let (mut run, step) = login("correct horse", &hash);
    let token = session_token(&step);
    assert_token_shape(&token);
    assert!(matches!(step, Step::Run(Action::Query(DbRequest::InsertSession { user_id: 42, membership_id: None, .. }))));
    run.advance(Reply::Done);
    assert_eq!(
        finish(run.advance(Reply::Done)),
        Ok(OpSuccess::CreatedSession { username: "bob".to_string(), token, token_type: SessionType::Login })
    );
}

#[test]
fn login_refusals() {
    let hash = sign_up_hash("correct horse");
    let (_, step) = login("wrong horse", &hash);
    assert_eq!(finish(step), Err(OpError::Unauthorized { reason: "Invalid username or password".to_string() }));
    let op = OpArgs::CreateLoginSession { username: "nobody".to_string(), password: "x".to_string() };
    let (mut run, _) = OpRun::start(op, None, true);
    run.advance(Reply::Done);
    assert_eq!(
        finish(run.advance(failed("no rows returned"))),
        Err(OpError::Unauthorized { reason: "Invalid username or password".to_string() })
    );
}

#[test]
fn login_with_a_malformed_stored_hash() {
    let (_, step) = login("pw", "not a phc string");
    match finish(step) {
        Err(OpError::Generic(m)) => {
            assert!(m.starts_with("Failed to parse password hash: "));
            assert!(m.len() > "Failed to parse password hash: ".len());
        },
        other => panic!("{:?}", other),
    }
}

#[test]
fn session_store_failure() {
    let hash = sign_up_hash("pw");
    let (mut run, _) = login("pw", &hash);
    assert_eq!(finish(run.advance(failed("fk"))), Err(OpError::Generic("Failed to create session: fk".to_string())));
}

#[test]
fn change_password_checks_the_current_one() {
    let old_hash = sign_up_hash("old password");
    let op = OpArgs::ChangePassword { curr_password: "old password".to_string(), new_password: "new password".to_string() };
    let (mut run, step) = OpRun::start(op, user(), true);
    assert_eq!(query(step), DbRequest::FindPasswordHash { id: ALICE });
    let new_hash = match query(run.advance(Reply::Text(old_hash.clone()))) {
        DbRequest::UpdatePassword { password_hash, id } => {
            assert_eq!(id, ALICE);
            password_hash
        },
        other => panic!("{:?}", other),
    };
    assert_ne!(new_hash, old_hash);
    assert_eq!(finish(run.advance(Reply::RowsAffected(1))), Ok(OpSuccess::PasswordChanged));
    // the new hash verifies the new password and not the old one
    let (_, step) = login("new password", &new_hash);
    assert!(matches!(step, Step::Run(Action::Query(DbRequest::InsertSession { .. }))));
    let (_, step) = login("old password", &new_hash);
    assert_eq!(finish(step), Err(OpError::Unauthorized { reason: "Invalid username or password".to_string() }));
}

#[test]
fn change_password_with_a_wrong_current_one() {
    let old_hash = sign_up_hash("old password");
    let op = OpArgs::ChangePassword { curr_password: "guess".to_string(), new_password: "new".to_string() };
    let (mut run, _) = OpRun::start(op, user(), true);
    assert_eq!(finish(run.advance(Reply::Text(old_hash))), Err(OpError::Unauthorized { reason: "Incorrect password".to_string() }));
}

#[test]
fn create_group_makes_the_creator_owner() {
    let op = OpArgs::CreateGroup { username: "team".to_string(), name: "Team".to_string() };
    let (mut run, step) = OpRun::start(op, user(), true);
    assert_eq!(step, Step::Run(Action::BeginTx));
    assert_eq!(query(run.advance(Reply::Done)), DbRequest::InsertGroup { username: "team".to_string(), name: "Team".to_string() });
    assert_eq!(query(run.advance(Reply::Found(Some(GROUP)))), DbRequest::InsertOwnerMembership { group_id: GROUP, user_id: ALICE });
    let step = run.advance(Reply::Found(Some(99)));
    let token = session_token(&step);
    assert!(matches!(step, Step::Run(Action::Query(DbRequest::InsertSession { user_id: GROUP, membership_id: Some(99), .. }))));
    run.advance(Reply::Done);
    assert_eq!(
        finish(run.advance(Reply::Done)),
        Ok(OpSuccess::CreatedSession { username: "team".to_string(), token, token_type: SessionType::GroupSession })
    );
    let (mut run, _) = OpRun::start(OpArgs::CreateGroup { username: "team".to_string(), name: "T".to_string() }, user(), true);
    run.advance(Reply::Done);
    assert_eq!(finish(run.advance(Reply::Found(None))), Err(OpError::EntityConflict { reason: "Username already exists" }));
}

#[test]
fn group_sessions_need_a_membership() {
    let (mut run, _) = OpRun::start(OpArgs::CreateGroupSession { group_id: GROUP }, user(), true);
    assert_eq!(query(run.advance(Reply::Done)), DbRequest::FindAcceptedMembership { user_id: ALICE, group_id: GROUP });
    assert_eq!(
        finish(run.advance(Reply::Found(None))),
        Err(OpError::EntityNotFound { reason: "User is not a member of the group they want to start a session for" })
    );
    let (mut run, _) = OpRun::start(OpArgs::AcceptGroupInvite { group_id: GROUP }, user(), true);
    assert_eq!(query(run.advance(Reply::Done)), DbRequest::AcceptInvite { user_id: ALICE, group_id: GROUP });
    assert_eq!(
        finish(run.advance(Reply::Found(None))),
        Err(OpError::EntityNotFound { reason: "User does not have a pending invite for the requested group" })
    );
    let (mut run, _) = OpRun::start(OpArgs::AcceptGroupInvite { group_id: GROUP }, user(), true);
    run.advance(Reply::Done);
    let step = run.advance(Reply::Found(Some(5)));
    let token = session_token(&step);
    assert!(matches!(step, Step::Run(Action::Query(DbRequest::InsertSession { user_id: GROUP, membership_id: Some(5), .. }))));
    run.advance(Reply::Done);
    assert_eq!(
        finish(run.advance(Reply::Done)),
        Ok(OpSuccess::CreatedSession { username: "alice".to_string(), token, token_type: SessionType::GroupSession })
    );
}

#[test]
fn list_groups_passes_memberships_through() {
    let (mut run, step) = OpRun::start(OpArgs::ListGroups, user(), true);
    assert_eq!(query(step), DbRequest::ListMemberships { user_id: ALICE });
    assert_eq!(finish(run.advance(Reply::Members(vec![]))), Ok(OpSuccess::GroupMembers { group_members: vec![] }));
}

#[test]
fn a_finished_run_answers_nothing_more() {
    let (mut run, _) = OpRun::start(OpArgs::ListTrash, None, true);
    assert!(run.is_finished());
    assert_eq!(run.stage, Stage::Finished);
    assert_eq!(
        finish(run.advance(Reply::Done)),
        Err(OpError::Generic("unexpected reply to the requested work".to_string()))
    );
}
