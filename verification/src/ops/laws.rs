//! Properties that hold of every run of the operation protocol.
use vstd::prelude::*;
use crate::crypto::{argon2_accepts, is_session_token, phc_parse_error};
use crate::ops::models::auth::{GroupMember, SessionType};
use crate::ops::protocol::{
    fs_owner, holds_tx, stage_rank, needs_login, opens, opens_tx, stage_owner, stage_wf, steps, user_only,
    valid_retention_days, Stage, MAX_PURGED_OBJECTS,
};
use crate::ops::{Action, DbRequest, OpArgs, OpCtx, OpError, OpSuccess, Reply, Step};

verus! {

/// Without an account, every operation but sign-up and sign-in is refused at once,
/// before any outside work.
pub proof fn lemma_login_required(op: OpArgs, allow_register: bool, st: Stage, step: Step)
    requires
        needs_login(op),
        opens(op, None, allow_register, st, step),
    ensures
        st is Finished,
        step == Step::Finish(Err::<OpSuccess, OpError>(OpError::UserNotLoggedIn)),
{
}

/// A group account is refused the operations reserved to personal accounts, before any outside work.
pub proof fn lemma_user_only(op: OpArgs, ctx: OpCtx, allow_register: bool, st: Stage, step: Step)
    requires
        user_only(op),
        ctx is Group,
        opens(op, Some(ctx), allow_register, st, step),
    ensures
        st is Finished,
        step == Step::Finish(Err::<OpSuccess, OpError>(OpError::UserOnlyOp)),
{
}

/// A trash retention period is stored exactly when it is one of 0, 7, 14, 30, 60 or 90 days;
/// any other value is refused as invalid.
pub proof fn lemma_retention_days(days: i32, ctx: OpCtx, allow_register: bool, st: Stage, step: Step)
    requires
        opens(OpArgs::SetTrashRetention { days }, Some(ctx), allow_register, st, step),
    ensures
        step is Run <==> valid_retention_days(days),
        !valid_retention_days(days) ==> (step matches Step::Finish(Err(OpError::ValidationFailed { .. }))),
{
}

/// While registration is disabled, signing up is refused before anything is hashed or stored.
pub proof fn lemma_registration_disabled(
    username: String,
    password: String,
    name: String,
    ctx: Option<OpCtx>,
    st: Stage,
    step: Step,
)
    requires
        opens(OpArgs::CreateUser { username, password, name }, ctx, false, st, step),
    ensures
        st is Finished,
        step == Step::Finish(
            Err::<OpSuccess, OpError>(OpError::EntityConflict { reason: "Registration is disabled" }),
        ),
{
}

/// A run starts outside any transaction, and asks to open one exactly when its
/// next stage waits for that.
pub proof fn lemma_start_outside_tx(op: OpArgs, ctx: Option<OpCtx>, allow_register: bool, st: Stage, step: Step)
    requires
        opens(op, ctx, allow_register, st, step),
    ensures
        !holds_tx(st),
        opens_tx(st) <==> step == Step::Run(Action::BeginTx),
{
}

/// A run only comes to hold a transaction once an asked-for `BeginTx` went through.
pub proof fn lemma_tx_opened_by_begin(s: Stage, r: Reply, ns: Stage, step: Step)
    requires
        steps(s, r, ns, step),
        holds_tx(ns),
        !holds_tx(s),
    ensures
        opens_tx(s),
        r is Done,
{
}

/// A run never answers success while it holds an uncommitted transaction: an
/// operation that opened one succeeds only once its commit went through.
pub proof fn lemma_ok_only_after_commit(s: Stage, r: Reply, ns: Stage, step: Step)
    requires
        steps(s, r, ns, step),
        step matches Step::Finish(Ok(_)),
    ensures
        holds_tx(s) ==> (s is AwaitCommit || s is PurgeCommit) && r is Done,
        !holds_tx(ns),
{
}

/// Every filesystem statement that a run starts with touches only the caller's own rows,
/// and the stage it waits in acts for the caller.
pub proof fn lemma_fs_scoped_start(op: OpArgs, ctx: OpCtx, allow_register: bool, st: Stage, a: Action)
    requires
        opens(op, Some(ctx), allow_register, st, Step::Run(a)),
    ensures
        fs_owner(a) is Some ==> fs_owner(a) == Some(ctx.spec_account_id()),
        stage_owner(st) is Some ==> stage_owner(st) == Some(ctx.spec_account_id()),
{
}

/// Every later filesystem statement touches only the rows of the account the run acts
/// for, and that account never changes during the run.
pub proof fn lemma_fs_scoped_step(s: Stage, r: Reply, ns: Stage, a: Action)
    requires
        stage_wf(s),
        steps(s, r, ns, Step::Run(a)),
    ensures
        fs_owner(a) is Some ==> fs_owner(a) == stage_owner(s),
        stage_owner(ns) is Some ==> stage_owner(ns) == stage_owner(s),
{
}

/// A session token is stored only while the run waits in `SessionStore` holding the same
/// token, and the token is 256 letters and digits.
pub proof fn lemma_session_stored(
    s: Stage,
    r: Reply,
    ns: Stage,
    user_id: u128,
    token: String,
    membership_id: Option<u128>,
    lifetime_secs: u64,
)
    requires
        stage_wf(s),
        steps(
            s,
            r,
            ns,
            Step::Run(Action::Query(DbRequest::InsertSession { user_id, token, membership_id, lifetime_secs })),
        ),
    ensures
        ns matches Stage::SessionStore { token: held, .. } && held@ == token@,
        is_session_token(token@),
{
}

/// The session that a run answers with is the one it stored: same user name, token and kind.
pub proof fn lemma_session_returned(
    username: String,
    token: String,
    token_type: SessionType,
    r1: Reply,
    ns1: Stage,
    step1: Step,
    r2: Reply,
    ns2: Stage,
    u: String,
    t: String,
    tt: SessionType,
)
    requires
        steps(Stage::SessionStore { username, token, token_type }, r1, ns1, step1),
        steps(ns1, r2, ns2, Step::Finish(Ok(OpSuccess::CreatedSession { username: u, token: t, token_type: tt }))),
    ensures
        step1 == Step::Run(Action::CommitTx),
        u == username && t == token && tt == token_type,
{
}

/// A session is opened on sign-in only for a stored hash against which the given password verifies.
pub proof fn lemma_login_checks_password(username: String, password: String, r: Reply, ns: Stage, a: Action)
    requires
        steps(Stage::LoginLookup { username, password }, r, ns, Step::Run(a)),
    ensures
        ({
            &&& r matches Reply::Credentials(user_id, hash)
            &&& phc_parse_error(hash@) is None && argon2_accepts(password@, hash@)
            &&& a matches Action::Query(DbRequest::InsertSession { user_id: u, membership_id: None, .. })
            &&& u == user_id
        }),
{
}

/// A password is replaced only after the current one verifies, and the stored hash
/// verifies the new password.
pub proof fn lemma_password_change(
    owner_id: u128,
    current: String,
    new_password: String,
    r: Reply,
    ns: Stage,
    a: Action,
)
    requires
        steps(Stage::PasswordLookup { owner_id, current, new_password }, r, ns, Step::Run(a)),
    ensures
        r matches Reply::Text(hash) && phc_parse_error(hash@) is None && argon2_accepts(current@, hash@),
        a matches Action::Query(DbRequest::UpdatePassword { password_hash, id }) && id == owner_id
            && argon2_accepts(new_password@, password_hash@),
{
}

/// The hash stored for a new account verifies its password.
pub proof fn lemma_signup_hash(
    username: String,
    password: String,
    name: String,
    ctx: Option<OpCtx>,
    st: Stage,
    step: Step,
    r: Reply,
    ns: Stage,
    a: Action,
)
    requires
        opens(OpArgs::CreateUser { username, password, name }, ctx, true, st, step),
        steps(st, r, ns, Step::Run(a)),
    ensures
        a matches Action::Query(DbRequest::InsertUser { username: u, name: n, password_hash })
            && u@ == username@ && n == name && argon2_accepts(password@, password_hash@),
{
}

/// An uploaded object is recorded under the same key it was stored with.
pub proof fn lemma_upload_key(
    data: Vec<u8>,
    name: String,
    mime_type: String,
    parent_id: Option<u128>,
    ctx: OpCtx,
    allow_register: bool,
    st: Stage,
    step: Step,
    ns1: Stage,
    step1: Step,
    ns2: Stage,
    a: Action,
)
    requires
        opens(OpArgs::UploadFile { data, name, mime_type, parent_id }, Some(ctx), allow_register, st, step),
        steps(st, Reply::Done, ns1, step1),
        steps(ns1, Reply::Done, ns2, Step::Run(a)),
    ensures
        ({
            &&& step matches Step::Run(Action::PutObject { key, .. })
            &&& a matches Action::Query(DbRequest::InsertFile { s3_key, size_bytes, .. })
            &&& s3_key@ == key@ && size_bytes == data@.len() as i64
        }),
{
}

/// Positions are given in list order: the update for the `k`-th id (from 1) sets position `k`.
pub proof fn lemma_reorder_positions(s: Stage, r: Reply, ns: Stage, sort_order: i32, id: u128, owner_id: u128)
    requires
        stage_wf(s),
        steps(s, r, ns, Step::Run(Action::Query(DbRequest::SetSortOrder { sort_order, id, owner_id }))),
    ensures
        ns matches Stage::ReorderStep { ids, next, .. } && 1 <= next <= ids@.len() && id == ids@[next - 1]
            && sort_order == next as i32,
{
    match s {
        Stage::ReorderBegin { .. } => {
            assert(1usize as i32 == 1i32) by (bit_vector);
        },
        Stage::ReorderStep { ids, next, .. } => {
            assert(next < ids@.len());
            assert(ids@.len() == ids.len());
            let n1 = (next + 1) as usize;
            assert(n1 as int == next + 1);
        },
        _ => {},
    }
}

/// A purge that would remove more than 1000 stored objects is refused before anything is deleted.
pub proof fn lemma_purge_limit(owner_id: u128, id: u128, rows: Vec<(u128, String)>, ns: Stage, step: Step)
    requires
        steps(Stage::PurgeListing { owner_id, id }, Reply::TrashFiles(rows), ns, step),
        rows@.len() > MAX_PURGED_OBJECTS,
    ensures
        step == Step::Finish(Err::<OpSuccess, OpError>(OpError::TooManyItems)),
{
}

/// Stored objects are deleted only after the purge has been committed, and the purge
/// succeeds whatever the object store answers.
pub proof fn lemma_objects_deleted_after_commit(s: Stage, r: Reply, ns: Stage, keys: Vec<String>, r2: Reply, ns2: Stage, step2: Step)
    requires
        steps(s, r, ns, Step::Run(Action::DeleteObjects { keys })),
        steps(ns, r2, ns2, step2),
    ensures
        s is PurgeCommit && r is Done,
        step2 == Step::Finish(Ok::<OpSuccess, OpError>(OpSuccess::TrashEntryDeleted)),
{
}

/// Every run answers after finitely many replies: each step either answers, leaving the
/// run finished, or moves to a stage that needs fewer replies.
pub proof fn lemma_runs_finish(s: Stage, r: Reply, ns: Stage, step: Step)
    requires
        stage_wf(s),
        steps(s, r, ns, step),
    ensures
        step is Finish <==> ns is Finished,
        step is Run ==> stage_rank(ns) < stage_rank(s),
{
    if let Stage::ReorderStep { ids, next, .. } = s {
        assert(ids@.len() == ids.len());
        if next < ids@.len() {
            let n1 = (next + 1) as usize;
            assert(n1 as int == next + 1);
        }
    }
}

/// A statement that changed at least one row always succeeds: the not-found (or
/// conflict) answer of an operation that waits on a changed-row count comes only when
/// the statement changed no row.
pub proof fn lemma_rows_changed_succeed(
    if_none: Option<OpError>,
    if_unique: Option<&'static str>,
    success: OpSuccess,
    n: u64,
    ns: Stage,
    step: Step,
)
    requires
        steps(Stage::AwaitExec { if_none, if_unique, success }, Reply::RowsAffected(n), ns, step),
    ensures
        n > 0 ==> step == Step::Finish(Ok::<OpSuccess, OpError>(success)),
        n == 0 && if_none is Some ==> step == Step::Finish(Err::<OpSuccess, OpError>(if_none->0)),
        ns is Finished,
{
}

/// Moving a folder to the trash marks the caller's folder and everything in it; the
/// answer is `FolderDeleted` whenever any row was marked, however many, and
/// "Folder not found" only when none was.
pub proof fn lemma_delete_folder_answer(
    id: u128,
    ctx: OpCtx,
    allow_register: bool,
    st: Stage,
    a: Action,
    n: u64,
    ns: Stage,
    step: Step,
)
    requires
        opens(OpArgs::DeleteFolder { id }, Some(ctx), allow_register, st, Step::Run(a)),
        steps(st, Reply::RowsAffected(n), ns, step),
    ensures
        a == Action::Query(DbRequest::SoftDeleteFolder { id, owner_id: ctx.spec_account_id() }),
        n > 0 ==> step == Step::Finish(Ok::<OpSuccess, OpError>(OpSuccess::FolderDeleted)),
        n == 0 ==> step == Step::Finish(
            Err::<OpSuccess, OpError>(OpError::EntityNotFound { reason: "Folder not found" }),
        ),
{
}

/// Listing one's groups asks for the caller's memberships and answers exactly the rows
/// the database returned, of every state (pending invites included), in the same order.
pub proof fn lemma_list_groups_all_rows(
    ctx: OpCtx,
    allow_register: bool,
    st: Stage,
    a: Action,
    rows: Vec<GroupMember>,
    ns: Stage,
    step: Step,
)
    requires
        opens(OpArgs::ListGroups, Some(ctx), allow_register, st, Step::Run(a)),
        steps(st, Reply::Members(rows), ns, step),
    ensures
        a == Action::Query(DbRequest::ListMemberships { user_id: ctx.spec_account_id() }),
        step matches Step::Finish(Ok(OpSuccess::GroupMembers { group_members })) && group_members@ == rows@,
{
}

/// A group session started for group `g` is stored for `g` itself, with the membership
/// that the lookup of the caller's accepted membership in `g` returned.
pub proof fn lemma_group_session_for_group(
    group_id: u128,
    ctx: OpCtx,
    allow_register: bool,
    st: Stage,
    a: Action,
    r1: Reply,
    st2: Stage,
    a2: Action,
    membership_id: u128,
    st3: Stage,
    step3: Step,
)
    requires
        opens(OpArgs::CreateGroupSession { group_id }, Some(ctx), allow_register, st, Step::Run(a)),
        steps(st, r1, st2, Step::Run(a2)),
        steps(st2, Reply::Found(Some(membership_id)), st3, step3),
    ensures
        a == Action::BeginTx,
        a2 == Action::Query(DbRequest::FindAcceptedMembership { user_id: ctx.spec_account_id(), group_id }),
        step3 matches Step::Run(Action::Query(DbRequest::InsertSession { user_id, membership_id: m, .. }))
            && user_id == group_id && m == Some(membership_id),
{
}

/// A reorder commits only after it has asked for the position of every id: the commit
/// follows the update of the last id, and an update that is not the last asks for the
/// next id at the next position.
pub proof fn lemma_reorder_commits_after_all(owner_id: u128, ids: Vec<u128>, next: usize, r: Reply, ns: Stage, step: Step)
    requires
        stage_wf(Stage::ReorderStep { owner_id, ids, next }),
        steps(Stage::ReorderStep { owner_id, ids, next }, r, ns, step),
        r is RowsAffected,
    ensures
        step == Step::Run(Action::CommitTx) <==> next == ids@.len(),
        next < ids@.len() ==> ns == (Stage::ReorderStep { owner_id, ids, next: (next + 1) as usize })
            && step == Step::Run(Action::Query(DbRequest::SetSortOrder { sort_order: (next + 1) as i32, id: ids@[next as int], owner_id })),
{
}

/// A reorder commits at once only when it has no ids; otherwise it starts with the
/// first id at position 1.
pub proof fn lemma_reorder_starts_with_first(owner_id: u128, ids: Vec<u128>, r: Reply, ns: Stage, step: Step)
    requires
        steps(Stage::ReorderBegin { owner_id, ids }, r, ns, step),
        r is Done,
    ensures
        step == Step::Run(Action::CommitTx) <==> ids@.len() == 0,
        ids@.len() > 0 ==> ns == (Stage::ReorderStep { owner_id, ids, next: 1 })
            && step == Step::Run(Action::Query(DbRequest::SetSortOrder { sort_order: 1, id: ids@[0], owner_id })),
{
}

} // verus!
