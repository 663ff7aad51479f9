use backend::ops::models::auth::SessionType;
use backend::ops::{OpError, OpSuccess};

#[test]
fn error_statuses_and_texts() {
    let cases = vec![
        (OpError::Generic("boom".to_string()), 500, "boom"),
        (OpError::EntityConflict { reason: "taken" }, 409, "taken"),
        (OpError::UserNotLoggedIn, 401, "You must be logged in to perform this operation"),
        (OpError::EntityNotFound { reason: "gone" }, 404, "gone"),
        (OpError::ValidationFailed { reason: "bad".to_string() }, 400, "bad"),
        (OpError::BadRequest { reason: "worse".to_string() }, 400, "worse"),
        (OpError::TooManyItems, 400, "Too many items to process at once"),
        (OpError::Unauthorized { reason: "no".to_string() }, 401, "no"),
        (OpError::UserOnlyOp, 400, "Operation can only be performed by users (not groups!)"),
        (OpError::GroupOnlyOp, 400, "Operation can only be performed by groups (not users!)"),
        (OpError::OpNeedsPerms { perm: "write".to_string() }, 403, "This operation needs write!"),
    ];
    for (e, code, text) in cases {
        assert_eq!(e.into_response(), (code, text.to_string()));
    }
}

#[test]
fn only_login_sessions_set_a_cookie() {
    let login = OpSuccess::CreatedSession { username: "a".to_string(), token: "TOK123".to_string(), token_type: SessionType::Login };
    assert_eq!(
        login.session_cookie(),
        Some("session_token=TOK123; HttpOnly; SameSite=Lax; Path=/; Max-Age=604800".to_string())
    );
    let group = OpSuccess::CreatedSession { username: "a".to_string(), token: "TOK123".to_string(), token_type: SessionType::GroupSession };
    assert_eq!(group.session_cookie(), None);
    assert_eq!(OpSuccess::FolderCreated.session_cookie(), None);
}
