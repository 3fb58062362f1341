use authcore::codec::verify;
use authcore::db::StoreFailure;
use authcore::hasher::hash;
use authcore::project::{self, newProject, newSupport, Project, Support};
use authcore::role::Role;
use authcore::status::{convert_auth_error, convert_auth_error_project};
use authcore::token::{ApiToken, GuardOutcome};
use authcore::user::{
    check_login, find_user, get_user, login, prepare_new_user, newUser, AuthenticationError,
    User, UserWithPassword,
};

fn key() -> Vec<u8> {
    b"secret_key".to_vec()
}

fn stored_row() -> User {
    User {
        uuid: b"7c3a-0001".to_vec(),
        full_name: "Ada X".to_string(),
        email: "a@x.com".to_string(),
        created_at: 1700000000,
        password: hash(&"pw123456".to_string(), 4).unwrap(),
        role: Role::Standard,
    }
}

fn credentials(password: &str) -> UserWithPassword {
    UserWithPassword { email: "a@x.com".to_string(), password: password.to_string() }
}

#[test]
fn login_and_profile_round_trip() {
    let row = stored_row();
    let token = login(&credentials("pw123456"), Ok(vec![row.clone()]), &key(), 1700000100)
        .unwrap();

    let claims = verify(&token, &key(), None).unwrap();
    assert_eq!(claims.subject, row.uuid);
    assert_eq!(claims.audience, Role::Standard);
    assert_eq!(claims.audience.to_wire_byte(), b'1');
    assert_eq!(claims.issued_at, 1700000100);

    let guard = ApiToken::from_headers(&vec![token], &key());
    let principal = match guard {
        GuardOutcome::Authenticated(t) => t.0,
        _ => panic!("expected authentication"),
    };
    assert_eq!(principal, row.uuid);
    assert_eq!(get_user(Ok(vec![row.clone()])), Ok(row));

    let bare = ApiToken::from_headers(&Vec::new(), &key());
    assert!(bare.forwards());
}

#[test]
fn login_rejects_wrong_password() {
    assert_eq!(
        login(&credentials("wrong-pw"), Ok(vec![stored_row()]), &key(), 0),
        Err(404)
    );
}

#[test]
fn login_rejects_unknown_mail() {
    assert_eq!(login(&credentials("pw123456"), Ok(Vec::new()), &key(), 0), Err(404));
}

#[test]
fn login_surfaces_a_store_fault_as_unavailable() {
    assert_eq!(
        login(&credentials("pw123456"), Err(StoreFailure), &key(), 0),
        Err(503)
    );
}

#[test]
fn login_surfaces_an_unreadable_hash_as_server_error() {
    let mut row = stored_row();
    row.password = "not-a-hash".to_string();
    assert_eq!(login(&credentials("pw123456"), Ok(vec![row]), &key(), 0), Err(501));
}

#[test]
fn find_user_fails_closed_on_unreadable_hash() {
    let mut row = stored_row();
    row.password = "not-a-hash".to_string();
    assert_eq!(
        find_user(&credentials("pw123456"), Ok(vec![row])),
        Err(AuthenticationError::BcryptError)
    );
}

#[test]
fn find_user_accepts_the_matching_row() {
    let row = stored_row();
    assert_eq!(
        find_user(&credentials("pw123456"), Ok(vec![row.clone()])),
        Ok(Some(row))
    );
}

#[test]
fn find_user_rejects_wrong_password() {
    assert_eq!(
        find_user(&credentials("wrong-pw"), Ok(vec![stored_row()])),
        Err(AuthenticationError::IncorrectPassword)
    );
}

#[test]
fn find_user_rejects_zero_rows() {
    assert_eq!(
        find_user(&credentials("pw123456"), Ok(Vec::new())),
        Err(AuthenticationError::IncorrectMail)
    );
}

#[test]
fn find_user_rejects_two_rows() {
    assert_eq!(
        find_user(&credentials("pw123456"), Ok(vec![stored_row(), stored_row()])),
        Err(AuthenticationError::IncorrectMail)
    );
}

#[test]
fn find_user_keeps_store_faults_apart() {
    assert_eq!(
        find_user(&credentials("pw123456"), Err(StoreFailure)),
        Err(AuthenticationError::DatabaseError)
    );
}

#[test]
fn check_login_collapses_failures() {
    assert_eq!(check_login(&credentials("wrong-pw"), Ok(vec![stored_row()])), None);
    assert_eq!(check_login(&credentials("pw123456"), Err(StoreFailure)), None);
    let row = stored_row();
    assert_eq!(check_login(&credentials("pw123456"), Ok(vec![row.clone()])), Some(row));
}

#[test]
fn get_user_selects_exactly_one_row() {
    let row = stored_row();
    assert_eq!(get_user(Ok(vec![row.clone()])), Ok(row));
    assert_eq!(get_user(Ok(Vec::new())), Err(AuthenticationError::IncorrectUuid));
    assert_eq!(
        get_user(Ok(vec![stored_row(), stored_row()])),
        Err(AuthenticationError::IncorrectUuid)
    );
    assert_eq!(get_user(Err(StoreFailure)), Err(AuthenticationError::DatabaseError));
}

#[test]
fn prepare_new_user_hashes_and_demotes() {
    let prepared = prepare_new_user(
        newUser {
            full_name: "Ada X".to_string(),
            email: "a@x.com".to_string(),
            password: "pw123456".to_string(),
            role: Role::Admin,
        },
        4,
    )
    .unwrap();
    assert_eq!(prepared.role, Role::Standard);
    assert_eq!(prepared.email, "a@x.com".to_string());
    assert_eq!(prepared.full_name, "Ada X".to_string());
    assert_ne!(prepared.password, "pw123456".to_string());
    assert_eq!(
        authcore::hasher::verify(&"pw123456".to_string(), &prepared.password),
        Ok(true)
    );
}

#[test]
fn status_codes_for_account_failures() {
    assert_eq!(convert_auth_error(AuthenticationError::IncorrectMail), 404);
    assert_eq!(convert_auth_error(AuthenticationError::IncorrectUuid), 404);
    assert_eq!(convert_auth_error(AuthenticationError::IncorrectPassword), 401);
    assert_eq!(convert_auth_error(AuthenticationError::BcryptError), 501);
    assert_eq!(convert_auth_error(AuthenticationError::DatabaseError), 503);
}

#[test]
fn status_codes_for_project_failures() {
    assert_eq!(
        convert_auth_error_project(project::AuthenticationError::IncorrectUuid),
        404
    );
    assert_eq!(
        convert_auth_error_project(project::AuthenticationError::IncorrectPassword),
        401
    );
    assert_eq!(
        convert_auth_error_project(project::AuthenticationError::DatabaseError),
        503
    );
}

fn pledge_row() -> Support {
    Support {
        support_id: b"s-1".to_vec(),
        user_id: b"7c3a-0001".to_vec(),
        project_id: b"p-9".to_vec(),
        created_at: 1700000000,
    }
}

fn project_row() -> Project {
    Project {
        project_id: b"p-9".to_vec(),
        name: "garden".to_string(),
        description: "a garden".to_string(),
        owner_id: b"7c3a-0001".to_vec(),
        created_at: 1700000000,
        count: 3,
        image_url: "img".to_string(),
    }
}

#[test]
fn support_lookup_selects_exactly_one_row() {
    let row = pledge_row();
    assert_eq!(Support::get_support_user(Ok(vec![row.clone()])), Ok(row));
    assert_eq!(
        Support::get_support_user(Ok(Vec::new())),
        Err(project::AuthenticationError::IncorrectUuid)
    );
    assert_eq!(
        Support::get_support_user(Err(StoreFailure)),
        Err(project::AuthenticationError::DatabaseError)
    );
}

#[test]
fn project_lookup_selects_exactly_one_row() {
    let row = project_row();
    assert_eq!(Project::get_project(Ok(vec![row.clone()])), Ok(row));
    assert_eq!(
        Project::get_project(Ok(vec![project_row(), project_row()])),
        Err(project::AuthenticationError::IncorrectUuid)
    );
    assert_eq!(
        Project::get_project(Err(StoreFailure)),
        Err(project::AuthenticationError::DatabaseError)
    );
}

#[test]
fn new_rows_keep_their_fields() {
    let pledge = newSupport { user_id: b"u".to_vec(), project_id: b"p".to_vec() };
    assert_eq!(pledge.user_id, b"u".to_vec());
    let proj = newProject {
        name: "garden".to_string(),
        description: "a garden".to_string(),
        owner_id: b"u".to_vec(),
        image_url: "img".to_string(),
    };
    assert_eq!(proj.name, "garden".to_string());
}

#[test]
fn roles_convert_exactly() {
    assert_eq!(Role::from_code(1), Some(Role::Standard));
    assert_eq!(Role::from_code(2), Some(Role::Admin));
    assert_eq!(Role::from_code(3), None);
    assert_eq!(Role::Standard.to_code(), 1);
    assert_eq!(Role::Admin.to_code(), 2);
    assert_eq!(Role::Standard.to_wire_byte(), b'1');
    assert_eq!(Role::Admin.to_wire_byte(), b'2');
    assert_eq!(Role::from_wire_byte(b'2'), Some(Role::Admin));
    assert_eq!(Role::from_wire_byte(b'x'), None);
}
