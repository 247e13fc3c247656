use account_manager::session::{
    ChangeOutcome, CreateOutcome, DeleteOutcome, LoginOutcome, LogoutOutcome, Session,
};
use account_manager::store::{validate_account, Status};

#[test]
fn fresh_session_has_no_user() {
    let s = Session::new();
    assert_eq!(s.current_username(), None);
    assert_eq!(s.store().len(), 0);
}

#[test]
fn create_authenticates_the_new_account() {
    let mut s = Session::new();
    let r = s.create_account(String::from("alice"), String::from("pw1"), "pw1");
    assert_eq!(r, CreateOutcome::Created);
    assert_eq!(s.current_username(), Some(&String::from("alice")));
    assert!(s.username_taken("alice"));
}

#[test]
fn create_taken_username_leaves_store_alone() {
    let mut s = Session::new();
    assert_eq!(
        s.create_account(String::from("alice"), String::from("pw1"), "pw1"),
        CreateOutcome::Created
    );
    assert_eq!(
        s.create_account(String::from("alice"), String::from("pw2"), "pw2"),
        CreateOutcome::UsernameTaken
    );
    assert_eq!(s.store().len(), 1);
    assert_eq!(validate_account(s.store(), "alice", "pw1"), Status::LoginSuccess);
}

#[test]
fn create_password_mismatch_changes_nothing() {
    let mut s = Session::new();
    let r = s.create_account(String::from("alice"), String::from("pw1"), "pw2");
    assert_eq!(r, CreateOutcome::PasswordMismatch);
    assert_eq!(s.current_username(), None);
    assert!(!s.username_taken("alice"));
}

#[test]
fn created_credentials_round_trip() {
    let mut s = Session::new();
    s.create_account(String::from("bob"), String::from("x"), "x");
    assert_eq!(validate_account(s.store(), "bob", "y"), Status::IncorrectPassword);
    assert_eq!(validate_account(s.store(), "bob", "x"), Status::LoginSuccess);
    assert_eq!(s.current_username(), Some(&String::from("bob")));
}

#[test]
fn login_after_logout() {
    let mut s = Session::new();
    s.create_account(String::from("bob"), String::from("x"), "x");
    s.logout();
    assert_eq!(s.login(String::from("bob"), "y"), LoginOutcome::Failure);
    assert_eq!(s.current_username(), None);
    assert_eq!(s.login(String::from("bob"), "x"), LoginOutcome::Success);
    assert_eq!(s.current_username(), Some(&String::from("bob")));
}

#[test]
fn login_unknown_user_fails() {
    let mut s = Session::new();
    assert_eq!(s.login(String::from("ghost"), "pw"), LoginOutcome::Failure);
    assert_eq!(s.current_username(), None);
}

#[test]
fn login_as_current_user_short_circuits() {
    let mut s = Session::new();
    s.create_account(String::from("bob"), String::from("x"), "x");
    assert_eq!(s.login(String::from("bob"), "x"), LoginOutcome::AlreadyLoggedIn);
    assert_eq!(s.current_username(), Some(&String::from("bob")));
}

#[test]
fn login_with_marker_is_fatal() {
    let mut s = Session::new();
    assert_eq!(s.login(String::from("Invalid input"), "pw"), LoginOutcome::Fatal);
    assert_eq!(s.login(String::from("bob"), "Invalid input"), LoginOutcome::Fatal);
    assert_eq!(s.current_username(), None);
}

#[test]
fn change_password_needs_login() {
    let mut s = Session::new();
    assert_eq!(
        s.change_password(String::from("pw1"), "pw1"),
        ChangeOutcome::NotLoggedIn
    );
}

#[test]
fn change_password_mismatch_keeps_old_credential() {
    let mut s = Session::new();
    s.create_account(String::from("alice"), String::from("pw1"), "pw1");
    assert_eq!(
        s.change_password(String::from("pw2"), "pw3"),
        ChangeOutcome::PasswordMismatch
    );
    assert_eq!(validate_account(s.store(), "alice", "pw1"), Status::LoginSuccess);
    assert_eq!(validate_account(s.store(), "alice", "pw2"), Status::IncorrectPassword);
}

#[test]
fn change_password_overwrites() {
    let mut s = Session::new();
    s.create_account(String::from("alice"), String::from("pw1"), "pw1");
    assert_eq!(s.change_password(String::from("pw2"), "pw2"), ChangeOutcome::Updated);
    assert_eq!(validate_account(s.store(), "alice", "pw2"), Status::LoginSuccess);
    assert_eq!(validate_account(s.store(), "alice", "pw1"), Status::IncorrectPassword);
    assert_eq!(s.store().len(), 1);
}

#[test]
fn delete_unconfirmed_changes_nothing() {
    let mut s = Session::new();
    s.create_account(String::from("alice"), String::from("pw1"), "pw1");
    assert_eq!(s.delete_account(false), DeleteOutcome::Aborted);
    assert!(s.username_taken("alice"));
    assert_eq!(s.current_username(), Some(&String::from("alice")));
}

#[test]
fn delete_needs_login() {
    let mut s = Session::new();
    assert_eq!(s.delete_account(true), DeleteOutcome::NotLoggedIn);
}

#[test]
fn delete_clears_session_and_store() {
    let mut s = Session::new();
    s.create_account(String::from("alice"), String::from("pw1"), "pw1");
    assert_eq!(s.delete_account(true), DeleteOutcome::Deleted);
    assert_eq!(s.current_username(), None);
    assert!(!s.username_taken("alice"));
    assert_eq!(
        s.change_password(String::from("pw2"), "pw2"),
        ChangeOutcome::NotLoggedIn
    );
    assert_eq!(s.delete_account(true), DeleteOutcome::NotLoggedIn);
}

#[test]
fn deleted_user_is_unknown_to_validation() {
    let mut s = Session::new();
    s.create_account(String::from("alice"), String::from("pw1"), "pw1");
    s.delete_account(true);
    assert_eq!(validate_account(s.store(), "alice", "pw1"), Status::UsernameNotFound);
}

#[test]
fn logout_twice_is_safe() {
    let mut s = Session::new();
    s.create_account(String::from("alice"), String::from("pw1"), "pw1");
    assert_eq!(s.logout(), LogoutOutcome::LoggedOut);
    assert_eq!(s.current_username(), None);
    assert_eq!(s.logout(), LogoutOutcome::NotLoggedIn);
    assert_eq!(s.current_username(), None);
    assert!(s.username_taken("alice"));
}

#[test]
fn logout_without_login_reports_not_logged_in() {
    let mut s = Session::new();
    assert_eq!(s.logout(), LogoutOutcome::NotLoggedIn);
}

#[test]
fn second_create_refused_then_store_intact() {
    let mut s = Session::new();
    assert_eq!(
        s.create_account(String::from("alice"), String::from("pw1"), "pw1"),
        CreateOutcome::Created
    );
    let second = s.create_account(String::from("alice"), String::from("pw1"), "pw1");
    assert_eq!(second, CreateOutcome::UsernameTaken);
    let listed = s.store().list_users();
    assert_eq!(listed.len(), 1);
    assert_eq!(listed[0], (String::from("alice"), String::from("pw1")));
}
