use z2p::routes::admin::password::{
    change_password, AuthError, ChangePasswordAction, ChangePasswordEvent, ChangePasswordState,
    FormData,
};
use z2p::routes::helpers::Level;
use z2p::secret::Secret;

fn form(current: &str, new: &str, check: &str) -> ChangePasswordEvent {
    ChangePasswordEvent::Submitted(FormData {
        current_password: Secret::new(current.to_string()),
        new_password: Secret::new(new.to_string()),
        new_password_check: Secret::new(check.to_string()),
    })
}

fn turned_down(step: Option<(Option<ChangePasswordState>, ChangePasswordAction)>, notice: &str) {
    let (state, action) = step.expect("the event belongs to the state");
    assert!(state.is_none());
    match action {
        ChangePasswordAction::Redirect { notice: shown, response } => {
            assert_eq!(shown.level, Level::Error);
            assert_eq!(shown.content, notice);
            assert_eq!(response.status_code, 303);
            assert_eq!(response.headers[0].name, "location");
            assert_eq!(response.headers[0].value, b"/admin/password".to_vec());
        }
        _ => panic!("expected a redirect"),
    }
}

fn failed(step: Option<(Option<ChangePasswordState>, ChangePasswordAction)>, message: &str) {
    let (state, action) = step.expect("the event belongs to the state");
    assert!(state.is_none());
    match action {
        ChangePasswordAction::Fail(e) => {
            assert_eq!(e.status_code, 500);
            assert_eq!(e.message, message);
        }
        _ => panic!("expected a failure"),
    }
}

#[test]
fn the_two_new_passwords_must_be_the_same() {
    turned_down(
        change_password(ChangePasswordState::Received, form("old", "a-new-password-1", "a-new-password-2")),
        "You entered two different new passwords - the field values must match.",
    );
    // the mismatch is reported before the length
    turned_down(
        change_password(ChangePasswordState::Received, form("old", "short", "other")),
        "You entered two different new passwords - the field values must match.",
    );
}

#[test]
fn new_password_must_have_12_to_128_bytes() {
    let length = "The password should be longer than 12 characters but shorter than 128 characters.";
    for new in ["", "elevenchars", &"x".repeat(129), &"ü".repeat(65)] {
        turned_down(change_password(ChangePasswordState::Received, form("old", new, new)), length);
    }
    for new in ["twelve chars", &"x".repeat(128), &"ü".repeat(6), &"ü".repeat(64)] {
        let (state, action) = change_password(ChangePasswordState::Received, form("old", new, new)).unwrap();
        assert!(matches!(action, ChangePasswordAction::FindUsername));
        match state {
            Some(ChangePasswordState::FindingUsername { current_password, new_password }) => {
                assert_eq!(current_password.expose(), "old");
                assert_eq!(new_password.expose(), new);
            }
            _ => panic!("expected the lookup of the user"),
        }
    }
}

fn finding() -> ChangePasswordState {
    ChangePasswordState::FindingUsername {
        current_password: Secret::new("old".to_string()),
        new_password: Secret::new("a-new-password".to_string()),
    }
}

fn validating() -> ChangePasswordState {
    ChangePasswordState::Validating { new_password: Secret::new("a-new-password".to_string()) }
}

#[test]
fn the_current_password_must_be_right() {
    let (state, action) =
        change_password(finding(), ChangePasswordEvent::UsernameFound(Some("admin".to_string()))).unwrap();
    match action {
        ChangePasswordAction::ValidateCredentials(credentials) => {
            assert_eq!(credentials.username, "admin");
            assert_eq!(credentials.password.expose(), "old");
        }
        _ => panic!("expected the check of the credentials"),
    }
    match state {
        Some(ChangePasswordState::Validating { new_password }) => {
            assert_eq!(new_password.expose(), "a-new-password")
        }
        _ => panic!("expected the check of the credentials"),
    }
    turned_down(
        change_password(validating(), ChangePasswordEvent::Validated(Err(AuthError::InvalidCredentials))),
        "The current password is incorrect.",
    );
    failed(
        change_password(validating(), ChangePasswordEvent::Validated(Err(AuthError::UnexpectedError))),
        "Failed to validate the credentials.",
    );
    failed(
        change_password(finding(), ChangePasswordEvent::UsernameFound(None)),
        "Failed to perform a query to retrieve a username.",
    );
}

#[test]
fn a_password_is_stored_once_the_current_one_is_checked() {
    let (state, action) = change_password(validating(), ChangePasswordEvent::Validated(Ok(()))).unwrap();
    assert!(matches!(state, Some(ChangePasswordState::Storing)));
    match action {
        ChangePasswordAction::StorePassword(password) => assert_eq!(password.expose(), "a-new-password"),
        _ => panic!("expected the new password to be stored"),
    }
    turned_down(
        change_password(ChangePasswordState::Storing, ChangePasswordEvent::Stored(true)),
        "Your password has been changed.",
    );
    failed(
        change_password(ChangePasswordState::Storing, ChangePasswordEvent::Stored(false)),
        "Failed to change the password.",
    );
}

#[test]
fn the_password_machine_takes_no_event_it_does_not_wait_for() {
    assert!(change_password(ChangePasswordState::Received, ChangePasswordEvent::Stored(true)).is_none());
    assert!(change_password(ChangePasswordState::Received, ChangePasswordEvent::UsernameFound(None)).is_none());
    assert!(change_password(finding(), ChangePasswordEvent::Validated(Ok(()))).is_none());
    assert!(change_password(finding(), form("a", "b", "b")).is_none());
    assert!(change_password(validating(), ChangePasswordEvent::Stored(true)).is_none());
    assert!(change_password(ChangePasswordState::Storing, ChangePasswordEvent::Validated(Ok(()))).is_none());
}
