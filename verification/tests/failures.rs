//! The failure taxonomy: startup credentials and diagnostic actions.

use actionloop::action::Action;
use actionloop::errors::{credentials_from, error_action, AppError};

#[test]
fn missing_username_is_fatal_startup_config() {
    let r = credentials_from(None, Some("secret".to_string()));
    match r {
        Err(AppError::StartupConfig(var)) => assert_eq!(var, "FIVVER_USERNAME"),
        _ => panic!("a missing username must refuse startup"),
    }
}

#[test]
fn missing_password_is_fatal_startup_config() {
    let r = credentials_from(Some("user".to_string()), None);
    match r {
        Err(AppError::StartupConfig(var)) => assert_eq!(var, "FIVVER_PASSWORD"),
        _ => panic!("a missing password must refuse startup"),
    }
}

#[test]
fn present_credentials_pass_through() {
    let r = credentials_from(Some("user".to_string()), Some("secret".to_string()));
    match r {
        Ok((u, p)) => {
            assert_eq!(u, "user");
            assert_eq!(p, "secret");
        },
        Err(_) => panic!("present credentials must be accepted"),
    }
}

#[test]
fn every_failure_surfaces_as_an_error_action() {
    let cases = vec![
        (AppError::StartupConfig("FIVVER_USERNAME".to_string()),
            "required credential variable is not set"),
        (AppError::ProcessLaunch, "failed to start the driver process"),
        (AppError::SessionConnect, "failed to connect to the driver session"),
        (AppError::SessionClose, "failed to close the driver session"),
        (AppError::Draw("boom".to_string()), "failed to draw"),
        (AppError::ChannelClosed, "the action queue is gone"),
    ];
    for (err, text) in cases {
        match error_action(&err) {
            Action::Error(s) => assert_eq!(s, text),
            _ => panic!("a failure surfaces as an Error action"),
        }
    }
}
