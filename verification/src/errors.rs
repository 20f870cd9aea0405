//! The failure taxonomy of the event loop and the session manager, and how
//! each failure surfaces.

use vstd::prelude::*;

use crate::action::{Action, ActionView};

verus! {

/// Every failure the core distinguishes.
#[derive(Debug)]
pub enum AppError {
    /// A required credential variable is missing; fatal before the loop
    /// starts. Carries the name of the missing variable.
    StartupConfig(String),
    /// The external driver process could not be spawned, even after the
    /// bounded retries.
    ProcessLaunch,
    /// The session handle could not be established although the driver
    /// process was confirmed running, even after the bounded retries.
    SessionConnect,
    /// A graceful session close failed during teardown; reported, never
    /// escalated, and process termination proceeds regardless.
    SessionClose,
    /// A component's draw call failed; converted into an `Error` action and
    /// never aborts the render pass. Carries the draw failure text.
    Draw(String),
    /// The action queue's receiving side was dropped while a sender still
    /// holds it; a broken invariant, fatal.
    ChannelClosed,
}

/// The diagnostic action that surfaces a failure to the user instead of
/// aborting: an `Error` action whose text names the failure.
pub fn error_action(e: &AppError) -> (r: Action)
    ensures
        match e {
            AppError::StartupConfig(_) => r@ == ActionView::Error(
                "required credential variable is not set"@,
            ),
            AppError::ProcessLaunch => r@ == ActionView::Error(
                "failed to start the driver process"@,
            ),
            AppError::SessionConnect => r@ == ActionView::Error(
                "failed to connect to the driver session"@,
            ),
            AppError::SessionClose => r@ == ActionView::Error(
                "failed to close the driver session"@,
            ),
            AppError::Draw(_) => r@ == ActionView::Error("failed to draw"@),
            AppError::ChannelClosed => r@ == ActionView::Error("the action queue is gone"@),
        },
{
    match e {
        AppError::StartupConfig(_) => Action::Error(
            String::from_str("required credential variable is not set"),
        ),
        AppError::ProcessLaunch => Action::Error(
            String::from_str("failed to start the driver process"),
        ),
        AppError::SessionConnect => Action::Error(
            String::from_str("failed to connect to the driver session"),
        ),
        AppError::SessionClose => Action::Error(
            String::from_str("failed to close the driver session"),
        ),
        AppError::Draw(_) => Action::Error(String::from_str("failed to draw")),
        AppError::ChannelClosed => Action::Error(String::from_str("the action queue is gone")),
    }
}

/// Checks the two credential values read from the environment. Both must be
/// present, or startup is refused with the name of the first missing one.
pub fn credentials_from(username: Option<String>, password: Option<String>) -> (r: Result<
    (String, String),
    AppError,
>)
    ensures
        match r {
            Ok(c) => username matches Some(u) && password matches Some(p) && c.0 == u && c.1 == p,
            Err(e) => {
                &&& username is None || password is None
                &&& e matches AppError::StartupConfig(v) && (if username is None {
                    v@ == "FIVVER_USERNAME"@
                } else {
                    v@ == "FIVVER_PASSWORD"@
                })
            },
        },
{
    match username {
        None => Err(AppError::StartupConfig(String::from_str("FIVVER_USERNAME"))),
        Some(u) => match password {
            None => Err(AppError::StartupConfig(String::from_str("FIVVER_PASSWORD"))),
            Some(p) => Ok((u, p)),
        },
    }
}

} // verus!
