//! The secondary-provider client: a verified state machine.
//!
//! The email provider is driven through its web interface: fetch the login
//! page and scrape its anti-forgery token, post the login form, fetch the
//! change-password page and scrape a second, independently fetched token,
//! then post the change-password form with a freshly generated secret.  The
//! caller performs each HTTP request inside one cookie-jar-backed session
//! and feeds the outcome back; every decision in between is verified here.

use crate::errors::LockdownError;
use crate::form::{
    change_password_form, change_password_form_view, is_success_status, login_form,
    login_form_view, success_status,
};
use crate::scrape::{extract_csrf_token, hidden_token_of};
use crate::secret::{get_random_password, valid_secret};
use vstd::prelude::*;

verus! {

/// The immutable inputs of one secondary rotation.
pub struct MailConfig {
    /// The account's email address, its login identifier.
    pub email: String,
    /// The account's current password.
    pub password: String,
}

/// Where the rotation stands.  Each state names the request whose outcome
/// the machine waits for.
#[derive(Debug)]
pub enum MailState {
    /// The login page has been requested.
    Unauthenticated,
    /// The login form has been posted with the scraped token.
    LoginTokenFetched { token: String },
    /// The change-password page has been requested inside the session.
    Authenticated,
    /// The change-password form has been posted with the second token.
    ChangeTokenFetched { token: String, new_secret: String },
    /// The provider accepted the new secret.
    Complete { new_secret: String },
    /// The rotation failed; nothing further is attempted.
    MailAborted { error: LockdownError },
}

/// What the caller observed for the request the machine last asked for.
#[derive(Debug)]
pub enum MailEvent {
    /// A page was fetched; its HTML body.
    PageFetched { html: String },
    /// A form was posted; the response's HTTP status code.
    PostCompleted { status: u16 },
}

/// What the caller must do next.
#[derive(Debug)]
pub enum MailAction {
    /// Fetch the login page.
    FetchLoginPage,
    /// Post the login form.
    PostLogin { form: Vec<(String, String)> },
    /// Fetch the change-password page, inside the same session.
    FetchChangePage,
    /// Post the change-password form, inside the same session.
    PostChangePassword { form: Vec<(String, String)> },
    /// The rotation is complete; the new secret.
    ReportSuccess { new_secret: String },
    /// The rotation failed; stop.
    ReportFailure { error: LockdownError },
}

/// The machine has failed with the given error and says so.
pub open spec fn mail_aborts(e: LockdownError, post: MailState, action: MailAction) -> bool {
    &&& post matches MailState::MailAborted { error } && error == e
    &&& action matches MailAction::ReportFailure { error } && error == e
}

/// The transition relation of the secondary rotation.  Every step of
/// `mail_step` satisfies it; the next state and action are pinned down up to
/// the freshly drawn secret.  An event that is not the one the state waits
/// for is fatal, with the waiting step's own error.
pub open spec fn mail_trans(
    cfg: MailConfig,
    pre: MailState,
    event: MailEvent,
    post: MailState,
    action: MailAction,
) -> bool {
    match pre {
        MailState::Unauthenticated => match event {
            MailEvent::PageFetched { html } => match hidden_token_of(html@) {
                Some(t) => {
                    &&& post matches MailState::LoginTokenFetched { token } && token@ == t
                    &&& action matches MailAction::PostLogin { form } && form.deep_view()
                        == login_form_view(t, cfg.email@, cfg.password@)
                },
                None => mail_aborts(LockdownError::TokenNotFound, post, action),
            },
            _ => mail_aborts(LockdownError::TokenNotFound, post, action),
        },
        MailState::LoginTokenFetched { .. } => match event {
            MailEvent::PostCompleted { status } => if success_status(status) {
                &&& post is Authenticated
                &&& action is FetchChangePage
            } else {
                mail_aborts(LockdownError::AuthFailed, post, action)
            },
            _ => mail_aborts(LockdownError::AuthFailed, post, action),
        },
        MailState::Authenticated => match event {
            MailEvent::PageFetched { html } => match hidden_token_of(html@) {
                Some(t) => {
                    &&& post matches MailState::ChangeTokenFetched { token, new_secret }
                        && token@ == t && valid_secret(new_secret@) && (
                    action matches MailAction::PostChangePassword { form } && form.deep_view()
                        == change_password_form_view(t, cfg.password@, new_secret@))
                },
                None => mail_aborts(LockdownError::TokenNotFound, post, action),
            },
            _ => mail_aborts(LockdownError::TokenNotFound, post, action),
        },
        MailState::ChangeTokenFetched { new_secret, .. } => match event {
            MailEvent::PostCompleted { status } => if success_status(status) {
                &&& post matches MailState::Complete { new_secret: done } && done@ == new_secret@
                &&& action matches MailAction::ReportSuccess { new_secret: told } && told@
                    == new_secret@
            } else {
                mail_aborts(LockdownError::ChangeRejected, post, action)
            },
            _ => mail_aborts(LockdownError::ChangeRejected, post, action),
        },
        MailState::Complete { new_secret } => {
            &&& post matches MailState::Complete { new_secret: done } && done@ == new_secret@
            &&& action matches MailAction::ReportSuccess { new_secret: told } && told@
                == new_secret@
        },
        MailState::MailAborted { error } => mail_aborts(error, post, action),
    }
}

/// The state and action that start a rotation: nothing has happened yet, and
/// the caller is to fetch the login page.
pub fn mail_start() -> (r: (MailState, MailAction))
    ensures
        r.0 is Unauthenticated,
        r.1 is FetchLoginPage,
{
    (MailState::Unauthenticated, MailAction::FetchLoginPage)
}

/// The machine fails with the given error.
fn mail_abort(error: LockdownError) -> (r: (MailState, MailAction))
    ensures
        mail_aborts(error, r.0, r.1),
{
    (MailState::MailAborted { error }, MailAction::ReportFailure { error })
}

/// Advance the rotation by one observed outcome.
pub fn mail_step(config: &MailConfig, state: MailState, event: MailEvent) -> (r: (
    MailState,
    MailAction,
))
    ensures
        mail_trans(*config, state, event, r.0, r.1),
{
    match (state, event) {
        (MailState::Unauthenticated, MailEvent::PageFetched { html }) => {
            match extract_csrf_token(html.as_str()) {
                Ok(token) => {
                    let form = login_form(&token, &config.email, &config.password);
                    (MailState::LoginTokenFetched { token }, MailAction::PostLogin { form })
                },
                Err(error) => mail_abort(error),
            }
        },
        (MailState::Unauthenticated, _) => mail_abort(LockdownError::TokenNotFound),
        (MailState::LoginTokenFetched { .. }, MailEvent::PostCompleted { status }) => {
            if is_success_status(status) {
                (MailState::Authenticated, MailAction::FetchChangePage)
            } else {
                mail_abort(LockdownError::AuthFailed)
            }
        },
        (MailState::LoginTokenFetched { .. }, _) => mail_abort(LockdownError::AuthFailed),
        (MailState::Authenticated, MailEvent::PageFetched { html }) => {
            match extract_csrf_token(html.as_str()) {
                Ok(token) => {
                    let new_secret = get_random_password();
                    let form = change_password_form(&token, &config.password, &new_secret);
                    (
                        MailState::ChangeTokenFetched { token, new_secret },
                        MailAction::PostChangePassword { form },
                    )
                },
                Err(error) => mail_abort(error),
            }
        },
        (MailState::Authenticated, _) => mail_abort(LockdownError::TokenNotFound),
        (MailState::ChangeTokenFetched { new_secret, .. }, MailEvent::PostCompleted {
            status,
        }) => {
            if is_success_status(status) {
                let told = new_secret.clone();
                (
                    MailState::Complete { new_secret },
                    MailAction::ReportSuccess { new_secret: told },
                )
            } else {
                mail_abort(LockdownError::ChangeRejected)
            }
        },
        (MailState::ChangeTokenFetched { .. }, _) => mail_abort(LockdownError::ChangeRejected),
        (MailState::Complete { new_secret }, _) => {
            let told = new_secret.clone();
            (MailState::Complete { new_secret }, MailAction::ReportSuccess { new_secret: told })
        },
        (MailState::MailAborted { error }, _) => mail_abort(error),
    }
}

} // verus!
