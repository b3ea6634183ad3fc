use lockdown::errors::LockdownError;
use lockdown::mail::{mail_start, mail_step, MailAction, MailConfig, MailEvent, MailState};

fn config() -> MailConfig {
    MailConfig { email: "a@b.com".to_string(), password: "oldpw".to_string() }
}

fn token_page(token: &str) -> String {
    format!(
        "<html><body><form>\
         <input type=\"hidden\" name=\"_token\" value=\"{}\">\
         </form></body></html>",
        token
    )
}

#[test]
fn rotation_walks_the_whole_state_machine() {
    let cfg = config();
    let (state, action) = mail_start();
    assert!(matches!(state, MailState::Unauthenticated));
    assert!(matches!(action, MailAction::FetchLoginPage));

    // Login page fetched: the machine posts the login form with its token.
    let (state, action) =
        mail_step(&cfg, state, MailEvent::PageFetched { html: token_page("logtok") });
    assert!(matches!(state, MailState::LoginTokenFetched { ref token } if token == "logtok"));
    let form = match action {
        MailAction::PostLogin { form } => form,
        other => panic!("expected PostLogin, got {:?}", other),
    };
    assert_eq!(
        form,
        vec![
            ("_token".to_string(), "logtok".to_string()),
            ("email".to_string(), "a@b.com".to_string()),
            ("password".to_string(), "oldpw".to_string()),
        ]
    );

    // Login accepted: the machine fetches the change-password page.
    let (state, action) = mail_step(&cfg, state, MailEvent::PostCompleted { status: 200 });
    assert!(matches!(state, MailState::Authenticated));
    assert!(matches!(action, MailAction::FetchChangePage));

    // Change page fetched: a second token, a fresh secret, the change form.
    let (state, action) =
        mail_step(&cfg, state, MailEvent::PageFetched { html: token_page("chgtok") });
    let new_secret = match &state {
        MailState::ChangeTokenFetched { token, new_secret } => {
            assert_eq!(token, "chgtok");
            new_secret.clone()
        },
        other => panic!("expected ChangeTokenFetched, got {:?}", other),
    };
    assert_eq!(new_secret.len(), 12);
    assert!(new_secret.chars().all(|c| c.is_ascii_alphanumeric()));
    let form = match action {
        MailAction::PostChangePassword { form } => form,
        other => panic!("expected PostChangePassword, got {:?}", other),
    };
    assert_eq!(
        form,
        vec![
            ("_token".to_string(), "chgtok".to_string()),
            ("current_password".to_string(), "oldpw".to_string()),
            ("password".to_string(), new_secret.clone()),
            ("password_confirmation".to_string(), new_secret.clone()),
        ]
    );

    // Change accepted: the rotation is complete with that same secret.
    let (state, action) = mail_step(&cfg, state, MailEvent::PostCompleted { status: 200 });
    assert!(matches!(state, MailState::Complete { new_secret: ref s } if *s == new_secret));
    assert!(
        matches!(action, MailAction::ReportSuccess { new_secret: ref s } if *s == new_secret)
    );
}

#[test]
fn missing_login_token_aborts_with_token_not_found() {
    let cfg = config();
    let (state, _) = mail_start();
    let (state, action) = mail_step(
        &cfg,
        state,
        MailEvent::PageFetched { html: "<html><body></body></html>".to_string() },
    );
    assert!(matches!(
        state,
        MailState::MailAborted { error: LockdownError::TokenNotFound }
    ));
    assert!(matches!(
        action,
        MailAction::ReportFailure { error: LockdownError::TokenNotFound }
    ));
}

#[test]
fn rejected_login_aborts_with_auth_failed() {
    let cfg = config();
    let state = MailState::LoginTokenFetched { token: "logtok".to_string() };
    let (state, action) = mail_step(&cfg, state, MailEvent::PostCompleted { status: 403 });
    assert!(matches!(state, MailState::MailAborted { error: LockdownError::AuthFailed }));
    assert!(matches!(action, MailAction::ReportFailure { error: LockdownError::AuthFailed }));
}

#[test]
fn rejected_change_aborts_with_change_rejected() {
    let cfg = config();
    let state = MailState::ChangeTokenFetched {
        token: "chgtok".to_string(),
        new_secret: "AAAAbbbb1234".to_string(),
    };
    let (state, action) = mail_step(&cfg, state, MailEvent::PostCompleted { status: 500 });
    assert!(matches!(
        state,
        MailState::MailAborted { error: LockdownError::ChangeRejected }
    ));
    assert!(matches!(
        action,
        MailAction::ReportFailure { error: LockdownError::ChangeRejected }
    ));
}

#[test]
fn redirect_status_counts_as_success() {
    let cfg = config();
    let state = MailState::LoginTokenFetched { token: "logtok".to_string() };
    let (state, action) = mail_step(&cfg, state, MailEvent::PostCompleted { status: 302 });
    assert!(matches!(state, MailState::Authenticated));
    assert!(matches!(action, MailAction::FetchChangePage));
}
