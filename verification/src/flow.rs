//! The lockdown orchestrator: a verified state machine.
//!
//! The primary provider is locked down in a strict sequence — login, rotate
//! the password, refresh the session cookies, revoke every third-party
//! grant but the allow-listed one, validate the recovery-contact surface,
//! rotate the secondary credential, serialize the session cookies — and
//! every step's success is a precondition for the next.  The caller performs
//! each provider call and feeds the outcome back; the ordering, the grant
//! filter, the contact precondition and the final bundle are all verified here.
//! Nothing is rolled back on failure: a password change is already committed
//! server-side, so the run simply stops with the failing step's error.

use crate::bundle::{BundleView, CredentialBundle};
use crate::contact::{check_contact_surface, contact_surface_ok, ContactSurface};
use crate::errors::LockdownError;
use crate::grants::{revocable_tokens, revocation_tokens, ThirdPartyGrant};
use crate::secret::{get_random_password, valid_secret};
use vstd::prelude::*;

verus! {

/// The immutable inputs of one lockdown run.
pub struct FlowConfig {
    /// The application id whose grant is left alone: the operator's own
    /// client.
    pub allowlisted_app_id: String,
    /// The recovery email expected to be the whole contact surface.
    pub email: String,
}

/// Where the run stands.  Each state names the provider call whose outcome
/// the machine waits for, and carries what later steps will need.
#[derive(Debug)]
pub enum FlowState {
    /// The login has been requested.
    AwaitLogin,
    /// The primary password change has been requested.
    AwaitPasswordChange { x_secret: String },
    /// The cookie refresh after the password change has been requested.
    AwaitCookieRefresh { x_secret: String },
    /// The third-party grant listing has been requested.
    AwaitGrants { x_secret: String },
    /// Revocation of `pending`'s first token has been requested; the rest
    /// follow one at a time.
    AwaitRevocation { x_secret: String, pending: Vec<String> },
    /// The contact surface has been requested.
    AwaitContactSurface { x_secret: String },
    /// The secondary credential rotation has been delegated.
    AwaitSecondaryRotation { x_secret: String },
    /// Serialization of the session cookies has been requested.
    AwaitCookieSerialization { x_secret: String, email_secret: String },
    /// Every step succeeded; the bundle is ready to persist.
    Done { bundle: CredentialBundle },
    /// A step failed; nothing further is attempted.
    Aborted { error: LockdownError },
}

/// What the caller observed for the call the machine last asked for.
#[derive(Debug)]
pub enum FlowEvent {
    /// The requested call succeeded.
    Succeeded,
    /// The requested call failed.
    Failed,
    /// The grant listing succeeded, with every authorized application.
    GrantsListed { grants: Vec<ThirdPartyGrant> },
    /// The contact-surface fetch succeeded.
    ContactSurfaceFetched { surface: ContactSurface },
    /// The secondary rotation succeeded, with the new email secret.
    SecondaryRotated { email_secret: String },
    /// The secondary rotation failed, with its own error.
    SecondaryFailed { error: LockdownError },
    /// The session cookies were serialized.
    CookiesSerialized { cookie_json: String },
}

/// What the caller must do next.
#[derive(Debug)]
pub enum FlowAction {
    /// Authenticate to the primary provider.
    Login,
    /// Change the primary password to the given fresh secret.
    ChangePassword { new_secret: String },
    /// Refresh the session cookies.
    RefreshCookies,
    /// List every third-party grant.
    ListGrants,
    /// Revoke the grant behind the given token.
    RevokeGrant { token: String },
    /// Fetch the recovery-contact surface.
    FetchContactSurface,
    /// Rotate the secondary (email) credential.
    RotateSecondary,
    /// Serialize the session cookies.
    SerializeCookies,
    /// Persist the finished bundle.
    WriteBundle { bundle: CredentialBundle },
    /// The run has failed; stop.
    Abort { error: LockdownError },
}

/// The run has failed with the given error and says so.
pub open spec fn flow_aborts(e: LockdownError, post: FlowState, action: FlowAction) -> bool {
    &&& post matches FlowState::Aborted { error } && error == e
    &&& action matches FlowAction::Abort { error } && error == e
}

/// The transition relation of the lockdown run.  Every step of `flow_step`
/// satisfies it; the next state and action are pinned down up to the freshly
/// drawn primary secret.  An event that is not the one the state waits for
/// is fatal, with the waiting step's own error.
pub open spec fn flow_trans(
    cfg: FlowConfig,
    pre: FlowState,
    event: FlowEvent,
    post: FlowState,
    action: FlowAction,
) -> bool {
    match pre {
        FlowState::AwaitLogin => match event {
            FlowEvent::Succeeded => {
                &&& post matches FlowState::AwaitPasswordChange { x_secret } && valid_secret(
                    x_secret@,
                ) && (action matches FlowAction::ChangePassword { new_secret } && new_secret@
                    == x_secret@)
            },
            _ => flow_aborts(LockdownError::AuthFailed, post, action),
        },
        FlowState::AwaitPasswordChange { x_secret } => match event {
            FlowEvent::Succeeded => {
                &&& post matches FlowState::AwaitCookieRefresh { x_secret: kept } && kept@
                    == x_secret@
                &&& action is RefreshCookies
            },
            _ => flow_aborts(LockdownError::ChangeRejected, post, action),
        },
        FlowState::AwaitCookieRefresh { x_secret } => match event {
            FlowEvent::Succeeded => {
                &&& post matches FlowState::AwaitGrants { x_secret: kept } && kept@ == x_secret@
                &&& action is ListGrants
            },
            _ => flow_aborts(LockdownError::AuthFailed, post, action),
        },
        FlowState::AwaitGrants { x_secret } => match event {
            FlowEvent::GrantsListed { grants } => {
                let tokens = revocable_tokens(grants.deep_view(), cfg.allowlisted_app_id@);
                if tokens.len() == 0 {
                    &&& post matches FlowState::AwaitContactSurface { x_secret: kept } && kept@
                        == x_secret@
                    &&& action is FetchContactSurface
                } else {
                    &&& post matches FlowState::AwaitRevocation { x_secret: kept, pending }
                        && kept@ == x_secret@ && pending.deep_view() == tokens
                    &&& action matches FlowAction::RevokeGrant { token } && token@ == tokens[0]
                }
            },
            _ => flow_aborts(LockdownError::RevokeRejected, post, action),
        },
        FlowState::AwaitRevocation { x_secret, pending } => match event {
            FlowEvent::Succeeded => {
                if pending.deep_view().len() <= 1 {
                    &&& post matches FlowState::AwaitContactSurface { x_secret: kept } && kept@
                        == x_secret@
                    &&& action is FetchContactSurface
                } else {
                    let remaining = pending.deep_view().drop_first();
                    &&& post matches FlowState::AwaitRevocation { x_secret: kept, pending: rest }
                        && kept@ == x_secret@ && rest.deep_view() == remaining
                    &&& action matches FlowAction::RevokeGrant { token } && token@ == remaining[0]
                }
            },
            _ => flow_aborts(LockdownError::RevokeRejected, post, action),
        },
        FlowState::AwaitContactSurface { x_secret } => match event {
            FlowEvent::ContactSurfaceFetched { surface } => {
                if contact_surface_ok(
                    surface.emails.deep_view(),
                    surface.phone_numbers.deep_view(),
                    cfg.email@,
                ) {
                    &&& post matches FlowState::AwaitSecondaryRotation { x_secret: kept } && kept@
                        == x_secret@
                    &&& action is RotateSecondary
                } else {
                    flow_aborts(LockdownError::UnexpectedContactSurface, post, action)
                }
            },
            _ => flow_aborts(LockdownError::UnexpectedContactSurface, post, action),
        },
        FlowState::AwaitSecondaryRotation { x_secret } => match event {
            FlowEvent::SecondaryRotated { email_secret } => {
                &&& post matches FlowState::AwaitCookieSerialization {
                    x_secret: kept,
                    email_secret: kept_email,
                } && kept@ == x_secret@ && kept_email@ == email_secret@
                &&& action is SerializeCookies
            },
            FlowEvent::SecondaryFailed { error } => flow_aborts(error, post, action),
            _ => flow_aborts(LockdownError::ChangeRejected, post, action),
        },
        FlowState::AwaitCookieSerialization { x_secret, email_secret } => match event {
            FlowEvent::CookiesSerialized { cookie_json } => {
                let finished = BundleView {
                    x_password: x_secret@,
                    email_password: email_secret@,
                    auth_tokens_json: cookie_json@,
                };
                &&& post matches FlowState::Done { bundle } && bundle@ == finished
                &&& action matches FlowAction::WriteBundle { bundle } && bundle@ == finished
            },
            _ => flow_aborts(LockdownError::IOError, post, action),
        },
        FlowState::Done { bundle } => {
            &&& post matches FlowState::Done { bundle: kept } && kept@ == bundle@
            &&& action matches FlowAction::WriteBundle { bundle: told } && told@ == bundle@
        },
        FlowState::Aborted { error } => flow_aborts(error, post, action),
    }
}

/// The state and action that start a run: nothing has happened yet, and the
/// caller is to authenticate to the primary provider.
pub fn flow_start() -> (r: (FlowState, FlowAction))
    ensures
        r.0 is AwaitLogin,
        r.1 is Login,
{
    (FlowState::AwaitLogin, FlowAction::Login)
}

/// The run fails with the given error.
fn flow_abort(error: LockdownError) -> (r: (FlowState, FlowAction))
    ensures
        flow_aborts(error, r.0, r.1),
{
    (FlowState::Aborted { error }, FlowAction::Abort { error })
}

/// Advance the run by one observed outcome.
pub fn flow_step(config: &FlowConfig, state: FlowState, event: FlowEvent) -> (r: (
    FlowState,
    FlowAction,
))
    ensures
        flow_trans(*config, state, event, r.0, r.1),
{
    match (state, event) {
        (FlowState::AwaitLogin, FlowEvent::Succeeded) => {
            let x_secret = get_random_password();
            let new_secret = x_secret.clone();
            (
                FlowState::AwaitPasswordChange { x_secret },
                FlowAction::ChangePassword { new_secret },
            )
        },
        (FlowState::AwaitLogin, _) => flow_abort(LockdownError::AuthFailed),
        (FlowState::AwaitPasswordChange { x_secret }, FlowEvent::Succeeded) => {
            (FlowState::AwaitCookieRefresh { x_secret }, FlowAction::RefreshCookies)
        },
        (FlowState::AwaitPasswordChange { .. }, _) => flow_abort(LockdownError::ChangeRejected),
        (FlowState::AwaitCookieRefresh { x_secret }, FlowEvent::Succeeded) => {
            (FlowState::AwaitGrants { x_secret }, FlowAction::ListGrants)
        },
        (FlowState::AwaitCookieRefresh { .. }, _) => flow_abort(LockdownError::AuthFailed),
        (FlowState::AwaitGrants { x_secret }, FlowEvent::GrantsListed { grants }) => {
            let pending = revocation_tokens(&grants, &config.allowlisted_app_id);
            if pending.len() == 0 {
                (FlowState::AwaitContactSurface { x_secret }, FlowAction::FetchContactSurface)
            } else {
                let token = pending[0].clone();
                (
                    FlowState::AwaitRevocation { x_secret, pending },
                    FlowAction::RevokeGrant { token },
                )
            }
        },
        (FlowState::AwaitGrants { .. }, _) => flow_abort(LockdownError::RevokeRejected),
        (FlowState::AwaitRevocation { x_secret, pending }, FlowEvent::Succeeded) => {
            if pending.len() <= 1 {
                (FlowState::AwaitContactSurface { x_secret }, FlowAction::FetchContactSurface)
            } else {
                let mut rest = pending;
                rest.remove(0);
                proof {
                    assert(rest.deep_view() =~~= pending.deep_view().drop_first());
                }
                let token = rest[0].clone();
                (
                    FlowState::AwaitRevocation { x_secret, pending: rest },
                    FlowAction::RevokeGrant { token },
                )
            }
        },
        (FlowState::AwaitRevocation { .. }, _) => flow_abort(LockdownError::RevokeRejected),
        (FlowState::AwaitContactSurface { x_secret }, FlowEvent::ContactSurfaceFetched {
            surface,
        }) => {
            if check_contact_surface(&surface, &config.email) {
                (FlowState::AwaitSecondaryRotation { x_secret }, FlowAction::RotateSecondary)
            } else {
                flow_abort(LockdownError::UnexpectedContactSurface)
            }
        },
        (FlowState::AwaitContactSurface { .. }, _) => flow_abort(
            LockdownError::UnexpectedContactSurface,
        ),
        (FlowState::AwaitSecondaryRotation { x_secret }, FlowEvent::SecondaryRotated {
            email_secret,
        }) => {
            (
                FlowState::AwaitCookieSerialization { x_secret, email_secret },
                FlowAction::SerializeCookies,
            )
        },
        (FlowState::AwaitSecondaryRotation { .. }, FlowEvent::SecondaryFailed { error }) => {
            flow_abort(error)
        },
        (FlowState::AwaitSecondaryRotation { .. }, _) => flow_abort(LockdownError::ChangeRejected),
        (FlowState::AwaitCookieSerialization { x_secret, email_secret },
        FlowEvent::CookiesSerialized { cookie_json }) => {
            let bundle = CredentialBundle {
                x_password: x_secret,
                email_password: email_secret,
                auth_tokens_json: cookie_json,
            };
            let told = bundle.duplicate();
            (FlowState::Done { bundle }, FlowAction::WriteBundle { bundle: told })
        },
        (FlowState::AwaitCookieSerialization { .. }, _) => flow_abort(LockdownError::IOError),
        (FlowState::Done { bundle }, _) => {
            let told = bundle.duplicate();
            (FlowState::Done { bundle }, FlowAction::WriteBundle { bundle: told })
        },
        (FlowState::Aborted { error }, _) => flow_abort(error),
    }
}

/// Law: once the primary password change has failed, the run is aborted with
/// `ChangeRejected`; no later step — cookie refresh, grant listing or
/// revocation, contact check, secondary rotation, persistence — is ever
/// requested.
pub proof fn lemma_password_change_failure_halts(
    cfg: FlowConfig,
    x_secret: String,
    event: FlowEvent,
    post: FlowState,
    action: FlowAction,
)
    requires
        flow_trans(cfg, FlowState::AwaitPasswordChange { x_secret }, event, post, action),
        !(event is Succeeded),
    ensures
        flow_aborts(LockdownError::ChangeRejected, post, action),
{
}

/// Law: an aborted run stays aborted under every further event, with its
/// original error; the only action it ever asks for again is to stop.
pub proof fn lemma_aborted_absorbs(
    cfg: FlowConfig,
    error: LockdownError,
    event: FlowEvent,
    post: FlowState,
    action: FlowAction,
)
    requires
        flow_trans(cfg, FlowState::Aborted { error }, event, post, action),
    ensures
        flow_aborts(error, post, action),
{
}

/// Law: over a whole run, an abort is permanent.  If a run stands aborted
/// and then takes any number of further transitions, each one of them merely
/// reports that same abort: no later state is anything but `Aborted` and no
/// later action is anything but `Abort`.  `states[i]` steps to
/// `states[i + 1]` under `events[i]`, answering with `actions[i]`.
pub proof fn lemma_abort_is_permanent(
    cfg: FlowConfig,
    error: LockdownError,
    events: Seq<FlowEvent>,
    states: Seq<FlowState>,
    actions: Seq<FlowAction>,
)
    requires
        states.len() == events.len() + 1,
        actions.len() == events.len(),
        states[0] matches FlowState::Aborted { error: first } && first == error,
        forall|i: int|
            0 <= i < events.len() ==> flow_trans(
                cfg,
                #[trigger] states[i],
                events[i],
                states[i + 1],
                actions[i],
            ),
    ensures
        forall|i: int| 0 <= i < events.len() ==> flow_aborts(error, states[i + 1], #[trigger] actions[i]),
    decreases events.len(),
{
    if events.len() > 0 {
        assert(flow_trans(cfg, states[0], events[0], states[1], actions[0]));
        assert(flow_aborts(error, states[1], actions[0]));
        let tail_events = events.drop_first();
        let tail_states = states.drop_first();
        let tail_actions = actions.drop_first();
        assert forall|i: int|
            0 <= i < tail_events.len() implies flow_trans(
            cfg,
            #[trigger] tail_states[i],
            tail_events[i],
            tail_states[i + 1],
            tail_actions[i],
        ) by {
            assert(flow_trans(cfg, states[i + 1], events[i + 1], states[i + 2], actions[i + 1]));
        }
        lemma_abort_is_permanent(cfg, error, tail_events, tail_states, tail_actions);
        assert forall|i: int|
            0 <= i < events.len() implies flow_aborts(error, states[i + 1], #[trigger] actions[i]) by {
            if i > 0 {
                assert(flow_aborts(error, tail_states[i], tail_actions[i - 1]));
            }
        }
    }
}

/// Law: once the primary password change has failed, the whole remaining run
/// is nothing but that abort.  The failing step answers with
/// `Abort { ChangeRejected }`, and so does every transition that any caller
/// could take afterwards, whatever events it feeds in.
pub proof fn lemma_password_change_failure_stops_the_run(
    cfg: FlowConfig,
    x_secret: String,
    first_event: FlowEvent,
    events: Seq<FlowEvent>,
    states: Seq<FlowState>,
    actions: Seq<FlowAction>,
)
    requires
        !(first_event is Succeeded),
        states.len() == events.len() + 1,
        actions.len() == events.len(),
        flow_trans(
            cfg,
            FlowState::AwaitPasswordChange { x_secret },
            first_event,
            states[0],
            FlowAction::Abort { error: LockdownError::ChangeRejected },
        ),
        forall|i: int|
            0 <= i < events.len() ==> flow_trans(
                cfg,
                #[trigger] states[i],
                events[i],
                states[i + 1],
                actions[i],
            ),
    ensures
        forall|i: int|
            0 <= i < events.len() ==> flow_aborts(
                LockdownError::ChangeRejected,
                states[i + 1],
                #[trigger] actions[i],
            ),
{
    lemma_password_change_failure_halts(
        cfg,
        x_secret,
        first_event,
        states[0],
        FlowAction::Abort { error: LockdownError::ChangeRejected },
    );
    lemma_abort_is_permanent(cfg, LockdownError::ChangeRejected, events, states, actions);
}


} // verus!
