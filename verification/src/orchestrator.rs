use vstd::prelude::*;

use crate::errors::{AuthError, ErrorKind, LaunchError};
use crate::session::SessionDescriptor;

verus! {

/// One run of the flow, as the states the orchestrator steps through:
/// authentication, the argument step, then either the early exit carrying
/// the token or the hand-off to the platform launcher.
pub enum OrchestratorState {
    Start,
    Authenticated(SessionDescriptor),
    ArgsEncoded(String),
    ExitRequested(String),
    Launching(String),
    Done,
    Failed(ErrorKind),
}

/// What the surrounding program reports back into the flow: the outcome of
/// the authentication call, of the argument step, or of the launch — and the
/// dispatch decision once the token is encoded.
pub enum OrchestratorEvent {
    AuthFinished(Result<SessionDescriptor, AuthError>),
    ArgsFinished(Result<String, ErrorKind>),
    Dispatch,
    LaunchFinished(Result<(), LaunchError>),
}

/// Whether a state expects an event; terminal states expect none.
pub open spec fn accepts(state: OrchestratorState, event: OrchestratorEvent) -> bool {
    match (state, event) {
        (OrchestratorState::Start, OrchestratorEvent::AuthFinished(_)) => true,
        (OrchestratorState::Authenticated(_), OrchestratorEvent::ArgsFinished(_)) => true,
        (OrchestratorState::ArgsEncoded(_), OrchestratorEvent::Dispatch) => true,
        (OrchestratorState::Launching(_), OrchestratorEvent::LaunchFinished(_)) => true,
        _ => false,
    }
}

/// The transition relation of the flow: a failed authentication or argument
/// step falls directly to the failed state carrying its error; an encoded
/// token is either emitted by the early exit or handed to the launcher,
/// never both; the launch outcome decides between done and failed.
pub open spec fn spec_step(
    state: OrchestratorState,
    event: OrchestratorEvent,
    exit_on_auth: bool,
) -> OrchestratorState {
    match (state, event) {
        (OrchestratorState::Start, OrchestratorEvent::AuthFinished(r)) => match r {
            Ok(d) => OrchestratorState::Authenticated(d),
            Err(e) => OrchestratorState::Failed(ErrorKind::Auth(e)),
        },
        (OrchestratorState::Authenticated(_), OrchestratorEvent::ArgsFinished(r)) => match r {
            Ok(tok) => OrchestratorState::ArgsEncoded(tok),
            Err(k) => OrchestratorState::Failed(k),
        },
        (OrchestratorState::ArgsEncoded(tok), OrchestratorEvent::Dispatch) => {
            if exit_on_auth {
                OrchestratorState::ExitRequested(tok)
            } else {
                OrchestratorState::Launching(tok)
            }
        },
        (OrchestratorState::Launching(_), OrchestratorEvent::LaunchFinished(r)) => match r {
            Ok(u) => OrchestratorState::Done,
            Err(e) => OrchestratorState::Failed(ErrorKind::Launch(e)),
        },
        (s, _) => s,
    }
}

/// A state from which the flow goes no further.
pub open spec fn is_terminal(state: OrchestratorState) -> bool {
    match state {
        OrchestratorState::ExitRequested(_) => true,
        OrchestratorState::Done => true,
        OrchestratorState::Failed(_) => true,
        _ => false,
    }
}

/// Advances the flow by one step.
pub fn step(state: OrchestratorState, event: OrchestratorEvent, exit_on_auth: bool) -> (r:
    OrchestratorState)
    requires
        accepts(state, event),
    ensures
        r == spec_step(state, event, exit_on_auth),
{
    match (state, event) {
        (OrchestratorState::Start, OrchestratorEvent::AuthFinished(r)) => match r {
            Ok(d) => OrchestratorState::Authenticated(d),
            Err(e) => OrchestratorState::Failed(ErrorKind::Auth(e)),
        },
        (OrchestratorState::Authenticated(_), OrchestratorEvent::ArgsFinished(r)) => match r {
            Ok(tok) => OrchestratorState::ArgsEncoded(tok),
            Err(k) => OrchestratorState::Failed(k),
        },
        (OrchestratorState::ArgsEncoded(tok), OrchestratorEvent::Dispatch) => {
            if exit_on_auth {
                OrchestratorState::ExitRequested(tok)
            } else {
                OrchestratorState::Launching(tok)
            }
        },
        (OrchestratorState::Launching(_), OrchestratorEvent::LaunchFinished(r)) => match r {
            Ok(_) => OrchestratorState::Done,
            Err(e) => OrchestratorState::Failed(ErrorKind::Launch(e)),
        },
        (s, _) => s,
    }
}

/// Law: no event is accepted in a terminal state — a finished run cannot be
/// re-entered or partially redone.
pub proof fn lemma_terminal_accepts_nothing(state: OrchestratorState, event: OrchestratorEvent)
    requires
        is_terminal(state),
    ensures
        !accepts(state, event),
{
}

/// Law: a rejected authentication ends the run at once — the flow falls to
/// the failed state carrying exactly the rejection, a terminal state, so no
/// argument building and no launch can follow.
pub proof fn lemma_rejected_auth_ends_run(status: u16, exit_on_auth: bool)
    ensures
        ({
            let next = spec_step(
                OrchestratorState::Start,
                OrchestratorEvent::AuthFinished(Err(AuthError::RemoteRejected(status))),
                exit_on_auth,
            );
            &&& next == OrchestratorState::Failed(
                ErrorKind::Auth(AuthError::RemoteRejected(status)),
            )
            &&& is_terminal(next)
        }),
{
}

/// Law: with the early exit requested, a run that authenticates and encodes
/// ends in the exit state carrying exactly the encoded token; the launching
/// state is never entered.
pub proof fn lemma_exit_on_auth_run(d: SessionDescriptor, tok: String)
    ensures
        ({
            let s1 = spec_step(
                OrchestratorState::Start,
                OrchestratorEvent::AuthFinished(Ok(d)),
                true,
            );
            let s2 = spec_step(s1, OrchestratorEvent::ArgsFinished(Ok(tok)), true);
            let s3 = spec_step(s2, OrchestratorEvent::Dispatch, true);
            &&& s1 == OrchestratorState::Authenticated(d)
            &&& s2 == OrchestratorState::ArgsEncoded(tok)
            &&& s3 == OrchestratorState::ExitRequested(tok)
            &&& !(s1 is Launching)
            &&& !(s2 is Launching)
            &&& !(s3 is Launching)
            &&& is_terminal(s3)
        }),
{
}

} // verus!
