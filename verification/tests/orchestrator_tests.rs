use oxi_launcher::errors::{AuthError, ErrorKind, LaunchError};
use oxi_launcher::orchestrator::{step, OrchestratorEvent, OrchestratorState};
use oxi_launcher::session::SessionDescriptor;

fn session() -> SessionDescriptor {
    SessionDescriptor {
        sid: "s".to_string(),
        lobby_host: "l".to_string(),
        frontier_host: "f".to_string(),
        region: 3,
        max_expansion: 1,
        language: 1,
    }
}

#[test]
fn exit_on_auth_run_ends_with_the_token_and_never_launches() {
    let s1 = step(
        OrchestratorState::Start,
        OrchestratorEvent::AuthFinished(Ok(session())),
        true,
    );
    assert!(matches!(s1, OrchestratorState::Authenticated(_)));
    let s2 = step(
        s1,
        OrchestratorEvent::ArgsFinished(Ok("//**sqex0003AA==f**//".to_string())),
        true,
    );
    assert!(matches!(s2, OrchestratorState::ArgsEncoded(_)));
    let s3 = step(s2, OrchestratorEvent::Dispatch, true);
    match s3 {
        OrchestratorState::ExitRequested(tok) => {
            assert_eq!(tok, "//**sqex0003AA==f**//");
        }
        _ => panic!("expected the early exit state"),
    }
}

#[test]
fn rejected_auth_fails_the_run_before_any_argument_step() {
    let s1 = step(
        OrchestratorState::Start,
        OrchestratorEvent::AuthFinished(Err(AuthError::RemoteRejected(401))),
        false,
    );
    match s1 {
        OrchestratorState::Failed(k) => {
            assert_eq!(k, ErrorKind::Auth(AuthError::RemoteRejected(401)));
        }
        _ => panic!("expected the failed state"),
    }
}

#[test]
fn launch_path_runs_to_done() {
    let s1 = step(
        OrchestratorState::Start,
        OrchestratorEvent::AuthFinished(Ok(session())),
        false,
    );
    let s2 = step(s1, OrchestratorEvent::ArgsFinished(Ok("tok".to_string())), false);
    let s3 = step(s2, OrchestratorEvent::Dispatch, false);
    assert!(matches!(s3, OrchestratorState::Launching(_)));
    let s4 = step(s3, OrchestratorEvent::LaunchFinished(Ok(())), false);
    assert!(matches!(s4, OrchestratorState::Done));
}

#[test]
fn failed_launch_carries_the_launch_error() {
    let launching = OrchestratorState::Launching("tok".to_string());
    let s = step(
        launching,
        OrchestratorEvent::LaunchFinished(Err(LaunchError::ExecutableNotFound)),
        false,
    );
    match s {
        OrchestratorState::Failed(k) => {
            assert_eq!(k, ErrorKind::Launch(LaunchError::ExecutableNotFound));
        }
        _ => panic!("expected the failed state"),
    }
}

#[test]
fn failed_argument_step_carries_its_error() {
    let authed = OrchestratorState::Authenticated(session());
    let s = step(
        authed,
        OrchestratorEvent::ArgsFinished(Err(ErrorKind::Repository(
            oxi_launcher::errors::RepositoryReadError,
        ))),
        false,
    );
    assert!(matches!(
        s,
        OrchestratorState::Failed(ErrorKind::Repository(_))
    ));
}
