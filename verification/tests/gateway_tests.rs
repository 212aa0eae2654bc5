use wazuh_console::gateway::{
    start_flow, step_flow, ApiError, FlowPhase, GatewayAction, GatewayEvent,
};

#[test]
fn test_cached_token_sends_at_once() {
    let (flow, action) = start_flow(Some("tok-1".to_string()));
    match action {
        GatewayAction::Send { token } => assert_eq!(token, "tok-1"),
        _ => panic!("expected a send"),
    }
    assert_eq!(flow.phase, FlowPhase::AwaitingResponse { retried: false });
    assert_eq!(flow.auths, 0);
    assert_eq!(flow.sends, 1);
}

#[test]
fn test_empty_cell_authenticates_first() {
    let (flow, action) = start_flow(None);
    assert!(matches!(action, GatewayAction::Authenticate));
    assert_eq!(flow.phase, FlowPhase::AwaitingAuth { retrying: false });
    assert_eq!(flow.auths, 1);
    assert_eq!(flow.sends, 0);
}

#[test]
fn test_unauthorized_triggers_single_reauth_and_retry() {
    let (mut flow, _) = start_flow(Some("stale".to_string()));

    let a1 = step_flow(&mut flow, GatewayEvent::Response { status: 401, body: String::new() });
    assert!(matches!(a1, GatewayAction::Authenticate));
    assert_eq!(flow.reauths, 1);

    let a2 = step_flow(&mut flow, GatewayEvent::AuthSucceeded { token: "fresh".to_string() });
    match a2 {
        GatewayAction::Send { token } => assert_eq!(token, "fresh"),
        _ => panic!("expected the retry send"),
    }
    assert_eq!(flow.token, Some("fresh".to_string()));
    assert_eq!(flow.sends, 2);

    let a3 = step_flow(
        &mut flow,
        GatewayEvent::Response { status: 401, body: "denied".to_string() },
    );
    match a3 {
        GatewayAction::Fail { error: ApiError::HttpStatus { status, body } } => {
            assert_eq!(status, 401);
            assert_eq!(body, "denied");
        },
        _ => panic!("expected a failure, not another retry"),
    }
    assert_eq!(flow.phase, FlowPhase::Done);
    assert_eq!(flow.reauths, 1);
    assert_eq!(flow.sends, 2);
}

#[test]
fn test_retry_delivers_a_success() {
    let (mut flow, _) = start_flow(Some("stale".to_string()));
    step_flow(&mut flow, GatewayEvent::Response { status: 401, body: String::new() });
    step_flow(&mut flow, GatewayEvent::AuthSucceeded { token: "fresh".to_string() });
    let a = step_flow(
        &mut flow,
        GatewayEvent::Response { status: 200, body: "{\"data\":{}}".to_string() },
    );
    match a {
        GatewayAction::Succeed { status, body } => {
            assert_eq!(status, 200);
            assert_eq!(body, "{\"data\":{}}");
        },
        _ => panic!("expected the response to be delivered"),
    }
    assert_eq!(flow.reauths, 1);
    assert_eq!(flow.sends, 2);
}

#[test]
fn test_plain_bad_status_fails_without_retry() {
    let (mut flow, _) = start_flow(Some("tok".to_string()));
    let a = step_flow(
        &mut flow,
        GatewayEvent::Response { status: 500, body: "boom".to_string() },
    );
    match a {
        GatewayAction::Fail { error: ApiError::HttpStatus { status, body } } => {
            assert_eq!(status, 500);
            assert_eq!(body, "boom");
        },
        _ => panic!("expected an immediate failure"),
    }
    assert_eq!(flow.reauths, 0);
    assert_eq!(flow.sends, 1);
}

#[test]
fn test_failed_credential_exchange_surfaces_auth_error() {
    let (mut flow, _) = start_flow(None);
    let a = step_flow(&mut flow, GatewayEvent::AuthFailed { status: 403 });
    match a {
        GatewayAction::Fail { error: ApiError::Auth { status } } => assert_eq!(status, 403),
        _ => panic!("expected an authentication error"),
    }
    assert_eq!(flow.phase, FlowPhase::Done);
}

#[test]
fn test_transport_failure_is_its_own_error() {
    let (mut flow, _) = start_flow(Some("tok".to_string()));
    let a = step_flow(
        &mut flow,
        GatewayEvent::TransportFailed { detail: "connection refused".to_string() },
    );
    match a {
        GatewayAction::Fail { error: ApiError::Transport { detail } } => {
            assert_eq!(detail, "connection refused");
        },
        _ => panic!("expected a transport error"),
    }
}

#[test]
fn test_fresh_credential_overwrites_the_cell() {
    let (mut flow, _) = start_flow(None);
    step_flow(&mut flow, GatewayEvent::AuthSucceeded { token: "first".to_string() });
    assert_eq!(flow.token, Some("first".to_string()));
}
