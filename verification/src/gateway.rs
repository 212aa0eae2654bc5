//! The authenticated gateway's control logic, as a state machine: it reads
//! the cached bearer credential (authenticating first when none is cached),
//! sends the request, and on an unauthorized answer performs exactly one
//! reauthentication and one retry. The party that owns the sockets drives
//! the machine: it performs each returned action and hands back the outcome.

use vstd::prelude::*;

verus! {

/// The error taxonomy. Failures of the credential exchange, plain bad
/// statuses, a missing search endpoint, a response of the wrong shape, and
/// connection or timeout failures are kept apart.
#[derive(Debug)]
pub enum ApiError {
    Auth { status: u16 },
    HttpStatus { status: u16, body: String },
    Config,
    Deserialization { detail: String },
    Transport { detail: String },
}

/// Where a request flow stands.
#[derive(Debug, PartialEq, Eq, Structural, Clone, Copy)]
pub enum FlowPhase {
    /// A credential exchange is in flight; `retrying` when it was forced by
    /// an unauthorized answer.
    AwaitingAuth { retrying: bool },
    /// The request itself is in flight; `retried` when this is the second
    /// attempt.
    AwaitingResponse { retried: bool },
    /// The flow has delivered its outcome.
    Done,
}

/// One request's passage through the gateway, with its counters: how many
/// credential exchanges, forced reauthentications and sends this flow has
/// asked for.
pub struct RequestFlow {
    pub phase: FlowPhase,
    /// The credential cell as this flow last wrote it.
    pub token: Option<String>,
    pub auths: u32,
    pub reauths: u32,
    pub sends: u32,
}

/// What the outside driver reports back.
pub enum GatewayEvent {
    AuthSucceeded { token: String },
    AuthFailed { status: u16 },
    Response { status: u16, body: String },
    TransportFailed { detail: String },
}

/// What the gateway asks the driver to do next.
pub enum GatewayAction {
    Authenticate,
    Send { token: String },
    Succeed { status: u16, body: String },
    Fail { error: ApiError },
}

/// The counters a flow can ever reach: at most one forced reauthentication,
/// at most two sends, at most two credential exchanges; and each in-flight
/// phase pins them.
pub open spec fn flow_wf(f: RequestFlow) -> bool {
    &&& f.reauths <= 1
    &&& f.sends <= 2
    &&& f.auths <= 2
    &&& (f.phase matches FlowPhase::AwaitingAuth { retrying } ==> (if retrying {
        f.sends == 1 && f.reauths == 1
    } else {
        f.sends == 0 && f.reauths == 0 && f.auths == 1
    }))
    &&& (f.phase matches FlowPhase::AwaitingResponse { retried } ==> (if retried {
        f.sends == 2 && f.reauths == 1
    } else {
        f.sends == 1 && f.reauths == 0 && f.auths <= 1
    }))
}

/// A success status: the two-hundreds.
pub open spec fn is_success(status: u16) -> bool {
    200 <= status < 300
}

/// Which events can answer which phase.
pub open spec fn event_fits(phase: FlowPhase, event: GatewayEvent) -> bool {
    match phase {
        FlowPhase::AwaitingAuth { .. } => match event {
            GatewayEvent::AuthSucceeded { .. } => true,
            GatewayEvent::AuthFailed { .. } => true,
            GatewayEvent::TransportFailed { .. } => true,
            _ => false,
        },
        FlowPhase::AwaitingResponse { .. } => match event {
            GatewayEvent::Response { .. } => true,
            GatewayEvent::TransportFailed { .. } => true,
            _ => false,
        },
        FlowPhase::Done => false,
    }
}

/// The full transition relation. A fresh credential overwrites the cell; an
/// unauthorized answer to the first attempt forces one reauthentication and
/// one retry; any other bad status, and a bad status on the retry, fails
/// outright. The error for a failed retry carries the first answer's
/// unauthorized status with the second answer's body.
pub open spec fn step_ok(
    pre: RequestFlow,
    event: GatewayEvent,
    post: RequestFlow,
    action: GatewayAction,
) -> bool {
    match event {
        GatewayEvent::AuthSucceeded { token } => {
            &&& pre.phase matches FlowPhase::AwaitingAuth { retrying }
            &&& post.phase == (FlowPhase::AwaitingResponse { retried: retrying })
            &&& post.token == Some(token)
            &&& post.auths == pre.auths
            &&& post.reauths == pre.reauths
            &&& post.sends == pre.sends + 1
            &&& action == (GatewayAction::Send { token })
        },
        GatewayEvent::AuthFailed { status } => {
            &&& pre.phase is AwaitingAuth
            &&& post.phase is Done
            &&& post.token == pre.token
            &&& post.auths == pre.auths
            &&& post.reauths == pre.reauths
            &&& post.sends == pre.sends
            &&& action == (GatewayAction::Fail { error: ApiError::Auth { status } })
        },
        GatewayEvent::Response { status, body } => {
            &&& pre.phase matches FlowPhase::AwaitingResponse { retried }
            &&& if is_success(status) {
                &&& post.phase is Done
                &&& post.token == pre.token
                &&& post.auths == pre.auths
                &&& post.reauths == pre.reauths
                &&& post.sends == pre.sends
                &&& action == (GatewayAction::Succeed { status, body })
            } else if status == 401 && !retried {
                &&& post.phase == (FlowPhase::AwaitingAuth { retrying: true })
                &&& post.token == pre.token
                &&& post.auths == pre.auths + 1
                &&& post.reauths == pre.reauths + 1
                &&& post.sends == pre.sends
                &&& action is Authenticate
            } else {
                &&& post.phase is Done
                &&& post.token == pre.token
                &&& post.auths == pre.auths
                &&& post.reauths == pre.reauths
                &&& post.sends == pre.sends
                &&& action == (GatewayAction::Fail {
                    error: ApiError::HttpStatus {
                        status: if retried {
                            401
                        } else {
                            status
                        },
                        body,
                    },
                })
            }
        },
        GatewayEvent::TransportFailed { detail } => {
            &&& post.phase is Done
            &&& post.token == pre.token
            &&& post.auths == pre.auths
            &&& post.reauths == pre.reauths
            &&& post.sends == pre.sends
            &&& action == (GatewayAction::Fail { error: ApiError::Transport { detail } })
        },
    }
}

/// Opens a request flow against the cached credential: send at once when a
/// token is cached, authenticate first when none is.
pub fn start_flow(cached: Option<String>) -> (r: (RequestFlow, GatewayAction))
    ensures
        flow_wf(r.0),
        match cached {
            Some(t) => {
                &&& r.0.phase == (FlowPhase::AwaitingResponse { retried: false })
                &&& r.0.token == Some(t)
                &&& r.0.auths == 0
                &&& r.0.sends == 1
                &&& r.1 == (GatewayAction::Send { token: t })
            },
            None => {
                &&& r.0.phase == (FlowPhase::AwaitingAuth { retrying: false })
                &&& r.0.token is None
                &&& r.0.auths == 1
                &&& r.0.sends == 0
                &&& r.1 is Authenticate
            },
        },
        r.0.reauths == 0,
{
    match cached {
        Some(t) => {
            let flow = RequestFlow {
                phase: FlowPhase::AwaitingResponse { retried: false },
                token: Some(t.clone()),
                auths: 0,
                reauths: 0,
                sends: 1,
            };
            (flow, GatewayAction::Send { token: t })
        },
        None => {
            let flow = RequestFlow {
                phase: FlowPhase::AwaitingAuth { retrying: false },
                token: None,
                auths: 1,
                reauths: 0,
                sends: 0,
            };
            (flow, GatewayAction::Authenticate)
        },
    }
}

/// Advances a flow by one reported outcome.
pub fn step_flow(flow: &mut RequestFlow, event: GatewayEvent) -> (action: GatewayAction)
    requires
        flow_wf(*old(flow)),
        event_fits(old(flow).phase, event),
    ensures
        flow_wf(*final(flow)),
        step_ok(*old(flow), event, *final(flow), action),
{
    let phase = flow.phase;
    match event {
        GatewayEvent::AuthSucceeded { token } => match phase {
            FlowPhase::AwaitingAuth { retrying } => {
                flow.token = Some(token.clone());
                flow.sends = flow.sends + 1;
                flow.phase = FlowPhase::AwaitingResponse { retried: retrying };
                GatewayAction::Send { token }
            },
            _ => {
                proof {
                    assert(false);
                }
                GatewayAction::Authenticate
            },
        },
        GatewayEvent::AuthFailed { status } => {
            flow.phase = FlowPhase::Done;
            GatewayAction::Fail { error: ApiError::Auth { status } }
        },
        GatewayEvent::Response { status, body } => match phase {
            FlowPhase::AwaitingResponse { retried } => {
                if 200 <= status && status < 300 {
                    flow.phase = FlowPhase::Done;
                    GatewayAction::Succeed { status, body }
                } else if status == 401 && !retried {
                    flow.phase = FlowPhase::AwaitingAuth { retrying: true };
                    flow.auths = flow.auths + 1;
                    flow.reauths = flow.reauths + 1;
                    GatewayAction::Authenticate
                } else {
                    flow.phase = FlowPhase::Done;
                    let code: u16 = if retried {
                        401
                    } else {
                        status
                    };
                    GatewayAction::Fail { error: ApiError::HttpStatus { status: code, body } }
                }
            },
            _ => {
                proof {
                    assert(false);
                }
                GatewayAction::Authenticate
            },
        },
        GatewayEvent::TransportFailed { detail } => {
            flow.phase = FlowPhase::Done;
            GatewayAction::Fail { error: ApiError::Transport { detail } }
        },
    }
}

/// Law: an unauthorized answer to the first attempt triggers exactly one
/// reauthentication and exactly one retried send; when the retry is also
/// answered with a bad status — unauthorized included — the flow fails and
/// ends, rather than looping.
pub proof fn lemma_single_retry_on_unauthorized(
    f0: RequestFlow,
    e1: GatewayEvent,
    f1: RequestFlow,
    a1: GatewayAction,
    e2: GatewayEvent,
    f2: RequestFlow,
    a2: GatewayAction,
    e3: GatewayEvent,
    f3: RequestFlow,
    a3: GatewayAction,
)
    requires
        flow_wf(f0),
        f0.phase == (FlowPhase::AwaitingResponse { retried: false }),
        e1 matches GatewayEvent::Response { status: s1, .. } && s1 == 401,
        step_ok(f0, e1, f1, a1),
        e2 is AuthSucceeded,
        step_ok(f1, e2, f2, a2),
        e3 matches GatewayEvent::Response { status: s3, .. } && !is_success(s3),
        step_ok(f2, e3, f3, a3),
    ensures
        a1 is Authenticate,
        a2 is Send,
        a3 matches GatewayAction::Fail { error } && error is HttpStatus,
        f3.reauths == 1,
        f3.sends == 2,
        f3.phase is Done,
{
}

/// Law: when the retry is answered with a success status, the flow delivers
/// it, still after exactly one reauthentication and one retried send.
pub proof fn lemma_retry_delivers_success(
    f0: RequestFlow,
    e1: GatewayEvent,
    f1: RequestFlow,
    a1: GatewayAction,
    e2: GatewayEvent,
    f2: RequestFlow,
    a2: GatewayAction,
    e3: GatewayEvent,
    f3: RequestFlow,
    a3: GatewayAction,
)
    requires
        flow_wf(f0),
        f0.phase == (FlowPhase::AwaitingResponse { retried: false }),
        e1 matches GatewayEvent::Response { status: s1, .. } && s1 == 401,
        step_ok(f0, e1, f1, a1),
        e2 is AuthSucceeded,
        step_ok(f1, e2, f2, a2),
        e3 matches GatewayEvent::Response { status: s3, .. } && is_success(s3),
        step_ok(f2, e3, f3, a3),
    ensures
        a1 is Authenticate,
        a2 is Send,
        a3 is Succeed,
        f3.reauths == 1,
        f3.sends == 2,
        f3.phase is Done,
{
}

} // verus!
