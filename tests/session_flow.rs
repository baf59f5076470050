use lts_wss::codec::{encode_frame, FrameError};
use lts_wss::dispatch::{Action, Handler, Query, Step};
use lts_wss::request::{QueryParams, Request, RequestKind};
use lts_wss::session::{AuthError, Credentials, Session, SessionState};

fn creds(token: &str, license: &str) -> Credentials {
    Credentials { token: token.to_string(), license_key: license.to_string() }
}

fn no_params() -> QueryParams {
    QueryParams { period: None, target_id: None, target_name: None, term: None }
}

#[test]
fn token_auth_then_node_status() {
    let mut s = Session::new();
    let step = s.dispatch(&Request::Auth { token: "tok123".to_string() });
    assert_eq!(
        step,
        Step { refresh: None, action: Action::ValidateToken { token: "tok123".to_string() } }
    );
    assert_eq!(s.complete_auth(Ok(creds("tok123", "LIC-1"))), Ok(()));
    assert_eq!(s.state(), SessionState::Authenticated);
    assert_eq!(s.credentials(), &Some(creds("tok123", "LIC-1")));

    let step = s.dispatch(&Request::GetNodeStatus);
    assert_eq!(
        step,
        Step {
            refresh: Some("tok123".to_string()),
            action: Action::Run {
                query: Query {
                    handler: Handler::NodeStatus,
                    license_key: "LIC-1".to_string(),
                    params: no_params(),
                },
            },
        }
    );

    let fresh = Session::new();
    let step = fresh.dispatch(&Request::GetNodeStatus);
    assert_eq!(step, Step { refresh: None, action: Action::Skip { kind: RequestKind::GetNodeStatus } });
}

#[test]
fn packet_chart_before_auth_is_dropped() {
    let s = Session::new();
    let step = s.dispatch(&Request::PacketChart { period: "30d".to_string() });
    assert_eq!(step, Step { refresh: None, action: Action::Skip { kind: RequestKind::PacketChart } });
    assert_eq!(s.state(), SessionState::Unauthenticated);
}

#[test]
fn undecompressable_frame_closes_only_its_session() {
    let mut bad = Session::new();
    let mut other = Session::new();
    other.complete_auth(Ok(creds("t", "L"))).unwrap();
    let garbage: Vec<u8> = vec![0xff, 0xfe, 0xfd, 0x00, 0x13];
    assert_eq!(bad.accept_frame(&garbage), Err(FrameError::Decompress));
    assert_eq!(bad.state(), SessionState::Closed);
    assert_eq!(other.state(), SessionState::Authenticated);
    let frame = encode_frame(b"still serving");
    assert_eq!(other.accept_frame(&frame), Ok(b"still serving".to_vec()));
    assert_eq!(other.state(), SessionState::Authenticated);
}

#[test]
fn malformed_payload_closes_with_deserialize_error() {
    let mut s = Session::new();
    assert_eq!(s.reject_payload(), FrameError::Deserialize);
    assert_eq!(s.state(), SessionState::Closed);
}

#[test]
fn transport_close_is_terminal() {
    let mut s = Session::new();
    s.complete_auth(Ok(creds("t", "L"))).unwrap();
    s.close();
    assert_eq!(s.state(), SessionState::Closed);
    assert_eq!(s.credentials(), &Some(creds("t", "L")));
}

#[test]
fn failed_auth_installs_nothing() {
    let mut s = Session::new();
    assert_eq!(s.complete_auth(Err(AuthError::Rejected)), Err(AuthError::Rejected));
    assert_eq!(s.state(), SessionState::Unauthenticated);
    assert_eq!(s.credentials(), &None);
}

#[test]
fn failed_reauth_keeps_previous_credentials() {
    let mut s = Session::new();
    s.complete_auth(Ok(creds("a", "LA"))).unwrap();
    assert_eq!(s.complete_auth(Err(AuthError::Rejected)), Err(AuthError::Rejected));
    assert_eq!(s.credentials(), &Some(creds("a", "LA")));
    assert_eq!(s.state(), SessionState::Authenticated);
}

#[test]
fn reauth_overwrites_credentials() {
    let mut s = Session::new();
    s.complete_auth(Ok(creds("a", "LA"))).unwrap();
    s.complete_auth(Ok(creds("b", "LB"))).unwrap();
    let step = s.dispatch(&Request::Search { term: "x".to_string() });
    assert_eq!(
        step.action,
        Action::Run {
            query: Query {
                handler: Handler::Search,
                license_key: "LB".to_string(),
                params: QueryParams { term: Some("x".to_string()), ..no_params() },
            },
        }
    );
    assert_eq!(step.refresh, Some("b".to_string()));
}

#[test]
fn login_is_handled_without_credentials() {
    let s = Session::new();
    let step = s.dispatch(&Request::Login {
        license: "L".to_string(),
        username: "u".to_string(),
        password: "p".to_string(),
    });
    assert_eq!(
        step,
        Step {
            refresh: None,
            action: Action::ValidateLogin {
                license: "L".to_string(),
                username: "u".to_string(),
                password: "p".to_string(),
            },
        }
    );
}

#[test]
fn auth_while_authenticated_does_not_refresh() {
    let mut s = Session::new();
    s.complete_auth(Ok(creds("a", "LA"))).unwrap();
    let step = s.dispatch(&Request::Auth { token: "b".to_string() });
    assert_eq!(step.refresh, None);
    assert_eq!(step.action, Action::ValidateToken { token: "b".to_string() });
}
