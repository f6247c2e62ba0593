use uju::client::{
    check_ack, messages_of, pong_matches, HttpMethod, SessionState, UjuHttp,
    UjuV1Errors,
};
use uju::json::Json;
use uju::protocol::{
    ConfigurePayload, ConfigureScope, DecodeError, GlobalSessionConfig, MetadataQuery, Payload,
    Replication, ResponseCodes, SendConfig, SendConfigs, SendLaterConfig, SendMethod,
};
use uju::routes::{build_route, FLUSH_MAILBOX, SEND, START_SESSION};

fn server_message(code: ResponseCodes, extra: Option<Json>) -> Payload {
    Payload::ServerMessage { code, message: "m".into(), extra, layer: "protocol".into() }
}

fn ack() -> Payload {
    server_message(ResponseCodes::ResponseStatusSuccess, None)
}

fn hello() -> Payload {
    Payload::Hello { session: "abc".into(), heartbeat: 1500 }
}

fn started() -> UjuHttp {
    let mut c = UjuHttp::new("http://host".into());
    c.start_session(ack(), vec![hello()]).unwrap();
    c
}

fn query() -> MetadataQuery {
    MetadataQuery { debug: "d".into(), filter: vec![], select: None }
}

#[test]
fn routes_join_host_root_and_route() {
    assert_eq!(build_route("http://h", START_SESSION), "http://h/api/v1/start-session");
    assert_eq!(build_route("", FLUSH_MAILBOX), "/api/v1/flush-mailbox");
}

#[test]
fn session_start_stores_hello() {
    let c = UjuHttp::new("http://host".into());
    let req = c.start_session_request().unwrap();
    assert_eq!(req.method, HttpMethod::Post);
    assert_eq!(req.url, "http://host/api/v1/start-session");
    assert_eq!(req.authorization, None);
    let body = req.body.unwrap();
    assert!(body.contains("\"format\":\"json\""));
    assert!(body.contains("\"compression\":\"none\""));
    let c = started();
    assert_eq!(c.state(), SessionState::SessionStarted);
    assert_eq!(c.session().map(|s| s.as_str()), Some("abc"));
    assert_eq!(c.heartbeat_interval(), Some(1500));
    assert_eq!(c.start_session_request(), Err(UjuV1Errors::InvalidState));
}

#[test]
fn session_start_faults_on_deviation() {
    let mut c = UjuHttp::new("u".into());
    let r = c.start_session(server_message(ResponseCodes::ResponseStatusFailure, None), vec![hello()]);
    assert_eq!(r, Err(UjuV1Errors::ProtocolViolation));
    assert_eq!(c.state(), SessionState::Faulted);

    let mut c = UjuHttp::new("u".into());
    let r = c.start_session(ack(), vec![hello(), hello()]);
    assert_eq!(r, Err(UjuV1Errors::ProtocolViolation));
    assert_eq!(c.state(), SessionState::Faulted);

    let mut c = UjuHttp::new("u".into());
    let r = c.start_session(ack(), vec![Payload::Ping { nonce: "n".into() }]);
    assert_eq!(r, Err(UjuV1Errors::ProtocolViolation));
    assert_eq!(c.session(), None);
    assert_eq!(c.mailbox_request(), Err(UjuV1Errors::InvalidState));
}

#[test]
fn authenticate_before_session_is_invalid() {
    let c = UjuHttp::new("u".into());
    assert_eq!(c.authenticate_request("a".into()), Err(UjuV1Errors::InvalidState));
    let mut c = UjuHttp::new("u".into());
    assert_eq!(c.authenticate(ack(), vec![]), Err(UjuV1Errors::InvalidState));
    assert_eq!(c.state(), SessionState::Disconnected);
}

#[test]
fn authenticate_retries_after_failure() {
    let mut c = started();
    let req = c.authenticate_request("a".into()).unwrap();
    assert_eq!(req.url, "http://host/api/v1/send");
    assert_eq!(req.authorization.as_deref(), Some("Session abc"));
    assert!(req.body.unwrap().contains("\"opcode\":\"AUTHENTICATE\""));

    let r = c.authenticate(ack(), vec![server_message(ResponseCodes::AuthFailure, None)]);
    assert_eq!(r, Err(UjuV1Errors::AuthFailure));
    assert_eq!(c.state(), SessionState::SessionStarted);

    assert!(c.authenticate_request("b".into()).is_ok());
    let r = c.authenticate(ack(), vec![server_message(ResponseCodes::AuthSuccess, None)]);
    assert_eq!(r, Ok(()));
    assert_eq!(c.state(), SessionState::Authenticated);
    assert_eq!(c.authenticate_request("c".into()), Err(UjuV1Errors::InvalidState));
}

#[test]
fn authenticate_faults_on_unexpected_answer() {
    let mut c = started();
    let r = c.authenticate(ack(), vec![server_message(ResponseCodes::ConfigureSuccess, None)]);
    assert_eq!(r, Err(UjuV1Errors::ProtocolViolation));
    assert_eq!(c.state(), SessionState::Faulted);
}

#[test]
fn mailbox_returns_messages_in_order() {
    let text = r#"{"opcode":"SERVER_MESSAGE","payload":{"code":-1,"message":"ok","layer":"protocol",
        "extra":[{"opcode":"PING","payload":{"nonce":"1"}},
                 {"opcode":"RECEIVE","payload":{"nonce":null,"data":"x"}}]}}"#;
    let messages = UjuHttp::fetch_messages(text).unwrap();
    assert_eq!(
        messages,
        vec![
            Payload::Ping { nonce: "1".into() },
            Payload::Receive { nonce: None, data: "x".into() },
        ]
    );
}

#[test]
fn mailbox_without_extra_is_a_violation() {
    let text = r#"{"opcode":"SERVER_MESSAGE","payload":{"code":-1,"message":"ok","layer":"protocol"}}"#;
    assert_eq!(UjuHttp::fetch_messages(text), Err(UjuV1Errors::ProtocolViolation));
    let text = r#"{"opcode":"SERVER_MESSAGE","payload":{"code":-1,"message":"ok","layer":"protocol","extra":"x"}}"#;
    assert_eq!(UjuHttp::fetch_messages(text), Err(UjuV1Errors::ProtocolViolation));
    let text = r#"{"opcode":"PONG","payload":{"nonce":"1"}}"#;
    assert_eq!(UjuHttp::fetch_messages(text), Err(UjuV1Errors::ProtocolViolation));
    assert_eq!(messages_of(Payload::Ping { nonce: "n".into() }), Err(UjuV1Errors::ProtocolViolation));
    let bad = server_message(ResponseCodes::ResponseStatusSuccess, Some(Json::Array(vec![Json::Null])));
    assert_eq!(messages_of(bad), Err(UjuV1Errors::Decode(DecodeError::InvalidShape)));
    assert_eq!(UjuHttp::fetch_messages("nope"), Err(UjuV1Errors::Decode(DecodeError::NotJson)));
}

#[test]
fn mailbox_request_carries_session() {
    let c = UjuHttp::new("h".into());
    assert_eq!(c.mailbox_request(), Err(UjuV1Errors::InvalidState));
    let req = c.hello_request().unwrap();
    assert_eq!(req.method, HttpMethod::Get);
    assert_eq!(req.url, "h/api/v1/flush-mailbox");
    assert_eq!(req.authorization, None);
    let c = started();
    assert_eq!(c.hello_request(), Err(UjuV1Errors::InvalidState));
    let req = c.mailbox_request().unwrap();
    assert_eq!(req.url, "http://host/api/v1/flush-mailbox");
    assert_eq!(req.authorization.as_deref(), Some("Session abc"));
}

#[test]
fn send_needs_authentication_and_matching_settings() {
    let c = started();
    let cfg = SendConfigs::Send(SendConfig { nonce: "n".into(), await_reply: true });
    assert_eq!(
        c.send_request("d".into(), SendMethod::Immediate, cfg.clone(), query()),
        Err(UjuV1Errors::InvalidState)
    );
    let mut c = started();
    c.authenticate(ack(), vec![server_message(ResponseCodes::AuthSuccess, None)]).unwrap();
    let later = SendConfigs::SendLater(SendLaterConfig { group: "g".into() });
    assert_eq!(
        c.send_request("d".into(), SendMethod::Immediate, later, query()),
        Err(UjuV1Errors::Validation)
    );
    let req = c.send_request("d".into(), SendMethod::Immediate, cfg, query()).unwrap();
    assert_eq!(req.url, build_route("http://host", SEND));
    let body = req.body.unwrap();
    assert!(body.contains("\"method\":\"immediate\""));
    assert!(body.contains("\"await_reply\":true"));
}

#[test]
fn configure_checks_state_and_scope() {
    let global = GlobalSessionConfig { max_size: 1, max_age: 2, replication: Replication::Datacenter };
    let c = UjuHttp::new("u".into());
    assert_eq!(
        c.configure_request(ConfigureScope::Global, ConfigurePayload::Global(global.clone())),
        Err(UjuV1Errors::InvalidState)
    );
    let c = started();
    assert_eq!(
        c.configure_request(ConfigureScope::Session, ConfigurePayload::Global(global.clone())),
        Err(UjuV1Errors::Validation)
    );
    let req = c.configure_request(ConfigureScope::Global, ConfigurePayload::Global(global)).unwrap();
    assert!(req.body.unwrap().contains("\"replication\":\"Datacenter\""));
}

#[test]
fn close_is_idempotent() {
    let mut c = started();
    c.close();
    assert_eq!(c.state(), SessionState::Closed);
    c.close();
    assert_eq!(c.state(), SessionState::Closed);
    assert_eq!(c.session(), None);
    assert_eq!(c.mailbox_request(), Err(UjuV1Errors::InvalidState));
}

#[test]
fn heartbeat_ping_and_pong() {
    let mut c = started();
    assert_eq!(c.ping("n".into()), Err(UjuV1Errors::InvalidState));
    c.authenticate(ack(), vec![server_message(ResponseCodes::AuthSuccess, None)]).unwrap();
    assert_eq!(c.ping("n".into()), Ok(Payload::Ping { nonce: "n".into() }));
    assert!(pong_matches(&"n".to_string(), &Payload::Pong { nonce: "n".into() }));
    assert!(!pong_matches(&"n".to_string(), &Payload::Pong { nonce: "m".into() }));
    assert!(!pong_matches(&"n".to_string(), &Payload::Ping { nonce: "n".into() }));
    assert!(check_ack(&ack()));
    assert!(!check_ack(&server_message(ResponseCodes::AuthSuccess, None)));
}

#[test]
fn empty_mailbox_gives_no_messages() {
    let text = r#"{"opcode":"SERVER_MESSAGE","payload":{"code":-1,"message":"ok","layer":"protocol","extra":[]}}"#;
    assert_eq!(UjuHttp::fetch_messages(text), Ok(vec![]));
}
