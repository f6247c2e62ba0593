use uju::json::Json;
use uju::protocol::{
    BooleanOperation, BooleanOperator, Compression, ConfigurePayload, ConfigureScope, DecodeError,
    FilterNode, Format, GroupConfig, LogicalOperation, LogicalOperator, MetadataQuery,
    MetadataSelect, MetadataValue, Ordering, Payload, Replication, ResponseCodes, SendConfig,
    SendConfigs, SendLaterConfig, SendMethod, SessionConfig, ValidationError,
};

fn decode(text: &str) -> Payload {
    Payload::decode(text).expect("fixture decodes")
}

fn empty_query() -> MetadataQuery {
    MetadataQuery { debug: "asdf".into(), filter: vec![], select: None }
}

#[test]
fn test_hello_payload() {
    let expected = Payload::Hello { session: "test".into(), heartbeat: 1000 };
    let actual = decode(
        r#"
        {
            "opcode": "HELLO",
            "payload": {
                "session": "test",
                "heartbeat": 1000
            }
        }
        "#,
    );
    assert_eq!(expected, actual);
}

#[test]
fn test_server_message_payload() {
    let expected = Payload::ServerMessage {
        code: ResponseCodes::ResponseStatusSuccess,
        message: "success".into(),
        extra: Some(Json::Str("ok".into())),
        layer: "protocol".into(),
    };
    let actual = decode(
        r#"
        {
            "opcode": "SERVER_MESSAGE",
            "payload": {
                "code": -1,
                "extra": "ok",
                "layer": "protocol",
                "message": "success"
            }
        }"#,
    );
    assert_eq!(expected, actual);
}

#[test]
fn test_authenticate_payload() {
    let expected = Payload::Authenticate {
        auth: "a".into(),
        config: SessionConfig {
            format: Format::Json,
            compression: Compression::Uncompressed,
            metadata: None,
        },
    };
    let actual = decode(
        r#"
        {
            "opcode": "AUTHENTICATE",
            "payload": {
                "auth": "a",
                "config": {
                    "compression": "none",
                    "format": "json"
                }
            }
        }
        "#,
    );
    assert_eq!(expected, actual);
}

#[test]
fn test_server_message_auth_success_payload() {
    let expected = Payload::ServerMessage {
        code: ResponseCodes::AuthSuccess,
        message: "auth success".into(),
        extra: None,
        layer: "protocol".into(),
    };
    let actual = decode(
        r#"
        {
            "opcode": "SERVER_MESSAGE",
            "payload": {
                "code": 0,
                "layer": "protocol",
                "message": "auth success"
            }
        }"#,
    );
    assert_eq!(expected, actual);
}

#[test]
fn test_send_payload() {
    let expected = Payload::Send {
        method: SendMethod::Immediate,
        data: "asdf".into(),
        config: SendConfigs::Send(SendConfig { nonce: "asdf".into(), await_reply: true }),
        query: MetadataQuery { debug: "asdf".into(), filter: vec![], select: None },
    };
    let actual = decode(
        r#"
            {
                "opcode": "SEND",
                "payload": {
                    "method": "immediate",
                    "data": "asdf",
                    "query": {
                        "_debug": "asdf",
                        "filter": [],
                        "select": null
                    },
                    "config": {
                        "nonce": "asdf",
                        "await_reply": true
                    }
                }
            }
            "#,
    );
    assert_eq!(expected, actual);
}

#[test]
fn test_receive_payload() {
    let expected = Payload::Receive { nonce: Some("asdf".into()), data: "asdf".into() };
    let actual = decode(
        r#"
        {
            "opcode": "RECEIVE",
            "payload": {
                "nonce": "asdf",
                "data": "asdf"
            }
        }
        "#,
    );
    assert_eq!(expected, actual);
}

fn group_config() -> GroupConfig {
    GroupConfig { max_size: 10, max_age: 3600, replication: Replication::Region }
}

fn filter_tree() -> Vec<FilterNode> {
    vec![
        FilterNode::Boolean(BooleanOperation {
            op: BooleanOperator::Equals,
            path: "kind".into(),
            value: MetadataValue::Value { value: "order".into() },
        }),
        FilterNode::Logical(LogicalOperation {
            op: LogicalOperator::Or,
            operands: vec![
                FilterNode::Boolean(BooleanOperation {
                    op: BooleanOperator::GreaterThan,
                    path: "size".into(),
                    value: MetadataValue::Path { path: "limit".into() },
                }),
                FilterNode::Logical(LogicalOperation {
                    op: LogicalOperator::Not,
                    operands: vec![FilterNode::Boolean(BooleanOperation {
                        op: BooleanOperator::Exists,
                        path: "deleted".into(),
                        value: MetadataValue::Value { value: "".into() },
                    })],
                }),
            ],
        }),
    ]
}

/// One payload of each variant, by index.
fn variant(k: usize) -> Payload {
    match k {
        0 => Payload::Hello { session: "test".into(), heartbeat: 1000 },
        1 => Payload::Authenticate {
            auth: "secret".into(),
            config: SessionConfig {
                format: Format::Msgpack,
                compression: Compression::Zstd,
                metadata: Some("m".into()),
            },
        },
        2 => Payload::ServerMessage {
            code: ResponseCodes::InvalidClientPayload,
            message: "bad".into(),
            extra: Some(Json::Array(vec![Json::Number(Some(-3)), Json::Bool(false)])),
            layer: "protocol".into(),
        },
        3 => Payload::Send {
            method: SendMethod::Later,
            data: "payload \"quoted\"".into(),
            config: SendConfigs::SendLater(SendLaterConfig { group: "g1".into() }),
            query: MetadataQuery {
                debug: "dbg".into(),
                filter: filter_tree(),
                select: Some(MetadataSelect {
                    ordering: vec![
                        (Ordering::Descending, "time".into()),
                        (Ordering::Ascending, "id".into()),
                    ],
                    limit: 5,
                }),
            },
        },
        4 => Payload::Receive { nonce: None, data: "d".into() },
        5 => Payload::Ping { nonce: "n1".into() },
        6 => Payload::Pong { nonce: "n2".into() },
        _ => Payload::Configure {
            scope: ConfigureScope::Group,
            config: ConfigurePayload::Group(group_config()),
        },
    }
}

#[test]
fn every_variant_round_trips() {
    for k in 0..8 {
        let text = variant(k).encode();
        assert_eq!(Payload::decode(&text), Ok(variant(k)), "text: {}", text);
    }
}

#[test]
fn hello_encodes_to_its_wire_form() {
    let text = Payload::Hello { session: "test".into(), heartbeat: 1000 }.encode();
    let j = uju::json::parse_json(&text).unwrap();
    let again = uju::json::parse_json(
        r#"{"opcode":"HELLO","payload":{"session":"test","heartbeat":1000}}"#,
    )
    .unwrap();
    assert_eq!(uju::json::render_json(&j), uju::json::render_json(&again));
    assert!(text.contains("\"opcode\":\"HELLO\""));
}

#[test]
fn session_config_uses_lowercase_names() {
    let j = SessionConfig {
        format: Format::Msgpack,
        compression: Compression::Zstd,
        metadata: None,
    }
    .to_json();
    let text = uju::json::render_json(&j);
    assert!(text.contains("\"msgpack\""));
    assert!(text.contains("\"zstd\""));
    assert!(text.contains("\"metadata\":null"));
}

#[test]
fn immediate_send_with_later_settings_is_refused() {
    let r = Payload::send(
        SendMethod::Immediate,
        "x".into(),
        SendConfigs::SendLater(SendLaterConfig { group: "g".into() }),
        empty_query(),
    );
    assert_eq!(r, Err(ValidationError));
    let r = Payload::send(
        SendMethod::Later,
        "x".into(),
        SendConfigs::Send(SendConfig { nonce: "n".into(), await_reply: false }),
        empty_query(),
    );
    assert_eq!(r, Err(ValidationError));
    let ok = Payload::send(
        SendMethod::Immediate,
        "x".into(),
        SendConfigs::Send(SendConfig { nonce: "n".into(), await_reply: false }),
        empty_query(),
    );
    assert!(ok.is_ok());
}

#[test]
fn immediate_send_with_later_shape_does_not_decode() {
    let text = r#"{"opcode":"SEND","payload":{"method":"immediate","data":"x",
        "config":{"group":"g"},"query":{"_debug":"d","filter":[],"select":null}}}"#;
    assert_eq!(Payload::decode(text), Err(DecodeError::AmbiguousOrInvalidUnion));
}

#[test]
fn configure_scope_must_match_settings() {
    let r = Payload::configure(ConfigureScope::Global, ConfigurePayload::Group(group_config()));
    assert_eq!(r, Err(ValidationError));
    let text = r#"{"opcode":"CONFIGURE","payload":{"scope":"session",
        "config":{"max_size":1,"max_age":2,"replication":"None"}}}"#;
    assert_eq!(Payload::decode(text), Err(DecodeError::AmbiguousOrInvalidUnion));
    let text = r#"{"opcode":"CONFIGURE","payload":{"scope":"global",
        "config":{"max_size":1,"max_age":2,"replication":"None"}}}"#;
    match Payload::decode(text) {
        Ok(Payload::Configure { scope, config: ConfigurePayload::Global(g) }) => {
            assert_eq!(scope, ConfigureScope::Global);
            assert_eq!((g.max_size, g.max_age, g.replication), (1, 2, Replication::Unreplicated));
        }
        other => panic!("unexpected {:?}", other),
    }
}

#[test]
fn malformed_text_is_not_json() {
    assert_eq!(Payload::decode("{not json"), Err(DecodeError::NotJson));
    assert_eq!(Payload::decode(r#"{"opcode":"NOPE","payload":{}}"#), Err(DecodeError::InvalidShape));
    assert_eq!(
        Payload::decode(r#"{"opcode":"HELLO","payload":{"session":"s","heartbeat":-1}}"#),
        Err(DecodeError::InvalidShape)
    );
    assert_eq!(
        Payload::decode(r#"{"opcode":"SERVER_MESSAGE","payload":{"code":9,"message":"m","layer":"l"}}"#),
        Err(DecodeError::InvalidShape)
    );
}

#[test]
fn deep_filter_trees_are_refused() {
    let mut node = String::from(r#"{"Left":{"op":"Exists","path":"p","value":{"Value":{"value":"v"}}}}"#);
    for _ in 0..35 {
        node = format!(r#"{{"Right":{{"op":"Not","operands":[{}]}}}}"#, node);
    }
    let text = format!(
        r#"{{"opcode":"SEND","payload":{{"method":"later","data":"x","config":{{"group":"g"}},
        "query":{{"_debug":"d","filter":[{}],"select":null}}}}}}"#,
        node
    );
    assert_eq!(Payload::decode(&text), Err(DecodeError::InvalidShape));
}

#[test]
fn shallow_filter_trees_are_read() {
    let mut node = String::from(r#"{"Left":{"op":"Exists","path":"p","value":{"Value":{"value":"v"}}}}"#);
    for _ in 0..20 {
        node = format!(r#"{{"Right":{{"op":"Not","operands":[{}]}}}}"#, node);
    }
    let text = format!(
        r#"{{"opcode":"SEND","payload":{{"method":"later","data":"x","config":{{"group":"g"}},
        "query":{{"_debug":"d","filter":[{}],"select":null}}}}}}"#,
        node
    );
    assert!(Payload::decode(&text).is_ok());
}

#[test]
fn response_codes_keep_their_numbers_and_order() {
    let all = [
        ResponseCodes::ResponseStatusFailure,
        ResponseCodes::ResponseStatusSuccess,
        ResponseCodes::AuthSuccess,
        ResponseCodes::AuthFailure,
        ResponseCodes::ConfigureSuccess,
        ResponseCodes::ParseFailure,
        ResponseCodes::InvalidClientPayload,
    ];
    let numbers: Vec<i32> = all.iter().map(|c| c.code()).collect();
    assert_eq!(numbers, vec![-2, -1, 0, 1, 2, 3, 4]);
    for c in all {
        assert_eq!(ResponseCodes::from_code(c.code() as i128), Some(c));
    }
    assert_eq!(ResponseCodes::from_code(5), None);
    assert!(ResponseCodes::AuthFailure > ResponseCodes::AuthSuccess);
    assert!(ResponseCodes::AuthSuccess > ResponseCodes::ResponseStatusSuccess);
    assert!(ResponseCodes::ResponseStatusSuccess > ResponseCodes::ResponseStatusFailure);
    assert_eq!(
        ResponseCodes::AuthFailure.compare(&ResponseCodes::AuthSuccess),
        std::cmp::Ordering::Greater
    );
    assert_eq!(
        ResponseCodes::ResponseStatusFailure.compare(&ResponseCodes::ResponseStatusSuccess),
        std::cmp::Ordering::Less
    );
}

#[test]
fn global_configure_round_trips() {
    let make = || Payload::Configure {
        scope: ConfigureScope::Global,
        config: ConfigurePayload::Global(uju::protocol::GlobalSessionConfig {
            max_size: 7,
            max_age: 8,
            replication: Replication::Unreplicated,
        }),
    };
    assert_eq!(Payload::decode(&make().encode()), Ok(make()));
}

#[test]
fn null_extra_is_written_as_absent() {
    let p = Payload::ServerMessage {
        code: ResponseCodes::AuthSuccess,
        message: "m".into(),
        extra: Some(Json::Null),
        layer: "l".into(),
    };
    let back = Payload::decode(&p.encode()).unwrap();
    assert_eq!(
        back,
        Payload::ServerMessage {
            code: ResponseCodes::AuthSuccess,
            message: "m".into(),
            extra: None,
            layer: "l".into(),
        }
    );
}
