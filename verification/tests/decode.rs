use dap_types::capabilities::Capabilities;
use dap_types::error::{DecodeError, FieldError};
use dap_types::events::{decode_event, encode_event, Events, OtherEvent};
use dap_types::messages::{decode_message, Message};
use dap_types::value::Value;

fn s(x: &str) -> String {
    x.to_string()
}

fn obj(entries: Vec<(&str, Value)>) -> Value {
    Value::Obj(entries.into_iter().map(|(k, v)| (s(k), v)).collect())
}

#[test]
fn test_events_deserialization() {
    // Test a known event type (Stopped)
    let stopped_json = obj(vec![
        ("event", Value::Str(s("stopped"))),
        (
            "body",
            obj(vec![
                ("reason", Value::Str(s("breakpoint"))),
                ("threadId", Value::Int(1)),
            ]),
        ),
    ]);
    let stopped_event: Events = decode_event(&stopped_json).unwrap();
    assert!(matches!(stopped_event, Events::Stopped(_)));

    // Test an unknown event type
    let unknown_json = obj(vec![
        ("event", Value::Str(s("customEvent"))),
        (
            "body",
            obj(vec![
                ("someField", Value::Str(s("someValue"))),
                ("anotherField", Value::Int(42)),
            ]),
        ),
    ]);
    let unknown_event: Events = decode_event(&unknown_json).unwrap();

    if let Events::Other(other) = unknown_event {
        assert_eq!(other.event, "customEvent");
        assert_eq!(
            other.body,
            obj(vec![
                ("someField", Value::Str(s("someValue"))),
                ("anotherField", Value::Int(42)),
            ])
        );
    } else {
        panic!("Expected Other variant for unknown event");
    }
}

#[test]
fn known_tags_decode_to_their_variants_and_reencode_their_tags() {
    let cases: Vec<(&str, Value)> = vec![
        ("initialized", Value::Null),
        (
            "stopped",
            obj(vec![("reason", Value::Str(s("breakpoint")))]),
        ),
        ("continued", obj(vec![("threadId", Value::Int(1))])),
        ("exited", obj(vec![("exitCode", Value::Int(0))])),
        ("terminated", Value::Null),
        (
            "thread",
            obj(vec![
                ("reason", Value::Str(s("started"))),
                ("threadId", Value::Int(2)),
            ]),
        ),
        ("output", obj(vec![("output", Value::Str(s("hi")))])),
        (
            "breakpoint",
            obj(vec![
                ("reason", Value::Str(s("new"))),
                ("breakpoint", obj(vec![("verified", Value::Bool(true))])),
            ]),
        ),
        (
            "module",
            obj(vec![
                ("reason", Value::Str(s("new"))),
                ("module", obj(vec![("id", Value::Int(7))])),
            ]),
        ),
        (
            "loadedSource",
            obj(vec![
                ("reason", Value::Str(s("new"))),
                ("source", obj(vec![("name", Value::Str(s("a.rs")))])),
            ]),
        ),
        ("process", obj(vec![("name", Value::Str(s("adapter")))])),
        (
            "capabilities",
            obj(vec![("capabilities", obj(vec![]))]),
        ),
        (
            "progressStart",
            obj(vec![
                ("progressId", Value::Str(s("p1"))),
                ("title", Value::Str(s("t"))),
            ]),
        ),
        (
            "progressUpdate",
            obj(vec![("progressId", Value::Str(s("p1")))]),
        ),
        ("progressEnd", obj(vec![("progressId", Value::Str(s("p1")))])),
        ("invalidated", obj(vec![])),
        (
            "memory",
            obj(vec![
                ("memoryReference", Value::Str(s("0x10"))),
                ("offset", Value::Int(0)),
                ("count", Value::Int(4)),
            ]),
        ),
    ];
    for (tag, body) in cases {
        let wire = if matches!(body, Value::Null) {
            obj(vec![("event", Value::Str(s(tag)))])
        } else {
            obj(vec![("event", Value::Str(s(tag))), ("body", body)])
        };
        let ev = decode_event(&wire)
            .unwrap_or_else(|e| panic!("tag {} failed: {:?}", tag, e));
        assert!(!matches!(ev, Events::Other(_)), "tag {} fell back", tag);
        let reencoded = encode_event(&ev);
        match &reencoded {
            Value::Obj(entries) => {
                assert_eq!(entries[0].0, "event", "tag {}", tag);
                assert_eq!(entries[0].1, Value::Str(s(tag)));
            }
            _ => panic!("re-encoding of {} is not a record", tag),
        }
    }
}

#[test]
fn unknown_tag_never_fails_whatever_the_payload() {
    let payloads = vec![
        Value::Null,
        Value::Bool(true),
        Value::Int(-3),
        Value::Str(s("text")),
        Value::Arr(vec![Value::Int(1), Value::Null]),
        obj(vec![("deep", obj(vec![("x", Value::Int(1))]))]),
    ];
    for payload in payloads {
        let wire = obj(vec![
            ("event", Value::Str(s("someFutureEvent"))),
            ("body", dupv(&payload)),
        ]);
        match decode_event(&wire) {
            Ok(Events::Other(o)) => {
                assert_eq!(o.event, "someFutureEvent");
                assert_eq!(o.body, payload);
            }
            other => panic!("expected Other, got {:?}", other),
        }
    }
}

fn dupv(v: &Value) -> Value {
    match v {
        Value::Null => Value::Null,
        Value::Bool(b) => Value::Bool(*b),
        Value::Int(n) => Value::Int(*n),
        Value::Str(x) => Value::Str(x.clone()),
        Value::Arr(items) => Value::Arr(items.iter().map(dupv).collect()),
        Value::Obj(entries) => {
            Value::Obj(entries.iter().map(|(k, v)| (k.clone(), dupv(v))).collect())
        }
    }
}

#[test]
fn round_trip_decode_of_encode() {
    let stopped = obj(vec![
        ("event", Value::Str(s("stopped"))),
        (
            "body",
            obj(vec![
                ("reason", Value::Str(s("breakpoint"))),
                ("threadId", Value::Int(1)),
            ]),
        ),
    ]);
    let ev = decode_event(&stopped).unwrap();
    assert_eq!(decode_event(&encode_event(&ev)).unwrap(), ev);

    let other = Events::Other(OtherEvent {
        event: s("customEvent"),
        body: obj(vec![("x", Value::Int(9))]),
    });
    assert_eq!(decode_event(&encode_event(&other)).unwrap(), other);

    let initialized_with_caps = {
        let mut caps = Capabilities::default();
        caps.supports_step_back = Some(true);
        caps.completion_trigger_characters = Some(vec![s(".")]);
        Events::Initialized(Some(caps))
    };
    assert_eq!(
        decode_event(&encode_event(&initialized_with_caps)).unwrap(),
        initialized_with_caps
    );

    let memory = decode_event(&obj(vec![
        ("event", Value::Str(s("memory"))),
        (
            "body",
            obj(vec![
                ("memoryReference", Value::Str(s("0x10"))),
                ("offset", Value::Int(8)),
                ("count", Value::Int(16)),
            ]),
        ),
    ]))
    .unwrap();
    assert_eq!(decode_event(&encode_event(&memory)).unwrap(), memory);
}

#[test]
fn envelope_scenarios() {
    let stopped = obj(vec![
        ("type", Value::Str(s("event"))),
        ("event", Value::Str(s("stopped"))),
        (
            "body",
            obj(vec![
                ("reason", Value::Str(s("breakpoint"))),
                ("threadId", Value::Int(1)),
            ]),
        ),
    ]);
    match decode_message(&stopped).unwrap() {
        Message::Event(e) => match *e {
            Events::Stopped(p) => assert_eq!(p.thread_id, Some(1)),
            other => panic!("expected Stopped, got {:?}", other),
        },
        other => panic!("expected Event, got {:?}", other),
    }

    let custom = obj(vec![
        ("type", Value::Str(s("event"))),
        ("event", Value::Str(s("customEvent"))),
        (
            "body",
            obj(vec![
                ("someField", Value::Str(s("someValue"))),
                ("anotherField", Value::Int(42)),
            ]),
        ),
    ]);
    match decode_message(&custom).unwrap() {
        Message::Event(e) => match *e {
            Events::Other(o) => {
                assert_eq!(o.event, "customEvent");
                assert_eq!(
                    o.body,
                    obj(vec![
                        ("someField", Value::Str(s("someValue"))),
                        ("anotherField", Value::Int(42)),
                    ])
                );
            }
            other => panic!("expected Other, got {:?}", other),
        },
        other => panic!("expected Event, got {:?}", other),
    }
}

#[test]
fn request_empty_arguments_and_response_absent_body_collapse_to_none() {
    let req = obj(vec![
        ("type", Value::Str(s("request"))),
        ("seq", Value::Int(1)),
        ("command", Value::Str(s("launch"))),
        ("arguments", obj(vec![])),
    ]);
    match decode_message(&req).unwrap() {
        Message::Request(r) => {
            assert_eq!(r.seq, 1);
            assert_eq!(r.command, "launch");
            assert_eq!(r.arguments, None);
        }
        other => panic!("expected Request, got {:?}", other),
    }

    let resp = obj(vec![
        ("type", Value::Str(s("response"))),
        ("seq", Value::Int(2)),
        ("request_seq", Value::Int(1)),
        ("success", Value::Bool(true)),
        ("command", Value::Str(s("launch"))),
    ]);
    match decode_message(&resp).unwrap() {
        Message::Response(r) => {
            assert_eq!(r.request_seq, 1);
            assert!(r.success);
            assert_eq!(r.body, None);
        }
        other => panic!("expected Response, got {:?}", other),
    }
}

#[test]
fn decode_errors_name_what_failed() {
    assert_eq!(
        decode_message(&Value::Int(3)),
        Err(DecodeError::NotARecord)
    );
    let missing_seq = obj(vec![
        ("type", Value::Str(s("request"))),
        ("command", Value::Str(s("launch"))),
    ]);
    assert_eq!(
        decode_message(&missing_seq),
        Err(DecodeError::MissingField(s("seq")))
    );
    let bad_seq = obj(vec![
        ("type", Value::Str(s("request"))),
        ("seq", Value::Str(s("one"))),
        ("command", Value::Str(s("launch"))),
    ]);
    assert_eq!(
        decode_message(&bad_seq),
        Err(DecodeError::WrongType(s("seq")))
    );
    let bad_kind = obj(vec![("type", Value::Str(s("notify")))]);
    assert_eq!(
        decode_message(&bad_kind),
        Err(DecodeError::UnknownEnvelopeKind(s("notify")))
    );
    let bad_payload = obj(vec![
        ("event", Value::Str(s("stopped"))),
        ("body", obj(vec![("threadId", Value::Int(1))])),
    ]);
    assert_eq!(
        decode_event(&bad_payload),
        Err(DecodeError::EventPayload(
            s("stopped"),
            FieldError::Missing(s("reason"))
        ))
    );
}

#[test]
fn display_names_are_the_kind_or_the_preserved_tag() {
    let stopped = decode_event(&obj(vec![
        ("event", Value::Str(s("stopped"))),
        ("body", obj(vec![("reason", Value::Str(s("pause")))])),
    ]))
    .unwrap();
    assert_eq!(stopped.display_name(), "Stopped");
    let other = Events::Other(OtherEvent {
        event: s("customEvent"),
        body: Value::Null,
    });
    assert_eq!(other.display_name(), "customEvent");
}
