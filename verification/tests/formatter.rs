use balthazar::attribute::decimal_text;
use balthazar::span::{aggregate, collect_fields, ignores, merge_context};
use balthazar::{
    ArrayValue, Attribute, AttributeValue, EventData, FloatValue, JsonFormatter, SpanData,
    SpanEvent, SpanTelemetry, Timestamp,
};
use serde_json::{Number, Value};

fn attribute(key: &str, value: AttributeValue) -> Attribute {
    Attribute {
        key: key.to_string(),
        value,
    }
}

fn text(key: &str, value: &str) -> Attribute {
    attribute(key, AttributeValue::String(value.to_string()))
}

fn integer(key: &str, value: i64) -> Attribute {
    attribute(key, AttributeValue::I64(value))
}

fn float(value: f64) -> AttributeValue {
    AttributeValue::F64(FloatValue {
        json: Value::from(value),
        text: value.to_string(),
    })
}

fn span(id: u64, name: &str, attributes: Vec<Attribute>, events: Vec<SpanEvent>) -> SpanData {
    SpanData {
        id,
        name: name.to_string(),
        telemetry: Some(SpanTelemetry {
            attributes: Some(attributes),
            events: Some(events),
        }),
    }
}

fn bare_span(id: u64, name: &str) -> SpanData {
    SpanData {
        id,
        name: name.to_string(),
        telemetry: None,
    }
}

fn occurred(name: &str, attributes: Vec<Attribute>) -> SpanEvent {
    SpanEvent {
        name: name.to_string(),
        timestamp: Timestamp {
            seconds: 1_700_000_000,
            nanos: 123_456_789,
        },
        attributes,
    }
}

fn object(members: Vec<(&str, Value)>) -> Value {
    let mut map = serde_json::Map::new();
    for (key, value) in members {
        map.insert(key.to_string(), value);
    }
    Value::Object(map)
}

fn raw_event(target: &str, fields: Vec<(&str, Value)>) -> EventData {
    EventData {
        level: "INFO".to_string(),
        target: target.to_string(),
        file: Some("src/billing.rs".to_string()),
        line: Some(17),
        fields: Some(object(fields)),
    }
}

fn now() -> Timestamp {
    Timestamp {
        seconds: 1_600_000_000,
        nanos: 5_000_000,
    }
}

fn parse(line: &str) -> Value {
    serde_json::from_str(line).unwrap()
}

fn pay_chain() -> Vec<SpanData> {
    vec![
        span(1, "HTTP request", vec![text("route", "/pay")], vec![]),
        span(
            2,
            "charge_card",
            vec![integer("amount", 42)],
            vec![occurred("card_charged", vec![text("status", "ok")])],
        ),
    ]
}

#[test]
fn end_to_end_record_of_a_charged_card() {
    let formatter = JsonFormatter::new("orders".to_string(), false);
    let line = formatter
        .format_event(
            &pay_chain(),
            raw_event("orders::billing", vec![("message", Value::from("ignored"))]),
            "main".to_string(),
            now(),
        )
        .unwrap();
    assert!(line.ends_with('\n'));
    assert_eq!(line.matches('\n').count(), 1);
    let record = parse(&line);
    assert_eq!(record["current_span_simple"], Value::from("charge_card"));
    assert_eq!(record["root_span_simple"], Value::from("HTTP request"));
    assert_eq!(record["message"], Value::from("card_charged"));
    assert_eq!(record["fields"], object(vec![("status", Value::from("ok"))]));
    assert_eq!(
        record["context"],
        object(vec![("route", Value::from("/pay")), ("amount", Value::from(42))])
    );
    assert_eq!(record["from_service"], Value::from(1));
    assert_eq!(record["current_span"], Value::from("charge_card"));
    assert_eq!(record["current_span_id"], Value::from(2));
    assert_eq!(record["root_span"], Value::from("HTTP request"));
    assert_eq!(record["root_span_id"], Value::from(1));
    assert_eq!(record["level"], Value::from("INFO"));
    assert_eq!(record["target"], Value::from("orders::billing"));
    assert_eq!(record["target_simple"], Value::from("billing"));
    assert_eq!(record["file"], Value::from("src/billing.rs"));
    assert_eq!(record["line"], Value::from(17));
    assert_eq!(record["thread_id"], Value::from(""));
    assert_eq!(record["thread_name"], Value::from(""));
    assert_eq!(record["timestamp"], Value::from("2023-11-14T22:13:20.123Z"));
    assert_eq!(record.as_object().unwrap().len(), 18);
}

#[test]
fn record_with_context_holds_the_same_as_the_line() {
    let formatter = JsonFormatter::new("orders".to_string(), false);
    let chain = pay_chain();
    let context = aggregate(&chain).unwrap();
    let record = formatter
        .record_with_context(raw_event("orders::billing", vec![]), context)
        .unwrap();
    assert_eq!(record.from_service, 1);
    assert_eq!(record.message, "card_charged");
    assert_eq!(record.current_span_simple, "charge_card");
    assert_eq!(record.root_span_simple, "HTTP request");
    assert_eq!(record.fields, object(vec![("status", Value::from("ok"))]));
    assert_eq!(
        record.context,
        object(vec![("route", Value::from("/pay")), ("amount", Value::from(42))])
    );
    assert_eq!(record.timestamp, "2023-11-14T22:13:20.123Z");
}

#[test]
fn event_without_active_span_has_no_span_identity_and_no_context() {
    let formatter = JsonFormatter::new("orders".to_string(), false);
    let record = formatter
        .record_without_context(
            raw_event(
                "hyper::client",
                vec![
                    ("message", Value::from("connection opened")),
                    ("peer", Value::from("10.0.0.7")),
                    ("attempt", Value::from(3)),
                ],
            ),
            "worker-1".to_string(),
            now(),
        )
        .unwrap();
    assert_eq!(record.root_span_id, 0);
    assert_eq!(record.root_span, "");
    assert_eq!(record.root_span_simple, "");
    assert_eq!(record.current_span_id, 0);
    assert_eq!(record.current_span, "");
    assert_eq!(record.current_span_simple, "");
    assert_eq!(record.context, object(vec![]));
    assert_eq!(record.thread_id, "");
    assert_eq!(record.thread_name, "worker-1");
    assert_eq!(record.message, "connection opened");
    assert_eq!(
        record.fields,
        object(vec![("peer", Value::from("10.0.0.7")), ("attempt", Value::from(3))])
    );
    assert_eq!(record.from_service, 0);
    assert_eq!(record.target, "hyper::client");
    assert_eq!(record.target_simple, "client");
    assert_eq!(record.level, "INFO");
    assert_eq!(record.file, Some("src/billing.rs".to_string()));
    assert_eq!(record.line, Some(17));
    assert_eq!(record.timestamp, "2020-09-13T12:26:40.005Z");
}

#[test]
fn empty_chain_formats_the_raw_event() {
    let formatter = JsonFormatter::new("orders".to_string(), false);
    let line = formatter
        .format_event(
            &vec![],
            raw_event("orders::api", vec![("message", Value::from("started"))]),
            "main".to_string(),
            now(),
        )
        .unwrap();
    let record = parse(&line);
    assert_eq!(record["message"], Value::from("started"));
    assert_eq!(record["fields"], object(vec![]));
    assert_eq!(record["context"], object(vec![]));
    assert_eq!(record["root_span_id"], Value::from(0));
    assert_eq!(record["current_span_id"], Value::from(0));
    assert_eq!(record["root_span"], Value::from(""));
    assert_eq!(record["current_span"], Value::from(""));
    assert_eq!(record["thread_name"], Value::from("main"));
    assert_eq!(record["from_service"], Value::from(1));
}

#[test]
fn span_without_event_formats_like_no_span() {
    let formatter = JsonFormatter::new("orders".to_string(), false);
    let fields = vec![("message", Value::from("tick")), ("n", Value::from(1))];
    let chains: Vec<Vec<SpanData>> = vec![
        vec![span(9, "idle", vec![text("route", "/pay")], vec![])],
        vec![bare_span(9, "idle")],
        vec![SpanData {
            id: 9,
            name: "idle".to_string(),
            telemetry: Some(SpanTelemetry {
                attributes: Some(vec![text("thread.name", "t")]),
                events: None,
            }),
        }],
        vec![
            span(1, "root", vec![], vec![occurred("only the root has one", vec![])]),
            span(2, "leaf", vec![], vec![]),
        ],
    ];
    let plain = formatter
        .format_event(
            &vec![],
            raw_event("orders::api", fields.clone()),
            "main".to_string(),
            now(),
        )
        .unwrap();
    for chain in chains {
        assert!(aggregate(&chain).is_none());
        let line = formatter
            .format_event(
                &chain,
                raw_event("orders::api", fields.clone()),
                "main".to_string(),
                now(),
            )
            .unwrap();
        assert_eq!(line, plain);
    }
}

#[test]
fn distinct_keys_give_one_entry_per_span() {
    let chain = vec![
        span(1, "a", vec![text("k1", "v1")], vec![]),
        span(2, "b", vec![integer("k2", 2)], vec![]),
        span(3, "c", vec![attribute("k3", AttributeValue::Bool(true))], vec![]),
        span(4, "d", vec![text("k4", "v4")], vec![]),
    ];
    let context = merge_context(&chain);
    assert_eq!(context.len(), 4);
    assert_eq!(context["k1"], Value::from("v1"));
    assert_eq!(context["k2"], Value::from(2));
    assert_eq!(context["k3"], Value::from(true));
    assert_eq!(context["k4"], Value::from("v4"));
    for ignored in ["code.filepath", "code.lineno", "code.namespace", "thread.id", "thread.name"] {
        assert!(!context.contains_key(ignored));
    }
}

#[test]
fn ignored_keys_never_enter_the_context() {
    let chain = vec![span(
        1,
        "a",
        vec![
            text("code.filepath", "src/main.rs"),
            integer("code.lineno", 3),
            text("code.namespace", "orders"),
            integer("thread.id", 7),
            text("thread.name", "main"),
            text("kept", "yes"),
        ],
        vec![],
    )];
    let context = merge_context(&chain);
    assert_eq!(Value::Object(context), object(vec![("kept", Value::from("yes"))]));
}

#[test]
fn shared_key_keeps_the_value_nearest_to_the_root() {
    let chain = vec![
        span(1, "root", vec![text("tenant", "from-root")], vec![]),
        span(2, "middle", vec![text("tenant", "from-middle"), text("step", "m")], vec![]),
        span(3, "leaf", vec![text("tenant", "from-leaf"), text("step", "l")], vec![]),
    ];
    let context = merge_context(&chain);
    assert_eq!(context.len(), 2);
    assert_eq!(context["tenant"], Value::from("from-root"));
    assert_eq!(context["step"], Value::from("m"));
}

#[test]
fn shared_key_within_one_span_keeps_the_first() {
    let chain = vec![span(1, "root", vec![integer("n", 1), integer("n", 2)], vec![])];
    let context = merge_context(&chain);
    assert_eq!(Value::Object(context), object(vec![("n", Value::from(1))]));
}

#[test]
fn event_fields_keep_the_last_value_and_drop_ignored_keys() {
    let event = occurred(
        "done",
        vec![
            integer("n", 1),
            text("level", "info"),
            text("name", "event src/x.rs:1"),
            text("target", "orders"),
            text("code.filepath", "src/x.rs"),
            integer("code.lineno", 1),
            text("code.namespace", "orders"),
            integer("n", 2),
            text("thread.id", "7"),
            text("thread.name", "main"),
        ],
    );
    let fields = collect_fields(&event);
    assert_eq!(
        Value::Object(fields),
        object(vec![
            ("n", Value::from(2)),
            ("level", Value::from("info")),
            ("name", Value::from("event src/x.rs:1")),
            ("target", Value::from("orders")),
        ])
    );
}

#[test]
fn event_with_ignored_attributes_only_has_no_fields() {
    let formatter = JsonFormatter::new("orders".to_string(), false);
    let chain = vec![span(
        1,
        "root",
        vec![],
        vec![occurred(
            "e",
            vec![
                integer("thread.id", 7),
                text("thread.name", "main"),
                text("code.filepath", "src/x.rs"),
                integer("code.lineno", 1),
                text("code.namespace", "orders"),
            ],
        )],
    )];
    let line = formatter
        .format_event(&chain, raw_event("orders", vec![]), "main".to_string(), now())
        .unwrap();
    assert_eq!(parse(&line)["fields"], object(vec![]));
}

#[test]
fn assembled_records_take_the_given_time() {
    let formatter = JsonFormatter::new("orders".to_string(), false);
    let chain = pay_chain();
    let with = formatter.assemble_with_context(
        raw_event("orders::billing", vec![]),
        aggregate(&chain).unwrap(),
        "a moment".to_string(),
    );
    assert_eq!(with.timestamp, "a moment");
    assert_eq!(with.message, "card_charged");
    assert_eq!(with.fields, object(vec![("status", Value::from("ok"))]));
    assert_eq!(
        with.context,
        object(vec![("route", Value::from("/pay")), ("amount", Value::from(42))])
    );
    assert_eq!(with.from_service, 1);
    assert_eq!(with.root_span_simple, "HTTP request");
    assert_eq!(with.current_span_simple, "charge_card");
    assert_eq!(with.root_span_id, 1);
    assert_eq!(with.current_span_id, 2);

    let without = formatter
        .assemble_without_context(
            raw_event("hyper::client", vec![("message", Value::from("hi")), ("n", Value::from(1))]),
            "worker".to_string(),
            "another moment".to_string(),
        )
        .unwrap();
    assert_eq!(without.timestamp, "another moment");
    assert_eq!(without.message, "hi");
    assert_eq!(without.fields, object(vec![("n", Value::from(1))]));
    assert_eq!(without.context, object(vec![]));
    assert_eq!(without.thread_name, "worker");
    assert_eq!(without.from_service, 0);
    assert_eq!(without.root_span_id, 0);
    assert_eq!(without.current_span, "");

    let missing = EventData {
        level: "INFO".to_string(),
        target: "orders".to_string(),
        file: None,
        line: None,
        fields: None,
    };
    assert!(formatter
        .assemble_without_context(missing, "worker".to_string(), "t".to_string())
        .is_none());
}

#[test]
fn thread_comes_from_the_current_span_only() {
    let formatter = JsonFormatter::new("orders".to_string(), false);
    let only_ancestor = vec![
        span(
            1,
            "root",
            vec![integer("thread.id", 11), text("thread.name", "root-thread")],
            vec![],
        ),
        span(2, "leaf", vec![text("k", "v")], vec![occurred("e", vec![])]),
    ];
    let context = aggregate(&only_ancestor).unwrap();
    assert_eq!(context.thread_id, "");
    assert_eq!(context.thread_name, "");

    let both = vec![
        span(
            1,
            "root",
            vec![integer("thread.id", 11), text("thread.name", "root-thread")],
            vec![],
        ),
        span(
            2,
            "leaf",
            vec![integer("thread.id", -22), text("thread.name", "leaf-thread")],
            vec![occurred("e", vec![])],
        ),
    ];
    let record = formatter
        .record_with_context(raw_event("orders", vec![]), aggregate(&both).unwrap())
        .unwrap();
    assert_eq!(record.thread_id, "-22");
    assert_eq!(record.thread_name, "leaf-thread");
    assert_eq!(record.context, object(vec![]));
}

#[test]
fn thread_attribute_given_twice_shows_the_last() {
    let chain = vec![span(
        1,
        "root",
        vec![
            integer("thread.id", 1),
            attribute("thread.id", AttributeValue::Bool(false)),
            attribute("thread.name", float(1.5)),
            attribute(
                "thread.name",
                AttributeValue::Array(ArrayValue {
                    text: "[1,2]".to_string(),
                }),
            ),
        ],
        vec![occurred("e", vec![])],
    )];
    let context = aggregate(&chain).unwrap();
    assert_eq!(context.thread_id, "false");
    assert_eq!(context.thread_name, "[1,2]");
}

#[test]
fn root_without_telemetry_is_not_named() {
    let chain = vec![
        bare_span(5, "svc::root"),
        span(6, "svc::module::Handler", vec![], vec![occurred("e", vec![])]),
    ];
    let formatter = JsonFormatter::new("svc".to_string(), false);
    let record = formatter
        .record_with_context(raw_event("svc::module", vec![]), aggregate(&chain).unwrap())
        .unwrap();
    assert_eq!(record.root_span_id, 0);
    assert_eq!(record.root_span, "");
    assert_eq!(record.root_span_simple, "");
    assert_eq!(record.current_span_id, 6);
    assert_eq!(record.current_span, "svc::module::Handler");
    assert_eq!(record.current_span_simple, "Handler");
}

#[test]
fn selected_event_is_the_last_of_the_current_span() {
    let chain = vec![span(
        1,
        "root",
        vec![],
        vec![occurred("first", vec![]), occurred("second", vec![integer("n", 2)])],
    )];
    let context = aggregate(&chain).unwrap();
    assert_eq!(context.event.name, "second");
    assert_eq!(context.root_span_id, 1);
    assert_eq!(context.current_span_id, 1);
}

#[test]
fn simple_name_is_the_last_segment() {
    let formatter = JsonFormatter::new("svc".to_string(), false);
    assert_eq!(
        formatter.parse_simple_name("svc::module::Handler".to_string()),
        "Handler"
    );
    assert_eq!(formatter.parse_simple_name("Handler".to_string()), "Handler");
    assert_eq!(formatter.parse_simple_name("".to_string()), "");
    assert_eq!(formatter.parse_simple_name("a::".to_string()), "");
    assert_eq!(formatter.parse_simple_name("::a".to_string()), "a");
    assert_eq!(formatter.parse_simple_name("a:b".to_string()), "a:b");
    assert_eq!(formatter.parse_simple_name("a:::b".to_string()), ":b");
    assert_eq!(formatter.parse_simple_name("a::::b".to_string()), "b");
    assert_eq!(formatter.parse_simple_name("HTTP request".to_string()), "HTTP request");
    assert_eq!(formatter.parse_simple_name("é::ü".to_string()), "ü");
}

#[test]
fn simple_name_agrees_with_splitting() {
    let formatter = JsonFormatter::new("svc".to_string(), false);
    for name in ["a::b::c", ":", "::", ":::", "::::", "x:::::y", "a::b:", "::a::", "日本::語"] {
        let expected = name.split("::").last().unwrap().to_string();
        assert_eq!(formatter.parse_simple_name(name.to_string()), expected);
    }
}

#[test]
fn from_service_flags_targets_of_the_service() {
    let formatter = JsonFormatter::new("orders".to_string(), false);
    assert_eq!(formatter.parse_from_service("orders::billing"), 1);
    assert_eq!(formatter.parse_from_service("hyper::client"), 0);
    assert_eq!(formatter.parse_from_service("orders"), 1);
    assert_eq!(formatter.parse_from_service("order"), 0);
    assert_eq!(formatter.parse_from_service(""), 0);
    assert_eq!(formatter.parse_from_service("my::orders"), 0);
    let any = JsonFormatter::new("".to_string(), false);
    assert_eq!(any.parse_from_service("hyper::client"), 1);
    assert_eq!(any.parse_from_service(""), 1);
}

#[test]
fn attribute_values_convert_to_json() {
    assert_eq!(AttributeValue::Bool(true).to_json(), Value::Bool(true));
    assert_eq!(AttributeValue::I64(-5).to_json(), Value::from(-5));
    assert_eq!(AttributeValue::I64(i64::MIN).to_json(), Value::from(i64::MIN));
    assert_eq!(float(1.5).to_json(), Value::Number(Number::from_f64(1.5).unwrap()));
    assert_eq!(float(f64::NAN).to_json(), Value::Null);
    assert_eq!(
        AttributeValue::String("x".to_string()).to_json(),
        Value::String("x".to_string())
    );
    assert_eq!(
        AttributeValue::Array(ArrayValue {
            text: "[true,false]".to_string()
        })
        .to_json(),
        Value::String("".to_string())
    );
}

#[test]
fn attribute_values_display() {
    assert_eq!(AttributeValue::Bool(true).to_text(), "true");
    assert_eq!(AttributeValue::Bool(false).to_text(), "false");
    assert_eq!(AttributeValue::I64(0).to_text(), "0");
    assert_eq!(AttributeValue::I64(42).to_text(), "42");
    assert_eq!(AttributeValue::I64(-7).to_text(), "-7");
    assert_eq!(float(2.5).to_text(), "2.5");
    assert_eq!(AttributeValue::String("abc".to_string()).to_text(), "abc");
    assert_eq!(
        AttributeValue::Array(ArrayValue {
            text: "[1,2]".to_string()
        })
        .to_text(),
        "[1,2]"
    );
}

#[test]
fn decimal_text_agrees_with_display() {
    for n in [
        0i64,
        1,
        9,
        10,
        11,
        99,
        100,
        101,
        -1,
        -10,
        1234567890,
        -9876543210,
        i64::MAX,
        i64::MIN,
        i64::MIN + 1,
    ] {
        assert_eq!(decimal_text(n), n.to_string());
    }
}

#[test]
fn ignore_list() {
    for key in ["code.filepath", "code.lineno", "code.namespace", "thread.id", "thread.name"] {
        assert!(ignores(key));
    }
    for key in ["level", "name", "target", "", "thread", "thread.id ", "code", "Thread.id"] {
        assert!(!ignores(key));
    }
}

#[test]
fn message_that_is_no_text_is_dropped() {
    let formatter = JsonFormatter::new("orders".to_string(), false);
    let record = formatter
        .record_without_context(
            raw_event("orders", vec![("message", Value::from(5)), ("n", Value::from(1))]),
            "main".to_string(),
            now(),
        )
        .unwrap();
    assert_eq!(record.message, "");
    assert_eq!(record.fields, object(vec![("n", Value::from(1))]));
}

#[test]
fn fields_that_are_no_object_give_empty_fields() {
    let formatter = JsonFormatter::new("orders".to_string(), false);
    let event = EventData {
        level: "WARN".to_string(),
        target: "orders".to_string(),
        file: None,
        line: None,
        fields: Some(Value::from("message")),
    };
    let line = formatter
        .format_event(&vec![], event, "".to_string(), now())
        .unwrap();
    let record = parse(&line);
    assert_eq!(record["message"], Value::from(""));
    assert_eq!(record["fields"], object(vec![]));
    assert_eq!(record["file"], Value::Null);
    assert_eq!(record["line"], Value::Null);
    assert_eq!(record["level"], Value::from("WARN"));
}

#[test]
fn missing_fields_write_nothing() {
    let formatter = JsonFormatter::new("orders".to_string(), false);
    let event = EventData {
        level: "INFO".to_string(),
        target: "orders".to_string(),
        file: None,
        line: None,
        fields: None,
    };
    assert!(formatter
        .format_event(&vec![], event, "main".to_string(), now())
        .is_none());
}

#[test]
fn missing_fields_do_not_matter_where_an_event_is_selected() {
    let formatter = JsonFormatter::new("orders".to_string(), false);
    let event = EventData {
        level: "INFO".to_string(),
        target: "orders".to_string(),
        file: None,
        line: None,
        fields: None,
    };
    let line = formatter
        .format_event(&pay_chain(), event, "main".to_string(), now())
        .unwrap();
    assert_eq!(parse(&line)["message"], Value::from("card_charged"));
}

#[test]
fn time_that_cannot_be_rendered_writes_nothing() {
    let formatter = JsonFormatter::new("orders".to_string(), false);
    let never = Timestamp {
        seconds: i64::MAX,
        nanos: 0,
    };
    assert!(formatter
        .format_event(&vec![], raw_event("orders", vec![]), "main".to_string(), never)
        .is_none());
    let chain = vec![span(
        1,
        "root",
        vec![],
        vec![SpanEvent {
            name: "e".to_string(),
            timestamp: never,
            attributes: vec![],
        }],
    )];
    assert!(formatter
        .format_event(&chain, raw_event("orders", vec![]), "main".to_string(), now())
        .is_none());
}

#[test]
fn failed_serialization_writes_nothing() {
    let error = serde_json::from_str::<Value>("{").unwrap_err();
    assert_eq!(JsonFormatter::line_of(Err(error)), None);
    assert_eq!(
        JsonFormatter::line_of(Ok("{}".to_string())),
        Some("{}\n".to_string())
    );
}

#[test]
fn compact_and_pretty_lines() {
    let compact = JsonFormatter::new("orders".to_string(), false);
    let pretty = JsonFormatter::new("orders".to_string(), true);
    let one = compact
        .format_event(&pay_chain(), raw_event("orders", vec![]), "main".to_string(), now())
        .unwrap();
    let many = pretty
        .format_event(&pay_chain(), raw_event("orders", vec![]), "main".to_string(), now())
        .unwrap();
    assert_eq!(one.matches('\n').count(), 1);
    assert!(many.matches('\n').count() > 18);
    assert!(many.ends_with("}\n"));
    assert!(many.contains("\n  \"message\": \"card_charged\""));
    assert_eq!(parse(&one), parse(&many));
    let record = compact
        .record_with_context(raw_event("orders", vec![]), aggregate(&pay_chain()).unwrap())
        .unwrap();
    let document = record.into_json();
    assert_eq!(one, format!("{}\n", serde_json::to_string(&document).unwrap()));
    assert_eq!(many, format!("{}\n", serde_json::to_string_pretty(&document).unwrap()));
}

#[test]
fn log_renders_a_record() {
    let formatter = JsonFormatter::new("orders".to_string(), false);
    let record = formatter
        .record_without_context(
            raw_event("orders", vec![("message", Value::from("hello"))]),
            "main".to_string(),
            now(),
        )
        .unwrap();
    let line = formatter.log(record).unwrap();
    assert_eq!(
        line,
        "{\"context\":{},\"current_span\":\"\",\"current_span_id\":0,\"current_span_simple\":\"\",\
         \"fields\":{},\"file\":\"src/billing.rs\",\"from_service\":1,\"level\":\"INFO\",\"line\":17,\
         \"message\":\"hello\",\"root_span\":\"\",\"root_span_id\":0,\"root_span_simple\":\"\",\
         \"target\":\"orders\",\"target_simple\":\"orders\",\"thread_id\":\"\",\"thread_name\":\"main\",\
         \"timestamp\":\"2020-09-13T12:26:40.005Z\"}\n"
    );
}

#[test]
fn timestamps_render_in_utc_with_milliseconds() {
    let epoch = Timestamp { seconds: 0, nanos: 0 };
    assert_eq!(epoch.render(), Some("1970-01-01T00:00:00.000Z".to_string()));
    let truncated = Timestamp {
        seconds: 1_700_000_000,
        nanos: 999_999_999,
    };
    assert_eq!(truncated.render(), Some("2023-11-14T22:13:20.999Z".to_string()));
    let before = Timestamp {
        seconds: -1,
        nanos: 500_000_000,
    };
    assert_eq!(before.render(), Some("1969-12-31T23:59:59.500Z".to_string()));
    let invalid = Timestamp {
        seconds: 0,
        nanos: 2_000_000_000,
    };
    assert_eq!(invalid.render(), None);
}
