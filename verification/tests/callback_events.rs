use codexpc::decoder::decode_all;
use codexpc::event::{decode_callback, metrics_from_json, CallbackArgs, Event};
use codexpc::items::{ResponseEvent, ResponseItem};

fn args(typ: &str) -> CallbackArgs {
    CallbackArgs {
        typ: typ.to_string(),
        text: None,
        code: None,
        message: None,
        response_id: None,
        input_tokens: 0,
        output_tokens: 0,
        total_tokens: 0,
        tool_name: None,
        tool_input: None,
        tool_output: None,
    }
}

fn some(s: &str) -> Option<String> {
    Some(s.to_string())
}

#[test]
fn created_callback() {
    assert_eq!(decode_callback(args("created")), Some(Event::Created));
}

#[test]
fn created_callback_ignores_other_fields() {
    let mut a = args("created");
    a.text = some("ignored");
    a.response_id = some("r");
    a.total_tokens = 9;
    assert_eq!(decode_callback(a), Some(Event::Created));
}

#[test]
fn text_delta_callback() {
    let mut a = args("output_text.delta");
    a.text = some("Hi");
    assert_eq!(decode_callback(a), Some(Event::OutputTextDelta("Hi".to_string())));
}

#[test]
fn empty_text_delta_is_kept() {
    let mut a = args("output_text.delta");
    a.text = some("");
    assert_eq!(decode_callback(a), Some(Event::OutputTextDelta(String::new())));
}

#[test]
fn text_delta_without_text_is_dropped() {
    assert_eq!(decode_callback(args("output_text.delta")), None);
}

#[test]
fn completed_callback() {
    let mut a = args("completed");
    a.response_id = some("r1");
    a.input_tokens = 3;
    a.output_tokens = 2;
    a.total_tokens = 5;
    assert_eq!(
        decode_callback(a),
        Some(Event::Completed {
            response_id: "r1".to_string(),
            input_tokens: 3,
            output_tokens: 2,
            total_tokens: 5,
        })
    );
}

#[test]
fn completed_callback_without_id() {
    let mut a = args("completed");
    a.total_tokens = u64::MAX;
    assert_eq!(
        decode_callback(a),
        Some(Event::Completed {
            response_id: String::new(),
            input_tokens: 0,
            output_tokens: 0,
            total_tokens: u64::MAX,
        })
    );
}

#[test]
fn error_callback() {
    let mut a = args("error");
    a.code = some("E1");
    a.message = some("boom");
    assert_eq!(
        decode_callback(a),
        Some(Event::Error { code: "E1".to_string(), message: "boom".to_string() })
    );
}

#[test]
fn error_callback_without_fields() {
    assert_eq!(
        decode_callback(args("error")),
        Some(Event::Error { code: String::new(), message: String::new() })
    );
}

#[test]
fn unknown_discriminator_is_dropped() {
    assert_eq!(decode_callback(args("output_item.added")), None);
    assert_eq!(decode_callback(args("")), None);
    assert_eq!(decode_callback(args("Created")), None);
    assert_eq!(decode_callback(args("created ")), None);
}

#[test]
fn item_done_callback() {
    let mut a = args("output_item.done");
    a.code = some("tool_call");
    a.message = some("completed");
    a.response_id = some("call_1");
    a.tool_name = some("echo");
    a.tool_input = some("{\"msg\":\"hi\"}");
    a.tool_output = some("not used");
    assert_eq!(
        decode_callback(a),
        Some(Event::OutputItemDone {
            item_type: "tool_call".to_string(),
            status: "completed".to_string(),
            name: "echo".to_string(),
            input: "{\"msg\":\"hi\"}".to_string(),
            call_id: some("call_1"),
        })
    );
}

#[test]
fn item_done_callback_without_fields() {
    assert_eq!(
        decode_callback(args("output_item.done")),
        Some(Event::OutputItemDone {
            item_type: String::new(),
            status: String::new(),
            name: String::new(),
            input: String::new(),
            call_id: None,
        })
    );
}

#[test]
fn empty_call_id_counts_as_absent() {
    let mut a = args("output_item.done");
    a.code = some("tool_call");
    a.response_id = some("");
    a.tool_name = some("echo");
    match decode_callback(a) {
        Some(Event::OutputItemDone { call_id, .. }) => assert_eq!(call_id, None),
        other => panic!("unexpected event: {:?}", other),
    }
}

#[test]
fn tool_output_item_type_routes_to_tool_output() {
    let mut a = args("output_item.done");
    a.code = some("tool_call.output");
    a.message = some("completed");
    a.response_id = some("call_1");
    a.tool_name = some("echo");
    a.tool_input = some("not used");
    a.tool_output = some("hello");
    assert_eq!(
        decode_callback(a),
        Some(Event::OutputItemOutput {
            name: "echo".to_string(),
            output: "hello".to_string(),
            call_id: some("call_1"),
        })
    );
}

#[test]
fn tool_output_without_output_field() {
    let mut a = args("output_item.done");
    a.code = some("tool_call.output");
    assert_eq!(
        decode_callback(a),
        Some(Event::OutputItemOutput {
            name: String::new(),
            output: String::new(),
            call_id: None,
        })
    );
}

#[test]
fn other_item_types_route_to_item_done() {
    for item_type in ["tool_call", "tool_call.outputs", "TOOL_CALL.OUTPUT", "tool_call.output ", "message", ""] {
        let mut a = args("output_item.done");
        a.code = some(item_type);
        a.tool_output = some("out");
        match decode_callback(a) {
            Some(Event::OutputItemDone { item_type: t, .. }) => assert_eq!(t, item_type),
            other => panic!("unexpected event: {:?}", other),
        }
    }
}

#[test]
fn metrics_callback() {
    let mut a = args("metrics");
    a.text = some("{\"ttfb_ms\": 12, \"tokens_per_sec\": 34.5, \"delta_count\": 7, \"tool_calls\": 1}");
    assert_eq!(
        decode_callback(a),
        Some(Event::Metrics {
            ttfb_ms: 12,
            tokens_per_sec_bits: 34.5f64.to_bits(),
            delta_count: 7,
            tool_calls: 1,
        })
    );
}

#[test]
fn metrics_with_missing_fields_read_as_zero() {
    let mut a = args("metrics");
    a.text = some("{\"delta_count\": 4}");
    assert_eq!(
        decode_callback(a),
        Some(Event::Metrics {
            ttfb_ms: 0,
            tokens_per_sec_bits: 0.0f64.to_bits(),
            delta_count: 4,
            tool_calls: 0,
        })
    );
}

#[test]
fn metrics_with_fields_of_other_types_read_as_zero() {
    let mut a = args("metrics");
    a.text = some("{\"ttfb_ms\": -3, \"tokens_per_sec\": \"fast\", \"delta_count\": 2.5, \"tool_calls\": null}");
    assert_eq!(
        decode_callback(a),
        Some(Event::Metrics { ttfb_ms: 0, tokens_per_sec_bits: 0, delta_count: 0, tool_calls: 0 })
    );
}

#[test]
fn metrics_rate_may_be_an_integer() {
    let mut a = args("metrics");
    a.text = some("{\"tokens_per_sec\": 64}");
    match decode_callback(a) {
        Some(Event::Metrics { tokens_per_sec_bits, .. }) => {
            assert_eq!(f64::from_bits(tokens_per_sec_bits), 64.0)
        }
        other => panic!("unexpected event: {:?}", other),
    }
}

#[test]
fn metrics_that_are_no_object_read_as_zero() {
    for text in ["[1, 2]", "7", "\"ttfb_ms\"", "null"] {
        let mut a = args("metrics");
        a.text = some(text);
        assert_eq!(
            decode_callback(a),
            Some(Event::Metrics {
                ttfb_ms: 0,
                tokens_per_sec_bits: 0,
                delta_count: 0,
                tool_calls: 0,
            })
        );
    }
}

#[test]
fn malformed_metrics_are_dropped() {
    for text in ["", "{", "{\"ttfb_ms\": }", "not json", "{\"a\": 1} trailing"] {
        let mut a = args("metrics");
        a.text = some(text);
        assert_eq!(decode_callback(a), None);
    }
}

#[test]
fn metrics_without_text_are_dropped() {
    assert_eq!(decode_callback(args("metrics")), None);
}

#[test]
fn malformed_metrics_do_not_end_the_stream() {
    let mut events = Vec::new();
    let mut created = args("created");
    created.text = None;
    let mut bad = args("metrics");
    bad.text = some("{oops");
    let mut text = args("output_text.delta");
    text.text = some("ok");
    for a in [created, bad, text] {
        if let Some(ev) = decode_callback(a) {
            events.push(ev);
        }
    }
    assert_eq!(events, vec![Event::Created, Event::OutputTextDelta("ok".to_string())]);
    assert_eq!(
        decode_all(events),
        vec![Ok(ResponseEvent::Created), Ok(ResponseEvent::OutputTextDelta("ok".to_string()))]
    );
}

#[test]
fn metrics_from_a_parsed_document() {
    let doc: serde_json::Value =
        serde_json::from_str("{\"ttfb_ms\": 250, \"tokens_per_sec\": 1.5, \"tool_calls\": 2}")
            .unwrap();
    assert_eq!(
        metrics_from_json(&doc),
        Event::Metrics {
            ttfb_ms: 250,
            tokens_per_sec_bits: 1.5f64.to_bits(),
            delta_count: 0,
            tool_calls: 2,
        }
    );
}

#[test]
fn metrics_take_the_largest_count() {
    let doc: serde_json::Value =
        serde_json::from_str("{\"ttfb_ms\": 18446744073709551615}").unwrap();
    match metrics_from_json(&doc) {
        Event::Metrics { ttfb_ms, .. } => assert_eq!(ttfb_ms, u64::MAX),
        other => panic!("unexpected event: {:?}", other),
    }
}

#[test]
fn callback_call_id_reaches_the_tool_call() {
    let mut a = args("output_item.done");
    a.code = some("tool_call");
    a.response_id = some("call_42");
    a.tool_name = some("echo");
    a.tool_input = some("{}");
    let out = decode_all(vec![decode_callback(a).unwrap()]);
    assert_eq!(
        out,
        vec![Ok(ResponseEvent::OutputItemDone(ResponseItem::CustomToolCall {
            id: None,
            status: None,
            call_id: "call_42".to_string(),
            name: "echo".to_string(),
            input: "{}".to_string(),
        }))]
    );
}

#[test]
fn callback_without_names_gives_a_tool_call_named_tool() {
    let out = decode_all(vec![decode_callback(args("output_item.done")).unwrap()]);
    assert_eq!(
        out,
        vec![Ok(ResponseEvent::OutputItemDone(ResponseItem::CustomToolCall {
            id: None,
            status: None,
            call_id: "tool".to_string(),
            name: "tool".to_string(),
            input: String::new(),
        }))]
    );
}

#[test]
fn callback_tool_output_without_id_uses_the_name() {
    let mut a = args("output_item.done");
    a.code = some("tool_call.output");
    a.response_id = some("");
    a.tool_name = some("upper");
    a.tool_output = some("HELLO");
    let out = decode_all(vec![decode_callback(a).unwrap()]);
    assert_eq!(
        out,
        vec![Ok(ResponseEvent::OutputItemDone(ResponseItem::CustomToolCallOutput {
            call_id: "upper".to_string(),
            output: "HELLO".to_string(),
        }))]
    );
}
