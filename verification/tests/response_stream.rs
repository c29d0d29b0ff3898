use codexpc::decoder::{
    decode_all, stream_failure, tool_call, tool_output, DecoderState, ResponseDecoder,
};
use codexpc::event::Event;
use codexpc::items::{CodexErr, ContentItem, ResponseEvent, ResponseItem, StreamItem, TokenUsage};

fn usage(input_tokens: u64, output_tokens: u64, total_tokens: u64) -> TokenUsage {
    TokenUsage {
        input_tokens,
        cached_input_tokens: 0,
        output_tokens,
        reasoning_output_tokens: 0,
        total_tokens,
    }
}

fn delta(text: &str) -> Event {
    Event::OutputTextDelta(text.to_string())
}

fn completed(response_id: &str, input: u64, output: u64, total: u64) -> Event {
    Event::Completed {
        response_id: response_id.to_string(),
        input_tokens: input,
        output_tokens: output,
        total_tokens: total,
    }
}

fn assistant(text: &str) -> StreamItem {
    Ok(ResponseEvent::OutputItemDone(ResponseItem::Message {
        id: None,
        role: "assistant".to_string(),
        content: vec![ContentItem::OutputText { text: text.to_string() }],
    }))
}

fn is_message(item: &StreamItem) -> bool {
    matches!(item, Ok(ResponseEvent::OutputItemDone(ResponseItem::Message { .. })))
}

fn is_terminal(item: &StreamItem) -> bool {
    matches!(item, Err(_) | Ok(ResponseEvent::Completed { .. }))
}

#[test]
fn streamed_text_is_reassembled_before_completion() {
    let out = decode_all(vec![
        Event::Created,
        delta("Hi"),
        delta(" there"),
        completed("r1", 3, 2, 5),
    ]);
    assert_eq!(
        out,
        vec![
            Ok(ResponseEvent::Created),
            Ok(ResponseEvent::OutputTextDelta("Hi".to_string())),
            Ok(ResponseEvent::OutputTextDelta(" there".to_string())),
            assistant("Hi there"),
            Ok(ResponseEvent::Completed {
                response_id: "r1".to_string(),
                token_usage: Some(TokenUsage {
                    input_tokens: 3,
                    cached_input_tokens: 0,
                    output_tokens: 2,
                    reasoning_output_tokens: 0,
                    total_tokens: 5,
                }),
            }),
        ]
    );
}

#[test]
fn error_event_fails_the_stream() {
    let out = decode_all(vec![
        Event::Created,
        Event::Error { code: "E1".to_string(), message: "boom".to_string() },
    ]);
    assert_eq!(
        out,
        vec![Ok(ResponseEvent::Created), Err(CodexErr::Stream("E1: boom".to_string()))]
    );
}

#[test]
fn error_event_ends_the_stream() {
    let mut decoder = ResponseDecoder::new();
    assert_eq!(decoder.state(), DecoderState::Streaming);
    assert!(!decoder.is_finished());
    let out = decoder.step(Event::Error { code: "E1".to_string(), message: "boom".to_string() });
    assert_eq!(out, vec![Err(CodexErr::Stream("E1: boom".to_string()))]);
    assert_eq!(decoder.state(), DecoderState::Done);
    assert!(decoder.is_finished());
    assert_eq!(decoder.step(Event::Created), vec![]);
    assert_eq!(decoder.step(delta("late")), vec![]);
    assert_eq!(decoder.step(completed("r2", 1, 1, 2)), vec![]);
    assert_eq!(decoder.state(), DecoderState::Done);
}

#[test]
fn completion_without_text_has_no_message() {
    let out = decode_all(vec![Event::Created, completed("r9", 10, 0, 10)]);
    assert_eq!(
        out,
        vec![
            Ok(ResponseEvent::Created),
            Ok(ResponseEvent::Completed {
                response_id: "r9".to_string(),
                token_usage: Some(usage(10, 0, 10)),
            }),
        ]
    );
}

#[test]
fn empty_deltas_give_no_message() {
    let out = decode_all(vec![delta(""), delta(""), completed("r", 0, 0, 0)]);
    assert_eq!(out.len(), 3);
    assert!(!out.iter().any(is_message));
    assert!(matches!(out[2], Ok(ResponseEvent::Completed { .. })));
}

#[test]
fn message_holds_deltas_in_arrival_order() {
    let out = decode_all(vec![
        delta("a"),
        Event::Created,
        delta("b"),
        Event::Metrics { ttfb_ms: 1, tokens_per_sec_bits: 0, delta_count: 2, tool_calls: 0 },
        delta("c"),
        completed("r", 1, 3, 4),
    ]);
    assert_eq!(out.len(), 6);
    assert_eq!(out[4], assistant("abc"));
    assert!(matches!(out[5], Ok(ResponseEvent::Completed { .. })));
    assert_eq!(out.iter().filter(|item| is_message(item)).count(), 1);
}

#[test]
fn nothing_follows_the_first_completion() {
    let out = decode_all(vec![
        delta("x"),
        completed("first", 1, 1, 2),
        delta("y"),
        completed("second", 2, 2, 4),
        Event::Error { code: "E".to_string(), message: "late".to_string() },
    ]);
    assert_eq!(
        out,
        vec![
            Ok(ResponseEvent::OutputTextDelta("x".to_string())),
            assistant("x"),
            Ok(ResponseEvent::Completed {
                response_id: "first".to_string(),
                token_usage: Some(usage(1, 1, 2)),
            }),
        ]
    );
    assert_eq!(out.iter().filter(|item| is_terminal(item)).count(), 1);
    assert!(is_terminal(out.last().unwrap()));
}

#[test]
fn nothing_follows_an_error() {
    let out = decode_all(vec![
        delta("x"),
        Event::Error { code: "E2".to_string(), message: "stop".to_string() },
        completed("r", 1, 1, 2),
    ]);
    assert_eq!(
        out,
        vec![
            Ok(ResponseEvent::OutputTextDelta("x".to_string())),
            Err(CodexErr::Stream("E2: stop".to_string())),
        ]
    );
}

#[test]
fn metrics_are_not_forwarded() {
    let mut decoder = ResponseDecoder::new();
    let out = decoder.step(Event::Metrics {
        ttfb_ms: 5,
        tokens_per_sec_bits: 12.5f64.to_bits(),
        delta_count: 3,
        tool_calls: 1,
    });
    assert_eq!(out, vec![]);
    assert_eq!(decoder.state(), DecoderState::Streaming);
    assert_eq!(decoder.buffered_text(), "");
}

#[test]
fn buffer_accumulates_and_resets() {
    let mut decoder = ResponseDecoder::new();
    decoder.step(delta("Hello"));
    decoder.step(delta(", world"));
    assert_eq!(decoder.buffered_text(), "Hello, world");
    let out = decoder.step(completed("r", 1, 2, 3));
    assert_eq!(out.len(), 2);
    assert_eq!(out[0], assistant("Hello, world"));
    assert_eq!(decoder.buffered_text(), "");
    assert_eq!(decoder.state(), DecoderState::Done);
}

#[test]
fn exhausted_source_closes_an_open_stream() {
    let mut decoder = ResponseDecoder::new();
    decoder.step(Event::Created);
    decoder.close();
    assert_eq!(decoder.state(), DecoderState::Closed);
    assert!(decoder.is_finished());
    assert_eq!(decoder.step(delta("late")), vec![]);
    assert_eq!(decoder.state(), DecoderState::Closed);
}

#[test]
fn exhausted_source_leaves_a_finished_stream_done() {
    let mut decoder = ResponseDecoder::new();
    decoder.step(completed("r", 0, 0, 0));
    decoder.close();
    assert_eq!(decoder.state(), DecoderState::Done);
}

#[test]
fn decoding_no_events_gives_nothing() {
    assert_eq!(decode_all(vec![]), vec![]);
}

#[test]
fn tool_call_takes_the_tool_name() {
    let item = tool_call(
        "tool_call".to_string(),
        "completed".to_string(),
        "echo".to_string(),
        "{\"msg\":\"hi\"}".to_string(),
        Some("call_1".to_string()),
    );
    assert_eq!(
        item,
        ResponseItem::CustomToolCall {
            id: None,
            status: Some("completed".to_string()),
            call_id: "call_1".to_string(),
            name: "echo".to_string(),
            input: "{\"msg\":\"hi\"}".to_string(),
        }
    );
}

#[test]
fn tool_call_falls_back_to_the_item_type() {
    let item = tool_call(
        "tool_call".to_string(),
        String::new(),
        String::new(),
        "{}".to_string(),
        None,
    );
    assert_eq!(
        item,
        ResponseItem::CustomToolCall {
            id: None,
            status: None,
            call_id: "tool_call".to_string(),
            name: "tool_call".to_string(),
            input: "{}".to_string(),
        }
    );
}

#[test]
fn tool_call_falls_back_to_the_word_tool() {
    let item = tool_call(String::new(), String::new(), String::new(), String::new(), None);
    assert_eq!(
        item,
        ResponseItem::CustomToolCall {
            id: None,
            status: None,
            call_id: "tool".to_string(),
            name: "tool".to_string(),
            input: String::new(),
        }
    );
}

#[test]
fn tool_call_without_id_uses_the_name() {
    let item = tool_call(
        "tool_call".to_string(),
        "in_progress".to_string(),
        "upper".to_string(),
        "{}".to_string(),
        None,
    );
    assert_eq!(
        item,
        ResponseItem::CustomToolCall {
            id: None,
            status: Some("in_progress".to_string()),
            call_id: "upper".to_string(),
            name: "upper".to_string(),
            input: "{}".to_string(),
        }
    );
}

#[test]
fn tool_output_keeps_its_call_id() {
    assert_eq!(
        tool_output("echo".to_string(), "hello".to_string(), Some("call_7".to_string())),
        ResponseItem::CustomToolCallOutput {
            call_id: "call_7".to_string(),
            output: "hello".to_string(),
        }
    );
}

#[test]
fn tool_output_without_id_uses_the_name() {
    assert_eq!(
        tool_output("echo".to_string(), "hello".to_string(), None),
        ResponseItem::CustomToolCallOutput {
            call_id: "echo".to_string(),
            output: "hello".to_string(),
        }
    );
}

#[test]
fn tool_events_become_items() {
    let out = decode_all(vec![
        Event::OutputItemDone {
            item_type: "tool_call".to_string(),
            status: "completed".to_string(),
            name: "echo".to_string(),
            input: "{\"msg\":\"hi\"}".to_string(),
            call_id: None,
        },
        Event::OutputItemOutput {
            name: "echo".to_string(),
            output: "hi".to_string(),
            call_id: None,
        },
    ]);
    assert_eq!(
        out,
        vec![
            Ok(ResponseEvent::OutputItemDone(ResponseItem::CustomToolCall {
                id: None,
                status: Some("completed".to_string()),
                call_id: "echo".to_string(),
                name: "echo".to_string(),
                input: "{\"msg\":\"hi\"}".to_string(),
            })),
            Ok(ResponseEvent::OutputItemDone(ResponseItem::CustomToolCallOutput {
                call_id: "echo".to_string(),
                output: "hi".to_string(),
            })),
        ]
    );
}

#[test]
fn failure_message_joins_code_and_message() {
    assert_eq!(
        stream_failure("timeout".to_string(), "tool timed out".to_string()),
        CodexErr::Stream("timeout: tool timed out".to_string())
    );
    assert_eq!(
        stream_failure(String::new(), String::new()),
        CodexErr::Stream(": ".to_string())
    );
    assert_eq!(
        stream_failure("E1".to_string(), "boom".to_string()).message(),
        "E1: boom"
    );
}

#[test]
fn only_a_completion_or_an_error_declares_the_request_over() {
    let mut decoder = ResponseDecoder::new();
    assert!(!decoder.ended_by_service());
    decoder.step(delta("x"));
    assert!(!decoder.ended_by_service());
    decoder.step(completed("r", 1, 1, 2));
    assert!(decoder.ended_by_service());
    decoder.close();
    assert!(decoder.ended_by_service());

    let mut failed = ResponseDecoder::new();
    failed.step(Event::Error { code: "E".to_string(), message: "m".to_string() });
    assert!(failed.ended_by_service());

    let mut dry = ResponseDecoder::new();
    dry.step(Event::Created);
    dry.close();
    assert!(dry.is_finished());
    assert!(!dry.ended_by_service());
}
