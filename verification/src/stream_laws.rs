//! What holds of every response stream that the decoder produces.

use crate::decoder::{
    advanced, assistant_message, decoded, emitted, initial, run, usage_of, DecoderState,
    DecoderView,
};
use crate::event::{event_of, or_empty, CallbackArgsView, EventView};
use crate::items::{ResponseEventView, ResponseItemView, StreamItemView};
use crate::json::json_parsed;
use vstd::prelude::*;

verus! {

/// The event ends a stream.
pub open spec fn is_terminal_event(ev: EventView) -> bool {
    ev is Completed || ev is Error
}

/// No event of `events` ends a stream.
pub open spec fn streaming_only(events: Seq<EventView>) -> bool {
    forall|i: int| 0 <= i < events.len() ==> !is_terminal_event(#[trigger] events[i])
}

/// No event of `events` is a text delta.
pub open spec fn no_text_delta(events: Seq<EventView>) -> bool {
    forall|i: int| 0 <= i < events.len() ==> !(#[trigger] events[i] is OutputTextDelta)
}

/// The payloads of the text deltas of `events`, concatenated in order.
pub open spec fn accumulated_text(events: Seq<EventView>) -> Seq<char>
    decreases events.len(),
{
    if events.len() == 0 {
        Seq::empty()
    } else {
        accumulated_text(events.drop_last()) + (match events.last() {
            EventView::OutputTextDelta(text) => text,
            _ => Seq::empty(),
        })
    }
}

/// The stream element is a message item.
pub open spec fn is_message_item(item: StreamItemView) -> bool {
    item matches Ok(ResponseEventView::OutputItemDone(ResponseItemView::Message { .. }))
}

/// The stream element is a completion or a failure.
pub open spec fn is_terminal_item(item: StreamItemView) -> bool {
    item is Err || item matches Ok(ResponseEventView::Completed { .. })
}

/// How many elements of `items` are message items.
pub open spec fn message_count(items: Seq<StreamItemView>) -> nat
    decreases items.len(),
{
    if items.len() == 0 {
        0
    } else {
        message_count(items.drop_last()) + if is_message_item(items.last()) {
            1nat
        } else {
            0nat
        }
    }
}

/// How many elements of `items` are completions or failures.
pub open spec fn terminal_count(items: Seq<StreamItemView>) -> nat
    decreases items.len(),
{
    if items.len() == 0 {
        0
    } else {
        terminal_count(items.drop_last()) + if is_terminal_item(items.last()) {
            1nat
        } else {
            0nat
        }
    }
}

/// The elements that a completion adds to a stream whose streamed text is
/// `text`: the assistant message, unless `text` is empty, and the completion.
pub open spec fn completion_tail(
    text: Seq<char>,
    response_id: Seq<char>,
    input_tokens: u64,
    output_tokens: u64,
    total_tokens: u64,
) -> Seq<StreamItemView> {
    let completed = Ok(
        ResponseEventView::Completed {
            response_id,
            token_usage: Some(usage_of(input_tokens, output_tokens, total_tokens)),
        },
    );
    if text.len() > 0 {
        seq![Ok(ResponseEventView::OutputItemDone(assistant_message(text))), completed]
    } else {
        seq![completed]
    }
}

proof fn lemma_message_count_concat(a: Seq<StreamItemView>, b: Seq<StreamItemView>)
    ensures
        message_count(a + b) == message_count(a) + message_count(b),
    decreases b.len(),
{
    if b.len() == 0 {
        assert(a + b == a);
    } else {
        lemma_message_count_concat(a, b.drop_last());
        assert((a + b).drop_last() == a + b.drop_last());
        assert((a + b).last() == b.last());
    }
}

proof fn lemma_terminal_count_concat(a: Seq<StreamItemView>, b: Seq<StreamItemView>)
    ensures
        terminal_count(a + b) == terminal_count(a) + terminal_count(b),
    decreases b.len(),
{
    if b.len() == 0 {
        assert(a + b == a);
    } else {
        lemma_terminal_count_concat(a, b.drop_last());
        assert((a + b).drop_last() == a + b.drop_last());
        assert((a + b).last() == b.last());
    }
}

proof fn lemma_counts_of_one(item: StreamItemView)
    ensures
        message_count(seq![item]) == if is_message_item(item) {
            1nat
        } else {
            0nat
        },
        terminal_count(seq![item]) == if is_terminal_item(item) {
            1nat
        } else {
            0nat
        },
{
    let s = seq![item];
    assert(s.drop_last().len() == 0);
    assert(s.last() == item);
    assert(message_count(s.drop_last()) == 0);
    assert(terminal_count(s.drop_last()) == 0);
}

proof fn lemma_counts_of_two(first: StreamItemView, second: StreamItemView)
    ensures
        message_count(seq![first, second]) == message_count(seq![first]) + message_count(
            seq![second],
        ),
        terminal_count(seq![first, second]) == terminal_count(seq![first]) + terminal_count(
            seq![second],
        ),
{
    assert(seq![first, second] == seq![first] + seq![second]);
    lemma_message_count_concat(seq![first], seq![second]);
    lemma_terminal_count_concat(seq![first], seq![second]);
}

/// What one event adds to the counts of a stream.
proof fn lemma_counts_of_step(d: DecoderView, ev: EventView)
    ensures
        d.state != DecoderState::Streaming ==> emitted(d, ev).len() == 0,
        d.state == DecoderState::Streaming && !is_terminal_event(ev) ==> message_count(
            emitted(d, ev),
        ) == 0 && terminal_count(emitted(d, ev)) == 0,
        d.state == DecoderState::Streaming && is_terminal_event(ev) ==> terminal_count(
            emitted(d, ev),
        ) == 1 && is_terminal_item(emitted(d, ev).last()) && message_count(emitted(d, ev)) == (
        if ev is Completed && d.buffer.len() > 0 {
            1nat
        } else {
            0nat
        }),
{
    let out = emitted(d, ev);
    if d.state == DecoderState::Streaming {
        if out.len() == 1 {
            assert(out == seq![out[0]]);
            lemma_counts_of_one(out[0]);
        } else if out.len() == 2 {
            assert(out == seq![out[0], out[1]]);
            lemma_counts_of_two(out[0], out[1]);
            lemma_counts_of_one(out[0]);
            lemma_counts_of_one(out[1]);
        }
    }
}

/// While no event has ended the stream, the decoder is still streaming, holds
/// exactly the text of the deltas so far, and has emitted neither a message
/// item nor a completion or failure.
pub proof fn lemma_streaming_run(events: Seq<EventView>)
    requires
        streaming_only(events),
    ensures
        run(events).decoder.state == DecoderState::Streaming,
        run(events).decoder.buffer == accumulated_text(events),
        message_count(decoded(events)) == 0,
        terminal_count(decoded(events)) == 0,
    decreases events.len(),
{
    if events.len() > 0 {
        let before = events.drop_last();
        assert(streaming_only(before)) by {
            assert forall|i: int| 0 <= i < before.len() implies !is_terminal_event(
                #[trigger] before[i],
            ) by {
                assert(before[i] == events[i]);
            }
        }
        lemma_streaming_run(before);
        let d = run(before).decoder;
        assert(!is_terminal_event(events[events.len() - 1]));
        lemma_counts_of_step(d, events.last());
        lemma_message_count_concat(run(before).output, emitted(d, events.last()));
        lemma_terminal_count_concat(run(before).output, emitted(d, events.last()));
    }
}

/// A completion that is the first event to end the stream is preceded by one
/// assistant message that carries exactly the text of all deltas before it, in
/// their order of arrival, or by none where that text is empty. The stream up
/// to there holds no message item, so the whole stream holds at most one.
pub proof fn law_completion_carries_streamed_text(
    prefix: Seq<EventView>,
    response_id: Seq<char>,
    input_tokens: u64,
    output_tokens: u64,
    total_tokens: u64,
)
    requires
        streaming_only(prefix),
    ensures
        decoded(
            prefix.push(
                EventView::Completed { response_id, input_tokens, output_tokens, total_tokens },
            ),
        ) == decoded(prefix) + completion_tail(
            accumulated_text(prefix),
            response_id,
            input_tokens,
            output_tokens,
            total_tokens,
        ),
        message_count(decoded(prefix)) == 0,
        message_count(
            decoded(
                prefix.push(
                    EventView::Completed { response_id, input_tokens, output_tokens, total_tokens },
                ),
            ),
        ) <= 1,
{
    let completed = EventView::Completed { response_id, input_tokens, output_tokens, total_tokens };
    let events = prefix.push(completed);
    lemma_streaming_run(prefix);
    assert(events.drop_last() == prefix);
    assert(events.last() == completed);
    let d = run(prefix).decoder;
    lemma_counts_of_step(d, completed);
    lemma_message_count_concat(run(prefix).output, emitted(d, completed));
}

/// Without a text delta no assistant message is synthesised, whatever else
/// the events hold.
pub proof fn law_no_delta_no_message(events: Seq<EventView>)
    requires
        no_text_delta(events),
    ensures
        run(events).decoder.buffer.len() == 0,
        message_count(decoded(events)) == 0,
    decreases events.len(),
{
    if events.len() > 0 {
        let before = events.drop_last();
        assert(no_text_delta(before)) by {
            assert forall|i: int| 0 <= i < before.len() implies !(
            #[trigger] before[i] is OutputTextDelta) by {
                assert(before[i] == events[i]);
            }
        }
        law_no_delta_no_message(before);
        let d = run(before).decoder;
        assert(!(events[events.len() - 1] is OutputTextDelta));
        lemma_counts_of_step(d, events.last());
        lemma_message_count_concat(run(before).output, emitted(d, events.last()));
    }
}

/// Of every stream: it holds at most one completion or failure, which is then
/// its last element, and at most one message item. The decoder is still
/// streaming exactly as long as neither a completion nor a failure was
/// emitted.
pub proof fn law_stream_ends_once(events: Seq<EventView>)
    ensures
        terminal_count(decoded(events)) <= 1,
        message_count(decoded(events)) <= 1,
        run(events).decoder.state != DecoderState::Closed,
        run(events).decoder.state == DecoderState::Streaming <==> terminal_count(decoded(events))
            == 0,
        run(events).decoder.state == DecoderState::Streaming ==> message_count(decoded(events))
            == 0,
        terminal_count(decoded(events)) == 1 ==> decoded(events).len() > 0 && is_terminal_item(
            decoded(events).last(),
        ),
    decreases events.len(),
{
    if events.len() > 0 {
        let before = events.drop_last();
        law_stream_ends_once(before);
        let d = run(before).decoder;
        let added = emitted(d, events.last());
        lemma_counts_of_step(d, events.last());
        lemma_message_count_concat(run(before).output, added);
        lemma_terminal_count_concat(run(before).output, added);
        if added.len() == 0 {
            assert(run(before).output + added == run(before).output);
        } else {
            assert((run(before).output + added).last() == added.last());
        }
    }
}

/// Once a completion or an error has ended the stream, further events add
/// nothing to it.
pub proof fn law_nothing_after_end(events: Seq<EventView>, ev: EventView)
    requires
        run(events).decoder.state != DecoderState::Streaming,
    ensures
        decoded(events.push(ev)) == decoded(events),
        run(events.push(ev)).decoder == run(events).decoder,
{
    let all = events.push(ev);
    assert(all.drop_last() == events);
    assert(all.last() == ev);
    assert(run(events).output + emitted(run(events).decoder, ev) == run(events).output);
}

/// What was emitted is never taken back: the stream of a run of events
/// begins with the stream of every run that the events begin with.
pub proof fn law_output_is_never_retracted(events: Seq<EventView>, more: Seq<EventView>)
    ensures
        decoded(events).len() <= decoded(events + more).len(),
        decoded(events + more).take(decoded(events).len() as int) == decoded(events),
    decreases more.len(),
{
    if more.len() == 0 {
        assert(events + more == events);
        assert(decoded(events).take(decoded(events).len() as int) == decoded(events));
    } else {
        law_output_is_never_retracted(events, more.drop_last());
        let all = events + more;
        assert(all.drop_last() == events + more.drop_last());
        let before = run(all.drop_last());
        assert(decoded(all) == before.output + emitted(before.decoder, all.last()));
        assert(decoded(all).take(decoded(events).len() as int) == before.output.take(
            decoded(events).len() as int,
        ));
    }
}

/// A metrics event reaches the caller as nothing and leaves the decoder as it
/// was.
pub proof fn law_metrics_are_silent(
    d: DecoderView,
    ttfb_ms: u64,
    tokens_per_sec_bits: u64,
    delta_count: u64,
    tool_calls: u64,
)
    ensures
        emitted(
            d,
            EventView::Metrics { ttfb_ms, tokens_per_sec_bits, delta_count, tool_calls },
        ).len() == 0,
        advanced(d, EventView::Metrics { ttfb_ms, tokens_per_sec_bits, delta_count, tool_calls })
            == d,
{
}

/// A `metrics` callback whose text is missing or is not a JSON document gives
/// no event at all, so nothing is emitted for it and the stream goes on.
pub proof fn law_malformed_metrics_are_dropped(args: CallbackArgsView)
    requires
        args.typ == "metrics"@,
        args.text is None || json_parsed(args.text->0) is None,
    ensures
        event_of(args) is None,
{
    reveal_strlit("metrics");
    reveal_strlit("created");
    reveal_strlit("output_text.delta");
    reveal_strlit("completed");
    reveal_strlit("output_item.done");
    assert("metrics"@[0] != "created"@[0]);
    assert("metrics"@.len() != "output_text.delta"@.len());
    assert("metrics"@.len() != "completed"@.len());
    assert("metrics"@.len() != "output_item.done"@.len());
}

/// The discriminator `output_item.done` is none of those tested before it.
proof fn lemma_item_done_discriminator()
    ensures
        "output_item.done"@ != "created"@,
        "output_item.done"@ != "output_text.delta"@,
        "output_item.done"@ != "completed"@,
{
    reveal_strlit("created");
    reveal_strlit("output_text.delta");
    reveal_strlit("completed");
    reveal_strlit("output_item.done");
    assert("output_item.done"@.len() != "created"@.len());
    assert("output_item.done"@.len() != "output_text.delta"@.len());
    assert("output_item.done"@.len() != "completed"@.len());
}

/// An `output_item.done` callback becomes a tool output exactly when its item
/// type, which travels in `code`, is `tool_call.output`; with every other item
/// type it becomes a finished item.
pub proof fn law_item_routing(args: CallbackArgsView)
    requires
        args.typ == "output_item.done"@,
    ensures
        event_of(args) is Some,
        or_empty(args.code) == "tool_call.output"@ ==> event_of(args)->0 is OutputItemOutput,
        or_empty(args.code) != "tool_call.output"@ ==> event_of(args)->0 is OutputItemDone,
{
    lemma_item_done_discriminator();
}

/// A finished item reaches the caller as one tool call. Its name is the tool
/// name where that is not empty, else the item type where that is not empty,
/// else `tool`. Its call id is the `response_id` field where that is present
/// and not empty, else the name.
pub proof fn law_tool_call_naming(d: DecoderView, args: CallbackArgsView)
    requires
        d.state == DecoderState::Streaming,
        args.typ == "output_item.done"@,
        or_empty(args.code) != "tool_call.output"@,
    ensures
        event_of(args) is Some,
        emitted(d, event_of(args)->0).len() == 1,
        ({
            let name = if or_empty(args.tool_name).len() > 0 {
                or_empty(args.tool_name)
            } else if or_empty(args.code).len() > 0 {
                or_empty(args.code)
            } else {
                "tool"@
            };
            let call_id = if or_empty(args.response_id).len() > 0 {
                or_empty(args.response_id)
            } else {
                name
            };
            emitted(d, event_of(args)->0)[0] matches Ok(
                ResponseEventView::OutputItemDone(
                    ResponseItemView::CustomToolCall { name: n, call_id: c, input, .. },
                ),
            ) && n == name && c == call_id && input == or_empty(args.tool_input)
        }),
{
    lemma_item_done_discriminator();
}

/// A tool output reaches the caller as one tool-output item. Its call id is
/// the `response_id` field where that is present and not empty, else the tool
/// name.
pub proof fn law_tool_output_naming(d: DecoderView, args: CallbackArgsView)
    requires
        d.state == DecoderState::Streaming,
        args.typ == "output_item.done"@,
        or_empty(args.code) == "tool_call.output"@,
    ensures
        event_of(args) is Some,
        emitted(d, event_of(args)->0).len() == 1,
        ({
            let call_id = if or_empty(args.response_id).len() > 0 {
                or_empty(args.response_id)
            } else {
                or_empty(args.tool_name)
            };
            emitted(d, event_of(args)->0)[0] matches Ok(
                ResponseEventView::OutputItemDone(
                    ResponseItemView::CustomToolCallOutput { call_id: c, output },
                ),
            ) && c == call_id && output == or_empty(args.tool_output)
        }),
{
    lemma_item_done_discriminator();
}

} // verus!
