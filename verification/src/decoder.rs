//! The response decoder: a state machine that turns the events of one request
//! into the elements of the caller-facing response stream.
//!
//! Streamed text is handed on as it arrives and also accumulated. When the
//! response completes, the accumulated text is emitted once more as one
//! assistant message, directly before the completion. The first completion or
//! error ends the stream: nothing is emitted after it.

use crate::event::{Event, EventView};
use crate::items::{
    items_view, CodexErr, CodexErrView, ContentItem, ContentItemView, ResponseEvent,
    ResponseEventView, ResponseItem, ResponseItemView, StreamItem, StreamItemView, TokenUsage,
};
use vstd::prelude::*;

verus! {

/// Where a request stands.
#[derive(Clone, Copy, Debug, PartialEq, Eq, Structural)]
pub enum DecoderState {
    /// Events are still expected.
    Streaming,
    /// A completion or an error ended the stream.
    Done,
    /// The event source ran dry before a completion or an error.
    Closed,
}

/// The decoder of one request.
#[derive(Debug)]
pub struct ResponseDecoder {
    state: DecoderState,
    assistant_buf: String,
}

/// The mathematical value of a [`ResponseDecoder`].
pub struct DecoderView {
    pub state: DecoderState,
    /// The text streamed so far.
    pub buffer: Seq<char>,
}

impl View for ResponseDecoder {
    type V = DecoderView;

    closed spec fn view(&self) -> DecoderView {
        DecoderView { state: self.state, buffer: self.assistant_buf@ }
    }
}

/// The decoder before any event.
pub open spec fn initial() -> DecoderView {
    DecoderView { state: DecoderState::Streaming, buffer: Seq::empty() }
}

/// The name of a tool call: the tool name, else the item type, else `tool`.
pub open spec fn resolved_name(item_type: Seq<char>, name: Seq<char>) -> Seq<char> {
    if name.len() > 0 {
        name
    } else if item_type.len() > 0 {
        item_type
    } else {
        "tool"@
    }
}

/// The tool-call item of a finished item. An empty status is left out, and a
/// missing call id is replaced by the resolved name.
pub open spec fn tool_call_item(
    item_type: Seq<char>,
    status: Seq<char>,
    name: Seq<char>,
    input: Seq<char>,
    call_id: Option<Seq<char>>,
) -> ResponseItemView {
    ResponseItemView::CustomToolCall {
        id: None,
        status: if status.len() == 0 {
            None
        } else {
            Some(status)
        },
        call_id: match call_id {
            Some(id) => id,
            None => resolved_name(item_type, name),
        },
        name: resolved_name(item_type, name),
        input,
    }
}

/// The tool-output item of a tool output. A missing call id is replaced by
/// the tool's name.
pub open spec fn tool_output_item(
    name: Seq<char>,
    output: Seq<char>,
    call_id: Option<Seq<char>>,
) -> ResponseItemView {
    ResponseItemView::CustomToolCallOutput {
        call_id: match call_id {
            Some(id) => id,
            None => name,
        },
        output,
    }
}

/// The assistant message that carries `text`.
pub open spec fn assistant_message(text: Seq<char>) -> ResponseItemView {
    ResponseItemView::Message {
        id: None,
        role: "assistant"@,
        content: seq![ContentItemView::OutputText { text }],
    }
}

/// The usage record of a completion: no cached input and no reasoning output
/// is counted.
pub open spec fn usage_of(input_tokens: u64, output_tokens: u64, total_tokens: u64) -> TokenUsage {
    TokenUsage {
        input_tokens,
        cached_input_tokens: 0,
        output_tokens,
        reasoning_output_tokens: 0,
        total_tokens,
    }
}

/// The message of the failure that an error event becomes.
pub open spec fn failure_message(code: Seq<char>, message: Seq<char>) -> Seq<char> {
    code + ": "@ + message
}

/// What the decoder emits for one event.
pub open spec fn emitted(d: DecoderView, ev: EventView) -> Seq<StreamItemView> {
    if d.state != DecoderState::Streaming {
        Seq::empty()
    } else {
        match ev {
            EventView::Created => seq![Ok(ResponseEventView::Created)],
            EventView::OutputTextDelta(text) => seq![Ok(ResponseEventView::OutputTextDelta(text))],
            EventView::Completed { response_id, input_tokens, output_tokens, total_tokens } => {
                let completed = Ok(
                    ResponseEventView::Completed {
                        response_id,
                        token_usage: Some(usage_of(input_tokens, output_tokens, total_tokens)),
                    },
                );
                if d.buffer.len() > 0 {
                    seq![
                        Ok(ResponseEventView::OutputItemDone(assistant_message(d.buffer))),
                        completed,
                    ]
                } else {
                    seq![completed]
                }
            },
            EventView::Metrics { .. } => Seq::empty(),
            EventView::Error { code, message } => seq![
                Err(CodexErrView::Stream(failure_message(code, message))),
            ],
            EventView::OutputItemDone { item_type, status, name, input, call_id } => seq![
                Ok(
                    ResponseEventView::OutputItemDone(
                        tool_call_item(item_type, status, name, input, call_id),
                    ),
                ),
            ],
            EventView::OutputItemOutput { name, output, call_id } => seq![
                Ok(ResponseEventView::OutputItemDone(tool_output_item(name, output, call_id))),
            ],
        }
    }
}

/// The decoder after one event.
pub open spec fn advanced(d: DecoderView, ev: EventView) -> DecoderView {
    if d.state != DecoderState::Streaming {
        d
    } else {
        match ev {
            EventView::OutputTextDelta(text) => DecoderView {
                state: DecoderState::Streaming,
                buffer: d.buffer + text,
            },
            EventView::Completed { .. } => DecoderView {
                state: DecoderState::Done,
                buffer: Seq::empty(),
            },
            EventView::Error { .. } => DecoderView { state: DecoderState::Done, buffer: d.buffer },
            _ => d,
        }
    }
}

/// The decoder after its event source ran dry.
pub open spec fn closed(d: DecoderView) -> DecoderView {
    if d.state == DecoderState::Streaming {
        DecoderView { state: DecoderState::Closed, buffer: d.buffer }
    } else {
        d
    }
}

/// A decoder and all it has emitted.
pub struct Run {
    pub decoder: DecoderView,
    pub output: Seq<StreamItemView>,
}

/// A fresh decoder fed `events` in order.
pub open spec fn run(events: Seq<EventView>) -> Run
    decreases events.len(),
{
    if events.len() == 0 {
        Run { decoder: initial(), output: Seq::empty() }
    } else {
        let before = run(events.drop_last());
        Run {
            decoder: advanced(before.decoder, events.last()),
            output: before.output + emitted(before.decoder, events.last()),
        }
    }
}

/// The response stream of a request whose events are `events`.
pub open spec fn decoded(events: Seq<EventView>) -> Seq<StreamItemView> {
    run(events).output
}

/// The name under which a tool call is reported.
fn resolve_name(item_type: String, name: String) -> (r: String)
    ensures
        r@ == resolved_name(item_type@, name@),
{
    if name.as_str().is_empty() {
        if item_type.as_str().is_empty() {
            String::from_str("tool")
        } else {
            item_type
        }
    } else {
        name
    }
}

/// The tool-call item of a finished item.
pub fn tool_call(
    item_type: String,
    status: String,
    name: String,
    input: String,
    call_id: Option<String>,
) -> (item: ResponseItem)
    ensures
        item@ == tool_call_item(item_type@, status@, name@, input@, call_id.deep_view()),
{
    let call_name = resolve_name(item_type, name);
    let call_id_final = match call_id {
        Some(id) => id,
        None => call_name.clone(),
    };
    let status = if status.as_str().is_empty() {
        None
    } else {
        Some(status)
    };
    ResponseItem::CustomToolCall {
        id: None,
        status,
        call_id: call_id_final,
        name: call_name,
        input,
    }
}

/// The tool-output item of a tool output.
pub fn tool_output(name: String, output: String, call_id: Option<String>) -> (item: ResponseItem)
    ensures
        item@ == tool_output_item(name@, output@, call_id.deep_view()),
{
    let call_id_final = match call_id {
        Some(id) => id,
        None => name,
    };
    ResponseItem::CustomToolCallOutput { call_id: call_id_final, output }
}

/// The failure that an error event becomes.
pub fn stream_failure(code: String, message: String) -> (err: CodexErr)
    ensures
        err@ == CodexErrView::Stream(failure_message(code@, message@)),
{
    let mut text = code;
    text.append(": ");
    text.append(message.as_str());
    CodexErr::Stream(text)
}

impl ResponseDecoder {
    /// A decoder that has seen no event.
    pub fn new() -> (d: ResponseDecoder)
        ensures
            d@ == initial(),
    {
        ResponseDecoder { state: DecoderState::Streaming, assistant_buf: String::new() }
    }

    /// Where the request stands.
    pub fn state(&self) -> (s: DecoderState)
        ensures
            s == self@.state,
    {
        self.state
    }

    /// Whether the stream has ended: no further event will emit anything.
    pub fn is_finished(&self) -> (b: bool)
        ensures
            b == (self@.state != DecoderState::Streaming),
    {
        match self.state {
            DecoderState::Streaming => false,
            _ => true,
        }
    }

    /// Whether the service has declared the request over: its completion or
    /// its error was taken. An event source that merely ran dry has declared
    /// nothing.
    pub fn ended_by_service(&self) -> (b: bool)
        ensures
            b == (self@.state == DecoderState::Done),
    {
        match self.state {
            DecoderState::Done => true,
            _ => false,
        }
    }

    /// The text streamed so far and not yet emitted as a message.
    pub fn buffered_text(&self) -> (r: String)
        ensures
            r@ == self@.buffer,
    {
        self.assistant_buf.clone()
    }

    /// Takes one event and returns what the stream hands to the caller for
    /// it, in order.
    pub fn step(&mut self, ev: Event) -> (out: Vec<StreamItem>)
        ensures
            final(self)@ == advanced(old(self)@, ev@),
            items_view(out@) == emitted(old(self)@, ev@),
            out@.len() == emitted(old(self)@, ev@).len(),
    {
        let mut out: Vec<StreamItem> = Vec::new();
        match self.state {
            DecoderState::Streaming => {},
            _ => {
                return out;
            },
        }
        match ev {
            Event::Created => {
                out.push(Ok(ResponseEvent::Created));
            },
            Event::OutputTextDelta(text) => {
                self.assistant_buf.append(text.as_str());
                out.push(Ok(ResponseEvent::OutputTextDelta(text)));
            },
            Event::Completed { response_id, input_tokens, output_tokens, total_tokens } => {
                if !self.assistant_buf.as_str().is_empty() {
                    let text = self.assistant_buf.clone();
                    let mut content: Vec<ContentItem> = Vec::new();
                    content.push(ContentItem::OutputText { text });
                    let item = ResponseItem::Message {
                        id: None,
                        role: String::from_str("assistant"),
                        content,
                    };
                    proof {
                        assert(content.deep_view() == seq![
                            ContentItemView::OutputText { text: old(self)@.buffer },
                        ]);
                    }
                    out.push(Ok(ResponseEvent::OutputItemDone(item)));
                }
                self.assistant_buf = String::new();
                let usage = TokenUsage {
                    input_tokens,
                    cached_input_tokens: 0,
                    output_tokens,
                    reasoning_output_tokens: 0,
                    total_tokens,
                };
                out.push(Ok(ResponseEvent::Completed { response_id, token_usage: Some(usage) }));
                self.state = DecoderState::Done;
            },
            Event::Metrics { .. } => {},
            Event::Error { code, message } => {
                out.push(Err(stream_failure(code, message)));
                self.state = DecoderState::Done;
            },
            Event::OutputItemDone { item_type, status, name, input, call_id } => {
                let item = tool_call(item_type, status, name, input, call_id);
                out.push(Ok(ResponseEvent::OutputItemDone(item)));
            },
            Event::OutputItemOutput { name, output, call_id } => {
                let item = tool_output(name, output, call_id);
                out.push(Ok(ResponseEvent::OutputItemDone(item)));
            },
        }
        proof {
            assert(items_view(out@) =~= emitted(old(self)@, ev@));
        }
        out
    }

    /// Records that the event source ran dry. A stream that was still open is
    /// closed; one that a completion or an error ended stays as it is.
    pub fn close(&mut self)
        ensures
            final(self)@ == closed(old(self)@),
    {
        match self.state {
            DecoderState::Streaming => {
                self.state = DecoderState::Closed;
            },
            _ => {},
        }
    }
}

/// Decodes the events of one request, in order, into its response stream.
pub fn decode_all(events: Vec<Event>) -> (out: Vec<StreamItem>)
    ensures
        items_view(out@) == decoded(events.deep_view()),
        out@.len() == decoded(events.deep_view()).len(),
{
    let mut decoder = ResponseDecoder::new();
    let mut out: Vec<StreamItem> = Vec::new();
    let ghost all = events.deep_view();
    for ev in it: events
        invariant
            it.seq().len() == all.len(),
            forall|i: int| 0 <= i < all.len() ==> (#[trigger] it.seq()[i])@ == all[i],
            decoder@ == run(all.take(it.index() as int)).decoder,
            items_view(out@) == run(all.take(it.index() as int)).output,
    {
        let ghost seen = all.take(it.index() as int);
        let ghost next = all.take(it.index() + 1);
        proof {
            assert(next.drop_last() == seen);
            assert(next.last() == ev@);
        }
        let mut items = decoder.step(ev);
        let ghost before = out@;
        let ghost added = items@;
        out.append(&mut items);
        proof {
            assert(items_view(before + added) =~= items_view(before) + items_view(added));
        }
    }
    proof {
        assert(all.take(all.len() as int) == all);
    }
    out
}

} // verus!
