//! Events of one streaming request, and their decoding from the positional
//! arguments of the service's callback.

use crate::json::{double_bits_member_or_zero, json_of, json_parsed, parse, u64_member_or_zero, Json};
use crate::text::str_eq;
use vstd::prelude::*;

verus! {

/// One event of a streaming request, in the order in which the service
/// reported it.
#[derive(Debug, Clone, PartialEq, Eq)]
pub enum Event {
    Created,
    OutputTextDelta(String),
    Completed { response_id: String, input_tokens: u64, output_tokens: u64, total_tokens: u64 },
    /// `tokens_per_sec_bits` is the IEEE 754 bit pattern of the rate, a double.
    Metrics { ttfb_ms: u64, tokens_per_sec_bits: u64, delta_count: u64, tool_calls: u64 },
    Error { code: String, message: String },
    OutputItemDone {
        item_type: String,
        status: String,
        name: String,
        input: String,
        call_id: Option<String>,
    },
    OutputItemOutput { name: String, output: String, call_id: Option<String> },
}

/// The mathematical value of an [`Event`].
pub enum EventView {
    Created,
    OutputTextDelta(Seq<char>),
    Completed { response_id: Seq<char>, input_tokens: u64, output_tokens: u64, total_tokens: u64 },
    Metrics { ttfb_ms: u64, tokens_per_sec_bits: u64, delta_count: u64, tool_calls: u64 },
    Error { code: Seq<char>, message: Seq<char> },
    OutputItemDone {
        item_type: Seq<char>,
        status: Seq<char>,
        name: Seq<char>,
        input: Seq<char>,
        call_id: Option<Seq<char>>,
    },
    OutputItemOutput { name: Seq<char>, output: Seq<char>, call_id: Option<Seq<char>> },
}

impl View for Event {
    type V = EventView;

    open spec fn view(&self) -> EventView {
        match *self {
            Event::Created => EventView::Created,
            Event::OutputTextDelta(text) => EventView::OutputTextDelta(text@),
            Event::Completed { response_id, input_tokens, output_tokens, total_tokens } => {
                EventView::Completed {
                    response_id: response_id@,
                    input_tokens,
                    output_tokens,
                    total_tokens,
                }
            },
            Event::Metrics { ttfb_ms, tokens_per_sec_bits, delta_count, tool_calls } => {
                EventView::Metrics { ttfb_ms, tokens_per_sec_bits, delta_count, tool_calls }
            },
            Event::Error { code, message } => EventView::Error { code: code@, message: message@ },
            Event::OutputItemDone { item_type, status, name, input, call_id } => {
                EventView::OutputItemDone {
                    item_type: item_type@,
                    status: status@,
                    name: name@,
                    input: input@,
                    call_id: call_id.deep_view(),
                }
            },
            Event::OutputItemOutput { name, output, call_id } => EventView::OutputItemOutput {
                name: name@,
                output: output@,
                call_id: call_id.deep_view(),
            },
        }
    }
}

impl DeepView for Event {
    type V = EventView;

    open spec fn deep_view(&self) -> EventView {
        self@
    }
}

/// The arguments of one callback invocation: the discriminator and the fields
/// that the event kinds share. A string that the service left out is `None`.
#[derive(Debug, Clone, PartialEq, Eq)]
pub struct CallbackArgs {
    pub typ: String,
    pub text: Option<String>,
    pub code: Option<String>,
    pub message: Option<String>,
    pub response_id: Option<String>,
    pub input_tokens: u64,
    pub output_tokens: u64,
    pub total_tokens: u64,
    pub tool_name: Option<String>,
    pub tool_input: Option<String>,
    pub tool_output: Option<String>,
}

/// The mathematical value of [`CallbackArgs`].
pub struct CallbackArgsView {
    pub typ: Seq<char>,
    pub text: Option<Seq<char>>,
    pub code: Option<Seq<char>>,
    pub message: Option<Seq<char>>,
    pub response_id: Option<Seq<char>>,
    pub input_tokens: u64,
    pub output_tokens: u64,
    pub total_tokens: u64,
    pub tool_name: Option<Seq<char>>,
    pub tool_input: Option<Seq<char>>,
    pub tool_output: Option<Seq<char>>,
}

impl View for CallbackArgs {
    type V = CallbackArgsView;

    open spec fn view(&self) -> CallbackArgsView {
        CallbackArgsView {
            typ: self.typ@,
            text: self.text.deep_view(),
            code: self.code.deep_view(),
            message: self.message.deep_view(),
            response_id: self.response_id.deep_view(),
            input_tokens: self.input_tokens,
            output_tokens: self.output_tokens,
            total_tokens: self.total_tokens,
            tool_name: self.tool_name.deep_view(),
            tool_input: self.tool_input.deep_view(),
            tool_output: self.tool_output.deep_view(),
        }
    }
}

/// The characters of an optional field; an absent field reads as empty.
pub open spec fn or_empty(field: Option<Seq<char>>) -> Seq<char> {
    match field {
        Some(s) => s,
        None => Seq::empty(),
    }
}

/// An optional field in which empty counts as absent.
pub open spec fn non_empty(field: Option<Seq<char>>) -> Option<Seq<char>> {
    match field {
        Some(s) => if s.len() == 0 {
            None
        } else {
            Some(s)
        },
        None => None,
    }
}

/// The metrics event that a metrics document stands for: each count is the
/// non-negative integer at its key, the rate the number at its key, and 0
/// where the key is missing or holds something else.
pub open spec fn metrics_of(doc: Json) -> EventView {
    EventView::Metrics {
        ttfb_ms: doc.u64_member_or_zero("ttfb_ms"@),
        tokens_per_sec_bits: doc.double_bits_member_or_zero("tokens_per_sec"@),
        delta_count: doc.u64_member_or_zero("delta_count"@),
        tool_calls: doc.u64_member_or_zero("tool_calls"@),
    }
}

/// The event of an `output_item.done` callback. The item type travels in
/// `code`, the status in `message`, the call id in `response_id`. An item type
/// of exactly `tool_call.output` gives a tool output, anything else a
/// finished item.
pub open spec fn item_event(args: CallbackArgsView) -> EventView {
    if or_empty(args.code) == "tool_call.output"@ {
        EventView::OutputItemOutput {
            name: or_empty(args.tool_name),
            output: or_empty(args.tool_output),
            call_id: non_empty(args.response_id),
        }
    } else {
        EventView::OutputItemDone {
            item_type: or_empty(args.code),
            status: or_empty(args.message),
            name: or_empty(args.tool_name),
            input: or_empty(args.tool_input),
            call_id: non_empty(args.response_id),
        }
    }
}

/// The event that one callback invocation stands for, or `None` where the
/// invocation is dropped: an unknown discriminator, a text delta or metrics
/// without text, and metrics whose text is not a JSON document.
pub open spec fn event_of(args: CallbackArgsView) -> Option<EventView> {
    if args.typ == "created"@ {
        Some(EventView::Created)
    } else if args.typ == "output_text.delta"@ {
        match args.text {
            Some(text) => Some(EventView::OutputTextDelta(text)),
            None => None,
        }
    } else if args.typ == "completed"@ {
        Some(
            EventView::Completed {
                response_id: or_empty(args.response_id),
                input_tokens: args.input_tokens,
                output_tokens: args.output_tokens,
                total_tokens: args.total_tokens,
            },
        )
    } else if args.typ == "output_item.done"@ {
        Some(item_event(args))
    } else if args.typ == "metrics"@ {
        match args.text {
            Some(text) => match json_parsed(text) {
                Some(doc) => Some(metrics_of(doc)),
                None => None,
            },
            None => None,
        }
    } else if args.typ == "error"@ {
        Some(EventView::Error { code: or_empty(args.code), message: or_empty(args.message) })
    } else {
        None
    }
}

/// The characters of an optional field, empty where it is absent.
fn take_or_empty(field: Option<String>) -> (r: String)
    ensures
        r@ == or_empty(field.deep_view()),
{
    match field {
        Some(s) => s,
        None => String::new(),
    }
}

/// The field, with an empty string counted as absent.
fn take_non_empty(field: Option<String>) -> (r: Option<String>)
    ensures
        r.deep_view() == non_empty(field.deep_view()),
{
    match field {
        Some(s) => {
            if s.as_str().is_empty() {
                None
            } else {
                Some(s)
            }
        },
        None => None,
    }
}

/// The metrics event of a parsed metrics document.
pub fn metrics_from_json(doc: &serde_json::Value) -> (ev: Event)
    ensures
        ev@ == metrics_of(json_of(*doc)),
{
    Event::Metrics {
        ttfb_ms: u64_member_or_zero(doc, "ttfb_ms"),
        tokens_per_sec_bits: double_bits_member_or_zero(doc, "tokens_per_sec"),
        delta_count: u64_member_or_zero(doc, "delta_count"),
        tool_calls: u64_member_or_zero(doc, "tool_calls"),
    }
}

/// Decodes one callback invocation into the event it stands for. Invocations
/// that carry no event are dropped: the result is `None`.
pub fn decode_callback(args: CallbackArgs) -> (r: Option<Event>)
    ensures
        r.deep_view() == event_of(args@),
{
    let ghost view = args@;
    let CallbackArgs {
        typ,
        text,
        code,
        message,
        response_id,
        input_tokens,
        output_tokens,
        total_tokens,
        tool_name,
        tool_input,
        tool_output,
    } = args;
    let kind = typ.as_str();
    if str_eq(kind, "created") {
        Some(Event::Created)
    } else if str_eq(kind, "output_text.delta") {
        match text {
            Some(delta) => Some(Event::OutputTextDelta(delta)),
            None => None,
        }
    } else if str_eq(kind, "completed") {
        Some(
            Event::Completed {
                response_id: take_or_empty(response_id),
                input_tokens,
                output_tokens,
                total_tokens,
            },
        )
    } else if str_eq(kind, "output_item.done") {
        let item_type = take_or_empty(code);
        let call_id = take_non_empty(response_id);
        if str_eq(item_type.as_str(), "tool_call.output") {
            Some(
                Event::OutputItemOutput {
                    name: take_or_empty(tool_name),
                    output: take_or_empty(tool_output),
                    call_id,
                },
            )
        } else {
            Some(
                Event::OutputItemDone {
                    item_type,
                    status: take_or_empty(message),
                    name: take_or_empty(tool_name),
                    input: take_or_empty(tool_input),
                    call_id,
                },
            )
        }
    } else if str_eq(kind, "metrics") {
        match text {
            Some(blob) => match parse(blob.as_str()) {
                Ok(doc) => Some(metrics_from_json(&doc)),
                Err(_) => None,
            },
            None => None,
        }
    } else if str_eq(kind, "error") {
        Some(Event::Error { code: take_or_empty(code), message: take_or_empty(message) })
    } else {
        None
    }
}

} // verus!
