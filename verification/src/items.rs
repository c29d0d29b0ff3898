//! Conversation items and the elements of the caller-facing response stream.

use vstd::prelude::*;

verus! {

/// One part of a message's content.
#[derive(Debug, Clone, PartialEq, Eq)]
pub enum ContentItem {
    InputText { text: String },
    InputImage { image_url: String },
    OutputText { text: String },
}

/// The mathematical value of a [`ContentItem`].
pub enum ContentItemView {
    InputText { text: Seq<char> },
    InputImage { image_url: Seq<char> },
    OutputText { text: Seq<char> },
}

impl View for ContentItem {
    type V = ContentItemView;

    open spec fn view(&self) -> ContentItemView {
        match *self {
            ContentItem::InputText { text } => ContentItemView::InputText { text: text@ },
            ContentItem::InputImage { image_url } => ContentItemView::InputImage {
                image_url: image_url@,
            },
            ContentItem::OutputText { text } => ContentItemView::OutputText { text: text@ },
        }
    }
}

impl DeepView for ContentItem {
    type V = ContentItemView;

    open spec fn deep_view(&self) -> ContentItemView {
        self@
    }
}

/// One item of a conversation: a turn of the history, or an item that the
/// response stream hands to the caller.
#[derive(Debug, Clone, PartialEq, Eq)]
pub enum ResponseItem {
    Message { id: Option<String>, role: String, content: Vec<ContentItem> },
    CustomToolCall {
        id: Option<String>,
        status: Option<String>,
        call_id: String,
        name: String,
        input: String,
    },
    CustomToolCallOutput { call_id: String, output: String },
    /// Any other kind of item. The encoder leaves these out.
    Other,
}

/// The mathematical value of a [`ResponseItem`].
pub enum ResponseItemView {
    Message { id: Option<Seq<char>>, role: Seq<char>, content: Seq<ContentItemView> },
    CustomToolCall {
        id: Option<Seq<char>>,
        status: Option<Seq<char>>,
        call_id: Seq<char>,
        name: Seq<char>,
        input: Seq<char>,
    },
    CustomToolCallOutput { call_id: Seq<char>, output: Seq<char> },
    Other,
}

impl View for ResponseItem {
    type V = ResponseItemView;

    open spec fn view(&self) -> ResponseItemView {
        match *self {
            ResponseItem::Message { id, role, content } => ResponseItemView::Message {
                id: id.deep_view(),
                role: role@,
                content: content.deep_view(),
            },
            ResponseItem::CustomToolCall { id, status, call_id, name, input } => {
                ResponseItemView::CustomToolCall {
                    id: id.deep_view(),
                    status: status.deep_view(),
                    call_id: call_id@,
                    name: name@,
                    input: input@,
                }
            },
            ResponseItem::CustomToolCallOutput { call_id, output } => {
                ResponseItemView::CustomToolCallOutput { call_id: call_id@, output: output@ }
            },
            ResponseItem::Other => ResponseItemView::Other,
        }
    }
}

impl DeepView for ResponseItem {
    type V = ResponseItemView;

    open spec fn deep_view(&self) -> ResponseItemView {
        self@
    }
}

/// Token counts reported when a response completes.
#[derive(Clone, Copy, Debug, PartialEq, Eq, Structural)]
pub struct TokenUsage {
    pub input_tokens: u64,
    pub cached_input_tokens: u64,
    pub output_tokens: u64,
    pub reasoning_output_tokens: u64,
    pub total_tokens: u64,
}

/// One successful element of the response stream.
#[derive(Debug, Clone, PartialEq, Eq)]
pub enum ResponseEvent {
    Created,
    OutputItemDone(ResponseItem),
    Completed { response_id: String, token_usage: Option<TokenUsage> },
    OutputTextDelta(String),
}

/// The mathematical value of a [`ResponseEvent`].
pub enum ResponseEventView {
    Created,
    OutputItemDone(ResponseItemView),
    Completed { response_id: Seq<char>, token_usage: Option<TokenUsage> },
    OutputTextDelta(Seq<char>),
}

impl View for ResponseEvent {
    type V = ResponseEventView;

    open spec fn view(&self) -> ResponseEventView {
        match *self {
            ResponseEvent::Created => ResponseEventView::Created,
            ResponseEvent::OutputItemDone(item) => ResponseEventView::OutputItemDone(item@),
            ResponseEvent::Completed { response_id, token_usage } => ResponseEventView::Completed {
                response_id: response_id@,
                token_usage,
            },
            ResponseEvent::OutputTextDelta(text) => ResponseEventView::OutputTextDelta(text@),
        }
    }
}

/// A failure of a request.
#[derive(Debug, Clone, PartialEq, Eq)]
pub enum CodexErr {
    /// The stream failed; the element ends it.
    Stream(String),
    /// The request could not be prepared.
    Other(String),
    /// A setting that the request needs is missing from the environment.
    EnvVar { var: String, instructions: Option<String> },
}

/// The mathematical value of a [`CodexErr`].
pub enum CodexErrView {
    Stream(Seq<char>),
    Other(Seq<char>),
    EnvVar { var: Seq<char>, instructions: Option<Seq<char>> },
}

impl View for CodexErr {
    type V = CodexErrView;

    open spec fn view(&self) -> CodexErrView {
        match *self {
            CodexErr::Stream(message) => CodexErrView::Stream(message@),
            CodexErr::Other(message) => CodexErrView::Other(message@),
            CodexErr::EnvVar { var, instructions } => CodexErrView::EnvVar {
                var: var@,
                instructions: instructions.deep_view(),
            },
        }
    }
}

/// The message of a failure. A missing setting is named, and followed by the
/// instructions on how to set it where there are any.
pub open spec fn message_of_failure(err: CodexErrView) -> Seq<char> {
    match err {
        CodexErrView::Stream(m) => m,
        CodexErrView::Other(m) => m,
        CodexErrView::EnvVar { var, instructions } => {
            let head = "Missing environment variable: `"@ + var + "`."@;
            match instructions {
                Some(text) => head + " "@ + text,
                None => head,
            }
        },
    }
}

impl CodexErr {
    /// The message of the failure.
    pub fn message(&self) -> (r: String)
        ensures
            r@ == message_of_failure(self@),
    {
        match self {
            CodexErr::Stream(m) => m.clone(),
            CodexErr::Other(m) => m.clone(),
            CodexErr::EnvVar { var, instructions } => {
                let mut text = String::from_str("Missing environment variable: `");
                text.append(var.as_str());
                text.append("`.");
                match instructions {
                    Some(more) => {
                        text.append(" ");
                        text.append(more.as_str());
                    },
                    None => {},
                }
                text
            },
        }
    }
}

/// One element of the response stream.
pub type StreamItem = Result<ResponseEvent, CodexErr>;

/// The mathematical value of a [`StreamItem`].
pub type StreamItemView = Result<ResponseEventView, CodexErrView>;

/// The mathematical value of one stream element.
pub open spec fn item_view(item: StreamItem) -> StreamItemView {
    match item {
        Ok(event) => Ok(event@),
        Err(err) => Err(err@),
    }
}

/// The mathematical values of a run of stream elements.
pub open spec fn items_view(items: Seq<StreamItem>) -> Seq<StreamItemView> {
    items.map_values(|item: StreamItem| item_view(item))
}

} // verus!
