//! Chat messages in the form that the `openai_harmony` crate renders into
//! tokens.
//!
//! Messages, contents and tool descriptions are values of that crate and are
//! opaque here. Each has a model, a plain mathematical value that mirrors its
//! public fields, and the functions at the end of this file, which build such
//! values and render them, are trusted to do what their contracts say of the
//! models.

use crate::json::{json_text, optional_json_of, Json};
use openai_harmony::chat;
use vstd::prelude::*;

verus! {

/// Declares `chat::Content`, one content of a message, as an opaque type.
#[verifier::external_type_specification]
#[verifier::external_body]
pub struct ExContent(chat::Content);

/// Declares `chat::Message`, a chat message, as an opaque type.
#[verifier::external_type_specification]
#[verifier::external_body]
pub struct ExMessage(chat::Message);

/// Declares `chat::ToolDescription`, the description of one tool, as an opaque type.
#[verifier::external_type_specification]
#[verifier::external_body]
pub struct ExToolDescription(chat::ToolDescription);

/// Declares `chat::ToolNamespaceConfig`, a named group of tools, as an opaque type.
#[verifier::external_type_specification]
#[verifier::external_body]
pub struct ExToolNamespaceConfig(chat::ToolNamespaceConfig);

/// Declares `openai_harmony::HarmonyEncoding`, a loaded token encoding, as an opaque type.
#[verifier::external_type_specification]
#[verifier::external_body]
pub struct ExHarmonyEncoding(openai_harmony::HarmonyEncoding);

/// Who speaks in a message.
#[derive(Clone, Copy, Debug, PartialEq, Eq, Structural)]
pub enum Role {
    User,
    Assistant,
    System,
    Developer,
    Tool,
}

/// The model of a tool description.
pub struct ToolModel {
    pub name: Seq<char>,
    pub description: Seq<char>,
    pub parameters: Option<Json>,
}

/// The model of a tool namespace.
pub struct NamespaceModel {
    pub name: Seq<char>,
    pub description: Option<Seq<char>>,
    pub tools: Seq<ToolModel>,
}

/// The model of a reasoning effort.
pub enum EffortModel {
    Low,
    Medium,
    High,
}

/// The model of a channel configuration.
pub struct ChannelsModel {
    pub valid_channels: Seq<Seq<char>>,
    pub channel_required: bool,
}

/// The model of a system content.
pub struct SystemModel {
    pub model_identity: Option<Seq<char>>,
    pub reasoning_effort: Option<EffortModel>,
    pub tools: Option<Map<Seq<char>, NamespaceModel>>,
    pub conversation_start_date: Option<Seq<char>>,
    pub knowledge_cutoff: Option<Seq<char>>,
    pub channel_config: Option<ChannelsModel>,
}

/// The model of a developer content.
pub struct DeveloperModel {
    pub instructions: Option<Seq<char>>,
    pub tools: Option<Map<Seq<char>, NamespaceModel>>,
}

/// The model of one content of a message.
pub enum ContentModel {
    Text(Seq<char>),
    System(SystemModel),
    Developer(DeveloperModel),
}

/// The model of a message.
pub struct MessageModel {
    pub role: Role,
    pub name: Option<Seq<char>>,
    pub recipient: Option<Seq<char>>,
    pub content: Seq<ContentModel>,
    pub channel: Option<Seq<char>>,
    pub content_type: Option<Seq<char>>,
}

/// The model of a content.
pub uninterp spec fn content_of(c: chat::Content) -> ContentModel;

/// The model of a message.
pub uninterp spec fn message_of(m: chat::Message) -> MessageModel;

/// The model of a tool description.
pub uninterp spec fn tool_of(t: chat::ToolDescription) -> ToolModel;

/// The model of a tool namespace.
pub uninterp spec fn namespace_of(n: chat::ToolNamespaceConfig) -> NamespaceModel;

/// What rendering `messages` for completion gives under an encoding, where
/// `next` is to speak next: the tokens, or the message of the failure.
pub uninterp spec fn harmony_prefill(
    enc: openai_harmony::HarmonyEncoding,
    messages: Seq<MessageModel>,
    next: Role,
) -> Result<Seq<u32>, Seq<char>>;

/// The models of a list of messages.
pub open spec fn messages_of(messages: Seq<chat::Message>) -> Seq<MessageModel> {
    messages.map_values(|m: chat::Message| message_of(m))
}

/// The models of a list of tool descriptions.
pub open spec fn tools_of(tools: Seq<chat::ToolDescription>) -> Seq<ToolModel> {
    tools.map_values(|t: chat::ToolDescription| tool_of(t))
}

/// The system content that the crate makes by default.
pub open spec fn default_system() -> SystemModel {
    SystemModel {
        model_identity: Some("You are ChatGPT, a large language model trained by OpenAI."@),
        reasoning_effort: Some(EffortModel::Medium),
        tools: None,
        conversation_start_date: None,
        knowledge_cutoff: Some("2024-06"@),
        channel_config: Some(
            ChannelsModel {
                valid_channels: seq!["analysis"@, "commentary"@, "final"@],
                channel_required: true,
            },
        ),
    }
}

/// A developer content that holds one tool namespace and no instructions.
pub open spec fn developer_with(tools: NamespaceModel) -> DeveloperModel {
    DeveloperModel {
        instructions: None,
        tools: Some(Map::<Seq<char>, NamespaceModel>::empty().insert(tools.name, tools)),
    }
}

/// A message of one content, with nothing else set.
pub open spec fn plain_message(role: Role, content: ContentModel) -> MessageModel {
    MessageModel {
        role,
        name: None,
        recipient: None,
        content: seq![content],
        channel: None,
        content_type: None,
    }
}

/// A message with one more content at its end.
pub open spec fn with_content(m: MessageModel, content: ContentModel) -> MessageModel {
    MessageModel {
        role: m.role,
        name: m.name,
        recipient: m.recipient,
        content: m.content.push(content),
        channel: m.channel,
        content_type: m.content_type,
    }
}

/// Trusted: `Content::from` on a string is the text content of that string.
#[verifier::external_body]
pub(crate) fn text_content(text: String) -> (c: chat::Content)
    ensures
        content_of(c) == ContentModel::Text(text@),
{
    chat::Content::from(text)
}

/// Trusted: `SystemContent::new` is the crate's default system content: the
/// standard model identity, medium reasoning effort, knowledge cutoff
/// `2024-06`, and the three required channels.
#[verifier::external_body]
pub(crate) fn system_content() -> (c: chat::Content)
    ensures
        content_of(c) == ContentModel::System(default_system()),
{
    chat::Content::from(chat::SystemContent::new())
}

/// Trusted: `DeveloperContent::with_tools` on a fresh developer content holds
/// the given namespace under its name, and no instructions.
#[verifier::external_body]
pub(crate) fn developer_content(tools: chat::ToolNamespaceConfig) -> (c: chat::Content)
    ensures
        content_of(c) == ContentModel::Developer(developer_with(namespace_of(tools))),
{
    chat::Content::from(chat::DeveloperContent::new().with_tools(tools))
}

/// Trusted: `Message::from_role_and_content` is the message of that role with
/// the one content, and no name, recipient, channel or content type.
#[verifier::external_body]
pub(crate) fn message(role: Role, content: chat::Content) -> (m: chat::Message)
    ensures
        message_of(m) == plain_message(role, content_of(content)),
{
    let role = match role {
        Role::User => chat::Role::User,
        Role::Assistant => chat::Role::Assistant,
        Role::System => chat::Role::System,
        Role::Developer => chat::Role::Developer,
        Role::Tool => chat::Role::Tool,
    };
    chat::Message::from_role_and_content(role, content)
}

/// Trusted: `Message::adding_content` appends the content and changes nothing
/// else.
#[verifier::external_body]
pub(crate) fn adding_content(m: chat::Message, content: chat::Content) -> (r: chat::Message)
    ensures
        message_of(r) == with_content(message_of(m), content_of(content)),
{
    m.adding_content(content)
}

/// Trusted: `ToolDescription::new` holds the three values it is given.
#[verifier::external_body]
pub(crate) fn tool_description(
    name: String,
    description: String,
    parameters: Option<serde_json::Value>,
) -> (t: chat::ToolDescription)
    ensures
        tool_of(t) == (ToolModel {
            name: name@,
            description: description@,
            parameters: optional_json_of(parameters),
        }),
{
    chat::ToolDescription::new(name, description, parameters)
}

/// Trusted: `ToolNamespaceConfig::new`, called without a description, holds
/// the name and the tools in their order.
#[verifier::external_body]
pub(crate) fn tool_namespace(name: String, tools: Vec<chat::ToolDescription>) -> (n:
    chat::ToolNamespaceConfig)
    ensures
        namespace_of(n) == (NamespaceModel {
            name: name@,
            description: None,
            tools: tools_of(tools@),
        }),
{
    chat::ToolNamespaceConfig::new(name, None, tools)
}

/// The most characters that one text content of a message may hold.
pub open spec fn text_limit() -> nat {
    900_000
}

/// The most characters that any other string of a message may hold, and that
/// the serialisation of a parameter schema may hold.
pub open spec fn field_limit() -> nat {
    100_000
}

/// The string, where there is one, is within the limit for fields.
pub open spec fn field_fits(field: Option<Seq<char>>) -> bool {
    match field {
        Some(s) => s.len() <= field_limit(),
        None => true,
    }
}

/// The name and the description of the tool and the serialisation of its
/// schema, which holds every string and key of the schema and is longer than
/// the schema is deep, are within the limit for fields.
pub open spec fn tool_fits(t: ToolModel) -> bool {
    &&& t.name.len() <= field_limit()
    &&& t.description.len() <= field_limit()
    &&& match t.parameters {
        Some(schema) => json_text(schema).len() <= field_limit(),
        None => true,
    }
}

/// The name and the description of the namespace are within the limit for
/// fields, and so is each of its tools.
pub open spec fn namespace_fits(n: NamespaceModel) -> bool {
    &&& n.name.len() <= field_limit()
    &&& field_fits(n.description)
    &&& forall|i: int| 0 <= i < n.tools.len() ==> tool_fits(#[trigger] n.tools[i])
}

/// Every namespace of a content is within the limits.
pub open spec fn namespaces_fit(tools: Option<Map<Seq<char>, NamespaceModel>>) -> bool {
    match tools {
        Some(m) => forall|k: Seq<char>| #[trigger] m.dom().contains(k) ==> namespace_fits(m[k]),
        None => true,
    }
}

/// Every string of the content is within its limit: a text within the limit
/// for texts, everything else within the limit for fields.
pub open spec fn content_fits(c: ContentModel) -> bool {
    match c {
        ContentModel::Text(text) => text.len() <= text_limit(),
        ContentModel::System(sys) => {
            &&& field_fits(sys.model_identity)
            &&& namespaces_fit(sys.tools)
            &&& field_fits(sys.conversation_start_date)
            &&& field_fits(sys.knowledge_cutoff)
            &&& match sys.channel_config {
                Some(channels) => forall|i: int|
                    0 <= i < channels.valid_channels.len() ==> (
                    #[trigger] channels.valid_channels[i]).len() <= field_limit(),
                None => true,
            }
        },
        ContentModel::Developer(dev) => field_fits(dev.instructions) && namespaces_fit(dev.tools),
    }
}

/// Every string of the message is within its limit.
pub open spec fn message_fits(m: MessageModel) -> bool {
    &&& field_fits(m.name)
    &&& field_fits(m.recipient)
    &&& field_fits(m.channel)
    &&& field_fits(m.content_type)
    &&& forall|i: int| 0 <= i < m.content.len() ==> content_fits(#[trigger] m.content[i])
}

/// Every string of every message is within its limit.
pub open spec fn messages_fit(messages: Seq<MessageModel>) -> bool {
    forall|i: int| 0 <= i < messages.len() ==> message_fits(#[trigger] messages[i])
}

/// Trusted: `HarmonyEncoding::render_conversation_for_completion` depends on
/// nothing but the encoding, the messages and the role that is to speak next.
/// No configuration is given; the crate offers none to its users. Its failure
/// is handed on as its message.
///
/// The tokenizer behind it cuts a text into pieces with a backtracking
/// pattern matcher. For one piece the matcher takes a run of like characters
/// (letters, white space, other signs) one character at a time, keeps one
/// entry for each on a stack of a million entries, and counts each step back
/// against a budget of a million steps; it panics where either runs out. The
/// messages must therefore be within the limits. A text content is handed to
/// the tokenizer as it is, so no piece of it is longer than the text. In
/// everything else that is rendered, a piece lies within two neighbouring
/// strings of the messages, or within the print of one value of a schema, and
/// the signs and indentation that the rendering puts around them, which grow
/// by at most four characters with each level of a schema.
#[verifier::external_body]
pub(crate) fn render_for_completion(
    enc: &openai_harmony::HarmonyEncoding,
    messages: &Vec<chat::Message>,
    next: Role,
) -> (r: Result<Vec<u32>, String>)
    requires
        messages_fit(messages_of(messages@)),
    ensures
        match r {
            Ok(tokens) => harmony_prefill(*enc, messages_of(messages@), next) == Ok::<
                Seq<u32>,
                Seq<char>,
            >(tokens@),
            Err(e) => harmony_prefill(*enc, messages_of(messages@), next) == Err::<
                Seq<u32>,
                Seq<char>,
            >(e@),
        },
{
    let role = match next {
        Role::User => chat::Role::User,
        Role::Assistant => chat::Role::Assistant,
        Role::System => chat::Role::System,
        Role::Developer => chat::Role::Developer,
        Role::Tool => chat::Role::Tool,
    };
    match enc.render_conversation_for_completion(messages, role, None) {
        Ok(tokens) => Ok(tokens),
        Err(e) => Err(e.to_string()),
    }
}

} // verus!
