//! The conversation encoder: what a request sends to the service.
//!
//! A conversation is encoded for one of two targets: a JSON document of
//! messages, or a list of chat messages that is rendered into prefill tokens.
//! Both start with a system message, go on with a developer message where
//! there are tools to announce, and end with the turns of the history.

use crate::harmony::{
    content_fits, field_limit, message_fits, messages_fit, namespace_fits, text_limit, tool_fits,
    adding_content, developer_content, developer_with, harmony_prefill, message, message_of, messages_of,
    namespace_of, plain_message, render_for_completion, system_content, text_content,
    tool_description, tool_namespace, tool_of, tools_of, with_content, default_system, ContentModel,
    MessageModel, NamespaceModel, Role, ToolModel,
};
use crate::items::{CodexErr, CodexErrView, ContentItem, ContentItemView, ResponseItem, ResponseItemView};
use crate::json::{
    array, duplicate, json_of, json_text, jsons_of, object1, object2, object3, optional_json_of,
    render, string,
    unsigned, Json, JsonNumber,
};
use crate::text::{join, joined, lowercase_of, str_eq, to_lowercase, views_of};
use openai_harmony::chat;
use vstd::prelude::*;

verus! {

/// A tool that the model may call as a function.
#[derive(Debug, Clone, PartialEq, Eq)]
pub struct FunctionTool {
    pub name: String,
    pub description: String,
    /// The JSON schema of the arguments, or `None` where the schema has no
    /// JSON form.
    pub parameters: Option<serde_json::Value>,
}

/// The mathematical value of a [`FunctionTool`].
pub struct FunctionToolView {
    pub name: Seq<char>,
    pub description: Seq<char>,
    pub parameters: Option<Json>,
}

impl View for FunctionTool {
    type V = FunctionToolView;

    open spec fn view(&self) -> FunctionToolView {
        FunctionToolView {
            name: self.name@,
            description: self.description@,
            parameters: optional_json_of(self.parameters),
        }
    }
}

/// A tool offered to the model.
#[derive(Debug, Clone, PartialEq, Eq)]
pub enum OpenAiTool {
    Function(FunctionTool),
    /// A tool of any other kind. The encoder leaves these out.
    Other,
}

/// The mathematical value of an [`OpenAiTool`].
pub enum OpenAiToolView {
    Function(FunctionToolView),
    Other,
}

impl View for OpenAiTool {
    type V = OpenAiToolView;

    open spec fn view(&self) -> OpenAiToolView {
        match *self {
            OpenAiTool::Function(f) => OpenAiToolView::Function(f@),
            OpenAiTool::Other => OpenAiToolView::Other,
        }
    }
}

impl DeepView for OpenAiTool {
    type V = OpenAiToolView;

    open spec fn deep_view(&self) -> OpenAiToolView {
        self@
    }
}

/// What one request asks: the history of the conversation and the tools on
/// offer.
#[derive(Debug, Clone, PartialEq, Eq)]
pub struct Prompt {
    pub input: Vec<ResponseItem>,
    pub tools: Vec<OpenAiTool>,
}

/// The mathematical value of a [`Prompt`].
pub struct PromptView {
    pub input: Seq<ResponseItemView>,
    pub tools: Seq<OpenAiToolView>,
}

impl View for Prompt {
    type V = PromptView;

    open spec fn view(&self) -> PromptView {
        PromptView { input: self.input.deep_view(), tools: self.tools.deep_view() }
    }
}

/// A request to start streaming from prefill tokens.
#[derive(Debug, Clone, PartialEq, Eq)]
pub struct TokenStreamRequest {
    pub tokens: Vec<u32>,
    /// Whether the service seeds the assistant's answer turn.
    pub prime_final: bool,
    pub tools_json: Option<String>,
    pub reasoning_json: Option<String>,
    /// The token limit; 0 asks for no limit.
    pub max_tokens: u64,
}

/// The mathematical value of a [`TokenStreamRequest`].
pub struct TokenStreamRequestView {
    pub tokens: Seq<u32>,
    pub prime_final: bool,
    pub tools_json: Option<Seq<char>>,
    pub reasoning_json: Option<Seq<char>>,
    pub max_tokens: u64,
}

impl View for TokenStreamRequest {
    type V = TokenStreamRequestView;

    open spec fn view(&self) -> TokenStreamRequestView {
        TokenStreamRequestView {
            tokens: self.tokens@,
            prime_final: self.prime_final,
            tools_json: self.tools_json.deep_view(),
            reasoning_json: self.reasoning_json.deep_view(),
            max_tokens: self.max_tokens,
        }
    }
}

/// The client of one model: how much reasoning it asks for.
#[derive(Debug, Clone, PartialEq, Eq)]
pub struct ModelClient {
    pub reasoning_effort: Option<String>,
    pub reasoning_summary: String,
}

/// The system text used where the caller gives no instructions.
pub open spec fn default_system_text() -> Seq<char> {
    "# Valid channels: analysis, commentary, final.\nAlways write user-facing responses in the final channel; use analysis only for internal reasoning."@
}

/// The text of the system message: the instructions, or the default where
/// they are empty.
pub open spec fn system_text(instructions: Seq<char>) -> Seq<char> {
    if instructions.len() > 0 {
        instructions
    } else {
        default_system_text()
    }
}

/// The schema that both built-in tools share, as it is quoted in the tool
/// description.
pub open spec fn quoted_message_schema() -> Seq<char> {
    "{\\\"type\\\":\\\"object\\\",\\\"properties\\\":{\\\"msg\\\":{\\\"type\\\":\\\"string\\\"}}}"@
}

/// The built-in tools, each with its quoted schema.
pub open spec fn supported_tools() -> Seq<(Seq<char>, Seq<char>)> {
    seq![("echo"@, quoted_message_schema()), ("upper"@, quoted_message_schema())]
}

/// The names of `tools`.
pub open spec fn tool_names(tools: Seq<(Seq<char>, Seq<char>)>) -> Seq<Seq<char>> {
    tools.map_values(|t: (Seq<char>, Seq<char>)| t.0)
}

/// Each of `tools` as `name: schema`.
pub open spec fn tool_schemas(tools: Seq<(Seq<char>, Seq<char>)>) -> Seq<Seq<char>> {
    tools.map_values(|t: (Seq<char>, Seq<char>)| t.0 + ": "@ + t.1)
}

/// The sentence that announces `tools`, each with its quoted schema, to the
/// model.
pub open spec fn tool_description_text(tools: Seq<(Seq<char>, Seq<char>)>) -> Seq<char> {
    "Available tools: "@ + joined(tool_names(tools), ", "@) + ". Schemas: "@ + joined(
        tool_schemas(tools),
        "; "@,
    )
        + ". To call a tool, set the recipient to the tool name and provide JSON arguments in commentary channel."@
}

/// The sentence that announces the built-in tools to the model.
pub open spec fn built_in_tool_description() -> Seq<char> {
    "Available tools: echo, upper. Schemas: echo: {\\\"type\\\":\\\"object\\\",\\\"properties\\\":{\\\"msg\\\":{\\\"type\\\":\\\"string\\\"}}}; upper: {\\\"type\\\":\\\"object\\\",\\\"properties\\\":{\\\"msg\\\":{\\\"type\\\":\\\"string\\\"}}}. To call a tool, set the recipient to the tool name and provide JSON arguments in commentary channel."@
}

/// The sentence that announces the built-in tools is the general sentence
/// made for the two of them.
pub proof fn lemma_built_in_tool_description()
    ensures
        tool_description_text(supported_tools()) == built_in_tool_description(),
{
    let names = tool_names(supported_tools());
    let schemas = tool_schemas(supported_tools());
    assert(names =~= seq!["echo"@, "upper"@]);
    assert(schemas =~= seq![
        "echo"@ + ": "@ + quoted_message_schema(),
        "upper"@ + ": "@ + quoted_message_schema(),
    ]);
    assert(names.drop_last() =~= seq!["echo"@]);
    assert(schemas.drop_last() =~= seq!["echo"@ + ": "@ + quoted_message_schema()]);
    reveal_with_fuel(joined, 3);
    assert(joined(names, ", "@) == "echo"@ + ", "@ + "upper"@);
    assert(joined(schemas, "; "@) == ("echo"@ + ": "@ + quoted_message_schema()) + "; "@ + ("upper"@
        + ": "@ + quoted_message_schema()));
    reveal_strlit("Available tools: ");
    reveal_strlit("echo");
    reveal_strlit("upper");
    reveal_strlit(", ");
    reveal_strlit(": ");
    reveal_strlit("; ");
    reveal_strlit(". Schemas: ");
    reveal_strlit(
        "{\\\"type\\\":\\\"object\\\",\\\"properties\\\":{\\\"msg\\\":{\\\"type\\\":\\\"string\\\"}}}",
    );
    reveal_strlit(
        ". To call a tool, set the recipient to the tool name and provide JSON arguments in commentary channel.",
    );
    reveal_strlit(
        "Available tools: echo, upper. Schemas: echo: {\\\"type\\\":\\\"object\\\",\\\"properties\\\":{\\\"msg\\\":{\\\"type\\\":\\\"string\\\"}}}; upper: {\\\"type\\\":\\\"object\\\",\\\"properties\\\":{\\\"msg\\\":{\\\"type\\\":\\\"string\\\"}}}. To call a tool, set the recipient to the tool name and provide JSON arguments in commentary channel.",
    );
    assert(tool_description_text(supported_tools()) =~= built_in_tool_description());
}

/// The manifest entry of one tool: a function tool whose schema has a JSON
/// form gives `{"name": .., "json_schema": ..}`, any other tool gives none.
pub open spec fn manifest_entry(tool: OpenAiToolView) -> Option<Json> {
    match tool {
        OpenAiToolView::Function(f) => match f.parameters {
            Some(schema) => Some(
                Json::object2("name"@, Json::Text(f.name), "json_schema"@, schema),
            ),
            None => None,
        },
        OpenAiToolView::Other => None,
    }
}

/// The manifest entries of `tools`, in order.
pub open spec fn manifest_entries(tools: Seq<OpenAiToolView>) -> Seq<Json>
    decreases tools.len(),
{
    if tools.len() == 0 {
        Seq::empty()
    } else {
        match manifest_entry(tools.last()) {
            Some(entry) => manifest_entries(tools.drop_last()).push(entry),
            None => manifest_entries(tools.drop_last()),
        }
    }
}

/// The tool manifest of `tools`, or `None` where no tool has an entry.
pub open spec fn tools_manifest(tools: Seq<OpenAiToolView>) -> Option<Json> {
    if manifest_entries(tools).len() == 0 {
        None
    } else {
        Some(
            Json::object3(
                "version"@,
                Json::Number(JsonNumber::PosInt(1)),
                "namespace"@,
                Json::Text("functions"@),
                "tools"@,
                Json::Array(manifest_entries(tools)),
            ),
        )
    }
}

/// The function tools among `tools`, in order, as tool descriptions.
pub open spec fn function_tools(tools: Seq<OpenAiToolView>) -> Seq<ToolModel>
    decreases tools.len(),
{
    if tools.len() == 0 {
        Seq::empty()
    } else {
        match tools.last() {
            OpenAiToolView::Function(f) => function_tools(tools.drop_last()).push(
                ToolModel { name: f.name, description: f.description, parameters: f.parameters },
            ),
            OpenAiToolView::Other => function_tools(tools.drop_last()),
        }
    }
}

/// The namespace under which function tools are announced.
pub open spec fn functions_namespace(tools: Seq<OpenAiToolView>) -> NamespaceModel {
    NamespaceModel { name: "functions"@, description: None, tools: function_tools(tools) }
}

/// A text part of a JSON message.
pub open spec fn text_part(text: Seq<char>) -> Json {
    Json::object2("type"@, Json::Text("text"@), "text"@, Json::Text(text))
}

/// An image part of a JSON message.
pub open spec fn image_part(image_url: Seq<char>) -> Json {
    Json::object2("type"@, Json::Text("image"@), "image_url"@, Json::Text(image_url))
}

/// The JSON part of one content part.
pub open spec fn part_of(item: ContentItemView) -> Json {
    match item {
        ContentItemView::InputText { text } => text_part(text),
        ContentItemView::OutputText { text } => text_part(text),
        ContentItemView::InputImage { image_url } => image_part(image_url),
    }
}

/// The JSON parts of the content of a message, in order.
pub open spec fn parts_of(content: Seq<ContentItemView>) -> Seq<Json> {
    content.map_values(|item: ContentItemView| part_of(item))
}

/// A JSON message.
pub open spec fn json_message(role: Seq<char>, parts: Seq<Json>) -> Json {
    Json::object2("role"@, Json::Text(role), "content"@, Json::Array(parts))
}

/// The JSON messages of the history: one for each message, under its own
/// role and with its parts in order, also where it has no parts; other items
/// are left out.
pub open spec fn history_messages(items: Seq<ResponseItemView>) -> Seq<Json>
    decreases items.len(),
{
    if items.len() == 0 {
        Seq::empty()
    } else {
        match items.last() {
            ResponseItemView::Message { role, content, .. } => history_messages(
                items.drop_last(),
            ).push(json_message(role, parts_of(content))),
            _ => history_messages(items.drop_last()),
        }
    }
}

/// The views of a list of tools, each a name and its quoted schema.
pub open spec fn tool_pairs(tools: Seq<(String, String)>) -> Seq<(Seq<char>, Seq<char>)> {
    tools.map_values(|t: (String, String)| (t.0@, t.1@))
}

/// The messages of the JSON document, in order: the system message, the
/// developer message that announces the tools of the request, which is there
/// exactly when there are tools, and the history.
pub open spec fn conversation_messages(
    instructions: Seq<char>,
    items: Seq<ResponseItemView>,
    tools: Seq<(Seq<char>, Seq<char>)>,
) -> Seq<Json> {
    seq![json_message("system"@, seq![text_part(system_text(instructions))])] + (if tools.len()
        > 0 {
        seq![json_message("developer"@, seq![text_part(tool_description_text(tools))])]
    } else {
        Seq::empty()
    }) + history_messages(items)
}

/// The JSON document of a conversation.
pub open spec fn conversation_doc(
    instructions: Seq<char>,
    items: Seq<ResponseItemView>,
    tools: Seq<(Seq<char>, Seq<char>)>,
) -> Json {
    Json::object1("messages"@, Json::Array(conversation_messages(instructions, items, tools)))
}

/// The role that a role name stands for; an unknown name is the user.
pub open spec fn role_of(role: Seq<char>) -> Role {
    if role == "system"@ {
        Role::System
    } else if role == "developer"@ {
        Role::Developer
    } else if role == "assistant"@ {
        Role::Assistant
    } else if role == "tool"@ {
        Role::Tool
    } else {
        Role::User
    }
}

/// The texts of the content of a message as chat contents, in order. Images
/// have no place in a prefill and are left out.
pub open spec fn chat_texts(content: Seq<ContentItemView>) -> Seq<ContentModel>
    decreases content.len(),
{
    if content.len() == 0 {
        Seq::empty()
    } else {
        match content.last() {
            ContentItemView::InputText { text } => chat_texts(content.drop_last()).push(
                ContentModel::Text(text),
            ),
            ContentItemView::OutputText { text } => chat_texts(content.drop_last()).push(
                ContentModel::Text(text),
            ),
            ContentItemView::InputImage { .. } => chat_texts(content.drop_last()),
        }
    }
}

/// The chat message of one turn: an empty text, then the turn's texts.
pub open spec fn chat_message(role: Seq<char>, content: Seq<ContentItemView>) -> MessageModel {
    MessageModel {
        role: role_of(role),
        name: None,
        recipient: None,
        content: seq![ContentModel::Text(Seq::empty())] + chat_texts(content),
        channel: None,
        content_type: None,
    }
}

/// The chat messages of the history: one for each message; other items are
/// left out.
pub open spec fn history_chat(items: Seq<ResponseItemView>) -> Seq<MessageModel>
    decreases items.len(),
{
    if items.len() == 0 {
        Seq::empty()
    } else {
        match items.last() {
            ResponseItemView::Message { role, content, .. } => history_chat(
                items.drop_last(),
            ).push(chat_message(role, content)),
            _ => history_chat(items.drop_last()),
        }
    }
}

/// The system message of a prefill: the default system content, then the
/// system text.
pub open spec fn system_chat_message(instructions: Seq<char>) -> MessageModel {
    with_content(
        plain_message(Role::System, ContentModel::System(default_system())),
        ContentModel::Text(system_text(instructions)),
    )
}

/// The chat messages of a conversation, in order: the system message, the
/// developer message that holds the function tools where there are any, and
/// the history.
pub open spec fn harmony_conversation(instructions: Seq<char>, prompt: PromptView) -> Seq<
    MessageModel,
> {
    seq![system_chat_message(instructions)] + (if function_tools(prompt.tools).len() > 0 {
        seq![
            plain_message(
                Role::Developer,
                ContentModel::Developer(developer_with(functions_namespace(prompt.tools))),
            ),
        ]
    } else {
        Seq::empty()
    }) + history_chat(prompt.input)
}

/// The texts of the part are within the limit for texts. An image has none.
pub open spec fn part_fits(part: ContentItemView) -> bool {
    match part {
        ContentItemView::InputText { text } => text.len() <= text_limit(),
        ContentItemView::OutputText { text } => text.len() <= text_limit(),
        ContentItemView::InputImage { .. } => true,
    }
}

/// Every text of the item is within the limit for texts. Only a message has
/// texts.
pub open spec fn item_fits(item: ResponseItemView) -> bool {
    match item {
        ResponseItemView::Message { content, .. } => forall|k: int|
            0 <= k < content.len() ==> part_fits(#[trigger] content[k]),
        _ => true,
    }
}

/// The name and the description of a function tool and the serialisation of
/// its schema are within the limit for fields. No other tool is rendered.
pub open spec fn offered_tool_fits(tool: OpenAiToolView) -> bool {
    match tool {
        OpenAiToolView::Function(f) => {
            &&& f.name.len() <= field_limit()
            &&& f.description.len() <= field_limit()
            &&& match f.parameters {
                Some(schema) => json_text(schema).len() <= field_limit(),
                None => true,
            }
        },
        OpenAiToolView::Other => true,
    }
}

/// The request is small enough to be rendered into tokens: the system text
/// and every text of the history hold at most 900,000 characters each, and
/// the name, the description and the serialised schema of every function tool
/// at most 100,000 each.
pub open spec fn prompt_fits(instructions: Seq<char>, prompt: PromptView) -> bool {
    &&& system_text(instructions).len() <= text_limit()
    &&& forall|i: int| 0 <= i < prompt.input.len() ==> item_fits(#[trigger] prompt.input[i])
    &&& forall|j: int| 0 <= j < prompt.tools.len() ==> offered_tool_fits(#[trigger] prompt.tools[j])
}

/// The failure reported for a request that is too large to be rendered.
pub open spec fn too_large_failure() -> CodexErrView {
    CodexErrView::Other(
        "harmony render failed: a text of the conversation is too long for the tokenizer"@,
    )
}

proof fn lemma_chat_texts_fit(content: Seq<ContentItemView>)
    requires
        forall|k: int| 0 <= k < content.len() ==> part_fits(#[trigger] content[k]),
    ensures
        forall|j: int|
            0 <= j < chat_texts(content).len() ==> content_fits(#[trigger] chat_texts(content)[j]),
    decreases content.len(),
{
    if content.len() > 0 {
        let before = content.drop_last();
        assert forall|k: int| 0 <= k < before.len() implies part_fits(#[trigger] before[k]) by {
            assert(before[k] == content[k]);
        }
        lemma_chat_texts_fit(before);
        assert(part_fits(content[content.len() - 1]));
        let texts = chat_texts(content);
        assert forall|j: int| 0 <= j < texts.len() implies content_fits(#[trigger] texts[j]) by {
            if j < chat_texts(before).len() {
                assert(texts[j] == chat_texts(before)[j]);
            }
        }
    }
}

proof fn lemma_history_fits(items: Seq<ResponseItemView>)
    requires
        forall|i: int| 0 <= i < items.len() ==> item_fits(#[trigger] items[i]),
    ensures
        messages_fit(history_chat(items)),
    decreases items.len(),
{
    if items.len() > 0 {
        let before = items.drop_last();
        assert forall|i: int| 0 <= i < before.len() implies item_fits(#[trigger] before[i]) by {
            assert(before[i] == items[i]);
        }
        lemma_history_fits(before);
        assert(item_fits(items[items.len() - 1]));
        match items.last() {
            ResponseItemView::Message { role, content, .. } => {
                lemma_chat_texts_fit(content);
                let m = chat_message(role, content);
                assert forall|j: int| 0 <= j < m.content.len() implies content_fits(
                    #[trigger] m.content[j],
                ) by {
                    if j > 0 {
                        assert(m.content[j] == chat_texts(content)[j - 1]);
                    }
                }
                assert(message_fits(m));
            },
            _ => {},
        }
    }
}

proof fn lemma_function_tools_fit(tools: Seq<OpenAiToolView>)
    requires
        forall|j: int| 0 <= j < tools.len() ==> offered_tool_fits(#[trigger] tools[j]),
    ensures
        forall|i: int|
            0 <= i < function_tools(tools).len() ==> tool_fits(#[trigger] function_tools(tools)[i]),
    decreases tools.len(),
{
    if tools.len() > 0 {
        let before = tools.drop_last();
        assert forall|j: int| 0 <= j < before.len() implies offered_tool_fits(
            #[trigger] before[j],
        ) by {
            assert(before[j] == tools[j]);
        }
        lemma_function_tools_fit(before);
        assert(offered_tool_fits(tools[tools.len() - 1]));
        let kept = function_tools(tools);
        assert forall|i: int| 0 <= i < kept.len() implies tool_fits(#[trigger] kept[i]) by {
            if i < function_tools(before).len() {
                assert(kept[i] == function_tools(before)[i]);
            }
        }
    }
}

/// A request that is small enough gives chat messages that are within the
/// limits of the tokenizer.
pub proof fn lemma_prompt_fits(instructions: Seq<char>, prompt: PromptView)
    requires
        prompt_fits(instructions, prompt),
    ensures
        messages_fit(harmony_conversation(instructions, prompt)),
{
    reveal_strlit("You are ChatGPT, a large language model trained by OpenAI.");
    reveal_strlit("2024-06");
    reveal_strlit("analysis");
    reveal_strlit("commentary");
    reveal_strlit("final");
    reveal_strlit("functions");
    let system = system_chat_message(instructions);
    assert(content_fits(system.content[0]));
    assert(content_fits(system.content[1]));
    assert(message_fits(system));
    lemma_function_tools_fit(prompt.tools);
    lemma_history_fits(prompt.input);
    let namespace = functions_namespace(prompt.tools);
    assert(namespace_fits(namespace));
    let developer = plain_message(
        Role::Developer,
        ContentModel::Developer(developer_with(namespace)),
    );
    assert(content_fits(developer.content[0]));
    assert(message_fits(developer));
    let all = harmony_conversation(instructions, prompt);
    assert forall|i: int| 0 <= i < all.len() implies message_fits(#[trigger] all[i]) by {
        if i == 0 {
            assert(all[i] == system);
        } else if function_tools(prompt.tools).len() > 0 {
            if i == 1 {
                assert(all[i] == developer);
            } else {
                assert(all[i] == history_chat(prompt.input)[i - 2]);
            }
        } else {
            assert(all[i] == history_chat(prompt.input)[i - 1]);
        }
    }
}

/// The reasoning document of an effort, if any, and a summary that are
/// already in lower case: `{"effort":"..","summary":".."}`, or
/// `{"summary":".."}` where no effort is set.
pub open spec fn reasoning_text(effort: Option<Seq<char>>, summary: Seq<char>) -> Seq<char> {
    match effort {
        Some(e) => "{\"effort\":\""@ + e + "\",\"summary\":\""@ + summary + "\"}"@,
        None => "{\"summary\":\""@ + summary + "\"}"@,
    }
}

/// The reasoning document: the effort, if any, and the summary, both in lower
/// case.
pub open spec fn reasoning_document(effort: Option<Seq<char>>, summary: Seq<char>) -> Seq<char> {
    reasoning_text(
        match effort {
            Some(e) => Some(lowercase_of(e)),
            None => None,
        },
        lowercase_of(summary),
    )
}

/// What a request to stream from tokens holds, given how rendering went: the
/// tokens with the assistant's answer turn seeded and no token limit, or the
/// failure to render.
pub open spec fn token_request_of(
    rendered: Result<Seq<u32>, Seq<char>>,
    tools_json: Option<Seq<char>>,
    reasoning_json: Option<Seq<char>>,
) -> Result<TokenStreamRequestView, CodexErrView> {
    match rendered {
        Ok(tokens) => Ok(
            TokenStreamRequestView {
                tokens,
                prime_final: true,
                tools_json,
                reasoning_json,
                max_tokens: 0,
            },
        ),
        Err(e) => Err(CodexErrView::Other("harmony render failed: "@ + e)),
    }
}

/// The mathematical value of the outcome of preparing a request.
pub open spec fn request_view(r: Result<TokenStreamRequest, CodexErr>) -> Result<
    TokenStreamRequestView,
    CodexErrView,
> {
    match r {
        Ok(req) => Ok(req@),
        Err(e) => Err(e@),
    }
}

/// The mathematical value of the outcome of rendering.
pub open spec fn rendered_view(r: Result<Vec<u32>, String>) -> Result<Seq<u32>, Seq<char>> {
    match r {
        Ok(tokens) => Ok(tokens@),
        Err(e) => Err(e@),
    }
}

proof fn lemma_part_keys()
    ensures
        "type"@ != "text"@,
        "type"@ != "image_url"@,
        "role"@ != "content"@,
        "name"@ != "json_schema"@,
        "version"@ != "namespace"@,
        "version"@ != "tools"@,
        "namespace"@ != "tools"@,
{
    reveal_strlit("type");
    reveal_strlit("text");
    reveal_strlit("image_url");
    reveal_strlit("role");
    reveal_strlit("content");
    reveal_strlit("name");
    reveal_strlit("json_schema");
    reveal_strlit("version");
    reveal_strlit("namespace");
    reveal_strlit("tools");
    assert("type"@[1] != "text"@[1]);
    assert("type"@.len() != "image_url"@.len());
    assert("role"@.len() != "content"@.len());
    assert("name"@.len() != "json_schema"@.len());
    assert("version"@.len() != "namespace"@.len());
    assert("version"@.len() != "tools"@.len());
    assert("namespace"@.len() != "tools"@.len());
}

/// The JSON part `{"type": "text", "text": text}`.
fn text_part_value(text: String) -> (r: serde_json::Value)
    ensures
        json_of(r) == text_part(text@),
{
    proof {
        lemma_part_keys();
    }
    object2("type", string(String::from_str("text")), "text", string(text))
}

/// The JSON part `{"type": "image", "image_url": image_url}`.
fn image_part_value(image_url: String) -> (r: serde_json::Value)
    ensures
        json_of(r) == image_part(image_url@),
{
    proof {
        lemma_part_keys();
    }
    object2("type", string(String::from_str("image")), "image_url", string(image_url))
}

/// The JSON message `{"role": role, "content": parts}`.
fn json_message_value(role: String, parts: Vec<serde_json::Value>) -> (r: serde_json::Value)
    ensures
        json_of(r) == json_message(role@, jsons_of(parts@)),
{
    proof {
        lemma_part_keys();
    }
    object2("role", string(role), "content", array(parts))
}

/// The JSON parts of the content of a message.
fn parts_values(content: &Vec<ContentItem>) -> (parts: Vec<serde_json::Value>)
    ensures
        jsons_of(parts@) == parts_of(content.deep_view()),
{
    let mut parts: Vec<serde_json::Value> = Vec::new();
    let mut i: usize = 0;
    while i < content.len()
        invariant
            i <= content.len(),
            jsons_of(parts@) == parts_of(content.deep_view().take(i as int)),
        decreases content.len() - i,
    {
        let ghost before = jsons_of(parts@);
        let part = match &content[i] {
            ContentItem::InputText { text } => text_part_value(text.clone()),
            ContentItem::OutputText { text } => text_part_value(text.clone()),
            ContentItem::InputImage { image_url } => image_part_value(image_url.clone()),
        };
        parts.push(part);
        proof {
            assert(json_of(part) == part_of(content.deep_view()[i as int]));
            assert(jsons_of(parts@) =~= before.push(json_of(part)));
            assert(parts_of(content.deep_view().take(i + 1)) =~= parts_of(
                content.deep_view().take(i as int),
            ).push(part_of(content.deep_view()[i as int])));
        }
        i = i + 1;
    }
    proof {
        assert(content.deep_view().take(content.len() as int) == content.deep_view());
    }
    parts
}

/// The role that a role name stands for.
fn parse_role(role: &str) -> (r: Role)
    ensures
        r == role_of(role@),
{
    if str_eq(role, "system") {
        Role::System
    } else if str_eq(role, "developer") {
        Role::Developer
    } else if str_eq(role, "assistant") {
        Role::Assistant
    } else if str_eq(role, "tool") {
        Role::Tool
    } else {
        Role::User
    }
}

/// The chat message of one turn of the history.
fn chat_message_value(role: &str, content: &Vec<ContentItem>) -> (m: chat::Message)
    ensures
        message_of(m) == chat_message(role@, content.deep_view()),
{
    let mut msg = message(parse_role(role), text_content(String::new()));
    let ghost all = content.deep_view();
    let mut i: usize = 0;
    proof {
        assert(seq![ContentModel::Text(Seq::<char>::empty())] + chat_texts(all.take(0))
            =~= seq![ContentModel::Text(Seq::<char>::empty())]);
    }
    while i < content.len()
        invariant
            i <= content.len(),
            all == content.deep_view(),
            message_of(msg) == (MessageModel {
                role: role_of(role@),
                name: None,
                recipient: None,
                content: seq![ContentModel::Text(Seq::<char>::empty())] + chat_texts(
                    all.take(i as int),
                ),
                channel: None,
                content_type: None,
            }),
        decreases content.len() - i,
    {
        proof {
            assert(all.take(i + 1).drop_last() == all.take(i as int));
            assert(all.take(i + 1).last() == content@[i as int]@);
        }
        let ghost before = chat_texts(all.take(i as int));
        match &content[i] {
            ContentItem::InputText { text } => {
                msg = adding_content(msg, text_content(text.clone()));
                proof {
                    assert((seq![ContentModel::Text(Seq::<char>::empty())] + before).push(
                        ContentModel::Text(text@),
                    ) =~= seq![ContentModel::Text(Seq::<char>::empty())] + before.push(
                        ContentModel::Text(text@),
                    ));
                }
            },
            ContentItem::OutputText { text } => {
                msg = adding_content(msg, text_content(text.clone()));
                proof {
                    assert((seq![ContentModel::Text(Seq::<char>::empty())] + before).push(
                        ContentModel::Text(text@),
                    ) =~= seq![ContentModel::Text(Seq::<char>::empty())] + before.push(
                        ContentModel::Text(text@),
                    ));
                }
            },
            ContentItem::InputImage { .. } => {},
        }
        i = i + 1;
    }
    proof {
        assert(all.take(content.len() as int) == all);
    }
    msg
}

/// Whether every text of the item is within the limit for texts.
fn item_within_limits(item: &ResponseItem) -> (r: bool)
    ensures
        r == item_fits(item@),
{
    match item {
        ResponseItem::Message { content, .. } => {
            let ghost all = content.deep_view();
            let mut k: usize = 0;
            while k < content.len()
                invariant
                    k <= content.len(),
                    all == content.deep_view(),
                    item_fits(item@) == (forall|n: int|
                        0 <= n < all.len() ==> part_fits(#[trigger] all[n])),
                    forall|n: int| 0 <= n < k ==> part_fits(#[trigger] all[n]),
                decreases content.len() - k,
            {
                let fits = match &content[k] {
                    ContentItem::InputText { text } => text.as_str().unicode_len() <= 900_000,
                    ContentItem::OutputText { text } => text.as_str().unicode_len() <= 900_000,
                    ContentItem::InputImage { .. } => true,
                };
                proof {
                    assert(all[k as int] == content@[k as int]@);
                    assert(fits == part_fits(all[k as int]));
                }
                if !fits {
                    return false;
                }
                k = k + 1;
            }
            proof {
                assert(all.len() == content.len());
            }
            true
        },
        _ => true,
    }
}

/// Whether the name, the description and the serialised schema of the tool
/// are within the limit for fields.
fn tool_within_limits(tool: &OpenAiTool) -> (r: bool)
    ensures
        r == offered_tool_fits(tool@),
{
    match tool {
        OpenAiTool::Function(f) => {
            if f.name.as_str().unicode_len() > 100_000 {
                return false;
            }
            if f.description.as_str().unicode_len() > 100_000 {
                return false;
            }
            match &f.parameters {
                Some(schema) => render(schema).as_str().unicode_len() <= 100_000,
                None => true,
            }
        },
        OpenAiTool::Other => true,
    }
}

/// The reasoning document of an effort, if any, and a summary that are
/// already in lower case.
pub fn reasoning_document_from(effort: Option<String>, summary: String) -> (r: String)
    ensures
        r@ == reasoning_text(effort.deep_view(), summary@),
{
    let mut text = match effort {
        Some(e) => {
            let mut text = String::from_str("{\"effort\":\"");
            text.append(e.as_str());
            text.append("\",\"summary\":\"");
            text
        },
        None => String::from_str("{\"summary\":\""),
    };
    text.append(summary.as_str());
    text.append("\"}");
    text
}

/// The failure reported where the encoding cannot be loaded.
pub fn load_failure(reason: &str) -> (err: CodexErr)
    ensures
        err@ == CodexErrView::Other("harmony load failed: "@ + reason@),
{
    let mut text = String::from_str("harmony load failed: ");
    text.append(reason);
    CodexErr::Other(text)
}

/// The failure of a stream that the named service did not start.
pub open spec fn start_failure(service: Seq<char>) -> CodexErrView {
    CodexErrView::Stream(service + ": the request could not be started"@)
}

/// Whether a request is under way once the service was asked to start it: a
/// service that hands back no request has failed the stream.
pub fn start_outcome(started: bool, service: &str) -> (r: Result<(), CodexErr>)
    ensures
        match r {
            Ok(_) => started,
            Err(err) => !started && err@ == start_failure(service@),
        },
{
    if started {
        Ok(())
    } else {
        let mut text = String::from_str(service);
        text.append(": the request could not be started");
        Err(CodexErr::Stream(text))
    }
}

/// What a request to stream from tokens holds, given how rendering went.
pub fn token_request_from(
    rendered: Result<Vec<u32>, String>,
    tools_json: Option<String>,
    reasoning_json: Option<String>,
) -> (r: Result<TokenStreamRequest, CodexErr>)
    ensures
        request_view(r) == token_request_of(
            rendered_view(rendered),
            tools_json.deep_view(),
            reasoning_json.deep_view(),
        ),
{
    match rendered {
        Ok(tokens) => Ok(
            TokenStreamRequest {
                tokens,
                prime_final: true,
                tools_json,
                reasoning_json,
                max_tokens: 0,
            },
        ),
        Err(e) => {
            let mut text = String::from_str("harmony render failed: ");
            text.append(e.as_str());
            Err(CodexErr::Other(text))
        },
    }
}

impl ModelClient {
    /// A client that asks for the given reasoning effort, if any, and the
    /// given kind of reasoning summary.
    pub fn new(reasoning_effort: Option<String>, reasoning_summary: String) -> (c: ModelClient)
        ensures
            c.reasoning_effort == reasoning_effort,
            c.reasoning_summary == reasoning_summary,
    {
        ModelClient { reasoning_effort, reasoning_summary }
    }

    /// The sentence that announces the built-in tools to the model.
    pub fn build_tool_description() -> (r: Option<String>)
        ensures
            r.deep_view() == Some(built_in_tool_description()),
    {
        let schema =
            "{\\\"type\\\":\\\"object\\\",\\\"properties\\\":{\\\"msg\\\":{\\\"type\\\":\\\"string\\\"}}}";
        let mut supported: Vec<(String, String)> = Vec::new();
        supported.push((String::from_str("echo"), String::from_str(schema)));
        supported.push((String::from_str("upper"), String::from_str(schema)));
        proof {
            assert(tool_pairs(supported@) =~= supported_tools());
            lemma_built_in_tool_description();
        }
        Some(Self::describe_tools(&supported))
    }

    /// The sentence that announces `tools`, each a name and its quoted
    /// schema, to the model: the names, then each name with its schema, in the
    /// order given.
    pub fn describe_tools(tools: &Vec<(String, String)>) -> (r: String)
        ensures
            r@ == tool_description_text(tool_pairs(tools@)),
    {
        let mut names: Vec<String> = Vec::new();
        let mut schemas: Vec<String> = Vec::new();
        let ghost all = tool_pairs(tools@);
        let mut i: usize = 0;
        while i < tools.len()
            invariant
                i <= tools.len(),
                all == tool_pairs(tools@),
                views_of(names@) == tool_names(all.take(i as int)),
                views_of(schemas@) == tool_schemas(all.take(i as int)),
            decreases tools.len() - i,
        {
            let ghost names_before = views_of(names@);
            let ghost schemas_before = views_of(schemas@);
            let name = tools[i].0.clone();
            let mut entry = tools[i].0.clone();
            entry.append(": ");
            entry.append(tools[i].1.as_str());
            names.push(name);
            schemas.push(entry);
            proof {
                assert(all[i as int] == (tools@[i as int].0@, tools@[i as int].1@));
                assert(views_of(names@) =~= names_before.push(all[i as int].0));
                assert(views_of(schemas@) =~= schemas_before.push(
                    all[i as int].0 + ": "@ + all[i as int].1,
                ));
                assert(tool_names(all.take(i + 1)) =~= tool_names(all.take(i as int)).push(
                    all[i as int].0,
                ));
                assert(tool_schemas(all.take(i + 1)) =~= tool_schemas(all.take(i as int)).push(
                    all[i as int].0 + ": "@ + all[i as int].1,
                ));
            }
            i = i + 1;
        }
        proof {
            assert(all.take(tools.len() as int) == all);
        }
        let mut text = String::from_str("Available tools: ");
        text.append(join(&names, ", ").as_str());
        text.append(". Schemas: ");
        text.append(join(&schemas, "; ").as_str());
        text.append(
            ". To call a tool, set the recipient to the tool name and provide JSON arguments in commentary channel.",
        );
        text
    }

    /// The tool manifest of a prompt as the text of a JSON document: the
    /// function tools whose schema has a JSON form, under the namespace
    /// `functions`. `None` where there is no such tool.
    pub fn build_harmony_tools_json(prompt: &Prompt) -> (r: Option<String>)
        ensures
            r.deep_view() == (match tools_manifest(prompt@.tools) {
                Some(doc) => Some(json_text(doc)),
                None => None,
            }),
    {
        match Self::tools_document(prompt) {
            Some(doc) => Some(render(&doc)),
            None => None,
        }
    }

    /// The tool manifest of a prompt as a JSON document. `None` where no
    /// function tool of the prompt has a schema in JSON form.
    pub fn tools_document(prompt: &Prompt) -> (r: Option<serde_json::Value>)
        ensures
            optional_json_of(r) == tools_manifest(prompt@.tools),
    {
        let mut arr: Vec<serde_json::Value> = Vec::new();
        let ghost all = prompt@.tools;
        let mut i: usize = 0;
        while i < prompt.tools.len()
            invariant
                i <= prompt.tools.len(),
                all == prompt@.tools,
                jsons_of(arr@) == manifest_entries(all.take(i as int)),
            decreases prompt.tools.len() - i,
        {
            proof {
                assert(all.take(i + 1).drop_last() == all.take(i as int));
                assert(all.take(i + 1).last() == prompt.tools@[i as int]@);
            }
            let ghost before = jsons_of(arr@);
            match &prompt.tools[i] {
                OpenAiTool::Function(f) => {
                    match &f.parameters {
                        Some(params) => {
                            proof {
                                lemma_part_keys();
                            }
                            let entry = object2(
                                "name",
                                string(f.name.clone()),
                                "json_schema",
                                duplicate(params),
                            );
                            arr.push(entry);
                            proof {
                                assert(jsons_of(arr@) =~= before.push(json_of(entry)));
                            }
                        },
                        None => {},
                    }
                },
                OpenAiTool::Other => {},
            }
            i = i + 1;
        }
        proof {
            assert(all.take(prompt.tools.len() as int) == all);
        }
        if arr.len() == 0 {
            None
        } else {
            proof {
                lemma_part_keys();
            }
            let doc = object3(
                "version",
                unsigned(1),
                "namespace",
                string(String::from_str("functions")),
                "tools",
                array(arr),
            );
            Some(doc)
        }
    }

    /// The function tools of a prompt as one tool namespace, `functions`.
    /// `None` where the prompt offers no function tool.
    pub fn tools_for_harmony(prompt: &Prompt) -> (r: Option<chat::ToolNamespaceConfig>)
        ensures
            match r {
                Some(ns) => function_tools(prompt@.tools).len() > 0 && namespace_of(ns)
                    == functions_namespace(prompt@.tools),
                None => function_tools(prompt@.tools).len() == 0,
            },
    {
        let mut tools: Vec<chat::ToolDescription> = Vec::new();
        let ghost all = prompt@.tools;
        let mut i: usize = 0;
        while i < prompt.tools.len()
            invariant
                i <= prompt.tools.len(),
                all == prompt@.tools,
                tools_of(tools@) == function_tools(all.take(i as int)),
            decreases prompt.tools.len() - i,
        {
            proof {
                assert(all.take(i + 1).drop_last() == all.take(i as int));
                assert(all.take(i + 1).last() == prompt.tools@[i as int]@);
            }
            let ghost before = tools_of(tools@);
            match &prompt.tools[i] {
                OpenAiTool::Function(f) => {
                    let params = match &f.parameters {
                        Some(p) => Some(duplicate(p)),
                        None => None,
                    };
                    let tool = tool_description(f.name.clone(), f.description.clone(), params);
                    tools.push(tool);
                    proof {
                        assert(tools_of(tools@) =~= before.push(tool_of(tool)));
                    }
                },
                OpenAiTool::Other => {},
            }
            i = i + 1;
        }
        proof {
            assert(all.take(prompt.tools.len() as int) == all);
        }
        if tools.len() == 0 {
            None
        } else {
            Some(tool_namespace(String::from_str("functions"), tools))
        }
    }

    /// The conversation as the text of a JSON document of messages: the
    /// system message, a developer message that announces `tools` (each a name
    /// and its quoted schema, in the order supplied) where there are any, and
    /// the history. The result is never `None`: the system message is always
    /// there.
    pub fn build_harmony_conversation_json(
        instructions: &str,
        items: &Vec<ResponseItem>,
        tools: &Vec<(String, String)>,
    ) -> (r: Option<String>)
        ensures
            r.deep_view() == Some(
                json_text(conversation_doc(instructions@, items.deep_view(), tool_pairs(tools@))),
            ),
    {
        let doc = Self::conversation_document(instructions, items, tools);
        Some(render(&doc))
    }

    /// The conversation as a JSON document of messages.
    pub fn conversation_document(
        instructions: &str,
        items: &Vec<ResponseItem>,
        tools: &Vec<(String, String)>,
    ) -> (doc: serde_json::Value)
        ensures
            json_of(doc) == conversation_doc(instructions@, items.deep_view(), tool_pairs(tools@)),
    {
        let mut messages: Vec<serde_json::Value> = Vec::new();
        let sys = if !instructions.is_empty() {
            String::from_str(instructions)
        } else {
            String::from_str(
                "# Valid channels: analysis, commentary, final.\nAlways write user-facing responses in the final channel; use analysis only for internal reasoning.",
            )
        };
        let mut sys_parts: Vec<serde_json::Value> = Vec::new();
        sys_parts.push(text_part_value(sys));
        proof {
            assert(jsons_of(sys_parts@) =~= seq![text_part(system_text(instructions@))]);
        }
        messages.push(json_message_value(String::from_str("system"), sys_parts));
        proof {
            assert(tool_pairs(tools@).len() == tools@.len());
        }
        if tools.len() > 0 {
            let mut dev_parts: Vec<serde_json::Value> = Vec::new();
            dev_parts.push(text_part_value(Self::describe_tools(tools)));
            proof {
                assert(jsons_of(dev_parts@) =~= seq![
                    text_part(tool_description_text(tool_pairs(tools@))),
                ]);
            }
            messages.push(json_message_value(String::from_str("developer"), dev_parts));
        }
        let ghost all = items.deep_view();
        let ghost head = conversation_messages(instructions@, Seq::empty(), tool_pairs(tools@));
        proof {
            assert(jsons_of(messages@) =~= head);
            assert(head =~= head + history_messages(all.take(0)));
        }
        let mut i: usize = 0;
        while i < items.len()
            invariant
                i <= items.len(),
                all == items.deep_view(),
                head == conversation_messages(instructions@, Seq::empty(), tool_pairs(tools@)),
                jsons_of(messages@) == head + history_messages(all.take(i as int)),
            decreases items.len() - i,
        {
            proof {
                assert(all.take(i + 1).drop_last() == all.take(i as int));
                assert(all.take(i + 1).last() == items@[i as int]@);
            }
            let ghost before = jsons_of(messages@);
            match &items[i] {
                ResponseItem::Message { role, content, .. } => {
                    let parts = parts_values(content);
                    let msg = json_message_value(role.clone(), parts);
                    messages.push(msg);
                    proof {
                        assert(jsons_of(messages@) =~= before.push(json_of(msg)));
                        assert(before.push(json_of(msg)) =~= head + history_messages(
                            all.take(i as int),
                        ).push(json_of(msg)));
                    }
                },
                _ => {},
            }
            i = i + 1;
        }
        proof {
            assert(all.take(items.len() as int) == all);
            assert(head + history_messages(all) =~= conversation_messages(
                instructions@,
                all,
                tool_pairs(tools@),
            ));
        }
        object1("messages", array(messages))
    }

    /// The conversation as chat messages, ready to be rendered into prefill
    /// tokens.
    pub fn harmony_messages(instructions: &str, prompt: &Prompt) -> (r: Vec<chat::Message>)
        ensures
            messages_of(r@) == harmony_conversation(instructions@, prompt@),
    {
        let mut messages: Vec<chat::Message> = Vec::new();
        let sys_text = if !instructions.is_empty() {
            String::from_str(instructions)
        } else {
            String::from_str(
                "# Valid channels: analysis, commentary, final.\nAlways write user-facing responses in the final channel; use analysis only for internal reasoning.",
            )
        };
        let sys = adding_content(message(Role::System, system_content()), text_content(sys_text));
        messages.push(sys);
        match Self::tools_for_harmony(prompt) {
            Some(tools_root) => {
                messages.push(message(Role::Developer, developer_content(tools_root)));
            },
            None => {},
        }
        let ghost all = prompt@.input;
        let ghost head = harmony_conversation(
            instructions@,
            PromptView { input: Seq::empty(), tools: prompt@.tools },
        );
        proof {
            assert(messages_of(messages@) =~= head);
            assert(head =~= head + history_chat(all.take(0)));
        }
        let mut i: usize = 0;
        while i < prompt.input.len()
            invariant
                i <= prompt.input.len(),
                all == prompt@.input,
                head == harmony_conversation(
                    instructions@,
                    PromptView { input: Seq::empty(), tools: prompt@.tools },
                ),
                messages_of(messages@) == head + history_chat(all.take(i as int)),
            decreases prompt.input.len() - i,
        {
            proof {
                assert(all.take(i + 1).drop_last() == all.take(i as int));
                assert(all.take(i + 1).last() == prompt.input@[i as int]@);
            }
            let ghost before = messages_of(messages@);
            match &prompt.input[i] {
                ResponseItem::Message { role, content, .. } => {
                    let msg = chat_message_value(role.as_str(), content);
                    messages.push(msg);
                    proof {
                        assert(messages_of(messages@) =~= before.push(
                            message_of(msg),
                        ));
                        assert(before.push(message_of(msg)) =~= head
                            + history_chat(all.take(i as int)).push(
                            message_of(msg),
                        ));
                    }
                },
                _ => {},
            }
            i = i + 1;
        }
        proof {
            assert(all.take(prompt.input.len() as int) == all);
            assert(head + history_chat(all) =~= harmony_conversation(instructions@, prompt@));
        }
        messages
    }

    /// The reasoning document of this client, such as
    /// `{"effort":"low","summary":"auto"}`. The result is never `None`: the
    /// summary is always there.
    pub fn reasoning_json(&self) -> (r: Option<String>)
        ensures
            r.deep_view() == Some(
                reasoning_document(self.reasoning_effort.deep_view(), self.reasoning_summary@),
            ),
    {
        let effort = match &self.reasoning_effort {
            Some(e) => Some(to_lowercase(e.as_str())),
            None => None,
        };
        let summary = to_lowercase(self.reasoning_summary.as_str());
        Some(reasoning_document_from(effort, summary))
    }

    /// Whether a request is small enough to be rendered into tokens: the
    /// system text and every text of the history hold at most 900,000
    /// characters each, and the name, the description and the serialised
    /// schema of every function tool at most 100,000 each.
    pub fn fits_tokenizer(instructions: &str, prompt: &Prompt) -> (r: bool)
        ensures
            r == prompt_fits(instructions@, prompt@),
    {
        let system_length = if !instructions.is_empty() {
            instructions.unicode_len()
        } else {
            "# Valid channels: analysis, commentary, final.\nAlways write user-facing responses in the final channel; use analysis only for internal reasoning.".unicode_len()
        };
        if system_length > 900_000 {
            return false;
        }
        let ghost view = prompt@;
        let mut i: usize = 0;
        while i < prompt.input.len()
            invariant
                i <= prompt.input.len(),
                view == prompt@,
                forall|n: int| 0 <= n < i ==> item_fits(#[trigger] view.input[n]),
            decreases prompt.input.len() - i,
        {
            proof {
                assert(view.input[i as int] == prompt.input@[i as int]@);
            }
            if !item_within_limits(&prompt.input[i]) {
                return false;
            }
            i = i + 1;
        }
        let mut j: usize = 0;
        while j < prompt.tools.len()
            invariant
                j <= prompt.tools.len(),
                view == prompt@,
                forall|n: int| 0 <= n < prompt.input.len() ==> item_fits(#[trigger] view.input[n]),
                forall|n: int| 0 <= n < j ==> offered_tool_fits(#[trigger] view.tools[n]),
            decreases prompt.tools.len() - j,
        {
            proof {
                assert(view.tools[j as int] == prompt.tools@[j as int]@);
            }
            if !tool_within_limits(&prompt.tools[j]) {
                return false;
            }
            j = j + 1;
        }
        true
    }

    /// Passes a request that is small enough to be rendered into tokens, and
    /// fails any other.
    pub fn size_outcome(instructions: &str, prompt: &Prompt) -> (r: Result<(), CodexErr>)
        ensures
            match r {
                Ok(_) => prompt_fits(instructions@, prompt@),
                Err(err) => !prompt_fits(instructions@, prompt@) && err@ == too_large_failure(),
            },
    {
        if Self::fits_tokenizer(instructions, prompt) {
            Ok(())
        } else {
            Err(
                CodexErr::Other(
                    String::from_str(
                        "harmony render failed: a text of the conversation is too long for the tokenizer",
                    ),
                ),
            )
        }
    }

    /// Prepares the request to stream from prefill tokens: renders the
    /// conversation, without instructions of the caller's, under `enc` for the
    /// assistant to speak next, and adds the tool manifest and the reasoning
    /// document. A request that is
    /// too large for the tokenizer fails, and only such a request fails with
    /// that message. For any other request it is for the encoding to say
    /// whether rendering succeeds; where it fails, so does this.
    pub fn prepare_token_stream(
        &self,
        enc: &openai_harmony::HarmonyEncoding,
        prompt: &Prompt,
    ) -> (r: Result<TokenStreamRequest, CodexErr>)
        ensures
            request_view(r) == (if prompt_fits(Seq::empty(), prompt@) {
                token_request_of(
                    harmony_prefill(
                        *enc,
                        harmony_conversation(Seq::empty(), prompt@),
                        Role::Assistant,
                    ),
                    match tools_manifest(prompt@.tools) {
                        Some(doc) => Some(json_text(doc)),
                        None => None,
                    },
                    Some(
                        reasoning_document(
                            self.reasoning_effort.deep_view(),
                            self.reasoning_summary@,
                        ),
                    ),
                )
            } else {
                Err(too_large_failure())
            }),
    {
        let instructions = String::new();
        match Self::size_outcome(instructions.as_str(), prompt) {
            Ok(_) => {},
            Err(too_large) => {
                return Err(too_large);
            },
        }
        let tools_json = Self::build_harmony_tools_json(prompt);
        let reasoning_json = self.reasoning_json();
        let messages = Self::harmony_messages(instructions.as_str(), prompt);
        proof {
            lemma_prompt_fits(Seq::empty(), prompt@);
        }
        let rendered = render_for_completion(enc, &messages, Role::Assistant);
        token_request_from(rendered, tools_json, reasoning_json)
    }
}

/// The turns of a history: the role and the content of each message, in
/// order. Items that are no messages are no turns.
pub open spec fn turns(items: Seq<ResponseItemView>) -> Seq<(Seq<char>, Seq<ContentItemView>)>
    decreases items.len(),
{
    if items.len() == 0 {
        Seq::empty()
    } else {
        match items.last() {
            ResponseItemView::Message { role, content, .. } => turns(items.drop_last()).push(
                (role, content),
            ),
            _ => turns(items.drop_last()),
        }
    }
}

/// Either target holds one message for each turn of the history, in the order
/// of the turns, under the turn's role and made of the turn's parts alone.
/// Nothing is merged or left out, and a turn without parts has its message
/// too.
pub proof fn law_one_message_per_turn(items: Seq<ResponseItemView>)
    ensures
        history_messages(items).len() == turns(items).len(),
        history_chat(items).len() == turns(items).len(),
        forall|i: int|
            0 <= i < turns(items).len() ==> #[trigger] history_messages(items)[i] == json_message(
                turns(items)[i].0,
                parts_of(turns(items)[i].1),
            ),
        forall|i: int|
            0 <= i < turns(items).len() ==> #[trigger] history_chat(items)[i] == chat_message(
                turns(items)[i].0,
                turns(items)[i].1,
            ),
    decreases items.len(),
{
    if items.len() > 0 {
        law_one_message_per_turn(items.drop_last());
    }
}

/// The JSON document announces the tools of the request and no others: its
/// developer message is there exactly when tools are supplied, stands right
/// after the system message, and holds the sentence made of the supplied
/// tools in their order.
pub proof fn law_developer_message_follows_tools(
    instructions: Seq<char>,
    items: Seq<ResponseItemView>,
    tools: Seq<(Seq<char>, Seq<char>)>,
)
    ensures
        conversation_messages(instructions, items, tools)[0] == json_message(
            "system"@,
            seq![text_part(system_text(instructions))],
        ),
        tools.len() > 0 ==> conversation_messages(instructions, items, tools) == seq![
            json_message("system"@, seq![text_part(system_text(instructions))]),
            json_message("developer"@, seq![text_part(tool_description_text(tools))]),
        ] + history_messages(items),
        tools.len() == 0 ==> conversation_messages(instructions, items, tools) == seq![
            json_message("system"@, seq![text_part(system_text(instructions))]),
        ] + history_messages(items),
{
    let system = json_message("system"@, seq![text_part(system_text(instructions))]);
    let developer = json_message("developer"@, seq![text_part(tool_description_text(tools))]);
    assert(seq![system] + seq![developer] =~= seq![system, developer]);
    assert(seq![system] + Seq::<Json>::empty() =~= seq![system]);
}

/// Encoding is deterministic: requests that hold the same instructions, the
/// same history and the same tools are encoded alike, character for character
/// and message for message, for either target.
pub proof fn law_encoding_is_deterministic(
    instructions_a: &str,
    prompt_a: &Prompt,
    tools_a: &Vec<(String, String)>,
    instructions_b: &str,
    prompt_b: &Prompt,
    tools_b: &Vec<(String, String)>,
)
    requires
        instructions_a@ == instructions_b@,
        prompt_a@ == prompt_b@,
        tool_pairs(tools_a@) == tool_pairs(tools_b@),
    ensures
        json_text(conversation_doc(instructions_a@, prompt_a@.input, tool_pairs(tools_a@)))
            == json_text(conversation_doc(instructions_b@, prompt_b@.input, tool_pairs(tools_b@))),
        tools_manifest(prompt_a@.tools) == tools_manifest(prompt_b@.tools),
        harmony_conversation(instructions_a@, prompt_a@) == harmony_conversation(
            instructions_b@,
            prompt_b@,
        ),
{
}

} // verus!
