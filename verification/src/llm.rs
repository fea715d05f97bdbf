//! The language-model side: conversation messages, tool definitions and
//! calls, completion responses, streaming deltas, provider errors, and the
//! decisions of the OpenAI-compatible provider (its endpoint, how a
//! response becomes deltas, how a raw response is read).

use std::sync::Arc;

use vstd::prelude::*;

use crate::outside::ExJsonValue;
use crate::text::{decimal, decimal_of};

verus! {

/// Errors of a language-model provider.
#[derive(Debug)]
pub enum LlmError {
    /// The HTTP exchange failed; holds the transport's message.
    Network(String),
    /// The provider answered with a non-success status.
    Provider { status: u16, body: String },
    /// The provider's response could not be read.
    Malformed(String),
    /// The stream ended unexpectedly.
    StreamEnd,
    /// The provider is misconfigured.
    Config(String),
}

/// Whether a provider error is worth retrying: transport failures, server
/// errors (status 500 and above) and rate limiting (429).
pub open spec fn retryable(e: &LlmError) -> bool {
    match e {
        LlmError::Network(_) => true,
        LlmError::Provider { status, .. } => *status >= 500 || *status == 429,
        _ => false,
    }
}

/// The text of a provider error.
pub open spec fn error_text(e: &LlmError) -> Seq<char> {
    match e {
        LlmError::Network(m) => "network error: "@ + m@,
        LlmError::Provider { status, body } => "provider returned status "@ + decimal(
            *status as nat,
        ) + ": "@ + body@,
        LlmError::Malformed(m) => "malformed provider response: "@ + m@,
        LlmError::StreamEnd => "stream ended unexpectedly"@,
        LlmError::Config(m) => "configuration error: "@ + m@,
    }
}

impl LlmError {
    /// Whether the error is worth retrying.
    pub fn is_retryable(&self) -> (b: bool)
        ensures
            b == retryable(self),
    {
        match self {
            LlmError::Network(_) => true,
            LlmError::Provider { status, .. } => *status >= 500 || *status == 429,
            _ => false,
        }
    }

    /// The error's message.
    pub fn message(&self) -> (m: String)
        ensures
            m@ == error_text(self),
    {
        match self {
            LlmError::Network(s) => String::from_str("network error: ").concat(s.as_str()),
            LlmError::Provider { status, body } => {
                let digits = crate::text::string_of(&decimal_of(*status as u64));
                String::from_str("provider returned status ").concat(digits.as_str()).concat(
                    ": ",
                ).concat(body.as_str())
            },
            LlmError::Malformed(s) => String::from_str("malformed provider response: ").concat(
                s.as_str(),
            ),
            LlmError::StreamEnd => String::from_str("stream ended unexpectedly"),
            LlmError::Config(s) => String::from_str("configuration error: ").concat(s.as_str()),
        }
    }
}

/// A role in the conversation.
#[derive(Debug, Clone, Copy, PartialEq, Eq, Structural, Hash)]
pub enum Role {
    System,
    User,
    Assistant,
    Tool,
}

/// A function call requested by the model.
#[derive(Debug, Clone)]
pub struct FunctionCall {
    pub name: String,
    /// Raw JSON arguments text from the provider.
    pub arguments: String,
}

/// A tool call requested by the model.
#[derive(Debug, Clone)]
pub struct ToolCall {
    /// Unique id assigned by the provider.
    pub id: String,
    /// Type discriminator (`function`).
    pub kind: String,
    pub function: FunctionCall,
}

/// A tool call as plain values.
pub struct ToolCallView {
    pub id: Seq<char>,
    pub kind: Seq<char>,
    pub name: Seq<char>,
    pub arguments: Seq<char>,
}

impl ToolCall {
    pub open spec fn view(&self) -> ToolCallView {
        ToolCallView {
            id: self.id@,
            kind: self.kind@,
            name: self.function.name@,
            arguments: self.function.arguments@,
        }
    }

    /// A copy of the call.
    pub fn duplicate(&self) -> (c: ToolCall)
        ensures
            c.view() == self.view(),
    {
        ToolCall {
            id: self.id.clone(),
            kind: self.kind.clone(),
            function: FunctionCall {
                name: self.function.name.clone(),
                arguments: self.function.arguments.clone(),
            },
        }
    }
}

/// The tool calls of a list, as plain values.
pub open spec fn calls_view(v: Seq<ToolCall>) -> Seq<ToolCallView> {
    v.map_values(|c: ToolCall| c.view())
}

/// A copy of a list of tool calls.
pub fn copy_calls(v: &Vec<ToolCall>) -> (r: Vec<ToolCall>)
    ensures
        calls_view(r@) == calls_view(v@),
{
    let mut r: Vec<ToolCall> = Vec::new();
    let mut i: usize = 0;
    while i < v.len()
        invariant
            i <= v@.len(),
            calls_view(r@) == calls_view(v@).take(i as int),
        decreases v.len() - i,
    {
        let ghost before = calls_view(r@);
        r.push(v[i].duplicate());
        proof {
            assert(calls_view(r@) =~= before.push(v@[i as int].view()));
            assert(calls_view(v@).take(i + 1) =~= calls_view(v@).take(i as int).push(
                v@[i as int].view(),
            ));
        }
        i = i + 1;
    }
    assert(calls_view(v@).take(i as int) =~= calls_view(v@));
    r
}

/// The character sequence of an optional string.
pub open spec fn opt_view(o: Option<String>) -> Option<Seq<char>> {
    match o {
        Some(s) => Some(s@),
        None => None,
    }
}

/// A copy of an optional string.
pub fn copy_opt(o: &Option<String>) -> (r: Option<String>)
    ensures
        opt_view(r) == opt_view(*o),
{
    match o {
        Some(s) => Some(s.clone()),
        None => None,
    }
}

/// A single message in the conversation.
#[derive(Debug, Clone)]
pub struct Message {
    pub role: Role,
    pub content: Option<String>,
    /// Tool calls requested by the assistant.
    pub tool_calls: Vec<ToolCall>,
    /// When the role is `Tool`, the id of the tool call this answers.
    pub tool_call_id: Option<String>,
    /// Optional name label for the message source.
    pub name: Option<String>,
}

/// A message as plain values.
pub struct MessageView {
    pub role: Role,
    pub content: Option<Seq<char>>,
    pub tool_calls: Seq<ToolCallView>,
    pub tool_call_id: Option<Seq<char>>,
    pub name: Option<Seq<char>>,
}

/// A message with the given role and text and nothing else.
pub open spec fn text_message(role: Role, content: Seq<char>) -> MessageView {
    MessageView {
        role,
        content: Some(content),
        tool_calls: Seq::empty(),
        tool_call_id: None,
        name: None,
    }
}

/// The assistant's turn: its text, if any, and the tool calls it requests.
pub open spec fn assistant_turn(content: Option<Seq<char>>, calls: Seq<ToolCallView>) -> MessageView {
    MessageView { role: Role::Assistant, content, tool_calls: calls, tool_call_id: None, name: None }
}

/// The answer to tool call `call_id`.
pub open spec fn tool_answer(call_id: Seq<char>, content: Seq<char>) -> MessageView {
    MessageView {
        role: Role::Tool,
        content: Some(content),
        tool_calls: Seq::empty(),
        tool_call_id: Some(call_id),
        name: None,
    }
}

/// The messages of a list, as plain values.
pub open spec fn messages_view(v: Seq<Message>) -> Seq<MessageView> {
    v.map_values(|m: Message| m.view())
}

impl Message {
    pub open spec fn view(&self) -> MessageView {
        MessageView {
            role: self.role,
            content: opt_view(self.content),
            tool_calls: calls_view(self.tool_calls@),
            tool_call_id: opt_view(self.tool_call_id),
            name: opt_view(self.name),
        }
    }

    /// A system message.
    pub fn system(content: &str) -> (m: Message)
        ensures
            m.view() == text_message(Role::System, content@),
    {
        let m = Message {
            role: Role::System,
            content: Some(String::from_str(content)),
            tool_calls: Vec::new(),
            tool_call_id: None,
            name: None,
        };
        assert(m.view().tool_calls =~= Seq::<ToolCallView>::empty());
        m
    }

    /// A user message.
    pub fn user(content: &str) -> (m: Message)
        ensures
            m.view() == text_message(Role::User, content@),
    {
        let m = Message {
            role: Role::User,
            content: Some(String::from_str(content)),
            tool_calls: Vec::new(),
            tool_call_id: None,
            name: None,
        };
        assert(m.view().tool_calls =~= Seq::<ToolCallView>::empty());
        m
    }

    /// An assistant message with text only.
    pub fn assistant(content: &str) -> (m: Message)
        ensures
            m.view() == text_message(Role::Assistant, content@),
    {
        let m = Message {
            role: Role::Assistant,
            content: Some(String::from_str(content)),
            tool_calls: Vec::new(),
            tool_call_id: None,
            name: None,
        };
        assert(m.view().tool_calls =~= Seq::<ToolCallView>::empty());
        m
    }

    /// An assistant message with optional text and the tool calls it requests.
    pub fn assistant_with_tools(content: Option<String>, tool_calls: Vec<ToolCall>) -> (m: Message)
        ensures
            m.view() == assistant_turn(opt_view(content), calls_view(tool_calls@)),
    {
        Message { role: Role::Assistant, content, tool_calls, tool_call_id: None, name: None }
    }

    /// The result of tool call `call_id`.
    pub fn tool_result(call_id: &str, content: &str) -> (m: Message)
        ensures
            m.view() == tool_answer(call_id@, content@),
    {
        let m = Message {
            role: Role::Tool,
            content: Some(String::from_str(content)),
            tool_calls: Vec::new(),
            tool_call_id: Some(String::from_str(call_id)),
            name: None,
        };
        assert(m.view().tool_calls =~= Seq::<ToolCallView>::empty());
        m
    }
}

/// A function the model may call: its name, description and the JSON
/// schema of its parameters.
#[derive(Debug, Clone)]
pub struct FunctionDefinition {
    pub name: String,
    pub description: String,
    pub parameters: serde_json::Value,
}

/// A tool available to the model.
#[derive(Debug, Clone)]
pub struct ToolDefinition {
    /// Type discriminator: `function` for OpenAI-compatible providers.
    pub kind: String,
    pub function: FunctionDefinition,
}

/// The type discriminator a tool definition has when none is given.
pub fn default_function_type() -> (s: String)
    ensures
        s@ == "function"@,
{
    String::from_str("function")
}

/// A tool definition as plain values.
pub struct ToolDefinitionView {
    pub kind: Seq<char>,
    pub name: Seq<char>,
    pub description: Seq<char>,
    pub parameters: serde_json::Value,
}

impl ToolDefinition {
    pub open spec fn view(&self) -> ToolDefinitionView {
        ToolDefinitionView {
            kind: self.kind@,
            name: self.function.name@,
            description: self.function.description@,
            parameters: self.function.parameters,
        }
    }

    /// A copy of the definition.
    pub fn duplicate(&self) -> (d: ToolDefinition)
        ensures
            d.view() == self.view(),
    {
        ToolDefinition {
            kind: self.kind.clone(),
            function: FunctionDefinition {
                name: self.function.name.clone(),
                description: self.function.description.clone(),
                parameters: self.function.parameters.clone(),
            },
        }
    }
}

/// The tool definitions of a list, as plain values.
pub open spec fn tools_view(v: Seq<ToolDefinition>) -> Seq<ToolDefinitionView> {
    v.map_values(|t: ToolDefinition| t.view())
}

/// A copy of a list of tool definitions.
pub fn copy_tools(v: &Vec<ToolDefinition>) -> (r: Vec<ToolDefinition>)
    ensures
        tools_view(r@) == tools_view(v@),
{
    let mut r: Vec<ToolDefinition> = Vec::new();
    let mut i: usize = 0;
    while i < v.len()
        invariant
            i <= v@.len(),
            tools_view(r@) == tools_view(v@).take(i as int),
        decreases v.len() - i,
    {
        let ghost before = tools_view(r@);
        r.push(v[i].duplicate());
        proof {
            assert(tools_view(r@) =~= before.push(v@[i as int].view()));
            assert(tools_view(v@).take(i + 1) =~= tools_view(v@).take(i as int).push(
                v@[i as int].view(),
            ));
        }
        i = i + 1;
    }
    assert(tools_view(v@).take(i as int) =~= tools_view(v@));
    r
}

impl Message {
    /// A copy of the message.
    pub fn duplicate(&self) -> (m: Message)
        ensures
            m.view() == self.view(),
    {
        Message {
            role: self.role,
            content: copy_opt(&self.content),
            tool_calls: copy_calls(&self.tool_calls),
            tool_call_id: copy_opt(&self.tool_call_id),
            name: copy_opt(&self.name),
        }
    }
}

/// A copy of a conversation.
pub fn copy_messages(v: &Vec<Message>) -> (r: Vec<Message>)
    ensures
        messages_view(r@) == messages_view(v@),
{
    let mut r: Vec<Message> = Vec::new();
    let mut i: usize = 0;
    while i < v.len()
        invariant
            i <= v@.len(),
            messages_view(r@) == messages_view(v@).take(i as int),
        decreases v.len() - i,
    {
        let ghost before = messages_view(r@);
        r.push(v[i].duplicate());
        proof {
            assert(messages_view(r@) =~= before.push(v@[i as int].view()));
            assert(messages_view(v@).take(i + 1) =~= messages_view(v@).take(i as int).push(
                v@[i as int].view(),
            ));
        }
        i = i + 1;
    }
    assert(messages_view(v@).take(i as int) =~= messages_view(v@));
    r
}

/// A request for one completion: the model, the conversation, the tools it
/// may call and the sampling settings. Temperature and top-p are carried as
/// the bits of their `f32` values. The provider-specific extra fields of a
/// request are not modelled: the agent loop always sends none.
pub struct CompletionRequest {
    pub model: String,
    pub messages: Vec<Message>,
    pub tools: Vec<ToolDefinition>,
    /// Tool-choice hint ("auto", "none", or a tool's name).
    pub tool_choice: Option<String>,
    pub temperature_bits: Option<u32>,
    pub max_tokens: Option<u32>,
    pub top_p_bits: Option<u32>,
    /// Stop sequences.
    pub stop: Vec<String>,
}

/// Token usage reported by a provider.
#[derive(Debug, Clone, Copy, PartialEq, Eq, Structural)]
pub struct Usage {
    pub prompt_tokens: u64,
    pub completion_tokens: u64,
    pub total_tokens: u64,
}

impl Default for Usage {
    fn default() -> (u: Usage)
        ensures
            u.prompt_tokens == 0 && u.completion_tokens == 0 && u.total_tokens == 0,
    {
        Usage { prompt_tokens: 0, completion_tokens: 0, total_tokens: 0 }
    }
}

/// A completed model turn.
#[derive(Debug, Clone)]
pub struct CompletionResponse {
    pub content: Option<String>,
    pub tool_calls: Vec<ToolCall>,
    /// Provider-reported finish reason.
    pub finish_reason: Option<String>,
    /// Usage stats if reported.
    pub usage: Option<Usage>,
}

/// A delta emitted during streaming.
#[derive(Debug, Clone)]
pub enum StreamDelta {
    /// Incremental text.
    Text(String),
    /// A complete (accumulated) tool call.
    ToolCall(ToolCall),
    /// The model finished, with its finish reason and usage if reported.
    Done { finish_reason: Option<String>, usage: Option<Usage> },
    /// An error mid-stream.
    Error(Arc<LlmError>),
}

/// A streaming delta as plain values.
pub enum DeltaView {
    Text(Seq<char>),
    ToolCall(ToolCallView),
    Done { finish_reason: Option<Seq<char>>, usage: Option<Usage> },
    Error,
}

impl StreamDelta {
    pub open spec fn view(&self) -> DeltaView {
        match self {
            StreamDelta::Text(t) => DeltaView::Text(t@),
            StreamDelta::ToolCall(c) => DeltaView::ToolCall(c.view()),
            StreamDelta::Done { finish_reason, usage } => DeltaView::Done {
                finish_reason: opt_view(*finish_reason),
                usage: *usage,
            },
            StreamDelta::Error(_) => DeltaView::Error,
        }
    }
}

/// The deltas of a list, as plain values.
pub open spec fn deltas_view(v: Seq<StreamDelta>) -> Seq<DeltaView> {
    v.map_values(|d: StreamDelta| d.view())
}

/// The deltas a completed response streams as: its text when there is some,
/// each tool call, and the end with the finish reason and usage.
pub open spec fn response_deltas(
    content: Option<Seq<char>>,
    calls: Seq<ToolCallView>,
    finish_reason: Option<Seq<char>>,
    usage: Option<Usage>,
) -> Seq<DeltaView> {
    let text = match content {
        Some(t) => if t.len() > 0 {
            seq![DeltaView::Text(t)]
        } else {
            Seq::empty()
        },
        None => Seq::empty(),
    };
    text + calls.map_values(|c: ToolCallView| DeltaView::ToolCall(c)) + seq![
        DeltaView::Done { finish_reason, usage },
    ]
}

/// Stream a completed response: the fallback of a provider that cannot
/// stream.
pub fn deltas_of_response(resp: CompletionResponse) -> (d: Vec<StreamDelta>)
    ensures
        deltas_view(d@) == response_deltas(
            opt_view(resp.content),
            calls_view(resp.tool_calls@),
            opt_view(resp.finish_reason),
            resp.usage,
        ),
{
    let ghost calls = calls_view(resp.tool_calls@);
    let mut d: Vec<StreamDelta> = Vec::new();
    match resp.content {
        Some(t) => {
            if !t.as_str().is_empty() {
                d.push(StreamDelta::Text(t));
            }
        },
        None => {},
    }
    let ghost text = deltas_view(d@);
    let calls_vec = resp.tool_calls;
    let mut i: usize = 0;
    while i < calls_vec.len()
        invariant
            i <= calls_vec@.len(),
            calls == calls_view(calls_vec@),
            deltas_view(d@) == text + calls.take(i as int).map_values(
                |c: ToolCallView| DeltaView::ToolCall(c),
            ),
        decreases calls_vec.len() - i,
    {
        let ghost before = deltas_view(d@);
        d.push(StreamDelta::ToolCall(calls_vec[i].duplicate()));
        proof {
            assert(calls.take(i + 1) =~= calls.take(i as int).push(calls[i as int]));
            assert(calls.take(i + 1).map_values(|c: ToolCallView| DeltaView::ToolCall(c))
                =~= calls.take(i as int).map_values(|c: ToolCallView| DeltaView::ToolCall(c)).push(
                DeltaView::ToolCall(calls[i as int]),
            ));
            assert(deltas_view(d@) =~= before.push(DeltaView::ToolCall(calls[i as int])));
        }
        i = i + 1;
    }
    let ghost mid = deltas_view(d@);
    d.push(StreamDelta::Done { finish_reason: resp.finish_reason, usage: resp.usage });
    proof {
        assert(calls.take(i as int) =~= calls);
        assert(deltas_view(d@) =~= mid.push(
            DeltaView::Done { finish_reason: opt_view(resp.finish_reason), usage: resp.usage },
        ));
    }
    d
}


/// An HTTP client (reqwest), carried through unread.
#[verifier::external_type_specification]
#[verifier::external_body]
pub struct ExHttpClient(reqwest::Client);

/// The text without its trailing `/` characters.
pub open spec fn trim_end_slashes(s: Seq<char>) -> Seq<char>
    decreases s.len(),
{
    if s.len() > 0 && s.last() == '/' {
        trim_end_slashes(s.drop_last())
    } else {
        s
    }
}

/// A provider that speaks the OpenAI Chat Completions HTTP API.
pub struct OpenAiCompatibleProvider {
    name: String,
    base_url: String,
    api_key: String,
    client: reqwest::Client,
}

impl OpenAiCompatibleProvider {
    pub closed spec fn name_view(&self) -> Seq<char> {
        self.name@
    }

    pub closed spec fn base_url_view(&self) -> Seq<char> {
        self.base_url@
    }

    pub closed spec fn api_key_view(&self) -> Seq<char> {
        self.api_key@
    }

    /// The HTTP client the provider was made with.
    pub closed spec fn http_client(&self) -> reqwest::Client {
        self.client
    }

    /// A provider for the endpoint root `base_url` (such as
    /// `https://api.openai.com/v1`), without its trailing slashes, that
    /// sends its requests with `client`.
    pub fn new(name: &str, base_url: &str, api_key: &str, client: reqwest::Client) -> (p: Self)
        ensures
            p.name_view() == name@,
            p.base_url_view() == trim_end_slashes(base_url@),
            p.api_key_view() == api_key@,
            p.http_client() == client,
    {
        let chars = crate::text::chars_of(base_url);
        let mut end: usize = chars.len();
        assert(chars@.take(end as int) =~= chars@);
        while end > 0 && chars[end - 1] == '/'
            invariant
                end <= chars@.len(),
                trim_end_slashes(chars@.take(end as int)) == trim_end_slashes(chars@),
            decreases end,
        {
            proof {
                assert(chars@.take(end as int).drop_last() =~= chars@.take(end - 1));
            }
            end = end - 1;
        }
        let mut kept: Vec<char> = Vec::new();
        let mut i: usize = 0;
        while i < end
            invariant
                end <= chars@.len(),
                i <= end,
                kept@ == chars@.take(i as int),
            decreases end - i,
        {
            kept.push(chars[i]);
            i = i + 1;
            proof {
                assert(chars@.take(i as int) =~= chars@.take(i - 1).push(chars@[i - 1]));
            }
        }
        proof {
            assert(chars@.take(chars@.len() as int) =~= chars@);
            assert(trim_end_slashes(chars@.take(end as int)) == chars@.take(end as int));
        }
        OpenAiCompatibleProvider {
            name: String::from_str(name),
            base_url: crate::text::string_of(&kept),
            api_key: String::from_str(api_key),
            client,
        }
    }

    /// Human-readable provider name.
    pub fn name(&self) -> (n: &str)
        ensures
            n@ == self.name_view(),
    {
        self.name.as_str()
    }

    /// The endpoint root, without trailing slashes.
    pub fn base_url(&self) -> (u: &str)
        ensures
            u@ == self.base_url_view(),
    {
        self.base_url.as_str()
    }

    /// The key sent as bearer token.
    pub fn api_key(&self) -> (k: &str)
        ensures
            k@ == self.api_key_view(),
    {
        self.api_key.as_str()
    }

    /// The HTTP client requests go through.
    pub fn client(&self) -> (c: &reqwest::Client)
        ensures
            *c == self.http_client(),
    {
        &self.client
    }

    /// The chat-completions endpoint.
    pub fn chat_url(&self) -> (u: String)
        ensures
            u@ == self.base_url_view() + "/chat/completions"@,
    {
        self.base_url.clone().concat("/chat/completions")
    }
}

/// The function of a raw tool call.
#[derive(Debug)]
pub struct RawFunction {
    pub name: String,
    pub arguments: String,
}

/// A tool call as a provider's response holds it; the type may be missing.
#[derive(Debug)]
pub struct RawToolCall {
    pub id: String,
    pub kind: Option<String>,
    pub function: RawFunction,
}

/// The message of a raw choice.
#[derive(Debug)]
pub struct RawMessage {
    pub content: Option<String>,
    pub tool_calls: Vec<RawToolCall>,
}

/// One choice of a raw response.
#[derive(Debug)]
pub struct ChatChoice {
    pub message: RawMessage,
    pub finish_reason: Option<String>,
}

/// The usage of a raw response.
#[derive(Debug, Clone, Copy)]
pub struct RawUsage {
    pub prompt_tokens: u64,
    pub completion_tokens: u64,
    pub total_tokens: u64,
}

/// A provider's (non-streamed) response as it arrives.
#[derive(Debug)]
pub struct ChatCompletionResponse {
    pub choices: Vec<ChatChoice>,
    pub usage: Option<RawUsage>,
}

impl RawToolCall {
    /// The call, its type `function` when the provider gave none.
    pub open spec fn view(&self) -> ToolCallView {
        ToolCallView {
            id: self.id@,
            kind: match self.kind {
                Some(k) => k@,
                None => "function"@,
            },
            name: self.function.name@,
            arguments: self.function.arguments@,
        }
    }
}

impl ChatCompletionResponse {
    /// Read the response: the first choice's text, tool calls and finish
    /// reason (none of them without a choice), and the usage.
    pub fn into_response(self) -> (r: CompletionResponse)
        ensures
            self.choices@.len() > 0 ==> {
                let c = self.choices@[0];
                &&& opt_view(r.content) == opt_view(c.message.content)
                &&& calls_view(r.tool_calls@) == c.message.tool_calls@.map_values(
                    |t: RawToolCall| t.view(),
                )
                &&& opt_view(r.finish_reason) == opt_view(c.finish_reason)
            },
            self.choices@.len() == 0 ==> r.content is None && r.tool_calls@.len() == 0
                && r.finish_reason is None,
            match self.usage {
                Some(u) => r.usage == Some(
                    Usage {
                        prompt_tokens: u.prompt_tokens,
                        completion_tokens: u.completion_tokens,
                        total_tokens: u.total_tokens,
                    },
                ),
                None => r.usage is None,
            },
    {
        let usage = match self.usage {
            Some(u) => Some(
                Usage {
                    prompt_tokens: u.prompt_tokens,
                    completion_tokens: u.completion_tokens,
                    total_tokens: u.total_tokens,
                },
            ),
            None => None,
        };
        let mut choices = self.choices;
        if choices.len() == 0 {
            return CompletionResponse { content: None, tool_calls: Vec::new(), finish_reason: None, usage };
        }
        let choice = choices.remove(0);
        let raw = &choice.message.tool_calls;
        let ghost rv = raw@.map_values(|t: RawToolCall| t.view());
        let mut calls: Vec<ToolCall> = Vec::new();
        let mut i: usize = 0;
        while i < raw.len()
            invariant
                i <= raw@.len(),
                rv == raw@.map_values(|t: RawToolCall| t.view()),
                calls_view(calls@) == rv.take(i as int),
            decreases raw.len() - i,
        {
            let t = &raw[i];
            let kind = match &t.kind {
                Some(k) => k.clone(),
                None => String::from_str("function"),
            };
            let tc = ToolCall {
                id: t.id.clone(),
                kind,
                function: FunctionCall {
                    name: t.function.name.clone(),
                    arguments: t.function.arguments.clone(),
                },
            };
            let ghost before = calls_view(calls@);
            calls.push(tc);
            proof {
                assert(rv[i as int] == t.view());
                assert(calls_view(calls@) =~= before.push(t.view()));
                assert(rv.take(i + 1) =~= rv.take(i as int).push(rv[i as int]));
            }
            i = i + 1;
        }
        proof {
            assert(rv.take(i as int) =~= rv);
        }
        CompletionResponse {
            content: choice.message.content,
            tool_calls: calls,
            finish_reason: choice.finish_reason,
            usage,
        }
    }
}

} // verus!
