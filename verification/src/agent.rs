//! The LLM-driven agent loop, ReAct style: prompt the model, execute the
//! tool calls it emits, feed the results back, and repeat until the model
//! answers with text and no tool calls, the iteration cap is reached, or the
//! provider fails.
//!
//! `AgentLoop` holds the conversation and makes every decision; the front
//! end performs what `next_action` asks (a completion from the provider, or
//! a call through the tool router) and hands the outcome back.

use vstd::prelude::*;

use crate::llm::{
    calls_view, copy_messages, copy_opt, copy_tools, tools_view, CompletionRequest, deltas_view, messages_view, opt_view, assistant_turn, text_message,
    tool_answer, DeltaView, LlmError, Message, MessageView, Role, StreamDelta, ToolCall,
    ToolCallView, ToolDefinition, FunctionDefinition,
};
use crate::outside::{
    json_object, json_string, json_text, object_of_pairs, parse_json_or_null, parsed_json,
    string_value, to_json_text, ExJsonValue,
};
use crate::harness::ExecutionMode;
use crate::text::str_eq;
use crate::tools::{ToolCall as RouterToolCall, ToolDescriptor, ToolResult};

verus! {

/// The system prompt the loop uses unless configured otherwise.
pub const DEFAULT_SYSTEM_PROMPT: &'static str = "You are CHIMERA, an autonomous coding agent operating in a real repository. You solve objectives by decomposing them, inspecting the codebase with your tools, making surgical edits, and verifying your work. Always prefer reading before writing. Make the smallest change that satisfies the objective. When you have completed the objective, respond with a concise final summary and no tool calls.";

/// Configuration for an agent loop run.
#[derive(Debug, Clone)]
pub struct AgentConfig {
    /// Maximum tool-call rounds before forcing a stop.
    pub max_iterations: usize,
    /// System prompt prepended to every conversation.
    pub system_prompt: String,
    /// Sampling temperature, as the IEEE-754 bits of an `f32`.
    pub temperature_bits: Option<u32>,
    /// Max tokens per completion.
    pub max_tokens: Option<u32>,
}

impl Default for AgentConfig {
    /// 40 iterations, the default system prompt, temperature 0.0 and 8192
    /// tokens per completion.
    fn default() -> (c: AgentConfig)
        ensures
            c.max_iterations == 40,
            c.system_prompt@ == DEFAULT_SYSTEM_PROMPT@,
            c.temperature_bits == Some(0u32),
            c.max_tokens == Some(8192u32),
    {
        AgentConfig {
            max_iterations: 40,
            system_prompt: String::from_str(DEFAULT_SYSTEM_PROMPT),
            temperature_bits: Some(0),
            max_tokens: Some(8192),
        }
    }
}

/// What plan mode adds to the system prompt.
pub const PLAN_MODE_NOTE: &'static str = "\n\nYou are in PLAN mode. Do not make any changes. Read the codebase, investigate, and produce a concrete plan. Do not call write tools.";

/// The loop configuration of a run in `mode`: the configured cap,
/// temperature and token limit, and the default system prompt, followed in
/// plan mode by the plan-mode note.
pub fn run_config(mode: ExecutionMode, max_iterations: usize, temperature_bits: u32, max_tokens: u32) -> (c: AgentConfig)
    ensures
        c.max_iterations == max_iterations,
        c.system_prompt@ == (if mode == ExecutionMode::Plan {
            DEFAULT_SYSTEM_PROMPT@ + PLAN_MODE_NOTE@
        } else {
            DEFAULT_SYSTEM_PROMPT@
        }),
        c.temperature_bits == Some(temperature_bits),
        c.max_tokens == Some(max_tokens),
{
    let system_prompt = match mode {
        ExecutionMode::Plan => String::from_str(DEFAULT_SYSTEM_PROMPT).concat(PLAN_MODE_NOTE),
        _ => String::from_str(DEFAULT_SYSTEM_PROMPT),
    };
    AgentConfig {
        max_iterations,
        system_prompt,
        temperature_bits: Some(temperature_bits),
        max_tokens: Some(max_tokens),
    }
}

/// Why the loop stopped.
#[derive(Debug, Clone, Copy, PartialEq, Eq, Structural)]
pub enum DoneReason {
    /// The model produced a final answer with no tool calls.
    FinalAnswer,
    /// The iteration cap was hit.
    MaxIterations,
    /// An unrecoverable error.
    Error,
}

/// A tool call as the step log records it: its arguments parsed as JSON
/// (null where they are not valid JSON).
#[derive(Debug, Clone)]
pub struct RecordedToolCall {
    pub id: String,
    pub name: String,
    pub arguments: serde_json::Value,
}

/// A recorded tool call as plain values.
pub struct RecordedView {
    pub id: Seq<char>,
    pub name: Seq<char>,
    pub arguments: serde_json::Value,
}

impl RecordedToolCall {
    pub open spec fn view(&self) -> RecordedView {
        RecordedView { id: self.id@, name: self.name@, arguments: self.arguments }
    }

    /// Record a model's tool call.
    pub fn from_llm(tc: &ToolCall) -> (r: RecordedToolCall)
        ensures
            r.view() == recorded(tc.view()),
    {
        RecordedToolCall {
            id: tc.id.clone(),
            name: tc.function.name.clone(),
            arguments: parse_json_or_null(tc.function.arguments.as_str()),
        }
    }
}

/// How a tool call is recorded.
pub open spec fn recorded(c: ToolCallView) -> RecordedView {
    RecordedView { id: c.id, name: c.name, arguments: parsed_json(c.arguments) }
}

/// A recorded step of the loop.
#[derive(Debug, Clone)]
pub enum AgentStep {
    /// The model produced a response (text, tool calls, or both).
    Model {
        content: Option<String>,
        tool_calls: Vec<RecordedToolCall>,
        finish_reason: Option<String>,
    },
    /// A tool was executed.
    Tool { call: RecordedToolCall, ok: bool, output: serde_json::Value },
    /// The loop terminated.
    Done { reason: DoneReason, iterations: usize },
}

/// A step as plain values.
pub enum StepView {
    Model {
        content: Option<Seq<char>>,
        tool_calls: Seq<RecordedView>,
        finish_reason: Option<Seq<char>>,
    },
    Tool { call: RecordedView, ok: bool, output: serde_json::Value },
    Done { reason: DoneReason, iterations: usize },
}

impl AgentStep {
    pub open spec fn view(&self) -> StepView {
        match self {
            AgentStep::Model { content, tool_calls, finish_reason } => StepView::Model {
                content: opt_view(*content),
                tool_calls: tool_calls@.map_values(|r: RecordedToolCall| r.view()),
                finish_reason: opt_view(*finish_reason),
            },
            AgentStep::Tool { call, ok, output } => StepView::Tool {
                call: call.view(),
                ok: *ok,
                output: *output,
            },
            AgentStep::Done { reason, iterations } => StepView::Done {
                reason: *reason,
                iterations: *iterations,
            },
        }
    }
}

/// The steps of a list, as plain values.
pub open spec fn steps_view(v: Seq<AgentStep>) -> Seq<StepView> {
    v.map_values(|s: AgentStep| s.view())
}

/// The result of running the agent loop.
#[derive(Debug, Clone)]
pub struct AgentRunResult {
    /// Final assistant text, if any.
    pub final_answer: Option<String>,
    /// Full step log.
    pub steps: Vec<AgentStep>,
    /// Why the loop stopped.
    pub done_reason: DoneReason,
    /// Number of model rounds executed (the cap, when the cap stopped the
    /// loop).
    pub iterations: usize,
    /// Token usage accumulated across all rounds.
    pub total_prompt_tokens: u64,
    pub total_completion_tokens: u64,
}

/// What the streaming callback is told while a response streams in.
#[derive(Debug, Clone)]
pub enum StreamEvent {
    /// A piece of text.
    Text(String),
    /// A tool call, by its function's name.
    ToolCall { name: String },
}

/// A callback event as plain values.
pub enum EventView {
    Text(Seq<char>),
    ToolCall(Seq<char>),
}

impl StreamEvent {
    pub open spec fn view(&self) -> EventView {
        match self {
            StreamEvent::Text(t) => EventView::Text(t@),
            StreamEvent::ToolCall { name } => EventView::ToolCall(name@),
        }
    }

    /// The callback's arguments: `("text", <the text as a JSON string>)` or
    /// `("tool_call", {"name": <name>})`.
    pub fn callback_args(&self) -> (r: (String, serde_json::Value))
        ensures
            match self.view() {
                EventView::Text(t) => r.0@ == "text"@ && r.1 == json_string(t),
                EventView::ToolCall(n) => r.0@ == "tool_call"@ && r.1 == json_object(
                    seq![("name"@, n)],
                ),
            },
    {
        match self {
            StreamEvent::Text(t) => (String::from_str("text"), string_value(t.as_str())),
            StreamEvent::ToolCall { name } => {
                let mut pairs: Vec<(String, String)> = Vec::new();
                pairs.push((String::from_str("name"), name.clone()));
                let v = object_of_pairs(pairs);
                proof {
                    assert(pairs@.map_values(|p: (String, String)| (p.0@, p.1@)) =~= seq![
                        ("name"@, name@),
                    ]);
                }
                (String::from_str("tool_call"), v)
            },
        }
    }
}

/// The events of a list, as plain values.
pub open spec fn events_view(v: Seq<StreamEvent>) -> Seq<EventView> {
    v.map_values(|e: StreamEvent| e.view())
}

/// What a stream of deltas amounts to, read up to its first error: the
/// text, the tool calls, the last finish reason, the tokens reported, whether
/// an error came, and the callback events.
pub struct StreamOutcome {
    pub content: Seq<char>,
    pub calls: Seq<ToolCallView>,
    pub finish_reason: Option<Seq<char>>,
    pub prompt: nat,
    pub completion: nat,
    pub error: bool,
    pub events: Seq<EventView>,
}

/// Nothing streamed yet.
pub open spec fn outcome_start() -> StreamOutcome {
    StreamOutcome {
        content: Seq::empty(),
        calls: Seq::empty(),
        finish_reason: None,
        prompt: 0,
        completion: 0,
        error: false,
        events: Seq::empty(),
    }
}

/// Read deltas in order into `acc`, stopping at the first error.
pub open spec fn fold_stream(d: Seq<DeltaView>, acc: StreamOutcome) -> StreamOutcome
    decreases d.len(),
{
    if d.len() == 0 {
        acc
    } else {
        match d[0] {
            DeltaView::Text(t) => fold_stream(
                d.drop_first(),
                StreamOutcome {
                    content: acc.content + t,
                    events: acc.events.push(EventView::Text(t)),
                    ..acc
                },
            ),
            DeltaView::ToolCall(c) => fold_stream(
                d.drop_first(),
                StreamOutcome {
                    calls: acc.calls.push(c),
                    events: acc.events.push(EventView::ToolCall(c.name)),
                    ..acc
                },
            ),
            DeltaView::Done { finish_reason, usage } => fold_stream(
                d.drop_first(),
                StreamOutcome {
                    finish_reason,
                    prompt: acc.prompt + match usage {
                        Some(u) => u.prompt_tokens as nat,
                        None => 0nat,
                    },
                    completion: acc.completion + match usage {
                        Some(u) => u.completion_tokens as nat,
                        None => 0nat,
                    },
                    ..acc
                },
            ),
            DeltaView::Error => StreamOutcome { error: true, ..acc },
        }
    }
}

/// What a stream of deltas amounts to.
pub open spec fn stream_outcome(d: Seq<DeltaView>) -> StreamOutcome {
    fold_stream(d, outcome_start())
}

/// The assistant's text of a round: `None` when it streamed none.
pub open spec fn round_content(o: StreamOutcome) -> Option<Seq<char>> {
    if o.content.len() == 0 {
        None
    } else {
        Some(o.content)
    }
}

/// What a tool's outcome is recorded as: the router's result, or, when the
/// router failed with a message, a failure whose output is `{"error": <message>}`.
pub open spec fn tool_output(r: Result<(bool, serde_json::Value), Seq<char>>) -> (bool, serde_json::Value) {
    match r {
        Ok(p) => p,
        Err(m) => (false, json_object(seq![("error"@, m)])),
    }
}

/// The content of the message answering a tool call: the output's JSON text.
pub open spec fn answer_text(output: serde_json::Value) -> Seq<char> {
    match json_text(output) {
        Some(t) => t,
        None => "{\"error\":\"unserializable\"}"@,
    }
}

/// The provider outcome as plain values.
pub open spec fn completion_view(r: &Result<Vec<StreamDelta>, LlmError>) -> Option<Seq<DeltaView>> {
    match r {
        Ok(d) => Some(deltas_view(d@)),
        Err(_) => None,
    }
}

/// The router outcome as plain values.
pub open spec fn tool_view(r: &Result<ToolResult, String>) -> Result<(bool, serde_json::Value), Seq<char>> {
    match r {
        Ok(t) => Ok((t.ok, t.output)),
        Err(m) => Err(m@),
    }
}

/// What the loop asks the front end to do next.
#[derive(Debug)]
pub enum AgentAction {
    /// Request a completion over `messages()` from the provider, then hand
    /// the outcome to `on_completion`.
    Complete,
    /// Execute this call through the tool router, then hand the outcome to
    /// `on_tool_result`.
    CallTool(RouterToolCall),
    /// The loop is over: take the result with `finish`.
    Finish,
}

/// Where the loop stands.
#[derive(Debug, Clone, Copy, PartialEq, Eq, Structural)]
pub enum Phase {
    /// Ready to decide the next action.
    Ready,
    /// Waiting for a completion.
    Completing,
    /// Waiting for a tool's result.
    Calling,
    /// Stopped.
    Finished,
}

/// The state of an agent loop run.
pub struct AgentLoop {
    messages: Vec<Message>,
    steps: Vec<AgentStep>,
    prompt_tokens: u64,
    completion_tokens: u64,
    final_answer: Option<String>,
    iteration: usize,
    max_iterations: usize,
    creature_id: u128,
    pending: Vec<ToolCall>,
    next_call: usize,
    phase: Phase,
    done: Option<DoneReason>,
    temperature_bits: Option<u32>,
    max_tokens: Option<u32>,
}

impl AgentLoop {
    /// The conversation so far.
    pub closed spec fn conversation(&self) -> Seq<MessageView> {
        messages_view(self.messages@)
    }

    /// The step log so far.
    pub closed spec fn log(&self) -> Seq<StepView> {
        steps_view(self.steps@)
    }

    pub closed spec fn prompt_total(&self) -> u64 {
        self.prompt_tokens
    }

    pub closed spec fn completion_total(&self) -> u64 {
        self.completion_tokens
    }

    pub closed spec fn answer(&self) -> Option<Seq<char>> {
        opt_view(self.final_answer)
    }

    /// The number of model rounds started.
    pub closed spec fn rounds(&self) -> usize {
        self.iteration
    }

    pub closed spec fn cap(&self) -> usize {
        self.max_iterations
    }

    /// The temperature (as `f32` bits) and the token limit of each request.
    pub closed spec fn sampling(&self) -> (Option<u32>, Option<u32>) {
        (self.temperature_bits, self.max_tokens)
    }

    pub closed spec fn creature(&self) -> u128 {
        self.creature_id
    }

    /// The tool calls of the latest round.
    pub closed spec fn round_calls(&self) -> Seq<ToolCallView> {
        calls_view(self.pending@)
    }

    /// How many of the latest round's tool calls have been executed.
    pub closed spec fn calls_done(&self) -> nat {
        self.next_call as nat
    }

    pub closed spec fn stage(&self) -> Phase {
        self.phase
    }

    pub closed spec fn reason(&self) -> Option<DoneReason> {
        self.done
    }

    pub closed spec fn wf(&self) -> bool {
        &&& self.iteration <= self.max_iterations
        &&& self.next_call <= self.pending@.len()
        &&& (self.phase == Phase::Finished <==> self.done is Some)
        &&& (self.phase == Phase::Calling ==> self.next_call < self.pending@.len())
        &&& (self.phase == Phase::Completing ==> 1 <= self.iteration <= self.max_iterations)
        &&& (self.done == Some(DoneReason::MaxIterations) ==> self.iteration == self.max_iterations)
    }

    /// Start a run for `objective` by creature `creature_id`: the
    /// conversation is the system prompt and the objective.
    pub fn new(objective: &str, creature_id: u128, config: &AgentConfig) -> (a: AgentLoop)
        ensures
            a.wf(),
            a.conversation() == seq![
                text_message(Role::System, config.system_prompt@),
                text_message(Role::User, objective@),
            ],
            a.log().len() == 0,
            a.prompt_total() == 0,
            a.completion_total() == 0,
            a.answer() is None,
            a.rounds() == 0,
            a.cap() == config.max_iterations,
            a.sampling() == (config.temperature_bits, config.max_tokens),
            a.creature() == creature_id,
            a.stage() == Phase::Ready,
            a.round_calls().len() == 0,
            a.calls_done() == 0,
    {
        let mut messages: Vec<Message> = Vec::new();
        messages.push(Message::system(config.system_prompt.as_str()));
        messages.push(Message::user(objective));
        let a = AgentLoop {
            messages,
            steps: Vec::new(),
            prompt_tokens: 0,
            completion_tokens: 0,
            final_answer: None,
            iteration: 0,
            max_iterations: config.max_iterations,
            creature_id,
            pending: Vec::new(),
            next_call: 0,
            phase: Phase::Ready,
            done: None,
            temperature_bits: config.temperature_bits,
            max_tokens: config.max_tokens,
        };
        proof {
            assert(a.conversation() =~= seq![
                text_message(Role::System, config.system_prompt@),
                text_message(Role::User, objective@),
            ]);
            assert(a.log() =~= Seq::<StepView>::empty());
            assert(a.round_calls() =~= Seq::<ToolCallView>::empty());
        }
        a
    }

    /// The prompt tokens counted so far.
    pub fn prompt_tokens(&self) -> (n: u64)
        ensures
            n == self.prompt_total(),
    {
        self.prompt_tokens
    }

    /// The completion tokens counted so far.
    pub fn completion_tokens(&self) -> (n: u64)
        ensures
            n == self.completion_total(),
    {
        self.completion_tokens
    }

    /// The conversation to send with a completion request.
    pub fn messages(&self) -> (m: &Vec<Message>)
        ensures
            messages_view(m@) == self.conversation(),
    {
        &self.messages
    }

    /// The request for a completion: the model, the conversation so far,
    /// the tools on offer and the run's sampling settings, with no tool
    /// choice, top-p or stop sequence.
    pub fn request(&self, model: &str, tools: &Vec<ToolDefinition>) -> (req: CompletionRequest)
        ensures
            req.model@ == model@,
            messages_view(req.messages@) == self.conversation(),
            tools_view(req.tools@) == tools_view(tools@),
            req.tool_choice is None,
            req.temperature_bits == self.sampling().0,
            req.max_tokens == self.sampling().1,
            req.top_p_bits is None,
            req.stop@.len() == 0,
    {
        CompletionRequest {
            model: String::from_str(model),
            messages: copy_messages(&self.messages),
            tools: copy_tools(tools),
            tool_choice: None,
            temperature_bits: self.temperature_bits,
            max_tokens: self.max_tokens,
            top_p_bits: None,
            stop: Vec::new(),
        }
    }

    /// Decide what to do next. After a finished round: the next tool call
    /// of the round, if any is left; otherwise a new round, unless the cap is
    /// reached, which stops the loop. A stopped loop asks to finish.
    pub fn next_action(&mut self) -> (act: AgentAction)
        requires
            old(self).wf(),
            old(self).stage() == Phase::Ready || old(self).stage() == Phase::Finished,
        ensures
            final(self).wf(),
            final(self).conversation() == old(self).conversation(),
            final(self).prompt_total() == old(self).prompt_total(),
            final(self).completion_total() == old(self).completion_total(),
            final(self).answer() == old(self).answer(),
            final(self).cap() == old(self).cap(),
            final(self).sampling() == old(self).sampling(),
            final(self).creature() == old(self).creature(),
            final(self).round_calls() == old(self).round_calls(),
            final(self).calls_done() == old(self).calls_done(),
            old(self).stage() == Phase::Finished ==> act is Finish && *final(self) == *old(self),
            !(act is Finish) ==> final(self).reason() == old(self).reason(),
            old(self).stage() == Phase::Ready && old(self).calls_done() < old(
                self,
            ).round_calls().len() ==> {
                let c = old(self).round_calls()[old(self).calls_done() as int];
                &&& act matches AgentAction::CallTool(rc) && rc.tool@ == c.name && rc.args
                    == parsed_json(c.arguments) && rc.world is None && rc.requested_by == old(
                    self,
                ).creature()
                &&& final(self).stage() == Phase::Calling
                &&& final(self).log() == old(self).log()
                &&& final(self).rounds() == old(self).rounds()
            },
            old(self).stage() == Phase::Ready && old(self).calls_done() == old(
                self,
            ).round_calls().len() ==> {
                &&& if old(self).rounds() >= old(self).cap() {
                    &&& act is Finish
                    &&& final(self).rounds() == old(self).rounds()
                    &&& final(self).stage() == Phase::Finished
                    &&& final(self).reason() == Some(DoneReason::MaxIterations)
                    &&& final(self).log() == old(self).log().push(
                        StepView::Done { reason: DoneReason::MaxIterations, iterations: old(self).cap() },
                    )
                } else {
                    &&& final(self).rounds() == old(self).rounds() + 1
                    &&& act is Complete
                    &&& final(self).stage() == Phase::Completing
                    &&& final(self).log() == old(self).log()
                }
            },
    {
        if self.phase == Phase::Finished {
            return AgentAction::Finish;
        }
        if self.next_call < self.pending.len() {
            let c = &self.pending[self.next_call];
            let ghost cv = calls_view(self.pending@);
            proof {
                assert(cv[self.next_call as int] == c.view());
            }
            let call = RouterToolCall {
                tool: c.function.name.clone(),
                args: parse_json_or_null(c.function.arguments.as_str()),
                world: None,
                requested_by: self.creature_id,
            };
            self.phase = Phase::Calling;
            return AgentAction::CallTool(call);
        }
        if self.iteration >= self.max_iterations {
            let ghost before = steps_view(self.steps@);
            self.steps.push(
                AgentStep::Done { reason: DoneReason::MaxIterations, iterations: self.max_iterations },
            );
            proof {
                assert(steps_view(self.steps@) =~= before.push(
                    StepView::Done { reason: DoneReason::MaxIterations, iterations: self.max_iterations },
                ));
            }
            self.done = Some(DoneReason::MaxIterations);
            self.phase = Phase::Finished;
            AgentAction::Finish
        } else {
            self.iteration = self.iteration + 1;
            self.phase = Phase::Completing;
            AgentAction::Complete
        }
    }

    /// Read the provider's outcome for the current round. A failure, or an
    /// error in the stream, stops the loop. Otherwise the response is logged
    /// and appended to the conversation as the assistant's turn; with no
    /// tool calls it is the final answer and the loop stops, else its calls
    /// are next. Gives the streaming callback's events, in order.
    pub fn on_completion(&mut self, r: Result<Vec<StreamDelta>, LlmError>) -> (events: Vec<StreamEvent>)
        requires
            old(self).wf(),
            old(self).stage() == Phase::Completing,
            r matches Ok(d) ==> old(self).prompt_total() + stream_outcome(deltas_view(d@)).prompt
                <= u64::MAX && old(self).completion_total() + stream_outcome(
                deltas_view(d@),
            ).completion <= u64::MAX,
        ensures
            final(self).wf(),
            final(self).rounds() == old(self).rounds(),
            final(self).cap() == old(self).cap(),
            final(self).sampling() == old(self).sampling(),
            final(self).creature() == old(self).creature(),
            match completion_view(&r) {
                None => {
                    &&& events@.len() == 0
                    &&& final(self).stage() == Phase::Finished
                    &&& final(self).reason() == Some(DoneReason::Error)
                    &&& final(self).log() == old(self).log().push(
                        StepView::Done { reason: DoneReason::Error, iterations: old(self).rounds() },
                    )
                    &&& final(self).conversation() == old(self).conversation()
                    &&& final(self).answer() == old(self).answer()
                    &&& final(self).prompt_total() == old(self).prompt_total()
                    &&& final(self).completion_total() == old(self).completion_total()
                },
                Some(d) => {
                    let o = stream_outcome(d);
                    let content = round_content(o);
                    &&& events_view(events@) == o.events
                    &&& final(self).prompt_total() == old(self).prompt_total() + o.prompt
                    &&& final(self).completion_total() == old(self).completion_total() + o.completion
                    &&& if o.error {
                        &&& final(self).stage() == Phase::Finished
                        &&& final(self).reason() == Some(DoneReason::Error)
                        &&& final(self).log() == old(self).log().push(
                            StepView::Done { reason: DoneReason::Error, iterations: old(self).rounds() },
                        )
                        &&& final(self).conversation() == old(self).conversation()
                        &&& final(self).answer() == old(self).answer()
                    } else {
                        let model_step = StepView::Model {
                            content,
                            tool_calls: o.calls.map_values(|c: ToolCallView| recorded(c)),
                            finish_reason: o.finish_reason,
                        };
                        &&& final(self).conversation() == old(self).conversation().push(
                            assistant_turn(content, o.calls),
                        )
                        &&& if o.calls.len() == 0 {
                            &&& final(self).stage() == Phase::Finished
                            &&& final(self).reason() == Some(DoneReason::FinalAnswer)
                            &&& final(self).answer() == (if content is Some {
                                content
                            } else {
                                old(self).answer()
                            })
                            &&& final(self).log() == old(self).log().push(model_step).push(
                                StepView::Done {
                                    reason: DoneReason::FinalAnswer,
                                    iterations: old(self).rounds(),
                                },
                            )
                        } else {
                            &&& final(self).stage() == Phase::Ready
                            &&& final(self).answer() == old(self).answer()
                            &&& final(self).round_calls() == o.calls
                            &&& final(self).calls_done() == 0
                            &&& final(self).log() == old(self).log().push(model_step)
                        }
                    }
                },
            },
    {
        let deltas = match r {
            Ok(d) => d,
            Err(_) => {
                let ghost before = steps_view(self.steps@);
                self.steps.push(AgentStep::Done { reason: DoneReason::Error, iterations: self.iteration });
                proof {
                    assert(steps_view(self.steps@) =~= before.push(
                        StepView::Done { reason: DoneReason::Error, iterations: self.iteration },
                    ));
                }
                self.done = Some(DoneReason::Error);
                self.phase = Phase::Finished;
                return Vec::new();
            },
        };
        let ghost dv = deltas_view(deltas@);
        let ghost goal = stream_outcome(dv);
        let mut content = String::new();
        let mut calls: Vec<ToolCall> = Vec::new();
        let mut finish_reason: Option<String> = None;
        let mut events: Vec<StreamEvent> = Vec::new();
        let mut error = false;
        let ghost p0 = self.prompt_tokens as nat;
        let ghost c0 = self.completion_tokens as nat;
        let mut pt: u64 = self.prompt_tokens;
        let mut ct: u64 = self.completion_tokens;
        let mut i: usize = 0;
        proof {
            assert(dv.skip(0) =~= dv);
            assert(calls_view(calls@) =~= Seq::<ToolCallView>::empty());
            assert(events_view(events@) =~= Seq::<EventView>::empty());
        }
        while i < deltas.len() && !error
            invariant
                i <= deltas@.len(),
                dv == deltas_view(deltas@),
                goal == stream_outcome(dv),
                p0 + goal.prompt <= u64::MAX,
                c0 + goal.completion <= u64::MAX,
                error ==> goal.error && goal.content == content@ && goal.calls == calls_view(calls@)
                    && goal.finish_reason == opt_view(finish_reason) && goal.prompt + p0 == pt
                    && goal.completion + c0 == ct && goal.events == events_view(events@),
                !error ==> fold_stream(
                    dv.skip(i as int),
                    StreamOutcome {
                        content: content@,
                        calls: calls_view(calls@),
                        finish_reason: opt_view(finish_reason),
                        prompt: (pt - p0) as nat,
                        completion: (ct - c0) as nat,
                        error: false,
                        events: events_view(events@),
                    },
                ) == goal,
                pt >= p0,
                ct >= c0,
            decreases deltas.len() - i,
        {
            proof {
                assert(dv.skip(i as int)[0] == deltas@[i as int].view());
                assert(dv.skip(i as int).drop_first() =~= dv.skip(i + 1));
            }
            let ghost acc = StreamOutcome {
                content: content@,
                calls: calls_view(calls@),
                finish_reason: opt_view(finish_reason),
                prompt: (pt - p0) as nat,
                completion: (ct - c0) as nat,
                error: false,
                events: events_view(events@),
            };
            match &deltas[i] {
                StreamDelta::Text(t) => {
                    let ghost ev = events_view(events@);
                    content = content.concat(t.as_str());
                    events.push(StreamEvent::Text(t.clone()));
                    proof {
                        assert(events_view(events@) =~= ev.push(EventView::Text(t@)));
                    }
                },
                StreamDelta::ToolCall(tc) => {
                    let ghost ev = events_view(events@);
                    let ghost cv = calls_view(calls@);
                    events.push(StreamEvent::ToolCall { name: tc.function.name.clone() });
                    calls.push(tc.duplicate());
                    proof {
                        assert(events_view(events@) =~= ev.push(EventView::ToolCall(tc.view().name)));
                        assert(calls_view(calls@) =~= cv.push(tc.view()));
                    }
                },
                StreamDelta::Done { finish_reason: fr, usage } => {
                    proof {
                        lemma_fold_grows(
                            dv.skip(i + 1),
                            StreamOutcome {
                                finish_reason: opt_view(*fr),
                                prompt: acc.prompt + match usage {
                                    Some(u) => u.prompt_tokens as nat,
                                    None => 0nat,
                                },
                                completion: acc.completion + match usage {
                                    Some(u) => u.completion_tokens as nat,
                                    None => 0nat,
                                },
                                ..acc
                            },
                        );
                    }
                    finish_reason = copy_opt(fr);
                    match usage {
                        Some(u) => {
                            pt = pt + u.prompt_tokens;
                            ct = ct + u.completion_tokens;
                        },
                        None => {},
                    }
                },
                StreamDelta::Error(_) => {
                    error = true;
                },
            }
            i = i + 1;
        }
        proof {
            if !error {
                assert(dv.skip(i as int) =~= Seq::<DeltaView>::empty());
            }
        }
        self.prompt_tokens = pt;
        self.completion_tokens = ct;
        if error {
            let ghost before = steps_view(self.steps@);
            self.steps.push(AgentStep::Done { reason: DoneReason::Error, iterations: self.iteration });
            proof {
                assert(steps_view(self.steps@) =~= before.push(
                    StepView::Done { reason: DoneReason::Error, iterations: self.iteration },
                ));
            }
            self.done = Some(DoneReason::Error);
            self.phase = Phase::Finished;
            return events;
        }
        let resp_content: Option<String> = if content.as_str().is_empty() {
            None
        } else {
            Some(content)
        };
        let mut recorded_calls: Vec<RecordedToolCall> = Vec::new();
        let mut j: usize = 0;
        while j < calls.len()
            invariant
                j <= calls@.len(),
                recorded_calls@.map_values(|r: RecordedToolCall| r.view()) == calls_view(
                    calls@,
                ).take(j as int).map_values(|c: ToolCallView| recorded(c)),
            decreases calls.len() - j,
        {
            let ghost before = recorded_calls@.map_values(|r: RecordedToolCall| r.view());
            recorded_calls.push(RecordedToolCall::from_llm(&calls[j]));
            proof {
                let cv = calls_view(calls@);
                assert(cv[j as int] == calls@[j as int].view());
                assert(cv.take(j + 1) =~= cv.take(j as int).push(cv[j as int]));
                assert(cv.take(j + 1).map_values(|c: ToolCallView| recorded(c)) =~= cv.take(
                    j as int,
                ).map_values(|c: ToolCallView| recorded(c)).push(recorded(cv[j as int])));
                assert(recorded_calls@.map_values(|r: RecordedToolCall| r.view()) =~= before.push(
                    recorded(cv[j as int]),
                ));
            }
            j = j + 1;
        }
        proof {
            assert(calls_view(calls@).take(j as int) =~= calls_view(calls@));
        }
        let had_tool_calls = calls.len() > 0;
        let ghost log0 = steps_view(self.steps@);
        self.steps.push(
            AgentStep::Model {
                content: copy_opt(&resp_content),
                tool_calls: recorded_calls,
                finish_reason,
            },
        );
        let ghost conv0 = messages_view(self.messages@);
        let turn_calls = crate::llm::copy_calls(&calls);
        self.messages.push(Message::assistant_with_tools(copy_opt(&resp_content), turn_calls));
        proof {
            assert(messages_view(self.messages@) =~= conv0.push(
                assistant_turn(opt_view(resp_content), goal.calls),
            ));
            assert(steps_view(self.steps@) =~= log0.push(self.steps@[self.steps@.len() - 1].view()));
        }
        if !had_tool_calls {
            match resp_content {
                Some(c) => {
                    self.final_answer = Some(c);
                },
                None => {},
            }
            let ghost log1 = steps_view(self.steps@);
            self.steps.push(
                AgentStep::Done { reason: DoneReason::FinalAnswer, iterations: self.iteration },
            );
            proof {
                assert(steps_view(self.steps@) =~= log1.push(
                    StepView::Done { reason: DoneReason::FinalAnswer, iterations: self.iteration },
                ));
            }
            self.done = Some(DoneReason::FinalAnswer);
            self.phase = Phase::Finished;
        } else {
            self.pending = calls;
            self.next_call = 0;
            self.phase = Phase::Ready;
        }
        events
    }

    /// Record the router's outcome for the current tool call and answer the
    /// call in the conversation with the output's JSON text. A router
    /// failure is recorded as a failed call whose output is
    /// `{"error": <message>}`.
    pub fn on_tool_result(&mut self, r: Result<ToolResult, String>)
        requires
            old(self).wf(),
            old(self).stage() == Phase::Calling,
        ensures
            final(self).wf(),
            final(self).stage() == Phase::Ready,
            final(self).calls_done() == old(self).calls_done() + 1,
            final(self).round_calls() == old(self).round_calls(),
            final(self).rounds() == old(self).rounds(),
            final(self).cap() == old(self).cap(),
            final(self).sampling() == old(self).sampling(),
            final(self).creature() == old(self).creature(),
            final(self).prompt_total() == old(self).prompt_total(),
            final(self).completion_total() == old(self).completion_total(),
            final(self).answer() == old(self).answer(),
            ({
                let c = old(self).round_calls()[old(self).calls_done() as int];
                let (ok, output) = tool_output(tool_view(&r));
                &&& final(self).log() == old(self).log().push(
                    StepView::Tool { call: recorded(c), ok, output },
                )
                &&& final(self).conversation() == old(self).conversation().push(
                    tool_answer(c.id, answer_text(output)),
                )
            }),
    {
        let (ok, output) = match r {
            Ok(t) => (t.ok, t.output),
            Err(m) => {
                let mut pairs: Vec<(String, String)> = Vec::new();
                pairs.push((String::from_str("error"), m));
                let ghost pv = pairs@.map_values(|p: (String, String)| (p.0@, p.1@));
                let v = object_of_pairs(pairs);
                proof {
                    assert(pv =~= seq![("error"@, m@)]);
                }
                (false, v)
            },
        };
        let k = self.next_call;
        let n = self.pending.len();
        assert(k < n);
        let ghost cv = calls_view(self.pending@);
        proof {
            assert(cv[k as int] == self.pending@[k as int].view());
        }
        let text = match to_json_text(&output) {
            Some(t) => t,
            None => String::from_str("{\"error\":\"unserializable\"}"),
        };
        let answer = Message::tool_result(self.pending[k].id.as_str(), text.as_str());
        let call = RecordedToolCall::from_llm(&self.pending[k]);
        let ghost log0 = steps_view(self.steps@);
        let ghost conv0 = messages_view(self.messages@);
        self.steps.push(AgentStep::Tool { call, ok, output });
        self.messages.push(answer);
        proof {
            assert(steps_view(self.steps@) =~= log0.push(
                StepView::Tool { call: recorded(cv[k as int]), ok, output },
            ));
            assert(messages_view(self.messages@) =~= conv0.push(
                tool_answer(cv[k as int].id, answer_text(output)),
            ));
        }
        self.next_call = k + 1;
        self.phase = Phase::Ready;
    }

    /// The iteration cap: the loop asks for a completion only in rounds
    /// 1 to `max_iterations`, so a run makes at most `max_iterations`
    /// completion requests; and a loop the cap stopped has run exactly
    /// `max_iterations` rounds.
    pub proof fn law_completions_within_cap(&self)
        requires
            self.wf(),
        ensures
            self.rounds() <= self.cap(),
            self.stage() == Phase::Completing ==> 1 <= self.rounds(),
            self.reason() == Some(DoneReason::MaxIterations) ==> self.rounds() == self.cap(),
    {
    }

    /// The result of a stopped loop.
    pub fn finish(self) -> (res: AgentRunResult)
        requires
            self.wf(),
            self.stage() == Phase::Finished,
        ensures
            self.reason() == Some(res.done_reason),
            opt_view(res.final_answer) == self.answer(),
            steps_view(res.steps@) == self.log(),
            res.iterations == self.rounds(),
            res.total_prompt_tokens == self.prompt_total(),
            res.total_completion_tokens == self.completion_total(),
    {
        let reason = match self.done {
            Some(d) => d,
            None => DoneReason::Error,
        };
        AgentRunResult {
            final_answer: self.final_answer,
            steps: self.steps,
            done_reason: reason,
            iterations: self.iteration,
            total_prompt_tokens: self.prompt_tokens,
            total_completion_tokens: self.completion_tokens,
        }
    }
}

/// Reading deltas into a partial outcome adds to it what they amount to on
/// their own.
proof fn lemma_fold_shift(d: Seq<DeltaView>, acc: StreamOutcome)
    ensures
        ({
            let f = fold_stream(d, acc);
            let g = stream_outcome(d);
            &&& f.content == acc.content + g.content
            &&& f.calls == acc.calls + g.calls
            &&& f.events == acc.events + g.events
            &&& f.prompt == acc.prompt + g.prompt
            &&& f.completion == acc.completion + g.completion
            &&& f.error == (acc.error || g.error)
        }),
    decreases d.len(),
{
    let st = outcome_start();
    if d.len() > 0 {
        let rest = d.drop_first();
        match d[0] {
            DeltaView::Text(t) => {
                let a1 = StreamOutcome {
                    content: acc.content + t,
                    events: acc.events.push(EventView::Text(t)),
                    ..acc
                };
                let s1 = StreamOutcome { content: st.content + t, events: st.events.push(EventView::Text(t)), ..st };
                lemma_fold_shift(rest, a1);
                lemma_fold_shift(rest, s1);
                let g = stream_outcome(rest);
                assert(acc.content + t + g.content =~= acc.content + (t + g.content));
                assert(st.content + t =~= t);
                assert(acc.events.push(EventView::Text(t)) + g.events =~= acc.events + (
                st.events.push(EventView::Text(t)) + g.events));
            },
            DeltaView::ToolCall(c) => {
                let a1 = StreamOutcome {
                    calls: acc.calls.push(c),
                    events: acc.events.push(EventView::ToolCall(c.name)),
                    ..acc
                };
                let s1 = StreamOutcome {
                    calls: st.calls.push(c),
                    events: st.events.push(EventView::ToolCall(c.name)),
                    ..st
                };
                lemma_fold_shift(rest, a1);
                lemma_fold_shift(rest, s1);
                let g = stream_outcome(rest);
                assert(acc.calls.push(c) + g.calls =~= acc.calls + (st.calls.push(c) + g.calls));
                assert(acc.events.push(EventView::ToolCall(c.name)) + g.events =~= acc.events + (
                st.events.push(EventView::ToolCall(c.name)) + g.events));
            },
            DeltaView::Done { finish_reason, usage } => {
                let p: nat = match usage {
                    Some(u) => u.prompt_tokens as nat,
                    None => 0nat,
                };
                let c: nat = match usage {
                    Some(u) => u.completion_tokens as nat,
                    None => 0nat,
                };
                let a1 = StreamOutcome {
                    finish_reason,
                    prompt: acc.prompt + p,
                    completion: acc.completion + c,
                    ..acc
                };
                let s1 = StreamOutcome {
                    finish_reason,
                    prompt: st.prompt + p,
                    completion: st.completion + c,
                    ..st
                };
                lemma_fold_shift(rest, a1);
                lemma_fold_shift(rest, s1);
                assert(acc.content + st.content =~= acc.content);
                assert(acc.calls + st.calls =~= acc.calls);
                assert(acc.events + st.events =~= acc.events);
                let g = stream_outcome(rest);
                assert(a1.content + g.content =~= acc.content + (s1.content + g.content));
                assert(a1.calls + g.calls =~= acc.calls + (s1.calls + g.calls));
                assert(a1.events + g.events =~= acc.events + (s1.events + g.events));
            },
            DeltaView::Error => {
                assert(acc.content + st.content =~= acc.content);
                assert(acc.calls + st.calls =~= acc.calls);
                assert(acc.events + st.events =~= acc.events);
            },
        }
    } else {
        assert(acc.content + st.content =~= acc.content);
        assert(acc.calls + st.calls =~= acc.calls);
        assert(acc.events + st.events =~= acc.events);
    }
}

/// Reading a stream that holds no error, then more deltas, is reading the
/// whole stream.
proof fn lemma_fold_concat(a: Seq<DeltaView>, b: Seq<DeltaView>, acc: StreamOutcome)
    requires
        !stream_outcome(a).error,
    ensures
        fold_stream(a + b, acc) == fold_stream(b, fold_stream(a, acc)),
    decreases a.len(),
{
    if a.len() == 0 {
        assert(a + b =~= b);
    } else {
        let rest = a.drop_first();
        assert((a + b).drop_first() =~= rest + b);
        assert((a + b)[0] == a[0]);
        let st = outcome_start();
        match a[0] {
            DeltaView::Text(t) => {
                let s1 = StreamOutcome { content: st.content + t, events: st.events.push(EventView::Text(t)), ..st };
                lemma_fold_shift(rest, s1);
                lemma_fold_concat(
                    rest,
                    b,
                    StreamOutcome {
                        content: acc.content + t,
                        events: acc.events.push(EventView::Text(t)),
                        ..acc
                    },
                );
            },
            DeltaView::ToolCall(c) => {
                let s1 = StreamOutcome {
                    calls: st.calls.push(c),
                    events: st.events.push(EventView::ToolCall(c.name)),
                    ..st
                };
                lemma_fold_shift(rest, s1);
                lemma_fold_concat(
                    rest,
                    b,
                    StreamOutcome {
                        calls: acc.calls.push(c),
                        events: acc.events.push(EventView::ToolCall(c.name)),
                        ..acc
                    },
                );
            },
            DeltaView::Done { finish_reason, usage } => {
                let p: nat = match usage {
                    Some(u) => u.prompt_tokens as nat,
                    None => 0nat,
                };
                let c: nat = match usage {
                    Some(u) => u.completion_tokens as nat,
                    None => 0nat,
                };
                let s1 = StreamOutcome {
                    finish_reason,
                    prompt: st.prompt + p,
                    completion: st.completion + c,
                    ..st
                };
                lemma_fold_shift(rest, s1);
                lemma_fold_concat(
                    rest,
                    b,
                    StreamOutcome {
                        finish_reason,
                        prompt: acc.prompt + p,
                        completion: acc.completion + c,
                        ..acc
                    },
                );
            },
            DeltaView::Error => {},
        }
    }
}

/// A stream read in two pieces, the first holding no error, amounts to the
/// two pieces read one after the other: the text is the first piece's text
/// followed by the second's, the tool calls and the callback events likewise
/// in order, the tokens add up, and an error comes exactly when the second
/// piece has one.
pub proof fn law_stream_text_and_calls_accumulate(a: Seq<DeltaView>, b: Seq<DeltaView>)
    requires
        !stream_outcome(a).error,
    ensures
        stream_outcome(a + b).content == stream_outcome(a).content + stream_outcome(b).content,
        stream_outcome(a + b).calls == stream_outcome(a).calls + stream_outcome(b).calls,
        stream_outcome(a + b).events == stream_outcome(a).events + stream_outcome(b).events,
        stream_outcome(a + b).prompt == stream_outcome(a).prompt + stream_outcome(b).prompt,
        stream_outcome(a + b).completion == stream_outcome(a).completion + stream_outcome(b).completion,
        stream_outcome(a + b).error == stream_outcome(b).error,
{
    lemma_fold_concat(a, b, outcome_start());
    lemma_fold_shift(b, stream_outcome(a));
}

/// A text delta on its own is its text, with no tool call and no error; so,
/// by the law above, a round's text is all its text deltas, in order, joined.
pub proof fn law_text_delta_is_its_text(t: Seq<char>)
    ensures
        stream_outcome(seq![DeltaView::Text(t)]).content == t,
        stream_outcome(seq![DeltaView::Text(t)]).calls.len() == 0,
        !stream_outcome(seq![DeltaView::Text(t)]).error,
{
    let d = seq![DeltaView::Text(t)];
    let st = outcome_start();
    let s1 = StreamOutcome { content: st.content + t, events: st.events.push(EventView::Text(t)), ..st };
    assert(d.drop_first() =~= Seq::<DeltaView>::empty());
    assert(d[0] == DeltaView::Text(t));
    assert(fold_stream(d, st) == fold_stream(d.drop_first(), s1));
    assert(fold_stream(Seq::<DeltaView>::empty(), s1) == s1);
    assert(Seq::<char>::empty() + t =~= t);
}

/// Reading more deltas only adds tokens.
proof fn lemma_fold_grows(d: Seq<DeltaView>, acc: StreamOutcome)
    ensures
        fold_stream(d, acc).prompt >= acc.prompt,
        fold_stream(d, acc).completion >= acc.completion,
    decreases d.len(),
{
    if d.len() > 0 {
        match d[0] {
            DeltaView::Text(t) => {
                lemma_fold_grows(
                    d.drop_first(),
                    StreamOutcome {
                        content: acc.content + t,
                        events: acc.events.push(EventView::Text(t)),
                        ..acc
                    },
                );
            },
            DeltaView::ToolCall(c) => {
                lemma_fold_grows(
                    d.drop_first(),
                    StreamOutcome {
                        calls: acc.calls.push(c),
                        events: acc.events.push(EventView::ToolCall(c.name)),
                        ..acc
                    },
                );
            },
            DeltaView::Done { finish_reason, usage } => {
                lemma_fold_grows(
                    d.drop_first(),
                    StreamOutcome {
                        finish_reason,
                        prompt: acc.prompt + match usage {
                            Some(u) => u.prompt_tokens as nat,
                            None => 0nat,
                        },
                        completion: acc.completion + match usage {
                            Some(u) => u.completion_tokens as nat,
                            None => 0nat,
                        },
                        ..acc
                    },
                );
            },
            DeltaView::Error => {},
        }
    }
}

/// The JSON schema of a tool's parameters, as JSON text: the built-in tools'
/// own, and for any other tool a permissive one that accepts any object.
pub open spec fn schema_text(name: Seq<char>) -> Seq<char> {
    if name == "read_file"@ {
        "{\"type\":\"object\",\"properties\":{\"path\":{\"type\":\"string\",\"description\":\"absolute or repo-relative file path\"}},\"required\":[\"path\"]}"@
    } else if name == "write_file"@ {
        "{\"type\":\"object\",\"properties\":{\"path\":{\"type\":\"string\"},\"content\":{\"type\":\"string\"}},\"required\":[\"path\",\"content\"]}"@
    } else if name == "edit_file"@ {
        "{\"type\":\"object\",\"properties\":{\"path\":{\"type\":\"string\"},\"old_text\":{\"type\":\"string\"},\"new_text\":{\"type\":\"string\"}},\"required\":[\"path\",\"old_text\",\"new_text\"]}"@
    } else if name == "bash"@ {
        "{\"type\":\"object\",\"properties\":{\"command\":{\"type\":\"string\",\"description\":\"shell command to execute\"},\"cwd\":{\"type\":\"string\"},\"timeout_secs\":{\"type\":\"integer\"}},\"required\":[\"command\"]}"@
    } else if name == "glob"@ {
        "{\"type\":\"object\",\"properties\":{\"pattern\":{\"type\":\"string\"},\"path\":{\"type\":\"string\"}},\"required\":[\"pattern\"]}"@
    } else if name == "grep"@ {
        "{\"type\":\"object\",\"properties\":{\"pattern\":{\"type\":\"string\",\"description\":\"Rust regex\"},\"path\":{\"type\":\"string\"},\"max_results\":{\"type\":\"integer\"}},\"required\":[\"pattern\"]}"@
    } else if name == "git_status"@ {
        "{\"type\":\"object\",\"properties\":{\"path\":{\"type\":\"string\"}}}"@
    } else {
        "{\"type\":\"object\",\"additionalProperties\":true}"@
    }
}

fn schema_source(name: &str) -> (t: &'static str)
    ensures
        t@ == schema_text(name@),
{
    if str_eq(name, "read_file") {
        return "{\"type\":\"object\",\"properties\":{\"path\":{\"type\":\"string\",\"description\":\"absolute or repo-relative file path\"}},\"required\":[\"path\"]}";
    }
    if str_eq(name, "write_file") {
        return "{\"type\":\"object\",\"properties\":{\"path\":{\"type\":\"string\"},\"content\":{\"type\":\"string\"}},\"required\":[\"path\",\"content\"]}";
    }
    if str_eq(name, "edit_file") {
        return "{\"type\":\"object\",\"properties\":{\"path\":{\"type\":\"string\"},\"old_text\":{\"type\":\"string\"},\"new_text\":{\"type\":\"string\"}},\"required\":[\"path\",\"old_text\",\"new_text\"]}";
    }
    if str_eq(name, "bash") {
        return "{\"type\":\"object\",\"properties\":{\"command\":{\"type\":\"string\",\"description\":\"shell command to execute\"},\"cwd\":{\"type\":\"string\"},\"timeout_secs\":{\"type\":\"integer\"}},\"required\":[\"command\"]}";
    }
    if str_eq(name, "glob") {
        return "{\"type\":\"object\",\"properties\":{\"pattern\":{\"type\":\"string\"},\"path\":{\"type\":\"string\"}},\"required\":[\"pattern\"]}";
    }
    if str_eq(name, "grep") {
        return "{\"type\":\"object\",\"properties\":{\"pattern\":{\"type\":\"string\",\"description\":\"Rust regex\"},\"path\":{\"type\":\"string\"},\"max_results\":{\"type\":\"integer\"}},\"required\":[\"pattern\"]}";
    }
    if str_eq(name, "git_status") {
        return "{\"type\":\"object\",\"properties\":{\"path\":{\"type\":\"string\"}}}";
    }
    "{\"type\":\"object\",\"additionalProperties\":true}"
}

/// The JSON schema of a tool's parameters.
pub fn schema_for_tool(name: &str) -> (v: serde_json::Value)
    ensures
        v == parsed_json(schema_text(name@)),
{
    parse_json_or_null(schema_source(name))
}

/// The definition the model gets of a tool.
pub open spec fn definition_matches(def: ToolDefinition, d: ToolDescriptor) -> bool {
    &&& def.kind@ == "function"@
    &&& def.function.name@ == d.name@
    &&& def.function.description@ == d.description@
    &&& def.function.parameters == parsed_json(schema_text(d.name@))
}

/// Convert the router's catalog to the definitions the model gets, in order.
pub fn tool_definitions(descriptors: Vec<ToolDescriptor>) -> (defs: Vec<ToolDefinition>)
    ensures
        defs@.len() == descriptors@.len(),
        forall|i: int|
            0 <= i < descriptors@.len() ==> definition_matches(#[trigger] defs@[i], descriptors@[i]),
{
    let mut defs: Vec<ToolDefinition> = Vec::new();
    let mut i: usize = 0;
    while i < descriptors.len()
        invariant
            i <= descriptors@.len(),
            defs@.len() == i,
            forall|j: int| 0 <= j < i ==> definition_matches(#[trigger] defs@[j], descriptors@[j]),
        decreases descriptors.len() - i,
    {
        let d = &descriptors[i];
        let parameters = schema_for_tool(d.name.as_str());
        defs.push(
            ToolDefinition {
                kind: String::from_str("function"),
                function: FunctionDefinition {
                    name: d.name.clone(),
                    description: d.description.clone(),
                    parameters,
                },
            },
        );
        i = i + 1;
    }
    defs
}

} // verus!
