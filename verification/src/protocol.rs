//! The protocol values that handlers take and give: definitions and results,
//! each with a view that the contracts speak of.

use crate::json::{json_of, members_of, Json};
use serde_json::Value;
use vstd::prelude::*;

verus! {

/// The text of an optional string.
pub open spec fn opt_text(text: Option<String>) -> Option<Seq<char>> {
    match text {
        Some(text) => Some(text@),
        None => None,
    }
}

/// The JSON of an optional value.
pub open spec fn opt_json(value: Option<Value>) -> Option<Json> {
    match value {
        Some(value) => Some(json_of(value)),
        None => None,
    }
}

/// The texts of a list of strings.
pub open spec fn texts(list: Seq<String>) -> Seq<Seq<char>> {
    list.map_values(|text: String| text@)
}

/// The JSON of a list of values.
pub open spec fn jsons(list: Seq<Value>) -> Seq<Json> {
    list.map_values(|value: Value| json_of(value))
}

/// What a handler knows of the request besides its arguments: the clock.
pub struct RequestCtx {
    /// Seconds since the Unix epoch when the request came in.
    pub now_unix: u64,
}

impl RequestCtx {
    /// Seconds since the Unix epoch when the request came in.
    pub fn now_unix(&self) -> (now: u64)
        ensures
            now == self.now_unix,
    {
        self.now_unix
    }
}

/// A JSON-RPC error.
#[derive(Debug)]
pub struct RpcError {
    pub code: i32,
    pub message: String,
}

/// What `tools/list` says of a tool.
pub struct ToolDef {
    pub name: String,
    pub title: Option<String>,
    pub description: String,
    pub input_schema: Value,
    pub output_schema: Option<Value>,
}

/// The view of a [`ToolDef`].
#[verifier::ext_equal]
pub struct ToolDefView {
    pub name: Seq<char>,
    pub title: Option<Seq<char>>,
    pub description: Seq<char>,
    pub input_schema: Json,
    pub output_schema: Option<Json>,
}

impl View for ToolDef {
    type V = ToolDefView;

    open spec fn view(&self) -> ToolDefView {
        ToolDefView {
            name: self.name@,
            title: opt_text(self.title),
            description: self.description@,
            input_schema: json_of(self.input_schema),
            output_schema: opt_json(self.output_schema),
        }
    }
}

/// What `prompts/list` says of a prompt.
pub struct PromptDef {
    pub name: String,
    pub description: Option<String>,
    pub arguments: Vec<Value>,
}

/// The view of a [`PromptDef`].
#[verifier::ext_equal]
pub struct PromptDefView {
    pub name: Seq<char>,
    pub description: Option<Seq<char>>,
    pub arguments: Seq<Json>,
}

impl View for PromptDef {
    type V = PromptDefView;

    open spec fn view(&self) -> PromptDefView {
        PromptDefView {
            name: self.name@,
            description: opt_text(self.description),
            arguments: jsons(self.arguments@),
        }
    }
}

/// What `resources/list` says of a resource.
pub struct ResourceDef {
    pub uri: String,
    pub name: String,
    pub description: Option<String>,
    pub mime_type: Option<String>,
}

/// The view of a [`ResourceDef`].
#[verifier::ext_equal]
pub struct ResourceDefView {
    pub uri: Seq<char>,
    pub name: Seq<char>,
    pub description: Option<Seq<char>>,
    pub mime_type: Option<Seq<char>>,
}

impl View for ResourceDef {
    type V = ResourceDefView;

    open spec fn view(&self) -> ResourceDefView {
        ResourceDefView {
            uri: self.uri@,
            name: self.name@,
            description: opt_text(self.description),
            mime_type: opt_text(self.mime_type),
        }
    }
}

/// The result of a completed call: one block of text.
pub struct CallResult {
    pub text: String,
}

impl CallResult {
    /// A result with the text `text`.
    pub fn text(text: String) -> (result: CallResult)
        ensures
            result.text@ == text@,
    {
        CallResult { text }
    }
}

/// A call that stops to ask the client for input.
pub struct InputRequired {
    /// What to ask for, by the name under which the answer is expected.
    pub requests: serde_json::Map<String, Value>,
    /// What the client hands back when it retries the call.
    pub state: Value,
}

impl InputRequired {
    /// A stop that asks for `requests` and carries `state`.
    pub fn new(requests: serde_json::Map<String, Value>, state: Value) -> (stop: InputRequired)
        ensures
            stop.requests == requests,
            stop.state == state,
    {
        InputRequired { requests, state }
    }
}

/// A call that goes on as a task.
pub struct TaskCreation {
    /// How long the task is kept, in milliseconds from its creation.
    pub ttl_ms: u64,
    /// How long a client is to wait between two polls, in milliseconds.
    pub poll_interval_ms: u64,
    /// When the task is complete, in seconds since the Unix epoch.
    pub ready_at: u64,
    /// The result of the complete task.
    pub result: Value,
}

impl TaskCreation {
    /// A task that is complete once the clock reads `ready_at`.
    pub fn deadline(ttl_ms: u64, poll_interval_ms: u64, ready_at: u64, result: Value) -> (task:
        TaskCreation)
        ensures
            task.ttl_ms == ttl_ms,
            task.poll_interval_ms == poll_interval_ms,
            task.ready_at == ready_at,
            task.result == result,
    {
        TaskCreation { ttl_ms, poll_interval_ms, ready_at, result }
    }
}

/// What calling a tool comes to.
pub enum ToolOutcome {
    /// The call is complete.
    Complete(CallResult),
    /// The call needs more input.
    InputRequired(InputRequired),
    /// The call goes on as a task.
    Task(TaskCreation),
}

/// The view of a [`ToolOutcome`].
#[verifier::ext_equal]
pub enum OutcomeView {
    Complete { text: Seq<char> },
    InputRequired { requests: Map<Seq<char>, Json>, state: Json },
    Task { ttl_ms: int, poll_interval_ms: int, ready_at: int, result: Json },
}

impl View for ToolOutcome {
    type V = OutcomeView;

    open spec fn view(&self) -> OutcomeView {
        match *self {
            ToolOutcome::Complete(result) => OutcomeView::Complete { text: result.text@ },
            ToolOutcome::InputRequired(stop) => OutcomeView::InputRequired {
                requests: members_of(stop.requests),
                state: json_of(stop.state),
            },
            ToolOutcome::Task(task) => OutcomeView::Task {
                ttl_ms: task.ttl_ms as int,
                poll_interval_ms: task.poll_interval_ms as int,
                ready_at: task.ready_at as int,
                result: json_of(task.result),
            },
        }
    }
}

} // verus!
