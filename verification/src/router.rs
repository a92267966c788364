//! What a server offers, and the tools as values of one type.

use crate::json::{json_of, Json};
use crate::protocol::{
    texts, OutcomeView, RequestCtx, RpcError, ToolDef, ToolDefView, ToolOutcome,
};
use crate::tools::{
    booking_definition, booking_outcome, echo_definition, echo_outcome, long_job_definition,
    long_job_outcome, BookingTool, EchoTool, GreetingPrompt, LongJobTool, ReadmeResource,
};
use serde_json::Value;
use vstd::prelude::*;

verus! {

/// A tool that can be registered.
pub enum Tool {
    Echo(EchoTool),
    Booking(BookingTool),
    LongJob(LongJobTool),
}

impl Tool {
    /// What the tool says of itself.
    pub open spec fn definition_view(self) -> ToolDefView {
        match self {
            Tool::Echo(_) => echo_definition(),
            Tool::Booking(_) => booking_definition(),
            Tool::LongJob(_) => long_job_definition(),
        }
    }

    /// What a call with `args` comes to when the clock reads `now`.
    pub open spec fn outcome(self, now: int, args: Json) -> OutcomeView {
        match self {
            Tool::Echo(_) => echo_outcome(args),
            Tool::Booking(_) => booking_outcome(args),
            Tool::LongJob(_) => long_job_outcome(now),
        }
    }

    /// The scopes that a caller of the tool must hold.
    pub open spec fn scopes(self) -> Seq<Seq<char>> {
        match self {
            Tool::Echo(_) => seq!["mcp:tools:echo"@],
            Tool::Booking(_) => seq!["mcp:tools:book_table"@],
            Tool::LongJob(_) => seq!["mcp:tools:long_job"@],
        }
    }

    /// What `tools/list` says of the tool.
    pub fn definition(&self) -> (def: ToolDef)
        ensures
            def@ == self.definition_view(),
    {
        match self {
            Tool::Echo(tool) => tool.definition(),
            Tool::Booking(tool) => tool.definition(),
            Tool::LongJob(tool) => tool.definition(),
        }
    }

    /// Calls the tool. A `long_job` needs a clock that leaves room for a second.
    pub fn call(&self, ctx: &RequestCtx, args: &Value) -> (result: Result<ToolOutcome, RpcError>)
        requires
            self is LongJob ==> ctx.now_unix < u64::MAX,
        ensures
            result matches Ok(outcome) && outcome@ == self.outcome(
                ctx.now_unix as int,
                json_of(*args),
            ),
    {
        match self {
            Tool::Echo(tool) => tool.call(ctx, args),
            Tool::Booking(tool) => tool.call(ctx, args),
            Tool::LongJob(tool) => tool.call(ctx, args),
        }
    }

    /// The scopes that a caller must hold.
    pub fn required_scopes(&self) -> (scopes: Vec<String>)
        ensures
            texts(scopes@) == self.scopes(),
    {
        match self {
            Tool::Echo(tool) => tool.required_scopes(),
            Tool::Booking(tool) => tool.required_scopes(),
            Tool::LongJob(tool) => tool.required_scopes(),
        }
    }
}

/// What a server offers: its own name and the handlers that are registered, in
/// the order in which they were.
pub struct Router {
    pub server_info: Option<Value>,
    pub tools: Vec<Tool>,
    pub prompts: Vec<GreetingPrompt>,
    pub resources: Vec<ReadmeResource>,
}

impl Router {
    /// A router with nothing registered.
    pub fn new() -> (router: Router)
        ensures
            router.server_info is None,
            router.tools@.len() == 0,
            router.prompts@.len() == 0,
            router.resources@.len() == 0,
    {
        Router {
            server_info: None,
            tools: Vec::new(),
            prompts: Vec::new(),
            resources: Vec::new(),
        }
    }
}

} // verus!
