//! Demo handlers exercising every result shape: a plain tool that completes,
//! a tool that asks for input, a task-backed tool, plus a prompt and a
//! resource.

use crate::json::{
    array1, json_of, map_insert, map_new, member_str, object1, object2, object3, string,
    value_clone, value_from_bool, Json,
};
use crate::protocol::{
    jsons, opt_json, texts, CallResult, InputRequired, OutcomeView, PromptDef, PromptDefView,
    RequestCtx, ResourceDef, ResourceDefView, RpcError, TaskCreation, ToolDef, ToolDefView,
    ToolOutcome,
};
use crate::router::{Router, Tool};
use crate::text::join;
use serde_json::Value;
use vstd::prelude::*;

verus! {

/// A list of one string.
fn one(text: &str) -> (list: Vec<String>)
    ensures
        texts(list@) == seq![text@],
{
    let mut list: Vec<String> = Vec::new();
    list.push(text.to_owned());
    proof {
        assert(texts(list@) =~= seq![text@]);
    }
    list
}

/// The name and version that the server gives of itself.
pub open spec fn server_info() -> Json {
    Json::Object(
        map!["name"@ => Json::Str("compute-mcp-example"@), "version"@ => Json::Str("0.1.0"@)],
    )
}

/// The demo tools, in the order in which they are registered.
pub open spec fn demo_tools() -> Seq<Tool> {
    seq![Tool::Echo(EchoTool), Tool::Booking(BookingTool), Tool::LongJob(LongJobTool)]
}

/// Register the demo handlers and server info on a router. What was registered
/// before stays, in front.
pub fn register_handlers(router: &mut Router)
    ensures
        opt_json(final(router).server_info) == Some(server_info()),
        final(router).tools@ == old(router).tools@ + demo_tools(),
        final(router).prompts@ == old(router).prompts@.push(GreetingPrompt),
        final(router).resources@ == old(router).resources@.push(ReadmeResource),
{
    router.server_info = Some(
        object2("name", string("compute-mcp-example"), "version", string("0.1.0")),
    );
    router.tools.push(Tool::Echo(EchoTool));
    router.tools.push(Tool::Booking(BookingTool));
    router.tools.push(Tool::LongJob(LongJobTool));
    router.prompts.push(GreetingPrompt);
    router.resources.push(ReadmeResource);
}

/// `echo` -- a plain tool that completes immediately.
pub struct EchoTool;

/// What `echo` says of itself: it takes an object with a string `message`,
/// which must be there.
pub open spec fn echo_definition() -> ToolDefView {
    ToolDefView {
        name: "echo"@,
        title: Some("Echo"@),
        description: "Echo a message back."@,
        input_schema: Json::Object(
            map![
                "type"@ => Json::Str("object"@),
                "properties"@ => Json::Object(
                    map!["message"@ => Json::Object(map!["type"@ => Json::Str("string"@)])],
                ),
                "required"@ => Json::Array(seq![Json::Str("message"@)]),
            ],
        ),
        output_schema: None,
    }
}

/// What `echo` comes to: the text of `message`, or no text where there is none.
pub open spec fn echo_outcome(args: Json) -> OutcomeView {
    OutcomeView::Complete {
        text: match args.member_text("message"@) {
            Some(message) => message,
            None => ""@,
        },
    }
}

impl EchoTool {
    /// What `tools/list` says of the tool.
    pub fn definition(&self) -> (def: ToolDef)
        ensures
            def@ == echo_definition(),
    {
        ToolDef {
            name: "echo".to_owned(),
            title: Some("Echo".to_owned()),
            description: "Echo a message back.".to_owned(),
            input_schema: object3(
                "type",
                string("object"),
                "properties",
                object1("message", object1("type", string("string"))),
                "required",
                array1(string("message")),
            ),
            output_schema: None,
        }
    }

    /// Completes with the `message`, or with no text where there is none.
    pub fn call(&self, _ctx: &RequestCtx, args: &Value) -> (result: Result<ToolOutcome, RpcError>)
        ensures
            result matches Ok(outcome) && outcome@ == echo_outcome(json_of(*args)),
    {
        let message = match member_str(args, "message") {
            Some(message) => message,
            None => "",
        };
        Ok(ToolOutcome::Complete(CallResult::text(message.to_owned())))
    }

    /// The scopes that a caller must hold.
    pub fn required_scopes(&self) -> (scopes: Vec<String>)
        ensures
            texts(scopes@) == seq!["mcp:tools:echo"@],
    {
        one("mcp:tools:echo")
    }
}

/// `book_table` -- needs a `date` before it can complete.
pub struct BookingTool;

/// What `book_table` says of itself: it takes an object with an optional string
/// `date`.
pub open spec fn booking_definition() -> ToolDefView {
    ToolDefView {
        name: "book_table"@,
        title: Some("Book a table"@),
        description: "Book a table; asks for a date if missing."@,
        input_schema: Json::Object(
            map![
                "type"@ => Json::Str("object"@),
                "properties"@ => Json::Object(
                    map!["date"@ => Json::Object(map!["type"@ => Json::Str("string"@)])],
                ),
            ],
        ),
        output_schema: None,
    }
}

/// What `book_table` asks a client for: a `date`, through a form.
pub open spec fn booking_requests() -> Map<Seq<char>, Json> {
    map![
        "date"@ => Json::Object(
            map![
                "method"@ => Json::Str("elicitation/create"@),
                "params"@ => Json::Object(
                    map!["mode"@ => Json::Str("form"@), "message"@ => Json::Str("What date?"@)],
                ),
            ],
        ),
    ]
}

/// What `book_table` comes to: a booking for the text of `date`; where there is
/// none, it asks for one and hands its arguments back as the state.
pub open spec fn booking_outcome(args: Json) -> OutcomeView {
    match args.member_text("date"@) {
        Some(date) => OutcomeView::Complete { text: "Booked a table for "@ + date + "."@ },
        None => OutcomeView::InputRequired { requests: booking_requests(), state: args },
    }
}

impl BookingTool {
    /// What `tools/list` says of the tool.
    pub fn definition(&self) -> (def: ToolDef)
        ensures
            def@ == booking_definition(),
    {
        ToolDef {
            name: "book_table".to_owned(),
            title: Some("Book a table".to_owned()),
            description: "Book a table; asks for a date if missing.".to_owned(),
            input_schema: object2(
                "type",
                string("object"),
                "properties",
                object1("date", object1("type", string("string"))),
            ),
            output_schema: None,
        }
    }

    /// Books a table for the `date`, or asks for one.
    pub fn call(&self, _ctx: &RequestCtx, args: &Value) -> (result: Result<ToolOutcome, RpcError>)
        ensures
            result matches Ok(outcome) && outcome@ == booking_outcome(json_of(*args)),
    {
        match member_str(args, "date") {
            Some(date) => Ok(
                ToolOutcome::Complete(CallResult::text(join("Booked a table for ", date, "."))),
            ),
            None => {
                let mut requests = map_new();
                map_insert(
                    &mut requests,
                    "date".to_owned(),
                    object2(
                        "method",
                        string("elicitation/create"),
                        "params",
                        object2("mode", string("form"), "message", string("What date?")),
                    ),
                );
                Ok(ToolOutcome::InputRequired(InputRequired::new(requests, value_clone(args))))
            },
        }
    }

    /// The scopes that a caller must hold.
    pub fn required_scopes(&self) -> (scopes: Vec<String>)
        ensures
            texts(scopes@) == seq!["mcp:tools:book_table"@],
    {
        one("mcp:tools:book_table")
    }
}

/// `long_job` -- a task-backed tool that completes about 1s after creation.
pub struct LongJobTool;

/// What `long_job` says of itself: it takes any object.
pub open spec fn long_job_definition() -> ToolDefView {
    ToolDefView {
        name: "long_job"@,
        title: Some("Long job"@),
        description: "Start a long-running job; poll with tasks/get."@,
        input_schema: Json::Object(map!["type"@ => Json::Str("object"@)]),
        output_schema: None,
    }
}

/// The result of a finished job.
pub open spec fn long_job_result() -> Json {
    Json::Object(
        map![
            "content"@ => Json::Array(
                seq![
                    Json::Object(
                        map!["type"@ => Json::Str("text"@), "text"@ => Json::Str("job finished"@)],
                    ),
                ],
            ),
        ],
    )
}

/// What `long_job` comes to when the clock reads `now`: a task that is ready a
/// second later, is kept for a minute and is polled every half second.
pub open spec fn long_job_outcome(now: int) -> OutcomeView {
    OutcomeView::Task {
        ttl_ms: 60_000,
        poll_interval_ms: 500,
        ready_at: now + 1,
        result: long_job_result(),
    }
}

impl LongJobTool {
    /// What `tools/list` says of the tool.
    pub fn definition(&self) -> (def: ToolDef)
        ensures
            def@ == long_job_definition(),
    {
        ToolDef {
            name: "long_job".to_owned(),
            title: Some("Long job".to_owned()),
            description: "Start a long-running job; poll with tasks/get.".to_owned(),
            input_schema: object1("type", string("object")),
            output_schema: None,
        }
    }

    /// Starts a job that is finished a second from now. The clock must leave
    /// room for that second.
    pub fn call(&self, ctx: &RequestCtx, _args: &Value) -> (result: Result<ToolOutcome, RpcError>)
        requires
            ctx.now_unix < u64::MAX,
        ensures
            result matches Ok(outcome) && outcome@ == long_job_outcome(ctx.now_unix as int),
    {
        let ready_at: u64 = ctx.now_unix() + 1;
        Ok(
            ToolOutcome::Task(
                TaskCreation::deadline(
                    60_000,
                    500,
                    ready_at,
                    object1(
                        "content",
                        array1(object2("type", string("text"), "text", string("job finished"))),
                    ),
                ),
            ),
        )
    }

    /// The scopes that a caller must hold.
    pub fn required_scopes(&self) -> (scopes: Vec<String>)
        ensures
            texts(scopes@) == seq!["mcp:tools:long_job"@],
    {
        one("mcp:tools:long_job")
    }
}

/// A demo prompt.
pub struct GreetingPrompt;

/// What `greeting` says of itself: it takes a `name`, which may be left out.
pub open spec fn greeting_definition() -> PromptDefView {
    PromptDefView {
        name: "greeting"@,
        description: Some("A friendly greeting prompt."@),
        arguments: seq![
            Json::Object(map!["name"@ => Json::Str("name"@), "required"@ => Json::Bool(false)]),
        ],
    }
}

/// Who `greeting` greets: the text of `name`, or the world.
pub open spec fn greeting_name(args: Json) -> Seq<char> {
    match args.member_text("name"@) {
        Some(name) => name,
        None => "world"@,
    }
}

/// What `greeting` gives: one message of the user, which says whom to greet.
pub open spec fn greeting_messages(args: Json) -> Json {
    Json::Object(
        map![
            "messages"@ => Json::Array(
                seq![
                    Json::Object(
                        map![
                            "role"@ => Json::Str("user"@),
                            "content"@ => Json::Object(
                                map![
                                    "type"@ => Json::Str("text"@),
                                    "text"@ => Json::Str(
                                        "Say hello to "@ + greeting_name(args) + "."@,
                                    ),
                                ],
                            ),
                        ],
                    ),
                ],
            ),
        ],
    )
}

impl GreetingPrompt {
    /// What `prompts/list` says of the prompt.
    pub fn definition(&self) -> (def: PromptDef)
        ensures
            def@ == greeting_definition(),
    {
        let mut arguments: Vec<Value> = Vec::new();
        arguments.push(object2("name", string("name"), "required", value_from_bool(false)));
        proof {
            assert(jsons(arguments@) =~= greeting_definition().arguments);
        }
        PromptDef {
            name: "greeting".to_owned(),
            description: Some("A friendly greeting prompt.".to_owned()),
            arguments,
        }
    }

    /// A request to greet `name`, or the world.
    pub fn get(&self, _ctx: &RequestCtx, args: &Value) -> (result: Result<Value, RpcError>)
        ensures
            result matches Ok(reply) && json_of(reply) == greeting_messages(json_of(*args)),
    {
        let name = match member_str(args, "name") {
            Some(name) => name,
            None => "world",
        };
        Ok(
            object1(
                "messages",
                array1(
                    object2(
                        "role",
                        string("user"),
                        "content",
                        object2(
                            "type",
                            string("text"),
                            "text",
                            string(join("Say hello to ", name, ".").as_str()),
                        ),
                    ),
                ),
            ),
        )
    }
}

/// A demo resource.
pub struct ReadmeResource;

/// What `readme` says of itself.
pub open spec fn readme_definition() -> ResourceDefView {
    ResourceDefView {
        uri: "mcp://example/readme"@,
        name: "readme"@,
        description: Some("Example resource."@),
        mime_type: Some("text/plain"@),
    }
}

/// What `readme` holds: one plain text.
pub open spec fn readme_contents() -> Json {
    Json::Array(
        seq![
            Json::Object(
                map![
                    "uri"@ => Json::Str("mcp://example/readme"@),
                    "mimeType"@ => Json::Str("text/plain"@),
                    "text"@ => Json::Str(
                        "This is an example MCP resource served from Fastly Compute."@,
                    ),
                ],
            ),
        ],
    )
}

impl ReadmeResource {
    /// What `resources/list` says of the resource.
    pub fn definition(&self) -> (def: ResourceDef)
        ensures
            def@ == readme_definition(),
    {
        ResourceDef {
            uri: "mcp://example/readme".to_owned(),
            name: "readme".to_owned(),
            description: Some("Example resource.".to_owned()),
            mime_type: Some("text/plain".to_owned()),
        }
    }

    /// The contents of the resource.
    pub fn read(&self, _ctx: &RequestCtx) -> (result: Result<Value, RpcError>)
        ensures
            result matches Ok(contents) && json_of(contents) == readme_contents(),
    {
        Ok(
            array1(
                object3(
                    "uri",
                    string("mcp://example/readme"),
                    "mimeType",
                    string("text/plain"),
                    "text",
                    string("This is an example MCP resource served from Fastly Compute."),
                ),
            ),
        )
    }
}

} // verus!
