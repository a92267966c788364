use example_server::json::{array1, member_str, object1, object2, object3, string};
use example_server::protocol::{RequestCtx, ToolDef, ToolOutcome};
use example_server::router::{Router, Tool};
use example_server::tools::{
    register_handlers, BookingTool, EchoTool, GreetingPrompt, LongJobTool, ReadmeResource,
};
use serde_json::Value;

fn json(text: &str) -> Value {
    serde_json::from_str(text).unwrap()
}

fn at(now_unix: u64) -> RequestCtx {
    RequestCtx { now_unix }
}

fn router() -> Router {
    let mut r = Router::new();
    register_handlers(&mut r);
    r
}

/// The tool that `tools/call` finds under `name`.
fn tool<'a>(r: &'a Router, name: &str) -> &'a Tool {
    r.tools.iter().find(|t| t.definition().name == name).unwrap()
}

fn result_type(outcome: &ToolOutcome) -> &'static str {
    match outcome {
        ToolOutcome::Complete(_) => "complete",
        ToolOutcome::InputRequired(_) => "input_required",
        ToolOutcome::Task(_) => "task",
    }
}

fn text(outcome: ToolOutcome) -> String {
    match outcome {
        ToolOutcome::Complete(result) => result.text,
        _ => panic!("not complete"),
    }
}

#[test]
fn tools_list_shows_all_demo_tools() {
    let r = router();
    let defs: Vec<ToolDef> = r.tools.iter().map(|t| t.definition()).collect();
    let names: Vec<&str> = defs.iter().map(|d| d.name.as_str()).collect();
    assert!(names.contains(&"echo"));
    assert!(names.contains(&"book_table"));
    assert!(names.contains(&"long_job"));
}

#[test]
fn echo_completes() {
    let r = router();
    let outcome = tool(&r, "echo").call(&at(1000), &json(r#"{"message":"hi"}"#)).unwrap();
    assert_eq!(result_type(&outcome), "complete");
    assert_eq!(text(outcome), "hi");
}

#[test]
fn booking_mrtr_roundtrip() {
    let r = router();
    let booking = tool(&r, "book_table");
    // No date: input is required, and there is a state to come back with.
    let first = booking.call(&at(1000), &json("{}")).unwrap();
    assert_eq!(result_type(&first), "input_required");
    let stop = match first {
        ToolOutcome::InputRequired(stop) => stop,
        _ => panic!("no input required"),
    };
    // Retry with the date, as the accepted answer to what was asked for.
    let responses = json(r#"{"date":{"action":"accept","content":"2026-08-01"}}"#);
    let mut args = stop.state;
    for name in stop.requests.keys() {
        args[name] = responses[name]["content"].clone();
    }
    let done = booking.call(&at(1005), &args).unwrap();
    assert_eq!(result_type(&done), "complete");
    assert_eq!(text(done), "Booked a table for 2026-08-01.");
}

#[test]
fn long_job_task_create_poll_complete() {
    let r = router();
    let job = tool(&r, "long_job");
    let created = job.call(&at(1000), &json("{}")).unwrap();
    assert_eq!(result_type(&created), "task");
    let status = |outcome: &ToolOutcome, now: u64| match outcome {
        ToolOutcome::Task(task) if now < task.ready_at => "working",
        ToolOutcome::Task(_) => "completed",
        _ => panic!("no task"),
    };
    // Poll before the deadline: still working.
    assert_eq!(status(&created, 1000), "working");
    // Poll after the deadline: completed with result.
    let created2 = job.call(&at(2000), &json("{}")).unwrap();
    assert_eq!(status(&created2, 2002), "completed");
    match created2 {
        ToolOutcome::Task(task) => {
            assert_eq!(task.result["content"][0]["text"], "job finished");
        }
        _ => panic!("no task"),
    }
}

#[test]
fn prompts_and_resources_list_and_read() {
    let r = router();
    assert_eq!(r.prompts[0].definition().name, "greeting");
    assert_eq!(r.resources[0].definition().uri, "mcp://example/readme");
    let resource = r
        .resources
        .iter()
        .find(|x| x.definition().uri == "mcp://example/readme")
        .unwrap();
    let contents = resource.read(&at(1000)).unwrap();
    assert_eq!(contents[0]["mimeType"], "text/plain");
}

#[test]
fn server_info_names_the_server() {
    let r = router();
    assert_eq!(
        r.server_info.unwrap(),
        json(r#"{"name":"compute-mcp-example","version":"0.1.0"}"#)
    );
}

#[test]
fn registering_keeps_what_is_there() {
    let mut r = router();
    register_handlers(&mut r);
    let names: Vec<String> = r.tools.iter().map(|t| t.definition().name).collect();
    assert_eq!(
        names,
        ["echo", "book_table", "long_job", "echo", "book_table", "long_job"]
    );
    assert_eq!(r.prompts.len(), 2);
    assert_eq!(r.resources.len(), 2);
}

#[test]
fn a_new_router_is_empty() {
    let r = Router::new();
    assert!(r.server_info.is_none());
    assert!(r.tools.is_empty() && r.prompts.is_empty() && r.resources.is_empty());
}

#[test]
fn echo_definition_is_exact() {
    let def = EchoTool.definition();
    assert_eq!(def.name, "echo");
    assert_eq!(def.title.as_deref(), Some("Echo"));
    assert_eq!(def.description, "Echo a message back.");
    assert_eq!(
        def.input_schema,
        json(
            r#"{"type":"object","properties":{"message":{"type":"string"}},"required":["message"]}"#
        )
    );
    assert_eq!(def.output_schema, None);
}

#[test]
fn booking_definition_is_exact() {
    let def = BookingTool.definition();
    assert_eq!(def.name, "book_table");
    assert_eq!(def.title.as_deref(), Some("Book a table"));
    assert_eq!(def.description, "Book a table; asks for a date if missing.");
    assert_eq!(
        def.input_schema,
        json(r#"{"type":"object","properties":{"date":{"type":"string"}}}"#)
    );
    assert_eq!(def.output_schema, None);
}

#[test]
fn long_job_definition_is_exact() {
    let def = LongJobTool.definition();
    assert_eq!(def.name, "long_job");
    assert_eq!(def.title.as_deref(), Some("Long job"));
    assert_eq!(def.description, "Start a long-running job; poll with tasks/get.");
    assert_eq!(def.input_schema, json(r#"{"type":"object"}"#));
    assert_eq!(def.output_schema, None);
}

#[test]
fn greeting_definition_is_exact() {
    let def = GreetingPrompt.definition();
    assert_eq!(def.name, "greeting");
    assert_eq!(def.description.as_deref(), Some("A friendly greeting prompt."));
    assert_eq!(def.arguments, vec![json(r#"{"name":"name","required":false}"#)]);
}

#[test]
fn readme_definition_is_exact() {
    let def = ReadmeResource.definition();
    assert_eq!(def.uri, "mcp://example/readme");
    assert_eq!(def.name, "readme");
    assert_eq!(def.description.as_deref(), Some("Example resource."));
    assert_eq!(def.mime_type.as_deref(), Some("text/plain"));
}

#[test]
fn echo_without_a_string_message_has_no_text() {
    for args in ["{}", "null", "[]", "\"message\"", r#"{"message":7}"#, r#"{"message":null}"#] {
        assert_eq!(text(EchoTool.call(&at(0), &json(args)).unwrap()), "");
    }
}

#[test]
fn echo_returns_the_message_unchanged() {
    let args = json(r#"{"message":"grüß \"dich\"\n","other":1}"#);
    assert_eq!(text(EchoTool.call(&at(0), &args).unwrap()), "gr\u{fc}\u{df} \"dich\"\n");
}

#[test]
fn booking_without_a_date_asks_and_keeps_its_arguments() {
    for args in [
        "{}",
        "null",
        r#"{"date":5}"#,
        r#"{"guests":4,"note":["window",null,true,1.5e300],"name":{"first":"Ada"}}"#,
    ] {
        match BookingTool.call(&at(0), &json(args)).unwrap() {
            ToolOutcome::InputRequired(stop) => {
                assert_eq!(stop.state, json(args));
                assert_eq!(
                    Value::Object(stop.requests),
                    json(
                        r#"{"date":{"method":"elicitation/create",
                            "params":{"mode":"form","message":"What date?"}}}"#
                    )
                );
            }
            _ => panic!("no input required"),
        }
    }
}

#[test]
fn booking_with_a_date_completes() {
    let args = json(r#"{"guests":4,"date":""}"#);
    assert_eq!(text(BookingTool.call(&at(0), &args).unwrap()), "Booked a table for .");
}

#[test]
fn long_job_task_is_exact() {
    match LongJobTool.call(&at(u64::MAX - 1), &json("[1]")).unwrap() {
        ToolOutcome::Task(task) => {
            assert_eq!(task.ttl_ms, 60_000);
            assert_eq!(task.poll_interval_ms, 500);
            assert_eq!(task.ready_at, u64::MAX);
            assert_eq!(task.result, json(r#"{"content":[{"type":"text","text":"job finished"}]}"#));
        }
        _ => panic!("no task"),
    }
}

#[test]
fn greeting_names_whom_to_greet() {
    let reply = GreetingPrompt.get(&at(0), &json(r#"{"name":"Ada"}"#)).unwrap();
    assert_eq!(
        reply,
        json(
            r#"{"messages":[{"role":"user",
                "content":{"type":"text","text":"Say hello to Ada."}}]}"#
        )
    );
}

#[test]
fn greeting_without_a_name_greets_the_world() {
    let world = GreetingPrompt.get(&at(0), &json(r#"{"name":"world"}"#)).unwrap();
    assert_eq!(world["messages"][0]["content"]["text"], "Say hello to world.");
    for args in ["{}", "null", r#"{"name":false}"#] {
        assert_eq!(GreetingPrompt.get(&at(0), &json(args)).unwrap(), world);
    }
}

#[test]
fn readme_reads_as_listed() {
    let def = ReadmeResource.definition();
    let contents = ReadmeResource.read(&at(0)).unwrap();
    assert_eq!(
        contents,
        json(
            r#"[{"uri":"mcp://example/readme","mimeType":"text/plain",
                "text":"This is an example MCP resource served from Fastly Compute."}]"#
        )
    );
    assert_eq!(contents[0]["uri"], def.uri.as_str());
    assert_eq!(contents[0]["mimeType"].as_str(), def.mime_type.as_deref());
}

#[test]
fn each_tool_asks_for_its_own_scope() {
    assert_eq!(EchoTool.required_scopes(), ["mcp:tools:echo"]);
    assert_eq!(BookingTool.required_scopes(), ["mcp:tools:book_table"]);
    assert_eq!(LongJobTool.required_scopes(), ["mcp:tools:long_job"]);
    for t in router().tools {
        assert_eq!(t.required_scopes(), [format!("mcp:tools:{}", t.definition().name)]);
    }
}

#[test]
fn advertised_schemas_are_plain() {
    for t in router().tools {
        let schema = t.definition().input_schema;
        assert_eq!(schema["type"], "object");
        for keyword in schema.as_object().unwrap().keys() {
            assert!(["type", "properties", "required"].contains(&keyword.as_str()));
        }
    }
}

#[test]
fn calls_do_not_depend_on_the_clock_but_for_deadlines() {
    let args = json(r#"{"message":"hi","date":"today"}"#);
    for now in [0, 1000, 5_000_000_000] {
        assert_eq!(text(EchoTool.call(&at(now), &args).unwrap()), "hi");
        assert_eq!(
            text(BookingTool.call(&at(now), &args).unwrap()),
            "Booked a table for today."
        );
        match LongJobTool.call(&at(now), &args).unwrap() {
            ToolOutcome::Task(task) => assert_eq!(task.ready_at, now + 1),
            _ => panic!("no task"),
        }
    }
}

#[test]
fn each_result_shape_is_exercised() {
    let r = router();
    let shapes: Vec<&str> = r
        .tools
        .iter()
        .map(|t| result_type(&t.call(&at(0), &json("{}")).unwrap()))
        .collect();
    assert_eq!(shapes, ["complete", "input_required", "task"]);
}

#[test]
fn json_builders_build_json() {
    assert_eq!(string("a\"b"), json(r#""a\"b""#));
    assert_eq!(array1(string("x")), json(r#"["x"]"#));
    assert_eq!(object1("k", array1(string("x"))), json(r#"{"k":["x"]}"#));
    assert_eq!(object2("a", string("1"), "a", string("2")), json(r#"{"a":"2"}"#));
    assert_eq!(
        object3("c", string("3"), "b", string("2"), "a", string("1")),
        json(r#"{"a":"1","b":"2","c":"3"}"#)
    );
}

#[test]
fn member_str_reads_string_members_only() {
    let value = json(r#"{"s":"text","n":1,"o":{"s":"inner"}}"#);
    assert_eq!(member_str(&value, "s"), Some("text"));
    assert_eq!(member_str(&value, "n"), None);
    assert_eq!(member_str(&value, "o"), None);
    assert_eq!(member_str(&value, "missing"), None);
    assert_eq!(member_str(&json(r#"["s"]"#), "s"), None);
    assert_eq!(member_str(&json(r#""s""#), "s"), None);
}

#[test]
fn schemas_ask_for_what_the_tools_need() {
    let echo = EchoTool.definition().input_schema;
    assert_eq!(echo["required"], json(r#"["message"]"#));
    assert_eq!(echo["properties"]["message"]["type"], "string");
    let booking = BookingTool.definition().input_schema;
    assert_eq!(booking["properties"]["date"]["type"], "string");
    assert_eq!(booking.get("required"), None);
    let long_job = LongJobTool.definition().input_schema;
    assert_eq!(long_job.get("properties"), None);
    assert_eq!(long_job.get("required"), None);
}
