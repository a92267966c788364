//! What holds of the demo handlers as a whole.

use crate::json::{json_of, members_of, Json};
use crate::protocol::{
    jsons, opt_json, opt_text, texts, OutcomeView, PromptDef, ResourceDef, ToolDef, ToolOutcome,
};
use crate::router::Tool;
use crate::tools::{
    booking_definition, booking_outcome, booking_requests, demo_tools, echo_definition,
    echo_outcome, greeting_definition, greeting_messages, greeting_name, long_job_definition,
    long_job_outcome, long_job_result, readme_contents, readme_definition, server_info,
    BookingTool, EchoTool, LongJobTool,
};
use serde_json::Value;
use vstd::prelude::*;

verus! {

/// Whether `value` has the type that a schema's `type` keyword names. Only the
/// types that the demo tools use are told apart.
pub open spec fn has_type(value: Json, name: Json) -> bool {
    &&& name == Json::Str("object"@) ==> value is Object
    &&& name == Json::Str("string"@) ==> value is Str
}

/// Whether `schema` admits `value` by its `type` keyword.
pub open spec fn admits_type(schema: Json, value: Json) -> bool {
    schema.member("type"@) matches Some(name) ==> has_type(value, name)
}

/// Whether `schema` admits the arguments `args`: by its `type`, by the `type`
/// of each of its `properties` that is there, and by the members that it lists
/// as `required`.
pub open spec fn admits(schema: Json, args: Json) -> bool {
    &&& admits_type(schema, args)
    &&& schema.member("properties"@) matches Some(properties) ==> forall|key: Seq<char>|
        #![trigger args.member(key)]
        properties.member(key) is Some && args.member(key) is Some ==> admits_type(
            properties.member(key)->0,
            args.member(key)->0,
        )
    &&& schema.member("required"@) matches Some(Json::Array(keys)) ==> forall|i: int|
        #![trigger keys[i]]
        0 <= i < keys.len() ==> (keys[i] matches Json::Str(key) ==> args.member(key) is Some)
}

/// The keywords of a schema.
pub open spec fn keywords(schema: Json) -> Set<Seq<char>> {
    match schema {
        Json::Object(members) => members.dom(),
        _ => Set::empty(),
    }
}

/// The words of the schemas are different from one another.
proof fn lemma_keywords_differ()
    ensures
        "object"@ != "string"@,
        "type"@ != "properties"@,
        "type"@ != "required"@,
        "properties"@ != "required"@,
{
    reveal_strlit("type");
    reveal_strlit("properties");
    reveal_strlit("required");
    assert("type"@.len() == 4);
    assert("properties"@.len() == 10);
    assert("required"@.len() == 8);
    reveal_strlit("object");
    reveal_strlit("string");
    assert("object"@[0] == 'o');
    assert("string"@[0] == 's');
}

/// Every tool's schema admits objects only. `echo` rejects one without a string
/// `message`, `book_table` one with a `date` that is not a string, `long_job`
/// none; and there is nothing else that they reject.
pub proof fn law_what_schemas_admit(tool: Tool, args: Json)
    ensures
        admits(tool.definition_view().input_schema, args) <==> args is Object && match tool {
            Tool::Echo(_) => args.member_text("message"@) is Some,
            Tool::Booking(_) => args.member("date"@) is Some ==> args.member_text(
                "date"@,
            ) is Some,
            Tool::LongJob(_) => true,
        },
{
    lemma_keywords_differ();
    let schema = tool.definition_view().input_schema;
    let string = Json::Object(map!["type"@ => Json::Str("string"@)]);
    assert(string.member("type"@) == Some(Json::Str("string"@)));
    assert(schema.member("type"@) == Some(Json::Str("object"@)));
    match tool {
        Tool::Echo(_) => {
            let keys = seq![Json::Str("message"@)];
            let properties = Json::Object(map!["message"@ => string]);
            assert(schema.member("required"@) == Some(Json::Array(keys)));
            assert(keys[0] == Json::Str("message"@));
            assert(schema.member("properties"@) == Some(properties));
            assert(properties.member("message"@) == Some(string));
        },
        Tool::Booking(_) => {
            let properties = Json::Object(map!["date"@ => string]);
            assert(schema.member("required"@) is None);
            assert(schema.member("properties"@) == Some(properties));
            assert(properties.member("date"@) == Some(string));
        },
        Tool::LongJob(_) => {
            assert(schema.member("required"@) is None);
            assert(schema.member("properties"@) is None);
        },
    }
}

/// Arguments that `echo` advertises as valid hold a message, and `echo`
/// completes with that message unchanged.
pub proof fn law_echo_returns_the_message(args: Json)
    requires
        admits(echo_definition().input_schema, args),
    ensures
        args.member("message"@) matches Some(Json::Str(message)) && echo_outcome(args)
            == (OutcomeView::Complete { text: message }),
{
    law_what_schemas_admit(Tool::Echo(EchoTool), args);
}

/// Of arguments that `book_table` advertises as valid, it asks for a date if and
/// only if none is there, and otherwise books for the date that is.
pub proof fn law_booking_asks_if_the_date_is_missing(args: Json)
    requires
        admits(booking_definition().input_schema, args),
    ensures
        match args.member("date"@) {
            None => booking_outcome(args) is InputRequired,
            Some(date) => date matches Json::Str(date) && booking_outcome(args) == (
            OutcomeView::Complete { text: "Booked a table for "@ + date + "."@ }),
        },
{
    law_what_schemas_admit(Tool::Booking(BookingTool), args);
}

/// The round trip of `book_table`. A call without a date asks for `date` and
/// for nothing else, and hands its arguments back unchanged as the state. The
/// state with the answer under the name that was asked for is all that any
/// server needs to complete the booking.
pub proof fn law_booking_round_trip(args: Json, date: Seq<char>)
    requires
        args.member_text("date"@) is None,
    ensures
        booking_outcome(args) matches OutcomeView::InputRequired { requests, state } && {
            &&& requests.dom() == set!["date"@]
            &&& state == args
            &&& state is Object ==> booking_outcome(
                state.with_member("date"@, Json::Str(date)),
            ) == (OutcomeView::Complete { text: "Booked a table for "@ + date + "."@ })
        },
{
    assert(booking_requests().dom() =~= set!["date"@]);
    if args is Object {
        let answered = args.with_member("date"@, Json::Str(date));
        assert(answered.member("date"@) == Some(Json::Str(date)));
    }
}

/// A job started at `now` is not ready at `now` and is ready at every later
/// second. It is ready, and a client that polls as told has seen so, before its
/// time to live is over.
pub proof fn law_long_job_completes_after_a_second(now: int, later: int)
    requires
        now < later,
    ensures
        long_job_outcome(now) matches OutcomeView::Task {
            ttl_ms,
            poll_interval_ms,
            ready_at,
            result,
        } && {
            &&& now < ready_at <= later
            &&& 0 < poll_interval_ms
            &&& 1_000 * ready_at + poll_interval_ms <= 1_000 * now + ttl_ms
            &&& result == long_job_result()
        },
{
}

/// Every result shape is exercised, each by the tool that stands for it: `echo`
/// always completes, `book_table` completes or asks for input, `long_job` always
/// goes on as a task.
pub proof fn law_result_shapes(tool: Tool, now: int, args: Json)
    ensures
        match tool {
            Tool::Echo(_) => tool.outcome(now, args) is Complete,
            Tool::Booking(_) => tool.outcome(now, args) is Complete || tool.outcome(
                now,
                args,
            ) is InputRequired,
            Tool::LongJob(_) => tool.outcome(now, args) is Task,
        },
{
}

/// No tool keeps a session: what a call comes to is the same whenever it is
/// made, but for the deadline of a task, which moves with the clock.
pub proof fn law_calls_are_stateless(tool: Tool, now: int, later: int, args: Json)
    ensures
        match (tool.outcome(now, args), tool.outcome(later, args)) {
            (
                OutcomeView::Task { ttl_ms, poll_interval_ms, ready_at, result },
                OutcomeView::Task {
                    ttl_ms: ttl_ms2,
                    poll_interval_ms: poll_interval_ms2,
                    ready_at: ready_at2,
                    result: result2,
                },
            ) => {
                &&& ttl_ms == ttl_ms2
                &&& poll_interval_ms == poll_interval_ms2
                &&& ready_at2 - ready_at == later - now
                &&& result == result2
            },
            (first, second) => first == second,
        },
{
}

/// The demo tools go by the names `echo`, `book_table` and `long_job`, in that
/// order, and no two by the same.
pub proof fn law_demo_tool_names(i: int, j: int)
    requires
        0 <= i < j < demo_tools().len(),
    ensures
        demo_tools().map_values(|tool: Tool| tool.definition_view().name) == seq![
            "echo"@,
            "book_table"@,
            "long_job"@,
        ],
        demo_tools()[i].definition_view().name != demo_tools()[j].definition_view().name,
{
    reveal_strlit("echo");
    reveal_strlit("book_table");
    reveal_strlit("long_job");
    assert("echo"@.len() == 4);
    assert("book_table"@.len() == 10);
    assert("long_job"@.len() == 8);
    assert(demo_tools().map_values(|tool: Tool| tool.definition_view().name) =~= seq![
        "echo"@,
        "book_table"@,
        "long_job"@,
    ]);
}

/// No tool can be called without a scope, and the one scope that a tool asks for
/// is the tool's own: `mcp:tools:` and its name.
pub proof fn law_scope_is_named_after_the_tool(tool: Tool)
    ensures
        tool.scopes() == seq!["mcp:tools:"@ + tool.definition_view().name],
{
    reveal_strlit("mcp:tools:");
    reveal_strlit("echo");
    reveal_strlit("mcp:tools:echo");
    reveal_strlit("book_table");
    reveal_strlit("mcp:tools:book_table");
    reveal_strlit("long_job");
    reveal_strlit("mcp:tools:long_job");
    assert("mcp:tools:"@ + "echo"@ =~= "mcp:tools:echo"@);
    assert("mcp:tools:"@ + "book_table"@ =~= "mcp:tools:book_table"@);
    assert("mcp:tools:"@ + "long_job"@ =~= "mcp:tools:long_job"@);
}

/// Whether a schema uses no keyword but `type`, `properties` and `required`, and
/// none but `type` in what it says of a property.
pub open spec fn plain_schema(schema: Json) -> bool {
    &&& keywords(schema).subset_of(set!["type"@, "properties"@, "required"@])
    &&& schema.member("properties"@) matches Some(properties) ==> forall|key: Seq<char>|
        (#[trigger] properties.member(key)) matches Some(property) ==> keywords(
            property,
        ).subset_of(set!["type"@])
}

/// Every tool advertises a plain schema for an object, and none for its output.
pub proof fn law_advertised_schemas_are_plain(tool: Tool)
    ensures
        plain_schema(tool.definition_view().input_schema),
        tool.definition_view().input_schema.member("type"@) == Some(Json::Str("object"@)),
        tool.definition_view().output_schema is None,
{
    lemma_keywords_differ();
    let schema = tool.definition_view().input_schema;
    match tool {
        Tool::Echo(_) => {
            let properties = Json::Object(
                map!["message"@ => Json::Object(map!["type"@ => Json::Str("string"@)])],
            );
            assert(schema.member("properties"@) == Some(properties));
        },
        Tool::Booking(_) => {
            let properties = Json::Object(
                map!["date"@ => Json::Object(map!["type"@ => Json::Str("string"@)])],
            );
            assert(schema.member("properties"@) == Some(properties));
        },
        Tool::LongJob(_) => {
            assert(schema.member("properties"@) is None);
        },
    }
}

/// A greeting without a name is the greeting of the world.
pub proof fn law_greeting_defaults_to_the_world(args: Json)
    requires
        args.member_text("name"@) is None,
    ensures
        greeting_messages(args) == greeting_messages(
            Json::Object(map!["name"@ => Json::Str("world"@)]),
        ),
{
    let named = Json::Object(map!["name"@ => Json::Str("world"@)]);
    assert(named.member("name"@) == Some(Json::Str("world"@)));
}

/// The resource reads as it is listed: one content, under the listed address and
/// of the listed type.
pub proof fn law_readme_reads_as_listed()
    ensures
        readme_contents() matches Json::Array(contents) && {
            &&& contents.len() == 1
            &&& contents[0].member_text("uri"@) == Some(readme_definition().uri)
            &&& contents[0].member_text("mimeType"@) == readme_definition().mime_type
        },
{
    reveal_strlit("uri");
    reveal_strlit("mimeType");
    reveal_strlit("text");
    assert("uri"@.len() == 3);
    assert("mimeType"@.len() == 8);
    assert("text"@.len() == 4);
}

/// Whether `value` is an object whose member `key` is the string `text`.
pub open spec fn holds_text(value: Json, key: Seq<char>, text: Seq<char>) -> bool {
    value matches Json::Object(members) && members.contains_key(key) && members[key] == Json::Str(
        text,
    )
}

/// Whether `value` is no object, or one that has no string under `key`.
pub open spec fn lacks_text(value: Json, key: Seq<char>) -> bool {
    forall|text: Seq<char>| !#[trigger] holds_text(value, key, text)
}

/// Whether `value` is an object with exactly the members `keys`.
pub open spec fn has_exactly(value: Json, keys: Set<Seq<char>>) -> bool {
    value matches Json::Object(members) && members.dom() == keys
}

/// The member `key` of an object.
pub open spec fn part(value: Json, key: Seq<char>) -> Json {
    value->Object_0[key]
}

/// Whether `value` is an array of one item.
pub open spec fn is_single(value: Json) -> bool {
    value matches Json::Array(items) && items.len() == 1
}

/// The first item of an array.
pub open spec fn only(value: Json) -> Json {
    value->Array_0[0]
}

/// Whether `value` is a block of text: of type `text`, with the text `text` and
/// nothing else.
pub open spec fn is_text_block(value: Json, text: Seq<char>) -> bool {
    &&& has_exactly(value, set!["type"@, "text"@])
    &&& holds_text(value, "type"@, "text"@)
    &&& holds_text(value, "text"@, text)
}

/// Whether `schema` says of a value that it is a string, and nothing else.
pub open spec fn is_string_schema(schema: Json) -> bool {
    has_exactly(schema, set!["type"@]) && holds_text(schema, "type"@, "string"@)
}

/// The keys that stand beside each other in one object are different.
proof fn lemma_keys_differ()
    ensures
        "type"@ != "text"@,
        "method"@ != "params"@,
        "mode"@ != "message"@,
        "role"@ != "content"@,
        "name"@ != "required"@,
        "name"@ != "version"@,
        "uri"@ != "mimeType"@,
        "uri"@ != "text"@,
        "mimeType"@ != "text"@,
{
    reveal_strlit("type");
    reveal_strlit("text");
    assert("type"@[1] == 'y' && "text"@[1] == 'e');
    reveal_strlit("method");
    reveal_strlit("params");
    assert("method"@[0] == 'm' && "params"@[0] == 'p');
    reveal_strlit("mode");
    reveal_strlit("message");
    assert("mode"@.len() == 4 && "message"@.len() == 7);
    reveal_strlit("role");
    reveal_strlit("content");
    assert("role"@.len() == 4 && "content"@.len() == 7);
    reveal_strlit("name");
    reveal_strlit("required");
    reveal_strlit("version");
    assert("name"@.len() == 4 && "required"@.len() == 8 && "version"@.len() == 7);
    reveal_strlit("uri");
    reveal_strlit("mimeType");
    assert("uri"@.len() == 3 && "mimeType"@.len() == 8 && "text"@.len() == 4);
}

/// The text under a key is read where it is a string, and is found nowhere else.
pub proof fn law_texts_are_read_where_they_stand(value: Json, key: Seq<char>)
    ensures
        forall|text: Seq<char>|
            value.member_text(key) == Some(text) <==> #[trigger] holds_text(value, key, text),
        value.member_text(key) is None <==> lacks_text(value, key),
        match value.member(key) {
            Some(member) => value matches Json::Object(members) && members.contains_key(key)
                && members[key] == member,
            None => value matches Json::Object(members) ==> !members.contains_key(key),
        },
{
    if value.member_text(key) is Some {
        assert(holds_text(value, key, value.member_text(key)->0));
    }
}

/// `echo` completes with the message that the caller gave, unchanged, however
/// it is called and whenever.
pub proof fn law_echo_call_gives_the_message(
    tool: EchoTool,
    now: int,
    args: Json,
    message: Seq<char>,
)
    requires
        holds_text(args, "message"@, message),
    ensures
        Tool::Echo(tool).outcome(now, args) == (OutcomeView::Complete { text: message }),
        echo_outcome(args) == (OutcomeView::Complete { text: message }),
{
    law_texts_are_read_where_they_stand(args, "message"@);
}

/// `echo` without a message completes with an empty text.
pub proof fn law_echo_call_without_a_message_is_empty(tool: EchoTool, now: int, args: Json)
    requires
        lacks_text(args, "message"@),
    ensures
        Tool::Echo(tool).outcome(now, args) == (OutcomeView::Complete { text: Seq::empty() }),
        echo_outcome(args) == (OutcomeView::Complete { text: Seq::empty() }),
{
    law_texts_are_read_where_they_stand(args, "message"@);
    reveal_strlit("");
    assert(""@ =~= Seq::<char>::empty());
}

/// A booking names the date that the caller gave.
pub proof fn law_booking_call_names_the_date(
    tool: BookingTool,
    now: int,
    args: Json,
    date: Seq<char>,
)
    requires
        holds_text(args, "date"@, date),
    ensures
        Tool::Booking(tool).outcome(now, args) == (OutcomeView::Complete {
            text: "Booked a table for "@ + date + "."@,
        }),
        booking_outcome(args) == (OutcomeView::Complete {
            text: "Booked a table for "@ + date + "."@,
        }),
{
    law_texts_are_read_where_they_stand(args, "date"@);
}

/// A call without a date stops: it asks for `date` and for nothing else, by a
/// form with the question for the date, and its state is its arguments.
pub proof fn law_booking_call_without_a_date_asks(tool: BookingTool, now: int, args: Json)
    requires
        lacks_text(args, "date"@),
    ensures
        booking_outcome(args) == Tool::Booking(tool).outcome(now, args),
        Tool::Booking(tool).outcome(now, args) matches OutcomeView::InputRequired {
            requests,
            state,
        } && {
            let request = requests["date"@];
            let params = part(request, "params"@);
            &&& state == args
            &&& requests.dom() == set!["date"@]
            &&& has_exactly(request, set!["method"@, "params"@])
            &&& holds_text(request, "method"@, "elicitation/create"@)
            &&& has_exactly(params, set!["mode"@, "message"@])
            &&& holds_text(params, "mode"@, "form"@)
            &&& holds_text(params, "message"@, "What date?"@)
        },
{
    law_texts_are_read_where_they_stand(args, "date"@);
    lemma_keys_differ();
    let requests = booking_requests();
    let request = requests["date"@];
    let params = part(request, "params"@);
    assert(requests.dom() =~= set!["date"@]);
    assert(request->Object_0.dom() =~= set!["method"@, "params"@]);
    assert(params->Object_0.dom() =~= set!["mode"@, "message"@]);
}

/// Bookings for different dates read differently.
pub proof fn law_bookings_tell_dates_apart(
    tool: BookingTool,
    now: int,
    args: Json,
    date: Seq<char>,
    other_args: Json,
    other: Seq<char>,
)
    requires
        holds_text(args, "date"@, date),
        holds_text(other_args, "date"@, other),
        date != other,
    ensures
        Tool::Booking(tool).outcome(now, args) != Tool::Booking(tool).outcome(now, other_args),
{
    law_booking_call_names_the_date(tool, now, args, date);
    law_booking_call_names_the_date(tool, now, other_args, other);
    let head = "Booked a table for "@;
    let dot = "."@;
    let first = head + date + dot;
    let second = head + other + dot;
    if first == second {
        assert(first.len() == head.len() + date.len() + dot.len());
        assert(second.len() == head.len() + other.len() + dot.len());
        assert forall|i: int| 0 <= i < date.len() implies date[i] == other[i] by {
            assert(first[head.len() + i] == date[i]);
            assert(second[head.len() + i] == other[i]);
        }
        assert(date =~= other);
    }
}

/// A long job is a task that is ready a second after it was started, is kept for
/// a minute, is polled every half second, and ends with the one text that the
/// job is finished, whatever the arguments.
pub proof fn law_long_job_call_creates_a_task(tool: LongJobTool, now: int, args: Json)
    ensures
        long_job_outcome(now) == Tool::LongJob(tool).outcome(now, args),
        Tool::LongJob(tool).outcome(now, args) matches OutcomeView::Task {
            ttl_ms,
            poll_interval_ms,
            ready_at,
            result,
        } && {
            let content = part(result, "content"@);
            &&& ready_at == now + 1
            &&& ttl_ms == 60_000
            &&& poll_interval_ms == 500
            &&& 1_000 * ready_at + poll_interval_ms <= 1_000 * now + ttl_ms
            &&& has_exactly(result, set!["content"@])
            &&& is_single(content)
            &&& is_text_block(only(content), "job finished"@)
        },
{
    lemma_keys_differ();
    let result = long_job_result();
    let block = only(part(result, "content"@));
    assert(result->Object_0.dom() =~= set!["content"@]);
    assert(block->Object_0.dom() =~= set!["type"@, "text"@]);
}

/// Each tool is listed under its own name, title and description, and none
/// promises a schema of its output.
pub proof fn law_tools_are_listed_as_themselves(tool: Tool)
    ensures
        ({
            let def = tool.definition_view();
            &&& def.output_schema is None
            &&& match tool {
                Tool::Echo(_) => {
                    &&& def == echo_definition()
                    &&& def.name == "echo"@
                    &&& def.title == Some("Echo"@)
                    &&& def.description == "Echo a message back."@
                },
                Tool::Booking(_) => {
                    &&& def == booking_definition()
                    &&& def.name == "book_table"@
                    &&& def.title == Some("Book a table"@)
                    &&& def.description == "Book a table; asks for a date if missing."@
                },
                Tool::LongJob(_) => {
                    &&& def == long_job_definition()
                    &&& def.name == "long_job"@
                    &&& def.title == Some("Long job"@)
                    &&& def.description == "Start a long-running job; poll with tasks/get."@
                },
            }
        }),
{
}

/// What the schemas hold, member by member: an object with a required string
/// `message` for `echo`, an object with a string `date` for `book_table`, an
/// object for `long_job`.
pub proof fn law_schemas_hold_no_more(tool: Tool)
    ensures
        ({
            let schema = tool.definition_view().input_schema;
            let properties = part(schema, "properties"@);
            let required = part(schema, "required"@);
            &&& holds_text(schema, "type"@, "object"@)
            &&& match tool {
                Tool::Echo(_) => {
                    &&& has_exactly(schema, set!["type"@, "properties"@, "required"@])
                    &&& has_exactly(properties, set!["message"@])
                    &&& is_string_schema(part(properties, "message"@))
                    &&& is_single(required)
                    &&& only(required) == Json::Str("message"@)
                },
                Tool::Booking(_) => {
                    &&& has_exactly(schema, set!["type"@, "properties"@])
                    &&& has_exactly(properties, set!["date"@])
                    &&& is_string_schema(part(properties, "date"@))
                },
                Tool::LongJob(_) => has_exactly(schema, set!["type"@]),
            }
        }),
{
    lemma_keywords_differ();
    let schema = tool.definition_view().input_schema;
    let properties = part(schema, "properties"@);
    match tool {
        Tool::Echo(_) => {
            let property = part(properties, "message"@);
            assert(schema->Object_0.dom() =~= set!["type"@, "properties"@, "required"@]);
            assert(properties->Object_0.dom() =~= set!["message"@]);
            assert(property->Object_0.dom() =~= set!["type"@]);
        },
        Tool::Booking(_) => {
            let property = part(properties, "date"@);
            assert(schema->Object_0.dom() =~= set!["type"@, "properties"@]);
            assert(properties->Object_0.dom() =~= set!["date"@]);
            assert(property->Object_0.dom() =~= set!["type"@]);
        },
        Tool::LongJob(_) => {
            assert(schema->Object_0.dom() =~= set!["type"@]);
        },
    }
}

/// The demo tools are one of each kind.
pub proof fn law_demo_tools_are_one_of_each()
    ensures
        demo_tools().len() == 3,
        demo_tools()[0] is Echo,
        demo_tools()[1] is Booking,
        demo_tools()[2] is LongJob,
{
}

/// The server gives its name and its version, and nothing else.
pub proof fn law_server_info_names_the_server()
    ensures
        has_exactly(server_info(), set!["name"@, "version"@]),
        holds_text(server_info(), "name"@, "compute-mcp-example"@),
        holds_text(server_info(), "version"@, "0.1.0"@),
{
    lemma_keys_differ();
    assert(server_info()->Object_0.dom() =~= set!["name"@, "version"@]);
}

/// Whether `reply` is one message of the user, a block of text that says to
/// greet `name`.
pub open spec fn greets(reply: Json, name: Seq<char>) -> bool {
    let message = only(part(reply, "messages"@));
    &&& has_exactly(reply, set!["messages"@])
    &&& is_single(part(reply, "messages"@))
    &&& has_exactly(message, set!["role"@, "content"@])
    &&& holds_text(message, "role"@, "user"@)
    &&& is_text_block(part(message, "content"@), "Say hello to "@ + name + "."@)
}

/// A greeting greets whom the caller named.
pub proof fn law_greeting_greets_the_given_name(args: Json, name: Seq<char>)
    requires
        holds_text(args, "name"@, name),
    ensures
        greets(greeting_messages(args), name),
{
    law_texts_are_read_where_they_stand(args, "name"@);
    lemma_greeting(args);
}

/// A greeting without a name greets the world.
pub proof fn law_greeting_without_a_name_greets_the_world(args: Json)
    requires
        lacks_text(args, "name"@),
    ensures
        greets(greeting_messages(args), "world"@),
{
    law_texts_are_read_where_they_stand(args, "name"@);
    lemma_greeting(args);
}

/// Every greeting greets somebody.
proof fn lemma_greeting(args: Json)
    ensures
        greets(greeting_messages(args), greeting_name(args)),
{
    lemma_keys_differ();
    let reply = greeting_messages(args);
    let message = only(part(reply, "messages"@));
    let content = part(message, "content"@);
    assert(reply->Object_0.dom() =~= set!["messages"@]);
    assert(message->Object_0.dom() =~= set!["role"@, "content"@]);
    assert(content->Object_0.dom() =~= set!["type"@, "text"@]);
}

/// The prompt is listed as `greeting`, with one argument, a `name` that may be
/// left out.
pub proof fn law_greeting_is_listed_as_itself()
    ensures
        ({
            let def = greeting_definition();
            let argument = def.arguments[0];
            &&& def.name == "greeting"@
            &&& def.description == Some("A friendly greeting prompt."@)
            &&& def.arguments.len() == 1
            &&& has_exactly(argument, set!["name"@, "required"@])
            &&& holds_text(argument, "name"@, "name"@)
            &&& part(argument, "required"@) == Json::Bool(false)
        }),
{
    lemma_keys_differ();
    let argument = greeting_definition().arguments[0];
    assert(argument->Object_0.dom() =~= set!["name"@, "required"@]);
}

/// The resource is listed as `readme`, a plain text, and holds one text under
/// its own address.
pub proof fn law_readme_is_listed_and_read_as_itself()
    ensures
        readme_definition().uri == "mcp://example/readme"@,
        readme_definition().name == "readme"@,
        readme_definition().description == Some("Example resource."@),
        readme_definition().mime_type == Some("text/plain"@),
        ({
            let content = only(readme_contents());
            &&& is_single(readme_contents())
            &&& has_exactly(content, set!["uri"@, "mimeType"@, "text"@])
            &&& holds_text(content, "uri"@, "mcp://example/readme"@)
            &&& holds_text(content, "mimeType"@, "text/plain"@)
            &&& holds_text(
                content,
                "text"@,
                "This is an example MCP resource served from Fastly Compute."@,
            )
        }),
{
    lemma_keys_differ();
    let content = only(readme_contents());
    assert(content->Object_0.dom() =~= set!["uri"@, "mimeType"@, "text"@]);
}

/// The scope of each tool, and that it is the only one.
pub proof fn law_scopes_are_the_declared_ones(tool: Tool)
    ensures
        tool.scopes().len() == 1,
        match tool {
            Tool::Echo(_) => tool.scopes()[0] == "mcp:tools:echo"@,
            Tool::Booking(_) => tool.scopes()[0] == "mcp:tools:book_table"@,
            Tool::LongJob(_) => tool.scopes()[0] == "mcp:tools:long_job"@,
        },
{
}

/// The view of an outcome keeps its shape and everything that it holds.
pub proof fn law_outcome_views_are_faithful(outcome: ToolOutcome)
    ensures
        match (outcome, outcome@) {
            (ToolOutcome::Complete(result), OutcomeView::Complete { text }) => text
                == result.text@,
            (
                ToolOutcome::InputRequired(stop),
                OutcomeView::InputRequired { requests, state },
            ) => requests == members_of(stop.requests) && state == json_of(stop.state),
            (
                ToolOutcome::Task(task),
                OutcomeView::Task { ttl_ms, poll_interval_ms, ready_at, result },
            ) => {
                &&& ttl_ms == task.ttl_ms
                &&& poll_interval_ms == task.poll_interval_ms
                &&& ready_at == task.ready_at
                &&& result == json_of(task.result)
            },
            _ => false,
        },
{
}

/// The views of lists and optional values keep every item, in its place.
pub proof fn law_list_views_are_faithful(
    strings: Seq<String>,
    values: Seq<Value>,
    string: Option<String>,
    value: Option<Value>,
)
    ensures
        texts(strings).len() == strings.len(),
        forall|i: int| 0 <= i < strings.len() ==> #[trigger] texts(strings)[i] == strings[i]@,
        jsons(values).len() == values.len(),
        forall|i: int| 0 <= i < values.len() ==> #[trigger] jsons(values)[i] == json_of(values[i]),
        match string {
            Some(text) => opt_text(string) == Some(text@),
            None => opt_text(string) is None,
        },
        match value {
            Some(json) => opt_json(value) == Some(json_of(json)),
            None => opt_json(value) is None,
        },
{
}

/// The views of definitions keep every field.
pub proof fn law_definition_views_are_faithful(
    tool: ToolDef,
    prompt: PromptDef,
    resource: ResourceDef,
)
    ensures
        tool@.name == tool.name@,
        tool@.title == opt_text(tool.title),
        tool@.description == tool.description@,
        tool@.input_schema == json_of(tool.input_schema),
        tool@.output_schema == opt_json(tool.output_schema),
        prompt@.name == prompt.name@,
        prompt@.description == opt_text(prompt.description),
        prompt@.arguments == jsons(prompt.arguments@),
        resource@.uri == resource.uri@,
        resource@.name == resource.name@,
        resource@.description == opt_text(resource.description),
        resource@.mime_type == opt_text(resource.mime_type),
{
}

} // verus!
