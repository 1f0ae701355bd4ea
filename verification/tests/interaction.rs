use determinishtic::decode::decode;
use determinishtic::dispatch::{
    run_script, DispatchAction, DispatchEvent, DispatchLoop, DispatchState, ToolOutcome,
};
use determinishtic::error::Error;
use determinishtic::json::{matches_value, JsonValue, Schema};
use determinishtic::prompt::{PromptSegment, ThinkBuilder};
use determinishtic::session::{release_action, ReleaseAction, SessionOrigin};
use determinishtic::tools::{find_tool, ToolSpec};

fn lookup_tool() -> ToolSpec {
    ToolSpec {
        name: "lookup".to_string(),
        input_schema: Schema::Object(vec![("name".to_string(), Schema::Text)]),
        output_schema: Schema::Integer,
    }
}

#[test]
fn builder_concatenates_segments_in_order() {
    let request = ThinkBuilder::new()
        .text("Say hello to".to_string())
        .display("Alice".to_string())
        .text("in a friendly way.".to_string())
        .finalize();
    assert_eq!(request.prompt, "Say hello toAlicein a friendly way.");
    assert!(request.tools.is_empty());
}

#[test]
fn plain_string_interaction_returns_terminal_payload() {
    let request = ThinkBuilder::new()
        .text("Say hello to".to_string())
        .display("Alice".to_string())
        .text("in a friendly way.".to_string())
        .finalize();
    let mut lp = DispatchLoop::new(request.tools);
    let action = lp.on_event(DispatchEvent::TerminalResult {
        payload: JsonValue::Str("Hello, Alice!".to_string()),
    });
    assert_eq!(action, DispatchAction::Stop);
    let raw = lp.finish().expect("interaction completed");
    let out = decode(&Schema::Text, raw).expect("payload matches the expected shape");
    assert_eq!(out, JsonValue::Str("Hello, Alice!".to_string()));
}

#[test]
fn zero_tools_reject_any_tool_call() {
    let mut lp = DispatchLoop::new(Vec::new());
    let action = lp.on_event(DispatchEvent::ToolCall {
        call_id: 3,
        name: "anything".to_string(),
        arguments: JsonValue::Null,
    });
    match action {
        DispatchAction::ErrorReply { call_id, message } => {
            assert_eq!(call_id, 3);
            assert_eq!(message, "no tool is registered under the name: anything");
        }
        other => panic!("expected an error reply, got {:?}", other),
    }
    // The loop is still awaiting: a terminal result is processed normally.
    let action = lp.on_event(DispatchEvent::TerminalResult { payload: JsonValue::Int(1) });
    assert_eq!(action, DispatchAction::Stop);
    assert_eq!(lp.finish(), Ok(JsonValue::Int(1)));
}

#[test]
fn unregistered_tool_gets_one_error_reply_and_loop_continues() {
    let mut lp = DispatchLoop::new(vec![lookup_tool()]);
    let action = lp.on_event(DispatchEvent::ToolCall {
        call_id: 11,
        name: "other".to_string(),
        arguments: JsonValue::Null,
    });
    match action {
        DispatchAction::ErrorReply { call_id, message } => {
            assert_eq!(call_id, 11);
            assert_eq!(message, "no tool is registered under the name: other");
        }
        other => panic!("expected an error reply, got {:?}", other),
    }
    // Recoverable: the same loop still dispatches a valid call.
    let action = lp.on_event(DispatchEvent::ToolCall {
        call_id: 12,
        name: "lookup".to_string(),
        arguments: JsonValue::Obj(vec![(
            "name".to_string(),
            JsonValue::Str("Alice".to_string()),
        )]),
    });
    match action {
        DispatchAction::Invoke { tool, call_id, .. } => {
            assert_eq!(tool, 0);
            assert_eq!(call_id, 12);
        }
        other => panic!("expected an invocation, got {:?}", other),
    }
}

#[test]
fn invalid_arguments_get_error_reply_not_invocation() {
    let mut lp = DispatchLoop::new(vec![lookup_tool()]);
    let action = lp.on_event(DispatchEvent::ToolCall {
        call_id: 5,
        name: "lookup".to_string(),
        arguments: JsonValue::Int(9),
    });
    match action {
        DispatchAction::ErrorReply { call_id, message } => {
            assert_eq!(call_id, 5);
            assert_eq!(
                message,
                "arguments do not match the declared input schema of tool: lookup"
            );
        }
        other => panic!("expected an error reply, got {:?}", other),
    }
}

#[test]
fn failing_tool_is_absorbed_into_error_reply() {
    let mut lp = DispatchLoop::new(vec![lookup_tool()]);
    lp.on_event(DispatchEvent::ToolCall {
        call_id: 21,
        name: "lookup".to_string(),
        arguments: JsonValue::Obj(vec![(
            "name".to_string(),
            JsonValue::Str("Bob".to_string()),
        )]),
    });
    let action = lp.on_outcome(ToolOutcome::Failure("lookup table unavailable".to_string()));
    match action {
        DispatchAction::ErrorReply { call_id, message } => {
            assert_eq!(call_id, 21);
            assert_eq!(message, "tool invocation failed: lookup table unavailable");
        }
        other => panic!("expected an error reply, got {:?}", other),
    }
    // The failure did not end the interaction.
    let action = lp.on_event(DispatchEvent::TerminalResult {
        payload: JsonValue::Str("done".to_string()),
    });
    assert_eq!(action, DispatchAction::Stop);
    assert_eq!(lp.finish(), Ok(JsonValue::Str("done".to_string())));
}

#[test]
fn tool_output_outside_declared_schema_is_rejected() {
    let mut lp = DispatchLoop::new(vec![lookup_tool()]);
    lp.on_event(DispatchEvent::ToolCall {
        call_id: 8,
        name: "lookup".to_string(),
        arguments: JsonValue::Obj(vec![(
            "name".to_string(),
            JsonValue::Str("Eve".to_string()),
        )]),
    });
    let action = lp.on_outcome(ToolOutcome::Success(JsonValue::Str("forty-two".to_string())));
    match action {
        DispatchAction::ErrorReply { call_id, message } => {
            assert_eq!(call_id, 8);
            assert_eq!(
                message,
                "result does not match the declared output schema of tool: lookup"
            );
        }
        other => panic!("expected an error reply, got {:?}", other),
    }
}

#[test]
fn closed_without_result_fails_with_no_result() {
    let mut lp = DispatchLoop::new(Vec::new());
    let action = lp.on_event(DispatchEvent::Closed);
    assert_eq!(action, DispatchAction::Stop);
    assert_eq!(lp.finish(), Err(Error::NoResult));
}

#[test]
fn transport_error_fails_with_connection() {
    let mut lp = DispatchLoop::new(Vec::new());
    let action = lp.on_event(DispatchEvent::TransportError {
        message: "peer reset".to_string(),
    });
    assert_eq!(action, DispatchAction::Stop);
    assert_eq!(lp.finish(), Err(Error::Connection("peer reset".to_string())));
}

#[test]
fn lookup_scenario_replies_forty_two_and_decodes_terminal_independently() {
    let mut lp = DispatchLoop::new(vec![lookup_tool()]);
    let action = lp.on_event(DispatchEvent::ToolCall {
        call_id: 77,
        name: "lookup".to_string(),
        arguments: JsonValue::Obj(vec![(
            "name".to_string(),
            JsonValue::Str("Alice".to_string()),
        )]),
    });
    match action {
        DispatchAction::Invoke { tool, call_id, arguments } => {
            assert_eq!(tool, 0);
            assert_eq!(call_id, 77);
            assert_eq!(
                arguments,
                JsonValue::Obj(vec![(
                    "name".to_string(),
                    JsonValue::Str("Alice".to_string()),
                )])
            );
        }
        other => panic!("expected an invocation, got {:?}", other),
    }
    let action = lp.on_outcome(ToolOutcome::Success(JsonValue::Int(42)));
    assert_eq!(action, DispatchAction::Reply { call_id: 77, value: JsonValue::Int(42) });
    // The terminal result is decoded without reference to the tool's value.
    lp.on_event(DispatchEvent::TerminalResult {
        payload: JsonValue::Str("Alice is 42".to_string()),
    });
    let raw = lp.finish().expect("interaction completed");
    let out = decode(&Schema::Text, raw).expect("payload matches the expected shape");
    assert_eq!(out, JsonValue::Str("Alice is 42".to_string()));
}

fn census_schema() -> Schema {
    Schema::Object(vec![
        ("city".to_string(), Schema::Text),
        ("population".to_string(), Schema::Integer),
    ])
}

#[test]
fn echoed_tool_output_round_trips_through_decode() {
    let schema = census_schema();
    let original = JsonValue::Obj(vec![
        ("city".to_string(), JsonValue::Str("Dresden".to_string())),
        ("population".to_string(), JsonValue::Int(563011)),
    ]);
    let tool = ToolSpec {
        name: "census".to_string(),
        input_schema: Schema::Text,
        output_schema: census_schema(),
    };
    let mut lp = DispatchLoop::new(vec![tool]);
    lp.on_event(DispatchEvent::ToolCall {
        call_id: 1,
        name: "census".to_string(),
        arguments: JsonValue::Str("Dresden".to_string()),
    });
    let action = lp.on_outcome(ToolOutcome::Success(original));
    let echoed = match action {
        DispatchAction::Reply { call_id, value } => {
            assert_eq!(call_id, 1);
            value
        }
        other => panic!("expected a reply, got {:?}", other),
    };
    // The agent echoes the reply payload back as the terminal result.
    lp.on_event(DispatchEvent::TerminalResult { payload: echoed });
    let raw = lp.finish().expect("interaction completed");
    let decoded = decode(&schema, raw).expect("echoed payload matches the shape");
    let again = JsonValue::Obj(vec![
        ("city".to_string(), JsonValue::Str("Dresden".to_string())),
        ("population".to_string(), JsonValue::Int(563011)),
    ]);
    assert_eq!(decoded, again);
}

#[test]
fn decode_mismatch_is_deserialization_error() {
    let r = decode(&Schema::Integer, JsonValue::Str("42".to_string()));
    assert_eq!(
        r,
        Err(Error::Deserialization(
            "terminal payload does not match the expected output shape".to_string()
        ))
    );
}

#[test]
fn duplicate_tool_registration_fails() {
    let b = ThinkBuilder::new().tool(lookup_tool()).expect("first registration succeeds");
    let r = b.tool(lookup_tool());
    assert_eq!(
        r,
        Err(Error::Tool(
            "a tool is already registered under the name: lookup".to_string()
        ))
    );
}

#[test]
fn registered_tools_keep_registration_order() {
    let other = ToolSpec {
        name: "weather".to_string(),
        input_schema: Schema::Text,
        output_schema: Schema::Text,
    };
    let b = ThinkBuilder::new()
        .tool(lookup_tool())
        .expect("fresh name")
        .tool(other)
        .expect("fresh name");
    let request = b.finalize();
    assert_eq!(request.tools[0].name, "lookup");
    assert_eq!(request.tools[1].name, "weather");
    assert_eq!(find_tool(&request.tools, &"weather".to_string()), Some(1));
    assert_eq!(find_tool(&request.tools, &"lookup".to_string()), Some(0));
    assert_eq!(find_tool(&request.tools, &"missing".to_string()), None);
}

#[test]
fn empty_builder_finalizes_to_empty_prompt() {
    let request = ThinkBuilder::new().finalize();
    assert_eq!(request.prompt, "");
    assert!(request.tools.is_empty());
}

#[test]
fn integer_schema_covers_extreme_values() {
    assert!(matches_value(&Schema::Integer, &JsonValue::Int(i64::MAX)));
    assert!(matches_value(&Schema::Integer, &JsonValue::Int(i64::MIN)));
    assert!(!matches_value(&Schema::Integer, &JsonValue::Null));
}

#[test]
fn segments_record_literal_and_rendered() {
    let b = ThinkBuilder::new()
        .text("a".to_string())
        .display("b".to_string());
    assert_eq!(b.segments[0], PromptSegment::Literal("a".to_string()));
    assert_eq!(b.segments[1], PromptSegment::Rendered("b".to_string()));
}

#[test]
fn schema_matching_covers_nesting() {
    let schema = Schema::Array(Box::new(Schema::Object(vec![(
        "tag".to_string(),
        Schema::Text,
    )])));
    let good = JsonValue::Arr(vec![
        JsonValue::Obj(vec![("tag".to_string(), JsonValue::Str("x".to_string()))]),
        JsonValue::Obj(vec![("tag".to_string(), JsonValue::Str("y".to_string()))]),
    ]);
    let wrong_field = JsonValue::Arr(vec![JsonValue::Obj(vec![(
        "tag".to_string(),
        JsonValue::Int(3),
    )])]);
    let wrong_name = JsonValue::Arr(vec![JsonValue::Obj(vec![(
        "label".to_string(),
        JsonValue::Str("x".to_string()),
    )])]);
    let wrong_len = JsonValue::Arr(vec![JsonValue::Obj(vec![])]);
    assert!(matches_value(&schema, &good));
    assert!(matches_value(&schema, &JsonValue::Arr(vec![])));
    assert!(!matches_value(&schema, &wrong_field));
    assert!(!matches_value(&schema, &wrong_name));
    assert!(!matches_value(&schema, &wrong_len));
    assert!(!matches_value(&schema, &JsonValue::Null));
    assert!(matches_value(&Schema::Null, &JsonValue::Null));
    assert!(matches_value(&Schema::Bool, &JsonValue::Bool(true)));
    assert!(!matches_value(&Schema::Bool, &JsonValue::Int(0)));
}

#[test]
fn invoking_state_records_call_and_tool() {
    let mut lp = DispatchLoop::new(vec![lookup_tool()]);
    lp.on_event(DispatchEvent::ToolCall {
        call_id: 9,
        name: "lookup".to_string(),
        arguments: JsonValue::Obj(vec![(
            "name".to_string(),
            JsonValue::Str("Ada".to_string()),
        )]),
    });
    assert_eq!(lp.state, DispatchState::Invoking { call_id: 9, tool: 0 });
}

#[test]
fn scripted_interaction_sends_replies_in_call_order() {
    let events = vec![
        DispatchEvent::ToolCall {
            call_id: 1,
            name: "nonesuch".to_string(),
            arguments: JsonValue::Null,
        },
        DispatchEvent::ToolCall {
            call_id: 2,
            name: "lookup".to_string(),
            arguments: JsonValue::Bool(true),
        },
        DispatchEvent::ToolCall {
            call_id: 3,
            name: "lookup".to_string(),
            arguments: JsonValue::Obj(vec![(
                "name".to_string(),
                JsonValue::Str("Alice".to_string()),
            )]),
        },
        DispatchEvent::TerminalResult { payload: JsonValue::Int(7) },
    ];
    let outcomes = vec![ToolOutcome::Success(JsonValue::Int(5))];
    let (res, replies) = run_script(vec![lookup_tool()], events, outcomes);
    assert_eq!(res, Some(Ok(JsonValue::Int(7))));
    assert_eq!(replies.len(), 3);
    assert!(matches!(&replies[0], DispatchAction::ErrorReply { call_id: 1, .. }));
    assert!(matches!(&replies[1], DispatchAction::ErrorReply { call_id: 2, .. }));
    assert_eq!(replies[2], DispatchAction::Reply { call_id: 3, value: JsonValue::Int(5) });
}

#[test]
fn script_exhausted_without_terminal_yields_no_outcome() {
    let events = vec![DispatchEvent::ToolCall {
        call_id: 4,
        name: "lookup".to_string(),
        arguments: JsonValue::Obj(vec![(
            "name".to_string(),
            JsonValue::Str("Bob".to_string()),
        )]),
    }];
    let outcomes = vec![ToolOutcome::Success(JsonValue::Int(9))];
    let (res, replies) = run_script(vec![lookup_tool()], events, outcomes);
    assert_eq!(res, None);
    assert_eq!(replies, vec![DispatchAction::Reply { call_id: 4, value: JsonValue::Int(9) }]);
}

#[test]
fn created_sessions_abort_their_worker_on_release() {
    assert_eq!(release_action(SessionOrigin::Created), ReleaseAction::AbortWorker);
}

#[test]
fn borrowed_sessions_leave_the_connection_alone() {
    assert_eq!(release_action(SessionOrigin::Borrowed), ReleaseAction::LeaveToOwner);
}
