use korah::config::Config;
use korah::llm::{LlmApi, LlmConfig, LlmError, ToolCall};
use korah::orchestrator::{Action, Event, Outcome, QueryError, Session, Stage};
use korah::tool::schema::{InstanceType, ObjectSchema, Property, SingleOrVec};
use korah::tool::{ToolError, ToolMeta};

fn config(tries: u32, double_pass: bool) -> Config {
    Config {
        double_pass_derive: double_pass,
        llm: LlmConfig {
            api: LlmApi::Ollama,
            ollama: None,
            open_ai: None,
            query_fmt: "{query}".to_owned(),
        },
        num_derive_tries: tries,
    }
}

fn meta(name: &str) -> ToolMeta {
    ToolMeta {
        name: name.to_owned(),
        description: None,
        params_schema: ObjectSchema {
            properties: vec![Property {
                name: "p".to_owned(),
                instance_type: Some(SingleOrVec::Single(InstanceType::Text)),
                annotations: "{}".to_owned(),
            }],
            required: Vec::new(),
        },
        output_schema: ObjectSchema::empty(),
    }
}

fn tools() -> Vec<ToolMeta> {
    vec![meta("find_files"), meta("find_processes"), meta("find_sockets")]
}

fn call(tool: &str) -> ToolCall {
    ToolCall { tool: tool.to_owned(), params: "{\"min_cpu_usage\":50.0}".to_owned() }
}

fn session(tries: u32, double_pass: bool, derive_only: bool) -> Session {
    Session::new(&config(tries, double_pass), derive_only, tools(), "raw query".to_owned())
}

fn begin(session: &mut Session) -> Action {
    session.step(
        Event::Begin { literal: None, contextualized: Ok("query in context".to_owned()) },
        false,
    )
}

fn none() -> Event {
    Event::Derived(Ok(None))
}

fn some(tool: &str) -> Event {
    Event::Derived(Ok(Some(call(tool))))
}

/// Counts the requests that a session makes when every request is answered
/// by `reply`, and says how it ended.
fn run_with(mut session: Session, reply: fn() -> Event) -> (usize, Result<Outcome, QueryError>) {
    let mut asked = 0;
    let mut action = begin(&mut session);
    loop {
        match action {
            Action::Ask { .. } => {
                asked += 1;
                action = session.step(reply(), false);
            }
            Action::Finish(end) => return (asked, end),
            _ => panic!("nothing is to be invoked"),
        }
    }
}

#[test]
fn tries_are_exhausted_after_as_many_requests() {
    for double_pass in [false, true] {
        for k in [1u32, 2, 3, 7] {
            let (asked, end) = run_with(session(k, double_pass, false), none);
            assert_eq!(asked, k as usize);
            assert!(matches!(end, Err(QueryError::DeriveToolCall)));
        }
    }
}

#[test]
fn no_tries_means_no_request() {
    let (asked, end) = run_with(session(0, false, false), none);
    assert_eq!(asked, 0);
    assert!(matches!(end, Err(QueryError::DeriveToolCall)));
}

#[test]
fn unknown_tool_is_retried_until_the_tries_are_spent() {
    for double_pass in [false, true] {
        let (asked, end) = run_with(session(4, double_pass, false), || some("find_unicorns"));
        assert_eq!(asked, 4);
        assert!(matches!(end, Err(QueryError::DeriveToolCall)));
    }
}

#[test]
fn single_pass_asks_with_all_tools_and_the_query_in_context() {
    let mut s = session(2, false, false);
    assert_eq!(s.stage(), Stage::Start);
    match begin(&mut s) {
        Action::Ask { tools, query } => {
            assert_eq!(tools.len(), 3);
            assert_eq!(tools[1].name, "find_processes");
            assert_eq!(tools[1].params_schema.properties.len(), 1);
            assert_eq!(query, "query in context");
        }
        _ => panic!("a request is expected"),
    }
    assert_eq!(s.stage(), Stage::ParamDerive);
    match s.step(some("find_processes"), false) {
        Action::Invoke(c) => {
            assert_eq!(c.tool, "find_processes");
            assert_eq!(c.params, "{\"min_cpu_usage\":50.0}");
        }
        _ => panic!("the tool is to be invoked"),
    }
    assert_eq!(s.stage(), Stage::Execute);
    assert!(matches!(s.step(Event::Invoked(Ok(())), false), Action::Stream));
    assert_eq!(s.stage(), Stage::Streaming);
    assert!(matches!(s.step(Event::Consumed, false), Action::Finish(Ok(Outcome::Completed))));
    assert_eq!(s.stage(), Stage::Done);
}

#[test]
fn double_pass_narrows_to_the_tool_named() {
    let mut s = session(2, true, false);
    match begin(&mut s) {
        Action::Ask { tools, query } => {
            assert_eq!(tools.len(), 3);
            assert!(tools.iter().all(|t| t.params_schema.properties.is_empty()));
            assert_eq!(tools[2].name, "find_sockets");
            // The first round is asked with the query as it came.
            assert_eq!(query, "raw query");
        }
        _ => panic!("a request is expected"),
    }
    assert_eq!(s.stage(), Stage::NameOnly);
    match s.step(some("find_processes"), false) {
        Action::Ask { tools, query } => {
            assert_eq!(tools.len(), 1);
            assert_eq!(tools[0].name, "find_processes");
            assert_eq!(tools[0].params_schema.properties.len(), 1);
            assert_eq!(query, "query in context");
        }
        _ => panic!("the second request is expected"),
    }
    assert_eq!(s.stage(), Stage::ParamDerive);
    assert!(matches!(s.step(some("find_processes"), false), Action::Invoke(_)));
}

#[test]
fn double_pass_without_parameters_costs_the_try() {
    let mut s = session(2, true, false);
    assert!(matches!(begin(&mut s), Action::Ask { .. }));
    assert!(matches!(s.step(some("find_files"), false), Action::Ask { .. }));
    // No parameters derived: the next try begins with the first round.
    match s.step(none(), false) {
        Action::Ask { tools, query } => {
            assert_eq!(tools.len(), 3);
            assert_eq!(query, "raw query");
        }
        _ => panic!("the next try is expected"),
    }
    assert!(matches!(s.step(none(), false), Action::Finish(Err(QueryError::DeriveToolCall))));
}

#[test]
fn literal_call_goes_past_the_model() {
    let mut s = session(3, true, false);
    let action = s.step(
        Event::Begin {
            literal: Some(call("find_processes")),
            contextualized: Err(LlmError::MalformedConfig("missing ollama config")),
        },
        false,
    );
    match action {
        Action::Invoke(c) => {
            assert_eq!(c.tool, "find_processes");
            assert_eq!(c.params, "{\"min_cpu_usage\":50.0}");
        }
        _ => panic!("the call is to be invoked at once"),
    }
    assert_eq!(s.stage(), Stage::ExecuteLiteral);
    assert!(matches!(s.step(Event::Invoked(Ok(())), false), Action::Stream));
    assert!(matches!(s.step(Event::Consumed, false), Action::Finish(Ok(Outcome::Completed))));
}

#[test]
fn literal_call_of_an_unknown_tool_fails_at_once() {
    let mut s = session(3, false, false);
    let action = s.step(
        Event::Begin { literal: Some(call("find_unicorns")), contextualized: Ok(String::new()) },
        false,
    );
    match action {
        Action::Finish(Err(QueryError::UnknownTool(name))) => assert_eq!(name, "find_unicorns"),
        _ => panic!("the unknown tool is to be reported"),
    }
    assert_eq!(s.stage(), Stage::Done);
}

#[test]
fn literal_call_that_the_tool_refuses_is_fatal() {
    let mut s = session(3, false, false);
    let begun = s.step(
        Event::Begin { literal: Some(call("find_files")), contextualized: Ok(String::new()) },
        false,
    );
    assert!(matches!(begun, Action::Invoke(_)));
    let action = s.step(Event::Invoked(Err(ToolError::Io("no such directory".to_owned()))), false);
    match action {
        Action::Finish(Err(QueryError::Tool(ToolError::Io(msg)))) => {
            assert_eq!(msg, "no such directory")
        }
        _ => panic!("the tool error is to be reported"),
    }
}

#[test]
fn derived_call_that_the_tool_refuses_costs_the_try() {
    let mut s = session(2, false, false);
    assert!(matches!(begin(&mut s), Action::Ask { .. }));
    assert!(matches!(s.step(some("find_files"), false), Action::Invoke(_)));
    let action = s.step(Event::Invoked(Err(ToolError::InconsistentParams)), false);
    assert!(matches!(action, Action::Ask { .. }));
    assert!(matches!(s.step(some("find_files"), false), Action::Invoke(_)));
    let action = s.step(Event::Invoked(Err(ToolError::InconsistentParams)), false);
    assert!(matches!(action, Action::Finish(Err(QueryError::DeriveToolCall))));
}

#[test]
fn failed_request_ends_the_query() {
    for double_pass in [false, true] {
        let mut s = session(5, double_pass, false);
        assert!(matches!(begin(&mut s), Action::Ask { .. }));
        let action = s.step(Event::Derived(Err(LlmError::Ureq("refused".to_owned()))), false);
        match action {
            Action::Finish(Err(QueryError::Llm(LlmError::Ureq(msg)))) => assert_eq!(msg, "refused"),
            _ => panic!("the failure is to be reported"),
        }
        assert_eq!(s.stage(), Stage::Done);
    }
}

#[test]
fn query_that_cannot_be_put_into_context_ends_the_query() {
    let mut s = session(5, false, false);
    let action = s.step(
        Event::Begin {
            literal: None,
            contextualized: Err(LlmError::MalformedConfig("missing open ai config")),
        },
        false,
    );
    match action {
        Action::Finish(Err(QueryError::Llm(LlmError::MalformedConfig(what)))) => {
            assert_eq!(what, "missing open ai config")
        }
        _ => panic!("the config error is to be reported"),
    }
}

#[test]
fn derive_only_ends_with_the_call() {
    let mut s = session(2, false, true);
    assert!(matches!(begin(&mut s), Action::Ask { .. }));
    // The call is handed out as derived, whether its tool exists or not.
    match s.step(some("find_unicorns"), false) {
        Action::Finish(Ok(Outcome::Derived(c))) => assert_eq!(c.tool, "find_unicorns"),
        _ => panic!("the call is the outcome"),
    }
}

#[test]
fn cancellation_before_a_try_ends_the_query() {
    let mut s = session(3, false, false);
    let action =
        s.step(Event::Begin { literal: None, contextualized: Ok("q".to_owned()) }, true);
    assert!(matches!(action, Action::Finish(Err(QueryError::Cancelled))));
    let mut s = session(3, false, false);
    assert!(matches!(begin(&mut s), Action::Ask { .. }));
    assert!(matches!(s.step(none(), true), Action::Finish(Err(QueryError::Cancelled))));
}

#[test]
fn cancellation_between_the_passes_ends_the_query() {
    let mut s = session(3, true, false);
    assert!(matches!(begin(&mut s), Action::Ask { .. }));
    let action = s.step(some("find_files"), true);
    assert!(matches!(action, Action::Finish(Err(QueryError::Cancelled))));
}

#[test]
fn exhaustion_comes_before_cancellation() {
    let mut s = session(1, false, false);
    assert!(matches!(begin(&mut s), Action::Ask { .. }));
    assert!(matches!(s.step(none(), true), Action::Finish(Err(QueryError::DeriveToolCall))));
}

#[test]
fn derived_call_is_invoked_even_if_cancellation_was_requested() {
    let mut s = session(3, false, false);
    assert!(matches!(begin(&mut s), Action::Ask { .. }));
    assert!(matches!(s.step(some("find_files"), true), Action::Invoke(_)));
    assert!(matches!(s.step(Event::Invoked(Ok(())), true), Action::Stream));
    // Output may have been streamed, the outcome is a cancellation all the same.
    assert!(matches!(s.step(Event::Consumed, true), Action::Finish(Err(QueryError::Cancelled))));
}

#[test]
fn event_out_of_turn_ends_the_session() {
    let mut s = session(3, false, false);
    assert!(matches!(s.step(Event::Consumed, false), Action::Finish(Err(QueryError::OutOfTurn))));
    assert_eq!(s.stage(), Stage::Done);
    assert!(matches!(begin(&mut s), Action::Finish(Err(QueryError::OutOfTurn))));
    let mut s = session(3, false, false);
    assert!(matches!(begin(&mut s), Action::Ask { .. }));
    let action = s.step(Event::Invoked(Ok(())), false);
    assert!(matches!(action, Action::Finish(Err(QueryError::OutOfTurn))));
}

#[test]
fn query_errors_describe_themselves() {
    let cases: Vec<(QueryError, &str, &str, usize)> = vec![
        (QueryError::Cancelled, "processing cancelled", "cancelled", 1),
        (QueryError::DeriveToolCall, "failed to derive tool call", "derive_tool_call", 1),
        (QueryError::Llm(LlmError::Ureq("refused".to_owned())), "llm error", "llm_ureq", 3),
        (QueryError::Llm(LlmError::MalformedConfig("x")), "llm error", "llm_malformed_config", 2),
        (QueryError::Tool(ToolError::Io("gone".to_owned())), "tool error", "tool_io", 3),
        (
            QueryError::Tool(ToolError::InconsistentParams),
            "tool error",
            "tool_inconsistent_params",
            2,
        ),
        (
            QueryError::UnknownTool("find_unicorns".to_owned()),
            "unknown tool 'find_unicorns'",
            "unknown_tool",
            1,
        ),
        (QueryError::OutOfTurn, "event out of turn", "out_of_turn", 1),
    ];
    for (error, message, code, depth) in cases {
        assert_eq!(error.message(), message);
        assert_eq!(error.code(), code);
        let chain = error.chain();
        assert_eq!(chain.len(), depth);
        assert_eq!(chain[0], message);
    }
    let chain = QueryError::Tool(ToolError::Io("gone".to_owned())).chain();
    assert_eq!(chain, vec!["tool error", "io error", "gone"]);
    let chain = QueryError::Llm(LlmError::MalformedConfig("missing ollama config")).chain();
    assert_eq!(chain, vec!["llm error", "malformed config: missing ollama config"]);
}
