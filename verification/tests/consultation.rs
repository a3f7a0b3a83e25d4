use search_gateway::backend::consult::{
    classification_request, consult, next_step, validate, verdict, Attempt, Choice, Completion,
    ConsultError, ConsultResponse, Rejection, Step, ToolCall,
};

fn call(ty: &str, name: &str, arguments: &str) -> ToolCall {
    ToolCall { ty: ty.to_string(), name: name.to_string(), arguments: arguments.to_string() }
}

fn answer(arguments: &str) -> Completion {
    Completion {
        choices: vec![Choice {
            finished_with_tool_calls: true,
            tool_calls: vec![call("function", "search_required", arguments)],
        }],
    }
}

fn value(text: &str) -> serde_json::Value {
    serde_json::from_str(text).unwrap()
}

#[test]
fn verdict_without_search_has_no_query() {
    let v = verdict(&value(r#"{"search_required": false, "query": "ignored"}"#)).unwrap();
    assert!(!v.decision);
    assert_eq!(v.query, None);
}

#[test]
fn verdict_with_search_carries_the_query() {
    let v = verdict(&value(r#"{"search_required": true, "query": "weather in Paris"}"#)).unwrap();
    assert!(v.decision);
    assert_eq!(v.query, Some("weather in Paris".to_string()));
}

#[test]
fn verdict_needs_a_boolean_decision() {
    assert_eq!(verdict(&value(r#"{"query": "x"}"#)).unwrap_err(), Rejection::DecisionNotBoolean);
    assert_eq!(
        verdict(&value(r#"{"search_required": "true", "query": "x"}"#)).unwrap_err(),
        Rejection::DecisionNotBoolean
    );
    assert_eq!(verdict(&value("[true]")).unwrap_err(), Rejection::DecisionNotBoolean);
    assert_eq!(verdict(&value("null")).unwrap_err(), Rejection::DecisionNotBoolean);
}

#[test]
fn verdict_with_search_needs_a_query() {
    assert_eq!(
        verdict(&value(r#"{"search_required": true}"#)).unwrap_err(),
        Rejection::QueryMissing
    );
    assert_eq!(
        verdict(&value(r#"{"search_required": true, "query": null}"#)).unwrap_err(),
        Rejection::QueryMissing
    );
    assert_eq!(
        verdict(&value(r#"{"search_required": true, "query": 7}"#)).unwrap_err(),
        Rejection::QueryNotText
    );
}

#[test]
fn no_accepted_verdict_asks_for_a_search_without_a_query() {
    let documents = [
        r#"{"search_required": true}"#,
        r#"{"search_required": true, "query": null}"#,
        r#"{"search_required": true, "query": ""}"#,
        r#"{"search_required": true, "query": "a"}"#,
        r#"{"search_required": false}"#,
        r#"{"search_required": false, "query": "a"}"#,
        r#"{"search_required": true, "query": ["a"]}"#,
    ];
    for d in documents {
        if let Ok(v) = validate(&answer(d)) {
            assert_eq!(v.decision, v.query.is_some());
        }
    }
}

#[test]
fn validate_reads_the_first_call_of_the_first_choice() {
    let v = validate(&answer(r#"{"search_required":true,"query":"latest news"}"#)).unwrap();
    assert!(v.decision);
    assert_eq!(v.query, Some("latest news".to_string()));
}

#[test]
fn validate_rejects_an_answer_without_choices() {
    assert_eq!(validate(&Completion { choices: vec![] }).unwrap_err(), Rejection::NoChoice);
}

#[test]
fn validate_rejects_free_text() {
    let c = Completion {
        choices: vec![Choice {
            finished_with_tool_calls: false,
            tool_calls: vec![call("function", "search_required", r#"{"search_required":false}"#)],
        }],
    };
    assert_eq!(validate(&c).unwrap_err(), Rejection::NotToolCall);
}

#[test]
fn validate_rejects_an_empty_list_of_calls() {
    let c = Completion {
        choices: vec![Choice { finished_with_tool_calls: true, tool_calls: vec![] }],
    };
    assert_eq!(validate(&c).unwrap_err(), Rejection::NoToolCall);
}

#[test]
fn validate_rejects_another_function() {
    let c = Completion {
        choices: vec![Choice {
            finished_with_tool_calls: true,
            tool_calls: vec![call("function", "search", r#"{"search_required":false}"#)],
        }],
    };
    assert_eq!(validate(&c).unwrap_err(), Rejection::WrongFunction);
    let c = Completion {
        choices: vec![Choice {
            finished_with_tool_calls: true,
            tool_calls: vec![call("tool", "search_required", r#"{"search_required":false}"#)],
        }],
    };
    assert_eq!(validate(&c).unwrap_err(), Rejection::WrongFunction);
}

#[test]
fn validate_rejects_arguments_that_are_no_json() {
    assert_eq!(
        validate(&answer("search_required: false")).unwrap_err(),
        Rejection::MalformedArguments
    );
    assert_eq!(validate(&answer("")).unwrap_err(), Rejection::MalformedArguments);
    assert_eq!(
        validate(&answer(r#"{"search_required": false"#)).unwrap_err(),
        Rejection::MalformedArguments
    );
}

#[test]
fn consult_turns_a_rejection_into_a_retry_signal() {
    let r = consult(&Attempt::Completed(Completion { choices: vec![] }));
    assert!(matches!(r, Err(ConsultError::RetrySignal(Rejection::NoChoice))));
}

#[test]
fn consult_passes_a_failure_of_the_service_on() {
    match consult(&Attempt::Failed("backend down".to_string())) {
        Err(ConsultError::Consultation(m)) => assert_eq!(m, "backend down"),
        other => panic!("unexpected: {:?}", other),
    }
    match consult(&Attempt::Streamed) {
        Err(ConsultError::Consultation(m)) => assert_eq!(m, "streaming mode is unsupported"),
        other => panic!("unexpected: {:?}", other),
    }
}

#[test]
fn consult_accepts_a_valid_answer() {
    let r = consult(&Attempt::Completed(answer(r#"{"search_required":false}"#))).unwrap();
    assert!(!r.decision);
    assert_eq!(r.query, None);
}

#[test]
fn next_step_accepts_a_verdict() {
    let v = ConsultResponse { decision: true, query: Some("q".to_string()) };
    match next_step(Ok(v), 1, 3) {
        Step::Accept(v) => {
            assert!(v.decision);
            assert_eq!(v.query, Some("q".to_string()));
        }
        other => panic!("unexpected: {:?}", other),
    }
}

#[test]
fn next_step_retries_while_attempts_are_left() {
    assert!(matches!(
        next_step(Err(ConsultError::RetrySignal(Rejection::NotToolCall)), 1, 3),
        Step::Retry(Rejection::NotToolCall)
    ));
    assert!(matches!(
        next_step(Err(ConsultError::RetrySignal(Rejection::QueryMissing)), 2, 3),
        Step::Retry(Rejection::QueryMissing)
    ));
}

#[test]
fn next_step_gives_up_when_attempts_are_used_up() {
    assert!(matches!(
        next_step(Err(ConsultError::RetrySignal(Rejection::NotToolCall)), 3, 3),
        Step::GiveUp(ConsultError::Exhausted)
    ));
    assert!(matches!(
        next_step(Err(ConsultError::RetrySignal(Rejection::NoChoice)), 1, 0),
        Step::GiveUp(ConsultError::Exhausted)
    ));
}

#[test]
fn next_step_never_retries_a_failure_of_the_service() {
    match next_step(Err(ConsultError::Consultation("down".to_string())), 1, 3) {
        Step::GiveUp(ConsultError::Consultation(m)) => assert_eq!(m, "down"),
        other => panic!("unexpected: {:?}", other),
    }
}

#[test]
fn classification_request_forces_the_one_function() {
    let r = classification_request("What is 2+2?", "default");
    assert_eq!(r.model, "default");
    assert_eq!(r.user_message, "What is 2+2?");
    assert_eq!(r.tool_type, "function");
    assert_eq!(r.tool_name, "search_required");
    assert_eq!(r.decision_parameter, "search_required");
    assert_eq!(r.query_parameter, "query");
    assert_eq!(r.max_tokens, 500);
    assert_eq!(r.n_choices, 1);
    assert!(!r.stream);
    assert!(r.system_prompt.starts_with("You are an intent classification model."));
}
