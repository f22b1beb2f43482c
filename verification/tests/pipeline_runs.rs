use app_core::context::{KnowledgeHit, SolutionHit};
use app_core::llm::{Dependency, LlmCodeResponse, LlmProtocolError, ProtocolFault, SYNTHESIS_PREAMBLE, SYNTHESIS_RULES};
use app_core::pipeline::{
    format_response, Action, Event, Pipeline, PipelineError, Stage, NO_CODE_MESSAGE,
};
use app_core::process_query;
use app_core::research::DependencyPlan;
use app_core::sandbox::{SandboxFault, SandboxResult};

const EMPTY_CONTEXT: &str = "Live Web Context:\n\n\nInternal Knowledge:\n";

fn retrieved_nothing() -> Event {
    Event::Retrieved { web: None, knowledge: None, approved: None }
}

fn replied(text: &str) -> Event {
    Event::ModelReplied { text: Some(text.to_string()) }
}

fn run_to_planning(query: &str) -> Pipeline {
    let (run, action) = process_query(query);
    assert!(matches!(action, Action::Retrieve { .. }));
    let (run, _) = run.step(retrieved_nothing());
    assert_eq!(run.stage, Stage::Planning);
    run
}

fn run_to_synthesis(query: &str) -> Pipeline {
    let (run, _) = run_to_planning(query).step(replied("{\"crates\": []}"));
    assert_eq!(run.stage, Stage::Synthesizing);
    run
}

#[test]
fn a_run_begins_with_retrieval() {
    let (run, action) = process_query("sort a list of integers");
    assert_eq!(run.stage, Stage::Retrieving);
    assert_eq!(run.query, "sort a list of integers");
    assert!(!run.is_finished());
    match action {
        Action::Retrieve { query } => assert_eq!(query, "sort a list of integers"),
        other => panic!("unexpected action {:?}", other),
    }
}

#[test]
fn retrieval_that_brought_nothing_still_goes_on_to_planning() {
    let (run, _) = process_query("q");
    let (run, action) = run.step(retrieved_nothing());
    assert_eq!(run.stage, Stage::Planning);
    assert_eq!(run.context, EMPTY_CONTEXT);
    match action {
        Action::AskModel { system, user } => {
            assert!(system.starts_with("You are a Rust project planning expert."));
            assert_eq!(
                user,
                format!("CONTEXT:\n{}\n\n---\n\nTASK: Based on the context, identify the crates needed to answer this query:\nq", EMPTY_CONTEXT)
            );
        },
        other => panic!("unexpected action {:?}", other),
    }
}

#[test]
fn retrieval_writes_what_the_lookups_brought_into_the_context() {
    let (run, _) = process_query("q");
    let (run, _) = run.step(Event::Retrieved {
        web: Some("W".to_string()),
        knowledge: Some(vec![KnowledgeHit { chunk: Some("K".to_string()) }]),
        approved: Some(vec![SolutionHit { query: Some("o".to_string()), code: Some("C".to_string()) }]),
    });
    assert_eq!(
        run.context,
        "Live Web Context:\nW\n\nInternal Knowledge:\nRelevant Documentation:\nK\n\nGolden Example:\nPreviously approved solution for a similar query ('o'):\n```rust\nC\n```"
    );
}

#[test]
fn empty_plan_goes_straight_to_synthesis_with_empty_dossier() {
    let run = run_to_planning("sort a list of integers");
    let (run, action) = run.step(replied("{\"crates\": []}"));
    assert_eq!(run.stage, Stage::Synthesizing);
    assert!(run.dossier.entries.is_empty());
    match action {
        Action::AskModel { system, user } => {
            assert_eq!(system, format!("{}{}", SYNTHESIS_PREAMBLE, SYNTHESIS_RULES));
            assert_eq!(
                user,
                format!("CONTEXT:\n---\n{}\n---\n\nTASK: Based on all provided context and research, generate a JSON response that answers the following query.\n\nQUERY: sort a list of integers", EMPTY_CONTEXT)
            );
        },
        other => panic!("unexpected action {:?}", other),
    }
}

#[test]
fn left_pad_is_built_and_answered() {
    let run = run_to_synthesis("pad a string");
    let (run, action) = run.step(replied(
        "{\"dependencies\":[{\"name\":\"left-pad\",\"features\":[]}],\"code\":\"fn main(){}\"}",
    ));
    assert_eq!(run.stage, Stage::Validating);
    match action {
        Action::Build { manifest, source } => {
            assert_eq!(source, "fn main(){}");
            assert_eq!(
                manifest,
                "[package]\nname = \"sandbox\"\nversion = \"0.1.0\"\nedition = \"2024\"\n\n[dependencies]\nleft-pad = { version = \"*\", features = [] }\n"
            );
            assert_eq!(manifest.matches("left-pad").count(), 1);
        },
        other => panic!("unexpected action {:?}", other),
    }
    let (run, action) = run.step(Event::Built { exit_success: true, stderr: Vec::new() });
    assert!(run.is_finished());
    match action {
        Action::Respond { response } => {
            assert_eq!(response, "OK. AI-generated code compiled successfully.\n---\nfn main(){}")
        },
        other => panic!("unexpected action {:?}", other),
    }
}

#[test]
fn malformed_synthesis_reply_fails_before_any_build() {
    let run = run_to_synthesis("q");
    let (run, action) = run.step(replied("Sorry, I can not do that."));
    assert!(run.is_finished());
    match action {
        Action::Fail { error: PipelineError::Synthesis { error } } => {
            assert_eq!(error.fault, ProtocolFault::NoJsonObject);
            assert_eq!(error.raw, "Sorry, I can not do that.");
        },
        other => panic!("unexpected action {:?}", other),
    }
    let (run, action) = run.step(Event::Built { exit_success: true, stderr: Vec::new() });
    assert!(run.is_finished());
    assert!(matches!(action, Action::Fail { error: PipelineError::UnexpectedEvent }));
}

#[test]
fn empty_code_is_answered_with_the_fixed_message_and_never_built() {
    let run = run_to_synthesis("q");
    let (run, action) = run.step(replied("{\"dependencies\":[{\"name\":\"a\",\"features\":[]}],\"code\":\"\"}"));
    assert!(run.is_finished());
    assert!(run.artifact.is_none());
    match action {
        Action::Respond { response } => {
            assert_eq!(response, "LLM failed to return a valid code block.");
            assert_eq!(response, NO_CODE_MESSAGE);
        },
        other => panic!("unexpected action {:?}", other),
    }
}

#[test]
fn malformed_planning_reply_fails_the_run() {
    let run = run_to_planning("q");
    let (run, action) = run.step(replied("{\"crates\": 3}"));
    assert!(run.is_finished());
    match action {
        Action::Fail { error: PipelineError::Planning { error } } => {
            assert_eq!(error.fault, ProtocolFault::WrongShape);
            assert_eq!(error.raw, "{\"crates\": 3}");
        },
        other => panic!("unexpected action {:?}", other),
    }
}

#[test]
fn reply_without_text_fails_the_run() {
    let run = run_to_planning("q");
    let (_, action) = run.step(Event::ModelReplied { text: None });
    match action {
        Action::Fail { error: PipelineError::Planning { error } } => {
            assert_eq!(error.fault, ProtocolFault::NoText)
        },
        other => panic!("unexpected action {:?}", other),
    }
}

#[test]
fn unreachable_model_fails_the_run() {
    let run = run_to_planning("q");
    let (run, action) = run.step(Event::ModelFailed { message: "timeout".to_string() });
    assert!(run.is_finished());
    match action {
        Action::Fail { error: PipelineError::Model { message } } => assert_eq!(message, "timeout"),
        other => panic!("unexpected action {:?}", other),
    }
    let run = run_to_synthesis("q");
    let (_, action) = run.step(Event::ModelFailed { message: "quota".to_string() });
    assert!(matches!(action, Action::Fail { error: PipelineError::Model { .. } }));
}

#[test]
fn research_visits_each_dependency_once_in_plan_order() {
    let run = run_to_planning("q");
    let (run, action) = run.step(replied("{\"crates\": [\"foo\", \"bar\", \"foo\"]}"));
    assert_eq!(run.stage, Stage::Researching);
    assert_eq!(run.plan.names, vec!["foo".to_string(), "bar".to_string()]);
    assert_eq!(run.next, 0);
    match action {
        Action::Search { query } => assert_eq!(query, "crates.io rust crate foo latest API examples"),
        other => panic!("unexpected action {:?}", other),
    }
    let (run, action) = run.step(Event::Researched { findings: "FOO DOCS".to_string() });
    assert_eq!(run.stage, Stage::Researching);
    assert_eq!(run.next, 1);
    match action {
        Action::Search { query } => assert_eq!(query, "crates.io rust crate bar latest API examples"),
        other => panic!("unexpected action {:?}", other),
    }
    let (run, action) = run.step(Event::Researched { findings: "BAR DOCS".to_string() });
    assert_eq!(run.stage, Stage::Synthesizing);
    assert_eq!(
        run.dossier.entries,
        vec![
            ("foo".to_string(), "FOO DOCS".to_string()),
            ("bar".to_string(), "BAR DOCS".to_string())
        ]
    );
    match action {
        Action::AskModel { system, .. } => {
            assert_eq!(
                system,
                format!(
                    "{}\n--- Research for crate 'foo': ---\nFOO DOCS\n\n--- Research for crate 'bar': ---\nBAR DOCS\n{}",
                    SYNTHESIS_PREAMBLE, SYNTHESIS_RULES
                )
            );
        },
        other => panic!("unexpected action {:?}", other),
    }
}

#[test]
fn failed_research_aborts_and_drops_the_dossier() {
    let run = run_to_planning("q");
    let (run, _) = run.step(replied("{\"crates\": [\"foo\", \"bar\"]}"));
    let (run, _) = run.step(Event::Researched { findings: "FOO".to_string() });
    let (run, action) = run.step(Event::ResearchFailed { message: "search down".to_string() });
    assert!(run.is_finished());
    assert!(run.dossier.entries.is_empty());
    match action {
        Action::Fail { error: PipelineError::Research { dependency, message } } => {
            assert_eq!(dependency, "bar");
            assert_eq!(message, "search down");
        },
        other => panic!("unexpected action {:?}", other),
    }
}

#[test]
fn failed_build_is_a_response_not_an_error() {
    let run = run_to_synthesis("q");
    let (run, _) = run.step(replied("{\"dependencies\":[],\"code\":\"fn main() { x }\"}"));
    let (run, action) = run.step(Event::Built {
        exit_success: false,
        stderr: b"error[E0425]: cannot find value `x`".to_vec(),
    });
    assert!(run.is_finished());
    match action {
        Action::Respond { response } => assert_eq!(
            response,
            "FAIL. AI-generated code failed to compile.\n---\nErrors:\nerror[E0425]: cannot find value `x`"
        ),
        other => panic!("unexpected action {:?}", other),
    }
}

#[test]
fn sandbox_faults_fail_the_run() {
    let run = run_to_synthesis("q");
    let (run, _) = run.step(replied("{\"dependencies\":[],\"code\":\"fn main() {}\"}"));
    let (run, action) = run.step(Event::BuildUnavailable {
        fault: SandboxFault::LaunchBuild,
        message: "cargo: not found".to_string(),
    });
    assert!(run.is_finished());
    match action {
        Action::Fail { error: PipelineError::Sandbox { fault, message } } => {
            assert_eq!(fault, SandboxFault::LaunchBuild);
            assert_eq!(message, "cargo: not found");
        },
        other => panic!("unexpected action {:?}", other),
    }

    let run = run_to_synthesis("q");
    let (run, _) = run.step(replied("{\"dependencies\":[],\"code\":\"fn main() {}\"}"));
    let (_, action) = run.step(Event::Built { exit_success: false, stderr: vec![0xff] });
    match action {
        Action::Fail { error: PipelineError::Sandbox { fault, message } } => {
            assert_eq!(fault, SandboxFault::ReadDiagnostics);
            assert_eq!(message, "Failed to read stderr from cargo build");
        },
        other => panic!("unexpected action {:?}", other),
    }
}

#[test]
fn events_that_a_stage_does_not_wait_for_end_the_run() {
    let (run, _) = process_query("q");
    let (run, action) = run.step(replied("{\"crates\": []}"));
    assert!(run.is_finished());
    assert!(matches!(action, Action::Fail { error: PipelineError::UnexpectedEvent }));

    let run = run_to_planning("q");
    let (run, action) = run.step(Event::Researched { findings: "x".to_string() });
    assert!(run.is_finished());
    assert!(matches!(action, Action::Fail { error: PipelineError::UnexpectedEvent }));

    let run = run_to_synthesis("q");
    let (_, action) = run.step(retrieved_nothing());
    assert!(matches!(action, Action::Fail { error: PipelineError::UnexpectedEvent }));
}

#[test]
fn a_finished_run_stays_finished() {
    let run = run_to_synthesis("q");
    let (run, _) = run.step(replied("{\"dependencies\":[],\"code\":\"\"}"));
    assert!(run.is_finished());
    let (run, action) = run.step(replied("{\"dependencies\":[],\"code\":\"fn main(){}\"}"));
    assert!(run.is_finished());
    assert!(matches!(action, Action::Fail { error: PipelineError::UnexpectedEvent }));
    let (run, action) = run.step(retrieved_nothing());
    assert!(run.is_finished());
    assert!(matches!(action, Action::Fail { error: PipelineError::UnexpectedEvent }));
}

#[test]
fn stage_transitions_can_be_driven_with_given_outcomes() {
    let run = run_to_planning("q");
    let (run, action) = run.planned(Ok(DependencyPlan::from_names(vec!["x".to_string()])));
    assert_eq!(run.stage, Stage::Researching);
    assert!(matches!(action, Action::Search { .. }));
    let (run, _) = run.researched("found".to_string());
    assert_eq!(run.stage, Stage::Synthesizing);
    let (run, action) = run.synthesized(Ok(LlmCodeResponse {
        dependencies: vec![Dependency { name: "x".to_string(), features: vec!["f".to_string()] }],
        code: "fn main() {}".to_string(),
    }));
    assert_eq!(run.stage, Stage::Validating);
    match action {
        Action::Build { manifest, .. } => {
            assert!(manifest.ends_with("[dependencies]\nx = { version = \"*\", features = [\"f\"] }\n"))
        },
        other => panic!("unexpected action {:?}", other),
    }
    let (run, action) = run.validated(Ok(SandboxResult { success: false, output: "E".to_string() }));
    assert!(run.is_finished());
    match action {
        Action::Respond { response } => {
            assert_eq!(response, "FAIL. AI-generated code failed to compile.\n---\nErrors:\nE")
        },
        other => panic!("unexpected action {:?}", other),
    }

    let run = run_to_planning("q");
    let (_, action) = run.planned(Err(LlmProtocolError {
        fault: ProtocolFault::InvalidJson,
        raw: "{".to_string(),
    }));
    assert!(matches!(action, Action::Fail { error: PipelineError::Planning { .. } }));
}

#[test]
fn responses_are_worded_exactly() {
    let artifact = LlmCodeResponse { dependencies: Vec::new(), code: "fn main() {}".to_string() };
    let passed = SandboxResult { success: true, output: String::new() };
    let failed = SandboxResult { success: false, output: "boom".to_string() };
    assert_eq!(
        format_response(&artifact, &passed),
        "OK. AI-generated code compiled successfully.\n---\nfn main() {}"
    );
    assert_eq!(
        format_response(&artifact, &failed),
        "FAIL. AI-generated code failed to compile.\n---\nErrors:\nboom"
    );
}

#[test]
fn errors_are_worded() {
    let protocol = |fault: ProtocolFault| LlmProtocolError { fault, raw: "RAW".to_string() };
    assert_eq!(PipelineError::Model { message: "down".to_string() }.message(), "down");
    assert_eq!(
        PipelineError::Planning { error: protocol(ProtocolFault::InvalidJson) }.message(),
        "Failed to parse crate plan from LLM: RAW"
    );
    assert_eq!(
        PipelineError::Planning { error: protocol(ProtocolFault::NoText) }.message(),
        "No text content found in LLM planning response"
    );
    assert_eq!(
        PipelineError::Synthesis { error: protocol(ProtocolFault::WrongShape) }.message(),
        "LLM failed to generate code in the second pass: Failed to parse JSON from LLM response: RAW"
    );
    assert_eq!(
        PipelineError::Synthesis { error: protocol(ProtocolFault::NoText) }.message(),
        "LLM failed to generate code in the second pass: No text content found in LLM generation response"
    );
    assert_eq!(
        PipelineError::Research { dependency: "foo".to_string(), message: "timeout".to_string() }
            .message(),
        "Research for crate 'foo' failed: timeout"
    );
    assert_eq!(
        PipelineError::Sandbox { fault: SandboxFault::WriteSource, message: "disk full".to_string() }
            .message(),
        "disk full"
    );
    assert_eq!(
        PipelineError::UnexpectedEvent.message(),
        "The pipeline was handed an event it was not waiting for"
    );
}
