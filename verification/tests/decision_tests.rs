use pristine::actions::Actions;
use pristine::decision::{
    llm_retry_step, next_phase, parse_decision, remove_pat_exec, sanitize_response, trim_exec,
    CyclePhase, RetryStep,
};

#[test]
fn marker_then_array_yields_exactly_those_actions() {
    let parsed = parse_decision("I will do X.\n===\n[\"ListAllFiles\"]\n===");
    assert_eq!(parsed.actions, vec![Actions::ListAllFiles]);
    assert!(parsed.error.is_none());
}

#[test]
fn missing_marker_yields_no_actions_and_an_error() {
    let parsed = parse_decision("I could not decide on any actions.");
    assert!(parsed.actions.is_empty());
    let err = parsed.error.expect("a missing marker must be reported");
    assert!(!err.is_empty());
}

#[test]
fn undecodable_payload_yields_no_actions_and_an_error() {
    let parsed = parse_decision("thinking...\n===\nthis is not a JSON array\n===");
    assert!(parsed.actions.is_empty());
    let err = parsed.error.expect("a bad payload must be reported");
    assert!(!err.is_empty());
}

#[test]
fn only_text_before_the_first_marker_is_discarded() {
    let parsed = parse_decision(
        "Plan: close issue 3.\n===\n[{\"GithubCloseIssue\":{\"issue_number\":3}},\"ListAllFiles\"]\n===\n",
    );
    assert_eq!(
        parsed.actions,
        vec![Actions::GithubCloseIssue { issue_number: 3 }, Actions::ListAllFiles]
    );
    assert!(parsed.error.is_none());
}

#[test]
fn retry_policy_makes_five_attempts_with_doubling_delays() {
    assert_eq!(llm_retry_step(1), RetryStep::Retry { delay_secs: 4 });
    assert_eq!(llm_retry_step(2), RetryStep::Retry { delay_secs: 8 });
    assert_eq!(llm_retry_step(3), RetryStep::Retry { delay_secs: 16 });
    assert_eq!(llm_retry_step(4), RetryStep::Retry { delay_secs: 32 });
    assert_eq!(llm_retry_step(5), RetryStep::GiveUp);
    assert_eq!(llm_retry_step(6), RetryStep::GiveUp);
}

#[test]
fn sanitize_strips_fences_and_whitespace() {
    assert_eq!(sanitize_response("  ```json\n[1]\n```  "), "\n[1]\n");
    assert_eq!(sanitize_response("plain text"), "plain text");
    assert_eq!(sanitize_response("``````"), "");
}

#[test]
fn text_helpers_have_exact_meanings() {
    assert_eq!(trim_exec("  \n\thello \r\n"), "hello");
    assert_eq!(trim_exec(""), "");
    assert_eq!(remove_pat_exec("a===b======c", "==="), "abc");
    assert_eq!(remove_pat_exec("=====", "==="), "==");
}

#[test]
fn the_cycle_loops_through_its_phases() {
    let mut p = CyclePhase::BuildingContext;
    let expected = [
        CyclePhase::AwaitingModelOutput,
        CyclePhase::ParsingActions,
        CyclePhase::Executing,
        CyclePhase::Sleeping,
        CyclePhase::BuildingContext,
    ];
    for phase in expected {
        p = next_phase(p);
        assert_eq!(p, phase);
    }
}
