use pristine::actions::Actions;
use pristine::clock::format_rfc3339_utc;
use pristine::config::{config_from_values, ConfigError};
use pristine::context::AgentContext;
use pristine::dispatch::{
    action_entry_text, added_label_text, apply_memory_action, clip_text, closed_issue_text,
    commented_text, created_issue_text, slept_text, stored_memory_text, MAX_FILE_CHARS,
};
use pristine::gitsync::{merge_message, plan_merge_commit, plan_pull, HeadCache, PullPlan};
use pristine::monitor::{Monitor, LOG_CAPACITY};

#[test]
fn merge_analysis_maps_to_the_right_plan() {
    // no remote change: nothing to do
    assert_eq!(plan_pull(true, false, false), PullPlan::UpToDate);
    // remote strictly ahead, no local divergence: fast-forward
    assert_eq!(plan_pull(false, true, false), PullPlan::FastForward);
    // both sides advanced: a three-way merge commit
    assert_eq!(plan_pull(false, false, true), PullPlan::Merge);
    assert_eq!(plan_pull(false, false, false), PullPlan::Unknown);
}

#[test]
fn conflicts_fail_the_merge_instead_of_committing() {
    let failed = plan_merge_commit(true, "aaa".to_string(), "bbb".to_string());
    assert!(failed.is_err());

    let planned = plan_merge_commit(false, "aaa".to_string(), "bbb".to_string())
        .expect("a clean index merges");
    assert_eq!(planned.parent_local, "aaa");
    assert_eq!(planned.parent_fetched, "bbb");
    assert_eq!(
        merge_message("main"),
        "Merge remote-tracking branch 'origin/main' into main"
    );
}

#[test]
fn head_cache_updates_once_per_observed_change() {
    let mut cache = HeadCache::new("aaa".to_string());
    assert!(!cache.observe_head("aaa".to_string()));
    assert!(cache.observe_head("bbb".to_string()));
    assert_eq!(cache.last_commit_hash, "bbb");
    assert!(!cache.observe_head("bbb".to_string()));
}

#[test]
fn missing_required_configuration_stops_the_start() {
    let err = config_from_values(None, None, None, None, None, None, None);
    assert!(matches!(err, Err(ConfigError::MissingGithubToken)));

    let err = config_from_values(Some("t".to_string()), None, None, None, None, None, None);
    assert!(matches!(err, Err(ConfigError::MissingOpenaiKey)));
    assert_eq!(ConfigError::MissingOpenaiKey.variable_name(), "OPENAI_API_KEY");

    let err = config_from_values(
        Some("t".to_string()),
        Some("k".to_string()),
        None,
        None,
        None,
        None,
        None,
    );
    assert!(matches!(err, Err(ConfigError::MissingRepositoryOwner)));

    let err = config_from_values(
        Some("t".to_string()),
        Some("k".to_string()),
        None,
        None,
        Some("me".to_string()),
        None,
        None,
    );
    assert!(matches!(err, Err(ConfigError::MissingRepositoryName)));

    let cfg = config_from_values(
        Some("t".to_string()),
        Some("k".to_string()),
        None,
        None,
        Some("me".to_string()),
        Some("repo".to_string()),
        None,
    )
    .expect("all required values present");
    assert_eq!(cfg.openai_api_base, "https://api.openai.com");
    assert_eq!(cfg.openai_api_model, "gpt-3.5-turbo");
    assert_eq!(cfg.openai_api_type, "openai");
    assert_eq!(cfg.github_repository_issues_branch, "issues");
}

#[test]
fn logs_are_bounded_and_drop_oldest_entries() {
    let mut monitor = Monitor::new();
    for i in 0..(LOG_CAPACITY as u64 + 3) {
        monitor.log_action(i as i64, Actions::ListAllFiles, format!("run {}", i), i);
    }
    let logs = monitor.get_action_logs();
    assert_eq!(logs.len(), LOG_CAPACITY);
    assert_eq!(logs[0].result, "run 3");
    assert_eq!(logs[LOG_CAPACITY - 1].result, format!("run {}", LOG_CAPACITY as u64 + 2));

    monitor.log_llm_call(
        9,
        "system".to_string(),
        "user".to_string(),
        "answer".to_string(),
        12,
        "test-model".to_string(),
    );
    let calls = monitor.get_llm_call_logs();
    assert_eq!(calls.len(), 1);
    assert_eq!(calls[0].response, "answer");
}

#[test]
fn clock_rendering_is_not_the_identity() {
    assert_eq!(format_rfc3339_utc(0), "1970-01-01T00:00:00+00:00");
    assert_eq!(format_rfc3339_utc(86_400), "1970-01-02T00:00:00+00:00");
}

#[test]
fn dispatcher_texts_are_exact() {
    assert_eq!(stored_memory_text("k", "v"), "Stored memory: k = v");
    assert_eq!(created_issue_text(7, "T"), "Created issue: 7 - T");
    assert_eq!(added_label_text("bug", 7), "Added label 'bug' to issue #7");
    assert_eq!(closed_issue_text(7), "Closed issue #7");
    assert_eq!(commented_text(7, "hi"), "Commented on issue #7: hi");
    assert_eq!(slept_text(30), "Slept for 30 seconds.");
    assert_eq!(
        action_entry_text(&Actions::ListAllFiles, "a, b"),
        "Action: \"ListAllFiles\"\nOutput: a, b\n"
    );
}

#[test]
fn long_file_content_is_clipped() {
    let short = "abc";
    assert_eq!(clip_text(short, MAX_FILE_CHARS), "abc");
    let long: String = "x".repeat(MAX_FILE_CHARS + 10);
    let clipped = clip_text(&long, MAX_FILE_CHARS);
    assert_eq!(clipped.chars().count(), MAX_FILE_CHARS + 3);
    assert!(clipped.ends_with("..."));
}

#[test]
fn memory_actions_mutate_the_context_directly() {
    let mut ctx = AgentContext::new();
    let store = Actions::StoreOrUpdateMemoryInContext {
        key: "k".to_string(),
        value: "v".to_string(),
    };
    let out = apply_memory_action(&mut ctx, &store);
    assert_eq!(out, Some("Stored memory: k = v".to_string()));
    assert_eq!(ctx.get_memory("k"), Some(&"v".to_string()));

    let remove = Actions::RemoveMemoryFromContext { key: "k".to_string() };
    let out = apply_memory_action(&mut ctx, &remove);
    assert_eq!(out, Some("Removed memory: k".to_string()));
    assert_eq!(ctx.get_memory("k"), None);

    let other = Actions::ListAllFiles;
    assert_eq!(apply_memory_action(&mut ctx, &other), None);
}
