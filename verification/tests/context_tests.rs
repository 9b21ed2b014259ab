use pristine::context::{format_duration, AgentContext, Event, MAX_PAST_EVENTS};
use pristine::tracker::Issue;

#[test]
fn memories_store_update_and_remove() {
    let mut ctx = AgentContext::new();
    ctx.set_memory("color".to_string(), "blue".to_string());
    ctx.set_memory("shape".to_string(), "round".to_string());
    assert_eq!(ctx.get_memory("color"), Some(&"blue".to_string()));

    ctx.set_memory("color".to_string(), "green".to_string());
    assert_eq!(ctx.get_memory("color"), Some(&"green".to_string()));
    assert_eq!(ctx.memories.len(), 2);

    ctx.remove_memory("color");
    assert_eq!(ctx.get_memory("color"), None);
    ctx.remove_memory("no-such-key");
    assert_eq!(ctx.memories.len(), 1);
}

#[test]
fn past_events_never_exceed_capacity_and_evict_oldest_first() {
    let mut ctx = AgentContext::new();
    for i in 0..8u32 {
        ctx.push_past_event(format!("event {}", i));
        assert!(ctx.past_events.len() <= MAX_PAST_EVENTS);
    }
    assert_eq!(
        ctx.past_events,
        vec![
            "event 3".to_string(),
            "event 4".to_string(),
            "event 5".to_string(),
            "event 6".to_string(),
            "event 7".to_string(),
        ]
    );
}

#[test]
fn begin_cycle_rolls_events_through_the_fifo() {
    let mut ctx = AgentContext::new();
    ctx.begin_cycle(vec!["a".to_string(), "b".to_string(), "c".to_string()]);
    assert!(ctx.past_events.is_empty());
    assert_eq!(ctx.new_event.len(), 3);

    ctx.begin_cycle(vec!["d".to_string(), "e".to_string(), "f".to_string()]);
    assert_eq!(ctx.past_events, vec!["a".to_string(), "b".to_string(), "c".to_string()]);

    ctx.begin_cycle(vec![]);
    // six candidates, capacity five: the oldest is evicted
    assert_eq!(
        ctx.past_events,
        vec![
            "b".to_string(),
            "c".to_string(),
            "d".to_string(),
            "e".to_string(),
            "f".to_string(),
        ]
    );
}

#[test]
fn prompt_renders_sections_and_clears_the_error_once() {
    let mut ctx = AgentContext::new();
    ctx.set_memory("goal".to_string(), "triage".to_string());
    ctx.known_open_issues.push(Issue {
        number: 12,
        title: "Flaky test".to_string(),
        body: "details".to_string(),
        state: "open".to_string(),
        updated_at: 900,
        labels: vec!["bug".to_string(), "test".to_string()],
        comments: vec![],
        comments_count: 0,
    });
    ctx.known_closed_issues_titles.push("Old issue".to_string());
    ctx.push_past_event("something happened".to_string());
    ctx.record_error("previous cycle failed".to_string());

    let prompt = ctx.build_contextual_prompt(90_900, "2024-01-01T00:00:00+00:00");
    assert!(prompt.starts_with("Current time: 2024-01-01T00:00:00+00:00\n"));
    assert!(prompt.contains("\nMemories:\ngoal: triage\n"));
    assert!(prompt.contains("Issue #12: Flaky test (Updated 1 days ago)"));
    assert!(prompt.contains("State: open"));
    assert!(prompt.contains("Labels: [\"bug\", \"test\"]"));
    assert!(prompt.contains("\nKnown Closed Issues:\nOld issue\n"));
    assert!(prompt.contains("\nPast Events (most recent first):\nsomething happened\n"));
    assert!(prompt.contains("\nError: previous cycle failed\n"));
    assert!(prompt.contains("Current size of the context: "));
    assert!(prompt.ends_with(" characters\n"));
    assert!(ctx.error.is_none(), "the error is surfaced exactly once");

    let second = ctx.build_contextual_prompt(90_900, "2024-01-01T00:00:00+00:00");
    assert!(!second.contains("Error:"));
}

#[test]
fn durations_use_the_largest_whole_unit() {
    assert_eq!(format_duration(5), "5 seconds");
    assert_eq!(format_duration(0), "0 seconds");
    assert_eq!(format_duration(-5), "-5 seconds");
    assert_eq!(format_duration(90), "1 minutes");
    assert_eq!(format_duration(7_200), "2 hours");
    assert_eq!(format_duration(90_061), "1 days");
    assert_eq!(format_duration(86_400 * 30), "30 days");
}

#[test]
fn events_render_to_their_textual_records() {
    let commit = Event::NewCommit {
        commit_hash: "abc123".to_string(),
        message: "fix parser".to_string(),
    };
    assert_eq!(commit.text(), "New commit detected: abc123 - fix parser");

    let opened = Event::NewIssue {
        issue_number: 4,
        title: "Add docs".to_string(),
        body: String::new(),
    };
    assert_eq!(opened.text(), "New issue: #4 - Add docs");

    let comment = Event::NewComment { issue_number: 4, body: "ping".to_string() };
    assert_eq!(comment.text(), "New comment on issue #4: ping");
}
