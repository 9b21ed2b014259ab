use pristine::tracker::{
    closed_titles, diff_issues, filter_pull_requests, find_issue, is_auth_error, merge_issue,
    open_issues, sync_flags, tracker_retry_decision, CommentSync, Issue, IssueHeader, Pagination,
    TrackerRetry, PAGE_SIZE,
};

fn header(number: u64, is_pull_request: bool) -> IssueHeader {
    IssueHeader {
        number,
        title: format!("Issue {}", number),
        body: String::new(),
        state: "open".to_string(),
        updated_at: 1_700_000_000,
        labels: vec![],
        comments_count: 0,
        is_pull_request,
    }
}

fn issue(number: u64, updated_at: i64, comments_count: u64) -> Issue {
    Issue {
        number,
        title: format!("Issue {}", number),
        body: String::new(),
        state: "open".to_string(),
        updated_at,
        labels: vec![],
        comments: vec![],
        comments_count,
    }
}

#[test]
fn listing_excludes_pull_requests() {
    let items = vec![header(1, false), header(2, true), header(3, false), header(4, true)];
    let kept = filter_pull_requests(items);
    let numbers: Vec<u64> = kept.iter().map(|h| h.number).collect();
    assert_eq!(numbers, vec![1, 3]);
}

#[test]
fn pagination_stops_on_short_or_last_page() {
    // 250 items served as full pages of 100: three requests, within the bound
    let mut p = Pagination::new();
    assert_eq!(PAGE_SIZE, 100);
    p.step(100, true);
    assert!(!p.done);
    p.step(100, true);
    assert!(!p.done);
    p.step(50, false);
    assert!(p.done);
    assert_eq!(p.requests, 3);
    assert!(p.requests as u64 <= 250 / 100 + 1);

    let mut q = Pagination::new();
    q.step(0, true);
    assert!(q.done, "an empty page ends the listing");

    let mut r = Pagination::new();
    r.step(100, false);
    assert!(r.done, "a page without a next indicator ends the listing");
}

#[test]
fn unchanged_comment_count_reuses_cached_comments() {
    let mut known_issue = issue(7, 100, 2);
    known_issue.comments = vec![
        ("alice".to_string(), "first".to_string()),
        ("bob".to_string(), "second".to_string()),
    ];
    let known = vec![known_issue];

    let mut h = header(7, false);
    h.comments_count = 2;
    let (merged, sync) = merge_issue(&known, h);
    assert_eq!(sync, CommentSync::Reuse);
    assert_eq!(merged.comments, known[0].comments);
}

#[test]
fn changed_count_or_new_issue_requires_a_fetch() {
    let known = vec![issue(7, 100, 2)];

    let mut changed = header(7, false);
    changed.comments_count = 3;
    let (merged, sync) = merge_issue(&known, changed);
    assert_eq!(sync, CommentSync::Refetch { known_before: true });
    assert!(merged.comments.is_empty());

    let fresh = header(8, false);
    let (merged2, sync2) = merge_issue(&known, fresh);
    assert_eq!(sync2, CommentSync::Refetch { known_before: false });
    assert!(merged2.comments.is_empty());
}

#[test]
fn diffing_reports_updates_and_new_issues() {
    let known = vec![issue(1, 100, 0), issue(2, 200, 1)];
    let current = vec![issue(1, 100, 0), issue(2, 250, 1), issue(3, 300, 0)];
    let events = diff_issues(&known, &current);
    assert_eq!(
        events,
        vec!["Issue #2 updated: Issue 2".to_string(), "New issue: #3 - Issue 3".to_string()]
    );
}

#[test]
fn issue_lookup_finds_first_match() {
    let known = vec![issue(5, 0, 0), issue(9, 0, 0)];
    assert_eq!(find_issue(&known, 9), Some(1));
    assert_eq!(find_issue(&known, 4), None);
}

#[test]
fn auth_failures_are_classified_by_signature() {
    assert!(is_auth_error("HTTP 401 from api"));
    assert!(is_auth_error("request was unauthorized"));
    assert!(is_auth_error("GitHub says: Bad credentials"));
    assert!(!is_auth_error("503 service unavailable"));

    assert_eq!(
        tracker_retry_decision(true, "401 Unauthorized"),
        TrackerRetry::RefreshAndRetry
    );
    assert_eq!(tracker_retry_decision(false, "401 Unauthorized"), TrackerRetry::Propagate);
    assert_eq!(tracker_retry_decision(true, "rate limited"), TrackerRetry::Propagate);
}

#[test]
fn snapshot_splits_open_issues_and_closed_titles() {
    let mut a = issue(1, 10, 0);
    a.state = "closed".to_string();
    let b = issue(2, 20, 0);
    let mut c = issue(3, 30, 0);
    c.state = "closed".to_string();
    let listing = vec![a, b, c];

    let open = open_issues(&listing);
    assert_eq!(open.len(), 1);
    assert_eq!(open[0].number, 2);
    assert_eq!(open[0].title, "Issue 2");

    let titles = closed_titles(&listing);
    assert_eq!(titles, vec!["Issue 1".to_string(), "Issue 3".to_string()]);
}

#[test]
fn issue_report_lists_all_fields_and_comments() {
    let mut i = issue(5, 0, 2);
    i.labels = vec!["bug".to_string()];
    i.body = "broken".to_string();
    i.comments = vec![
        ("alice".to_string(), "first".to_string()),
        ("bob".to_string(), "second".to_string()),
    ];
    let report = i.report("1970-01-01T00:00:00+00:00");
    assert_eq!(
        report,
        "Issue #5: Issue 5\nState: open\nUpdated at: 1970-01-01T00:00:00+00:00\nLabels: [\"bug\"]\nBody: broken\nComments and Updates:\n  - alice: first\n  - bob: second"
    );
}

#[test]
fn listing_flags_report_new_and_updated_issues() {
    let none = vec![CommentSync::Reuse, CommentSync::Reuse];
    assert_eq!(sync_flags(&none), (false, false));

    let mixed = vec![
        CommentSync::Reuse,
        CommentSync::Refetch { known_before: true },
        CommentSync::Refetch { known_before: false },
    ];
    assert_eq!(sync_flags(&mixed), (true, true));

    let only_updated = vec![CommentSync::Refetch { known_before: true }];
    assert_eq!(sync_flags(&only_updated), (false, true));
}
