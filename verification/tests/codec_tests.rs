use pristine::actions::Actions;
use pristine::codec::{decode_actions, encode_actions};

fn round_trip(actions: Vec<Actions>) {
    let wire = encode_actions(&actions);
    let decoded = decode_actions(&wire).expect("canonical encoding must decode");
    assert_eq!(decoded, actions);
}

#[test]
fn round_trip_every_variant() {
    round_trip(vec![
        Actions::ReadAllTheCodeBase,
        Actions::RunLLMInference {
            system_prompt: "be brief".to_string(),
            user_prompt: "summarize".to_string(),
        },
        Actions::ListAllFiles,
        Actions::ReadASingleFile { path: "src/lib.rs".to_string() },
        Actions::StoreOrUpdateMemoryInContext {
            key: "k".to_string(),
            value: "v".to_string(),
        },
        Actions::RemoveMemoryFromContext { key: "k".to_string() },
        Actions::GithubCreateIssue {
            title: "T".to_string(),
            body: "B".to_string(),
            labels: vec!["bug".to_string()],
        },
        Actions::GithubListIssues { state: "open".to_string() },
        Actions::GithubGetIssue { issue_number: 42 },
        Actions::GithubAddLabelToIssue { issue_number: 1, label: "p0".to_string() },
        Actions::GithubRemoveLabelFromIssue { issue_number: 2, label: "p1".to_string() },
        Actions::GithubCloseIssue { issue_number: 3 },
        Actions::GithubCommentOnIssue { issue_number: 4, body: "hi".to_string() },
        Actions::GithubEditBodyOfIssue { issue_number: 5, body: "nb".to_string() },
        Actions::GithubEditTitleOfIssue { issue_number: 6, title: "nt".to_string() },
        Actions::Sleep { duration: 30 },
    ]);
}

#[test]
fn round_trip_awkward_strings() {
    round_trip(vec![
        Actions::GithubCreateIssue {
            title: "He said \"hi\" \\ bye".to_string(),
            body: "line one\nline two\ttabbed".to_string(),
            labels: vec!["weird \"label\"".to_string(), "\\backslash".to_string()],
        },
        Actions::StoreOrUpdateMemoryInContext {
            key: "unicode: caf\u{e9} \u{1F600}".to_string(),
            value: "`,:[]{}===".to_string(),
        },
    ]);
}

#[test]
fn round_trip_empty_values() {
    round_trip(vec![]);
    round_trip(vec![Actions::GithubCreateIssue {
        title: String::new(),
        body: String::new(),
        labels: vec![],
    }]);
}

#[test]
fn decode_accepts_whitespace_between_tokens() {
    let wire = "[\n  \"ListAllFiles\",\n  {\n    \"GithubGetIssue\": {\n      \"issue_number\": 7\n    }\n  }\n]";
    let decoded = decode_actions(wire).expect("pretty-printed form must decode");
    assert_eq!(
        decoded,
        vec![Actions::ListAllFiles, Actions::GithubGetIssue { issue_number: 7 }]
    );
}

#[test]
fn decode_accepts_escapes() {
    let wire = "[{\"GithubCommentOnIssue\":{\"issue_number\":1,\"body\":\"a\\nb\\t\\\"q\\\" \\\\ c\\/d\"}}]";
    let decoded = decode_actions(wire).expect("escaped form must decode");
    assert_eq!(
        decoded,
        vec![Actions::GithubCommentOnIssue {
            issue_number: 1,
            body: "a\nb\t\"q\" \\ c/d".to_string(),
        }]
    );
}

#[test]
fn decode_rejects_malformed_inputs() {
    assert!(decode_actions("").is_none());
    assert!(decode_actions("not json").is_none());
    assert!(decode_actions("[").is_none());
    assert!(decode_actions("[\"NoSuchAction\"]").is_none());
    assert!(decode_actions("[\"ListAllFiles\"").is_none());
    assert!(decode_actions("{\"GithubGetIssue\":{\"issue_number\":1}}").is_none());
    assert!(decode_actions("[\"ListAllFiles\"] trailing").is_none());
    assert!(decode_actions("[{\"GithubGetIssue\":{\"number\":1}}]").is_none());
    assert!(decode_actions("[{\"GithubGetIssue\":{\"issue_number\":-1}}]").is_none());
}

#[test]
fn decode_checks_integer_range() {
    let max = decode_actions("[{\"Sleep\":{\"duration\":18446744073709551615}}]")
        .expect("u64::MAX fits");
    assert_eq!(max, vec![Actions::Sleep { duration: u64::MAX }]);
    assert!(decode_actions("[{\"Sleep\":{\"duration\":18446744073709551616}}]").is_none());
}

#[test]
fn canonical_encoding_is_exact() {
    let wire = encode_actions(&vec![
        Actions::ListAllFiles,
        Actions::GithubAddLabelToIssue { issue_number: 9, label: "bug".to_string() },
    ]);
    assert_eq!(
        wire,
        "[\"ListAllFiles\",{\"GithubAddLabelToIssue\":{\"issue_number\":9,\"label\":\"bug\"}}]"
    );
}
