use pristine::actions::{
    action_system_prompt, general_system_prompt, thinking_system_prompt, Actions, ACTION_ADD_ON,
    THINKING_ADD_ON,
};
use pristine::codec::{decode_actions, encode_action, encode_actions};

fn sample_actions() -> Vec<Actions> {
    vec![
        Actions::ReadAllTheCodeBase,
        Actions::GithubCreateIssue {
            title: "Test Issue".to_string(),
            body: "This is a test issue".to_string(),
            labels: vec!["bug".to_string(), "test".to_string()],
        },
        Actions::StoreOrUpdateMemoryInContext {
            key: "test_key".to_string(),
            value: "test_value".to_string(),
        },
    ]
}

#[test]
fn actions_test_actions_ser() {
    let actions = sample_actions();
    let serialized = encode_actions(&actions);
    println!("Serialized Actions: {}", serialized);
}

#[test]
fn lib_test_actions_ser() {
    let actions = sample_actions();
    let serialized = encode_actions(&actions);
    println!("Serialized Actions: {}", serialized);
}

#[test]
fn test_general_system_prompt() {
    let prompt = general_system_prompt();
    assert!(!prompt.is_empty());
    println!("General System Prompt: {}", prompt);
}

#[test]
fn test_thinking_system_prompt() {
    let prompt = thinking_system_prompt();
    assert!(!prompt.is_empty());
    assert!(prompt.contains(THINKING_ADD_ON));
    println!("Thinking System Prompt: {}", prompt);
}

#[test]
fn test_action_system_prompt() {
    let prompt = action_system_prompt();
    assert!(!prompt.is_empty());
    assert!(prompt.contains(ACTION_ADD_ON));
    println!("Action System Prompt: {}", prompt);
}

#[test]
fn names_and_descriptions_are_stable() {
    let a = Actions::GithubCreateIssue {
        title: String::new(),
        body: String::new(),
        labels: Vec::new(),
    };
    assert_eq!(a.name(), "github_create_issue");
    assert!(a.desc().starts_with("Create a new issue"));
    assert_eq!(Actions::ListAllFiles.name(), "list_all_files");
    assert_eq!(Actions::Sleep { duration: 3 }.name(), "sleep");
}

#[test]
fn prompt_lists_every_action_with_wire_form() {
    let prompt = general_system_prompt();
    let sample = Actions::GithubGetIssue { issue_number: 0 };
    assert!(prompt.contains("- `github_get_issue`:"));
    assert!(prompt.contains(&encode_action(&sample)));
    assert!(prompt.contains("- `sleep`:"));
    assert!(prompt.contains("- `read_all_the_code_base`:"));
}

#[test]
fn encoded_sample_actions_decode_back() {
    let actions = sample_actions();
    let serialized = encode_actions(&actions);
    let decoded = decode_actions(&serialized).expect("canonical encoding must decode");
    assert_eq!(decoded, actions);
}
