//! The closed set of actions the agent can execute, with their names, the
//! descriptions shown to the model, and the system prompts that list them.

use vstd::prelude::*;
use vstd::string::StrSliceExecFns;
use vstd::string::StringExecFns;

verus! {

/// Mathematical model of an action: the same variants as [`Actions`], with
/// text as `Seq<char>`.
#[verifier::ext_equal]
pub enum ActionModel {
    ReadAllTheCodeBase,
    RunLLMInference { system_prompt: Seq<char>, user_prompt: Seq<char> },
    ListAllFiles,
    ReadASingleFile { path: Seq<char> },
    StoreOrUpdateMemoryInContext { key: Seq<char>, value: Seq<char> },
    RemoveMemoryFromContext { key: Seq<char> },
    GithubCreateIssue { title: Seq<char>, body: Seq<char>, labels: Seq<Seq<char>> },
    GithubListIssues { state: Seq<char> },
    GithubGetIssue { issue_number: u64 },
    GithubAddLabelToIssue { issue_number: u64, label: Seq<char> },
    GithubRemoveLabelFromIssue { issue_number: u64, label: Seq<char> },
    GithubCloseIssue { issue_number: u64 },
    GithubCommentOnIssue { issue_number: u64, body: Seq<char> },
    GithubEditBodyOfIssue { issue_number: u64, body: Seq<char> },
    GithubEditTitleOfIssue { issue_number: u64, title: Seq<char> },
    Sleep { duration: u64 },
}

/// One unit of model-directed work. Each variant carries all data needed for
/// its execution.
#[derive(Debug, Clone, PartialEq, Eq)]
pub enum Actions {
    // Repo I/O
    ReadAllTheCodeBase,
    RunLLMInference { system_prompt: String, user_prompt: String },
    ListAllFiles,
    ReadASingleFile { path: String },
    // Context management
    StoreOrUpdateMemoryInContext { key: String, value: String },
    RemoveMemoryFromContext { key: String },
    // Issue tracker
    GithubCreateIssue { title: String, body: String, labels: Vec<String> },
    GithubListIssues { state: String },
    GithubGetIssue { issue_number: u64 },
    GithubAddLabelToIssue { issue_number: u64, label: String },
    GithubRemoveLabelFromIssue { issue_number: u64, label: String },
    GithubCloseIssue { issue_number: u64 },
    GithubCommentOnIssue { issue_number: u64, body: String },
    GithubEditBodyOfIssue { issue_number: u64, body: String },
    GithubEditTitleOfIssue { issue_number: u64, title: String },
    Sleep { duration: u64 },
}

impl View for Actions {
    type V = ActionModel;

    open spec fn view(&self) -> ActionModel {
        match self {
            Actions::ReadAllTheCodeBase => ActionModel::ReadAllTheCodeBase,
            Actions::RunLLMInference { system_prompt, user_prompt } =>
                ActionModel::RunLLMInference {
                    system_prompt: system_prompt@,
                    user_prompt: user_prompt@,
                },
            Actions::ListAllFiles => ActionModel::ListAllFiles,
            Actions::ReadASingleFile { path } => ActionModel::ReadASingleFile { path: path@ },
            Actions::StoreOrUpdateMemoryInContext { key, value } =>
                ActionModel::StoreOrUpdateMemoryInContext { key: key@, value: value@ },
            Actions::RemoveMemoryFromContext { key } =>
                ActionModel::RemoveMemoryFromContext { key: key@ },
            Actions::GithubCreateIssue { title, body, labels } =>
                ActionModel::GithubCreateIssue {
                    title: title@,
                    body: body@,
                    labels: labels.deep_view(),
                },
            Actions::GithubListIssues { state } =>
                ActionModel::GithubListIssues { state: state@ },
            Actions::GithubGetIssue { issue_number } =>
                ActionModel::GithubGetIssue { issue_number: *issue_number },
            Actions::GithubAddLabelToIssue { issue_number, label } =>
                ActionModel::GithubAddLabelToIssue {
                    issue_number: *issue_number,
                    label: label@,
                },
            Actions::GithubRemoveLabelFromIssue { issue_number, label } =>
                ActionModel::GithubRemoveLabelFromIssue {
                    issue_number: *issue_number,
                    label: label@,
                },
            Actions::GithubCloseIssue { issue_number } =>
                ActionModel::GithubCloseIssue { issue_number: *issue_number },
            Actions::GithubCommentOnIssue { issue_number, body } =>
                ActionModel::GithubCommentOnIssue { issue_number: *issue_number, body: body@ },
            Actions::GithubEditBodyOfIssue { issue_number, body } =>
                ActionModel::GithubEditBodyOfIssue { issue_number: *issue_number, body: body@ },
            Actions::GithubEditTitleOfIssue { issue_number, title } =>
                ActionModel::GithubEditTitleOfIssue { issue_number: *issue_number, title: title@ },
            Actions::Sleep { duration } => ActionModel::Sleep { duration: *duration },
        }
    }
}

impl DeepView for Actions {
    type V = ActionModel;

    open spec fn deep_view(&self) -> ActionModel {
        self.view()
    }
}

/// The snake_case name of an action variant.
pub open spec fn model_name(m: ActionModel) -> Seq<char> {
    match m {
        ActionModel::ReadAllTheCodeBase => "read_all_the_code_base"@,
        ActionModel::RunLLMInference { .. } => "run_llm_inference"@,
        ActionModel::ListAllFiles => "list_all_files"@,
        ActionModel::ReadASingleFile { .. } => "read_a_single_file"@,
        ActionModel::StoreOrUpdateMemoryInContext { .. } => "store_or_update_memory_in_context"@,
        ActionModel::RemoveMemoryFromContext { .. } => "remove_memory_from_context"@,
        ActionModel::GithubCreateIssue { .. } => "github_create_issue"@,
        ActionModel::GithubListIssues { .. } => "github_list_issues"@,
        ActionModel::GithubGetIssue { .. } => "github_get_issue"@,
        ActionModel::GithubAddLabelToIssue { .. } => "github_add_label_to_issue"@,
        ActionModel::GithubRemoveLabelFromIssue { .. } => "github_remove_label_from_issue"@,
        ActionModel::GithubCloseIssue { .. } => "github_close_issue"@,
        ActionModel::GithubCommentOnIssue { .. } => "github_comment_on_issue"@,
        ActionModel::GithubEditBodyOfIssue { .. } => "github_edit_body_of_issue"@,
        ActionModel::GithubEditTitleOfIssue { .. } => "github_edit_title_of_issue"@,
        ActionModel::Sleep { .. } => "sleep"@,
    }
}

impl Actions {
    /// The snake_case name of this action.
    pub fn name(&self) -> (r: &str)
        ensures
            r@ == model_name(self@),
    {
        match self {
            Actions::ReadAllTheCodeBase => "read_all_the_code_base",
            Actions::RunLLMInference { .. } => "run_llm_inference",
            Actions::ListAllFiles => "list_all_files",
            Actions::ReadASingleFile { .. } => "read_a_single_file",
            Actions::StoreOrUpdateMemoryInContext { .. } => "store_or_update_memory_in_context",
            Actions::RemoveMemoryFromContext { .. } => "remove_memory_from_context",
            Actions::GithubCreateIssue { .. } => "github_create_issue",
            Actions::GithubListIssues { .. } => "github_list_issues",
            Actions::GithubGetIssue { .. } => "github_get_issue",
            Actions::GithubAddLabelToIssue { .. } => "github_add_label_to_issue",
            Actions::GithubRemoveLabelFromIssue { .. } => "github_remove_label_from_issue",
            Actions::GithubCloseIssue { .. } => "github_close_issue",
            Actions::GithubCommentOnIssue { .. } => "github_comment_on_issue",
            Actions::GithubEditBodyOfIssue { .. } => "github_edit_body_of_issue",
            Actions::GithubEditTitleOfIssue { .. } => "github_edit_title_of_issue",
            Actions::Sleep { .. } => "sleep",
        }
    }
}

/// The description of an action variant, as shown to the model.
pub open spec fn model_desc(m: ActionModel) -> Seq<char> {
    match m {
        ActionModel::ReadAllTheCodeBase =>
            "Read all the code in the repository and returns all code content."@,
        ActionModel::RunLLMInference { .. } =>
            "Run LLM inference with the provided system and user prompts.\
            Returns the generated text from the LLM."@,
        ActionModel::ListAllFiles =>
            "List all files in the repository and returns a list of file paths. e.g. ['src/lib.rs', 'src/main.rs']"@,
        ActionModel::ReadASingleFile { .. } =>
            "Read a single file in the repository and returns the content of the file.\
            The file is identified by its path, which is a string.\
            Use this to read the content of a specific file in the repository."@,
        ActionModel::StoreOrUpdateMemoryInContext { .. } =>
            "Store or update a memory in the context.\
            The memory is a key-value pair where the key is a string and the value is a string.\
            Use this to store important information that you should remember for future actions.\
            This is essential for the agent to maintain context and continuity in its actions.\
            Information may be code snippets, summary of issues, user preferences and other relevant data.\
            Use this often to keep the agent's context up-to-date."@,
        ActionModel::RemoveMemoryFromContext { .. } =>
            "Remove a memory from the context. The memory is identified by a key which is a string.\
            Use this to remove information that is no longer relevant or needed."@,
        ActionModel::GithubCreateIssue { .. } =>
            "Create a new issue in the GitHub repository.\
            The issue is identified by a title and a body, both of which are strings.\
            You can also specify labels for the issue."@,
        ActionModel::GithubListIssues { .. } =>
            "List all issues in the GitHub repository.\
            You can specify the state of the issues to list (e.g., 'open', 'closed').\
            Returns a list of issues."@,
        ActionModel::GithubGetIssue { .. } =>
            "Get a specific issue from the GitHub repository.\
            The issue is identified by its number, which is a u64.\
            Returns the details of the issue."@,
        ActionModel::GithubAddLabelToIssue { .. } =>
            "Add a label to a specific issue in the GitHub repository.\
            The issue is identified by its number, which is a u64, and the label is a string."@,
        ActionModel::GithubRemoveLabelFromIssue { .. } =>
            "Remove a label from a specific issue in the GitHub repository.\
            The issue is identified by its number, which is a u64, and the label is a string."@,
        ActionModel::GithubCloseIssue { .. } =>
            "Close a specific issue in the GitHub repository.\
            The issue is identified by its number, which is a u64."@,
        ActionModel::GithubCommentOnIssue { .. } =>
            "Add a comment to a specific issue in the GitHub repository.\
            The issue is identified by its number, which is a u64, and the comment body is a string."@,
        ActionModel::GithubEditBodyOfIssue { .. } =>
            "Edit the body of a specific issue in the GitHub repository.\
            The issue is identified by its number, which is a u64, and the new body is a string."@,
        ActionModel::GithubEditTitleOfIssue { .. } =>
            "Edit the title of a specific issue in the GitHub repository.\
            The issue is identified by its number, which is a u64, and the new title is a string."@,
        ActionModel::Sleep { .. } =>
            "Sleep for a specified duration in seconds.\
            This action is used to pause the agent's execution for a while."@,
    }
}

impl Actions {
    /// The description of this action, as shown to the model.
    pub fn desc(&self) -> (r: &str)
        ensures
            r@ == model_desc(self@),
    {
        match self {
            Actions::ReadAllTheCodeBase => {
                "Read all the code in the repository and returns all code content."
            },
            Actions::RunLLMInference { .. } => {
                "Run LLM inference with the provided system and user prompts.\
                Returns the generated text from the LLM."
            },
            Actions::ListAllFiles => {
                "List all files in the repository and returns a list of file paths. e.g. ['src/lib.rs', 'src/main.rs']"
            },
            Actions::ReadASingleFile { .. } => {
                "Read a single file in the repository and returns the content of the file.\
                The file is identified by its path, which is a string.\
                Use this to read the content of a specific file in the repository."
            },
            Actions::StoreOrUpdateMemoryInContext { .. } => {
                "Store or update a memory in the context.\
                The memory is a key-value pair where the key is a string and the value is a string.\
                Use this to store important information that you should remember for future actions.\
                This is essential for the agent to maintain context and continuity in its actions.\
                Information may be code snippets, summary of issues, user preferences and other relevant data.\
                Use this often to keep the agent's context up-to-date."
            },
            Actions::RemoveMemoryFromContext { .. } => {
                "Remove a memory from the context. The memory is identified by a key which is a string.\
                Use this to remove information that is no longer relevant or needed."
            },
            Actions::GithubCreateIssue { .. } => {
                "Create a new issue in the GitHub repository.\
                The issue is identified by a title and a body, both of which are strings.\
                You can also specify labels for the issue."
            },
            Actions::GithubListIssues { .. } => {
                "List all issues in the GitHub repository.\
                You can specify the state of the issues to list (e.g., 'open', 'closed').\
                Returns a list of issues."
            },
            Actions::GithubGetIssue { .. } => {
                "Get a specific issue from the GitHub repository.\
                The issue is identified by its number, which is a u64.\
                Returns the details of the issue."
            },
            Actions::GithubAddLabelToIssue { .. } => {
                "Add a label to a specific issue in the GitHub repository.\
                The issue is identified by its number, which is a u64, and the label is a string."
            },
            Actions::GithubRemoveLabelFromIssue { .. } => {
                "Remove a label from a specific issue in the GitHub repository.\
                The issue is identified by its number, which is a u64, and the label is a string."
            },
            Actions::GithubCloseIssue { .. } => {
                "Close a specific issue in the GitHub repository.\
                The issue is identified by its number, which is a u64."
            },
            Actions::GithubCommentOnIssue { .. } => {
                "Add a comment to a specific issue in the GitHub repository.\
                The issue is identified by its number, which is a u64, and the comment body is a string."
            },
            Actions::GithubEditBodyOfIssue { .. } => {
                "Edit the body of a specific issue in the GitHub repository.\
                The issue is identified by its number, which is a u64, and the new body is a string."
            },
            Actions::GithubEditTitleOfIssue { .. } => {
                "Edit the title of a specific issue in the GitHub repository.\
                The issue is identified by its number, which is a u64, and the new title is a string."
            },
            Actions::Sleep { .. } => {
                "Sleep for a specified duration in seconds.\
                This action is used to pause the agent's execution for a while."
            },
        }
    }
}

// ===================== system prompts =====================

/// The leading system prompt, before the action list.
pub const GENERAL_SYSTEM_PROMPT: &'static str = r#"
Your name is Pristine, you are an AI agent that manages issues on a GitHub repository.
Your goal is to help maintain the state of issues in the repository by creating, updating, and closing issues as needed.

Your responsibilities include:
- Detecting new documentation issues.
- Scope human created issues.
- Answer human comments on issues.
- Detect TODOs in code and map them to issues.
- Close issues when they are resolved.
- Scan the codebase to detect logic flaws and create issues for them.
- Detect areas where testing could be improved and create issues for them.
- Suggest features or enhancements based on the codebase.
- Ensure no duplicate issues are created. If duplicates happen, close the duplicate issue and comment on it with a link to the original issue.
- Prioritize issues based on their importance and urgency.
- Managing labels on issues to categorize them effectively.

The issues you create should be small, actionable, and focused on a single task.

Here are the tags you can use for issues:
- `documentation`: For issues related to documentation improvements.
- `bug`: For issues related to bugs or logic flaws in the code.
- `enhancement`: For issues related to improvements or new features.
- `test`: For issues related to adding or improving tests.
- `needs-human-input`: For issues that require human input or decision-making.
- `ready-for-approval`: For issues that are ready to be approved by a human before implementation.
- `ready-for-implementation-by-ai`: For issues that are ready to be implemented by the AI agent, this should be used when a human has approved the issue and the issue is easy enough for the AI to implement.
- `duplicate`: For issues that are duplicates of existing ones.
- `p0`: For high priority issues that need immediate attention.
- `p1`: For medium priority issues that should be addressed soon.
- `p2`: For low priority issues that can be addressed later.

You will be provided with the current context, which includes:
- The memories you have stored.
- Past actions you have taken.
- The output of the last action you took.
- The current size of the context.
- The list of actions you can take.
- The list of open issues in the repository.

A few rules to follow:
- Avoid opening issues that are too broad or vague.
- Always provide a clear title and description for the issues you create.
- Do not create issues that are duplicates of existing ones.
- Only create issues for most relevant problems.
- Not creating issues is an option, if you think no action is needed.
- Use history of issues to understand user preferences and avoid creating duplicate issues.
- The code and documentation may be wrong sometimes, do not always take it at face value.

Actions you can take:
"#;

/// The add-on asking the model to think before acting.
pub const THINKING_ADD_ON: &'static str = r#"
Your role is to think carefully about the current state and what actions should be taken next.
Weigh different options and consider the consequences of each action. Try to think of the goal you're trying to achieve and how the actions you take will help you get there.
"#;

/// The add-on asking the model for the action array.
pub const ACTION_ADD_ON: &'static str = r#"
Your role is to decide on the list of actions to take. Your output should be a JSON array of actions.
Each action should be a JSON representing of the `Actions` enum.
You should only output the JSON array, nothing else.
Example of output:
```json
[
    "ReadAllTheCodeBase",
    {
        "GithubCreateIssue": {
            "title": "Test Issue",
            "body": "This is a test issue",
            "labels": [
                "bug",
                "test"
            ]
        }
    },
    {
        "StoreOrUpdateMemoryInContext": {
            "key": "test_key",
            "value": "test_value"
        }
    }
]
```

Batch actions together when possible, e.g. storing multiple memories at once, or getting multiple issues at once.
Use up to 10 actions in a single output.
"#;

/// One representative value per variant, with empty data, in declaration
/// order: the shapes shown to the model in the system prompt.
pub open spec fn sample_models() -> Seq<ActionModel> {
    seq![
        ActionModel::ReadAllTheCodeBase,
        ActionModel::RunLLMInference {
            system_prompt: Seq::empty(),
            user_prompt: Seq::empty(),
        },
        ActionModel::ListAllFiles,
        ActionModel::ReadASingleFile { path: Seq::empty() },
        ActionModel::StoreOrUpdateMemoryInContext {
            key: Seq::empty(),
            value: Seq::empty(),
        },
        ActionModel::RemoveMemoryFromContext { key: Seq::empty() },
        ActionModel::GithubCreateIssue {
            title: Seq::empty(),
            body: Seq::empty(),
            labels: Seq::empty(),
        },
        ActionModel::GithubListIssues { state: Seq::empty() },
        ActionModel::GithubGetIssue { issue_number: 0 },
        ActionModel::GithubAddLabelToIssue { issue_number: 0, label: Seq::empty() },
        ActionModel::GithubRemoveLabelFromIssue { issue_number: 0, label: Seq::empty() },
        ActionModel::GithubCloseIssue { issue_number: 0 },
        ActionModel::GithubCommentOnIssue { issue_number: 0, body: Seq::empty() },
        ActionModel::GithubEditBodyOfIssue { issue_number: 0, body: Seq::empty() },
        ActionModel::GithubEditTitleOfIssue { issue_number: 0, title: Seq::empty() },
        ActionModel::Sleep { duration: 0 },
    ]
}

/// One representative value per variant, with empty data, in declaration
/// order.
pub fn all_action_samples() -> (r: Vec<Actions>)
    ensures
        r.deep_view() == sample_models(),
{
    let mut v: Vec<Actions> = Vec::new();
    v.push(Actions::ReadAllTheCodeBase);
    v.push(Actions::RunLLMInference {
        system_prompt: String::new(),
        user_prompt: String::new(),
    });
    v.push(Actions::ListAllFiles);
    v.push(Actions::ReadASingleFile { path: String::new() });
    v.push(Actions::StoreOrUpdateMemoryInContext {
        key: String::new(),
        value: String::new(),
    });
    v.push(Actions::RemoveMemoryFromContext { key: String::new() });
    v.push(Actions::GithubCreateIssue {
        title: String::new(),
        body: String::new(),
        labels: Vec::new(),
    });
    v.push(Actions::GithubListIssues { state: String::new() });
    v.push(Actions::GithubGetIssue { issue_number: 0 });
    v.push(Actions::GithubAddLabelToIssue { issue_number: 0, label: String::new() });
    v.push(Actions::GithubRemoveLabelFromIssue { issue_number: 0, label: String::new() });
    v.push(Actions::GithubCloseIssue { issue_number: 0 });
    v.push(Actions::GithubCommentOnIssue { issue_number: 0, body: String::new() });
    v.push(Actions::GithubEditBodyOfIssue { issue_number: 0, body: String::new() });
    v.push(Actions::GithubEditTitleOfIssue { issue_number: 0, title: String::new() });
    v.push(Actions::Sleep { duration: 0 });
    proof {
        assert(v.deep_view() =~~= sample_models());
    }
    v
}

/// The line of the system prompt describing one action: its name, its
/// description, and its wire form.
pub open spec fn action_line(m: ActionModel) -> Seq<char> {
    "- `"@ + model_name(m) + "`: "@ + model_desc(m) + " (JSON: `"@ + crate::codec::enc_action(m)
        + "`)\n"@
}

/// The action lines of the system prompt, in declaration order.
pub open spec fn action_lines(ms: Seq<ActionModel>) -> Seq<char>
    decreases ms.len(),
{
    if ms.len() == 0 {
        Seq::empty()
    } else {
        action_line(ms[0]) + action_lines(ms.drop_first())
    }
}

/// The general system prompt: the fixed text, then one line per action.
pub open spec fn general_prompt_spec() -> Seq<char> {
    GENERAL_SYSTEM_PROMPT@ + action_lines(sample_models()) + "\n"@
}

/// Builds the general system prompt: the fixed text, then one line per
/// action with its name, description and wire form.
pub fn general_system_prompt() -> (r: String)
    ensures
        r@ == general_prompt_spec(),
{
    let samples = all_action_samples();
    let ghost dv = samples.deep_view();
    let mut p = GENERAL_SYSTEM_PROMPT.to_owned();
    let mut i: usize = 0;
    proof {
        assert(dv.skip(0) =~= dv);
    }
    while i < samples.len()
        invariant
            i <= samples@.len(),
            dv == samples.deep_view(),
            dv == sample_models(),
            dv.len() == samples@.len(),
            p@ + action_lines(dv.skip(i as int)) == GENERAL_SYSTEM_PROMPT@ + action_lines(dv),
        decreases samples@.len() - i,
    {
        proof {
            assert(dv.skip(i as int)[0] == dv[i as int]);
            assert(dv.skip(i as int).drop_first() =~= dv.skip(i as int + 1));
            assert(dv[i as int] == samples@[i as int]@);
        }
        p.append("- `");
        p.append(samples[i].name());
        p.append("`: ");
        p.append(samples[i].desc());
        p.append(" (JSON: `");
        let json = crate::codec::encode_action(&samples[i]);
        p.append(json.as_str());
        p.append("`)\n");
        proof {
            assert(p@ + action_lines(dv.skip(i as int + 1)) =~= GENERAL_SYSTEM_PROMPT@
                + action_lines(dv));
        }
        i += 1;
    }
    proof {
        assert(dv.skip(dv.len() as int) =~= Seq::<ActionModel>::empty());
    }
    p.append("\n");
    proof {
        assert(p@ =~= general_prompt_spec());
    }
    p
}

/// The system prompt of the thinking call: the general prompt followed by
/// the thinking add-on.
pub fn thinking_system_prompt() -> (r: String)
    ensures
        r@ == general_prompt_spec() + THINKING_ADD_ON@,
{
    let mut p = general_system_prompt();
    p.append(THINKING_ADD_ON);
    p
}

/// The system prompt of the decision call: the general prompt followed by
/// the action add-on.
pub fn action_system_prompt() -> (r: String)
    ensures
        r@ == general_prompt_spec() + ACTION_ADD_ON@,
{
    let mut p = general_system_prompt();
    p.append(ACTION_ADD_ON);
    p
}

} // verus!
