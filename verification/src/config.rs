//! Startup configuration. The values come from the environment; the
//! surrounding application reads the variables and hands them here, where
//! the required ones are checked and the optional ones take their
//! defaults. A missing required value stops the start.

use vstd::prelude::*;
use vstd::string::StringExecFns;

verus! {

/// The agent's configuration.
#[derive(Clone)]
pub struct Config {
    pub github_personal_access_token: String,
    pub openai_api_key: String,
    pub openai_api_base: String,
    pub openai_api_type: String,
    pub openai_api_model: String,
    pub github_repository_owner: String,
    pub github_repository_name: String,
    pub github_repository_issues_branch: String,
}

/// A required configuration value that was not set.
#[derive(Debug, Clone, PartialEq, Eq)]
pub enum ConfigError {
    MissingGithubToken,
    MissingOpenaiKey,
    MissingRepositoryOwner,
    MissingRepositoryName,
}

impl ConfigError {
    /// The name of the missing environment variable.
    pub fn variable_name(&self) -> (r: &str)
        ensures
            *self is MissingGithubToken ==> r@ == "GITHUB_PERSONAL_ACCESS_TOKEN"@,
            *self is MissingOpenaiKey ==> r@ == "OPENAI_API_KEY"@,
            *self is MissingRepositoryOwner ==> r@ == "GITHUB_REPOSITORY_OWNER"@,
            *self is MissingRepositoryName ==> r@ == "GITHUB_REPOSITORY_NAME"@,
    {
        match self {
            ConfigError::MissingGithubToken => "GITHUB_PERSONAL_ACCESS_TOKEN",
            ConfigError::MissingOpenaiKey => "OPENAI_API_KEY",
            ConfigError::MissingRepositoryOwner => "GITHUB_REPOSITORY_OWNER",
            ConfigError::MissingRepositoryName => "GITHUB_REPOSITORY_NAME",
        }
    }
}

/// Builds the configuration from raw environment values, in the order the
/// variables are read. Each required value that is absent is the error for
/// its variable; the base URL, model name and issues branch take their
/// defaults when absent, and the API type is fixed.
pub fn config_from_values(
    github_personal_access_token: Option<String>,
    openai_api_key: Option<String>,
    openai_api_base: Option<String>,
    openai_api_model: Option<String>,
    github_repository_owner: Option<String>,
    github_repository_name: Option<String>,
    github_repository_issues_branch: Option<String>,
) -> (r: Result<Config, ConfigError>)
    ensures
        github_personal_access_token is None ==> r == Err::<Config, ConfigError>(
            ConfigError::MissingGithubToken,
        ),
        github_personal_access_token is Some && openai_api_key is None ==> r == Err::<
            Config,
            ConfigError,
        >(ConfigError::MissingOpenaiKey),
        github_personal_access_token is Some && openai_api_key is Some
            && github_repository_owner is None ==> r == Err::<Config, ConfigError>(
            ConfigError::MissingRepositoryOwner,
        ),
        github_personal_access_token is Some && openai_api_key is Some
            && github_repository_owner is Some && github_repository_name is None ==> r == Err::<
            Config,
            ConfigError,
        >(ConfigError::MissingRepositoryName),
        r matches Ok(c) ==> {
            &&& github_personal_access_token matches Some(t)
                && c.github_personal_access_token == t
            &&& openai_api_key matches Some(k) && c.openai_api_key == k
            &&& c.openai_api_base@ == (match openai_api_base {
                Some(b) => b@,
                None => "https://api.openai.com"@,
            })
            &&& c.openai_api_type@ == "openai"@
            &&& c.openai_api_model@ == (match openai_api_model {
                Some(m) => m@,
                None => "gpt-3.5-turbo"@,
            })
            &&& github_repository_owner matches Some(o) && c.github_repository_owner == o
            &&& github_repository_name matches Some(n) && c.github_repository_name == n
            &&& c.github_repository_issues_branch@ == (match github_repository_issues_branch {
                Some(b) => b@,
                None => "issues"@,
            })
        },
        r is Ok <==> github_personal_access_token is Some && openai_api_key is Some
            && github_repository_owner is Some && github_repository_name is Some,
{
    let token = match github_personal_access_token {
        Some(t) => t,
        None => {
            return Err(ConfigError::MissingGithubToken);
        },
    };
    let key = match openai_api_key {
        Some(k) => k,
        None => {
            return Err(ConfigError::MissingOpenaiKey);
        },
    };
    let owner = match github_repository_owner {
        Some(o) => o,
        None => {
            return Err(ConfigError::MissingRepositoryOwner);
        },
    };
    let name = match github_repository_name {
        Some(n) => n,
        None => {
            return Err(ConfigError::MissingRepositoryName);
        },
    };
    let base = match openai_api_base {
        Some(b) => b,
        None => String::from_str("https://api.openai.com"),
    };
    let model = match openai_api_model {
        Some(m) => m,
        None => String::from_str("gpt-3.5-turbo"),
    };
    let branch = match github_repository_issues_branch {
        Some(b) => b,
        None => String::from_str("issues"),
    };
    Ok(Config {
        github_personal_access_token: token,
        openai_api_key: key,
        openai_api_base: base,
        openai_api_type: String::from_str("openai"),
        openai_api_model: model,
        github_repository_owner: owner,
        github_repository_name: name,
        github_repository_issues_branch: branch,
    })
}

} // verus!
