//! Settings of the manager: the GitHub token and the repository it manages.
use vstd::prelude::*;

verus! {

/// Settings read from the environment.
#[derive(Clone, Debug)]
pub struct Config {
    pub github_token: String,
    pub owner: String,
    pub repo: String,
}

/// Why no configuration could be formed.
#[derive(Clone, Copy, Debug, PartialEq, Eq, Structural)]
pub enum ConfigError {
    /// `GITHUB_TOKEN` is not set.
    MissingToken,
}

impl ConfigError {
    /// The message shown for the error.
    pub fn message(&self) -> (r: &str)
        ensures
            r@ == "GITHUB_TOKEN environment variable is required"@,
    {
        match self {
            ConfigError::MissingToken => "GITHUB_TOKEN environment variable is required",
        }
    }
}

/// The owner used when `GITHUB_OWNER` is not set.
pub open spec fn default_owner() -> Seq<char> {
    "brioche-dev"@
}

/// The repository used when `GITHUB_REPO` is not set.
pub open spec fn default_repo() -> Seq<char> {
    "brioche-packages"@
}

impl Config {
    /// Forms the configuration from the values of `GITHUB_TOKEN`,
    /// `GITHUB_OWNER` and `GITHUB_REPO` (each `None` when unset): the token
    /// is required, owner and repository fall back to their defaults.
    pub fn from_env(
        github_token: Option<String>,
        owner: Option<String>,
        repo: Option<String>,
    ) -> (r: Result<Config, ConfigError>)
        ensures
            github_token is None <==> r == Err::<Config, ConfigError>(ConfigError::MissingToken),
            r matches Ok(c) ==> {
                &&& github_token matches Some(t) && c.github_token == t
                &&& c.owner@ == match owner {
                    Some(o) => o@,
                    None => default_owner(),
                }
                &&& c.repo@ == match repo {
                    Some(o) => o@,
                    None => default_repo(),
                }
            },
    {
        let github_token = match github_token {
            Some(t) => t,
            None => return Err(ConfigError::MissingToken),
        };
        let owner = match owner {
            Some(o) => o,
            None => "brioche-dev".to_string(),
        };
        let repo = match repo {
            Some(r) => r,
            None => "brioche-packages".to_string(),
        };
        Ok(Config { github_token, owner, repo })
    }
}

/// The GitHub settings the network layer works with.
pub struct GitHubClient {
    pub token: String,
    pub owner: String,
    pub repo: String,
}

impl GitHubClient {
    pub fn new(config: &Config) -> (r: Self)
        ensures
            r.token == config.github_token,
            r.owner == config.owner,
            r.repo == config.repo,
    {
        GitHubClient {
            token: config.github_token.clone(),
            owner: config.owner.clone(),
            repo: config.repo.clone(),
        }
    }
}

} // verus!
