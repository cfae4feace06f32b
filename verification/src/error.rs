//! The errors of the library, what they say, and the exit code they lead to.

use crate::utils::{signed_decimal, status_code_string};
use vstd::prelude::*;

verus! {

/// Errors related to configuration file operations.
#[derive(Debug, Clone, PartialEq, Eq)]
pub enum ConfigError {
    /// The file could not be read; holds the reason.
    Io(String),
    /// The document does not have the shape of a configuration; holds the reason.
    Parse(String),
    /// No file at the given path.
    NotFound(String),
}

/// Errors related to Git operations.
#[derive(Debug, Clone, PartialEq, Eq)]
pub enum GitError {
    /// Git could not be started; holds the reason.
    Command(String),
    /// The hooks directory does not exist.
    HooksDirNotFound,
    /// Git ran and reported a failure.
    NotGitRepo,
}

/// Errors related to hook execution.
#[derive(Debug, Clone, PartialEq, Eq)]
pub enum HookExecutionError {
    /// The shell could not be started; holds the reason.
    Command(String),
    /// A command ended with the given status code.
    CommandFailed(i32),
    /// The configuration has no hook of that name, or no hook was chosen.
    HookNotFound(String),
    /// A pattern could not be compiled.
    InvalidRegex(String),
}

/// Errors related to validation operations.
#[derive(Debug, Clone, PartialEq, Eq)]
pub enum ValidationError {
    /// A hook name is not accepted.
    InvalidHookName(String),
    /// A command is not accepted.
    InvalidCommand(String),
}

/// The main error type for Hooksmith operations.
#[derive(Debug, Clone, PartialEq, Eq)]
pub enum HooksmithError {
    Config(ConfigError),
    Git(GitError),
    HookExecution(HookExecutionError),
    Validation(ValidationError),
    /// A filesystem operation failed; holds the reason.
    Io(String),
}

/// The mathematical value of a [`ConfigError`].
pub enum ConfigErrorView {
    Io(Seq<char>),
    Parse(Seq<char>),
    NotFound(Seq<char>),
}

/// The mathematical value of a [`GitError`].
pub enum GitErrorView {
    Command(Seq<char>),
    HooksDirNotFound,
    NotGitRepo,
}

/// The mathematical value of a [`HookExecutionError`].
pub enum HookExecutionErrorView {
    Command(Seq<char>),
    CommandFailed(i32),
    HookNotFound(Seq<char>),
    InvalidRegex(Seq<char>),
}

/// The mathematical value of a [`ValidationError`].
pub enum ValidationErrorView {
    InvalidHookName(Seq<char>),
    InvalidCommand(Seq<char>),
}

/// The mathematical value of a [`HooksmithError`].
pub enum HooksmithErrorView {
    Config(ConfigErrorView),
    Git(GitErrorView),
    HookExecution(HookExecutionErrorView),
    Validation(ValidationErrorView),
    Io(Seq<char>),
}

impl View for ConfigError {
    type V = ConfigErrorView;

    open spec fn view(&self) -> ConfigErrorView {
        match self {
            ConfigError::Io(reason) => ConfigErrorView::Io(reason@),
            ConfigError::Parse(reason) => ConfigErrorView::Parse(reason@),
            ConfigError::NotFound(path) => ConfigErrorView::NotFound(path@),
        }
    }
}

impl View for GitError {
    type V = GitErrorView;

    open spec fn view(&self) -> GitErrorView {
        match self {
            GitError::Command(reason) => GitErrorView::Command(reason@),
            GitError::HooksDirNotFound => GitErrorView::HooksDirNotFound,
            GitError::NotGitRepo => GitErrorView::NotGitRepo,
        }
    }
}

impl View for HookExecutionError {
    type V = HookExecutionErrorView;

    open spec fn view(&self) -> HookExecutionErrorView {
        match self {
            HookExecutionError::Command(reason) => HookExecutionErrorView::Command(reason@),
            HookExecutionError::CommandFailed(code) => HookExecutionErrorView::CommandFailed(*code),
            HookExecutionError::HookNotFound(name) => HookExecutionErrorView::HookNotFound(name@),
            HookExecutionError::InvalidRegex(pattern) => HookExecutionErrorView::InvalidRegex(
                pattern@,
            ),
        }
    }
}

impl View for ValidationError {
    type V = ValidationErrorView;

    open spec fn view(&self) -> ValidationErrorView {
        match self {
            ValidationError::InvalidHookName(name) => ValidationErrorView::InvalidHookName(name@),
            ValidationError::InvalidCommand(command) => ValidationErrorView::InvalidCommand(
                command@,
            ),
        }
    }
}

impl View for HooksmithError {
    type V = HooksmithErrorView;

    open spec fn view(&self) -> HooksmithErrorView {
        match self {
            HooksmithError::Config(e) => HooksmithErrorView::Config(e@),
            HooksmithError::Git(e) => HooksmithErrorView::Git(e@),
            HooksmithError::HookExecution(e) => HooksmithErrorView::HookExecution(e@),
            HooksmithError::Validation(e) => HooksmithErrorView::Validation(e@),
            HooksmithError::Io(reason) => HooksmithErrorView::Io(reason@),
        }
    }
}

/// The value of the result of an operation: success, or the value of its error.
pub open spec fn result_view(result: Result<(), HooksmithError>) -> Result<(), HooksmithErrorView> {
    match result {
        Ok(_) => Ok(()),
        Err(e) => Err(e@),
    }
}

fn prefixed(prefix: &str, rest: &str) -> (text: String)
    ensures
        text@ == prefix@ + rest@,
{
    let mut text = String::from_str(prefix);
    text.append(rest);
    text
}

impl ConfigError {
    /// An error with the same value.
    pub fn duplicate(&self) -> (copy: ConfigError)
        ensures
            copy@ == self@,
    {
        match self {
            ConfigError::Io(reason) => ConfigError::Io(reason.clone()),
            ConfigError::Parse(reason) => ConfigError::Parse(reason.clone()),
            ConfigError::NotFound(path) => ConfigError::NotFound(path.clone()),
        }
    }

    /// What the error says.
    pub open spec fn message_text(self) -> Seq<char> {
        match self {
            ConfigError::Io(reason) => "Failed to read config file: "@ + reason@,
            ConfigError::Parse(reason) => "Failed to parse config file: "@ + reason@,
            ConfigError::NotFound(path) => "Config file not found at: "@ + path@,
        }
    }

    /// What the error says.
    pub fn message(&self) -> (text: String)
        ensures
            text@ == self.message_text(),
    {
        match self {
            ConfigError::Io(reason) => prefixed("Failed to read config file: ", reason.as_str()),
            ConfigError::Parse(reason) => prefixed(
                "Failed to parse config file: ",
                reason.as_str(),
            ),
            ConfigError::NotFound(path) => prefixed("Config file not found at: ", path.as_str()),
        }
    }
}

impl GitError {
    /// An error with the same value.
    pub fn duplicate(&self) -> (copy: GitError)
        ensures
            copy@ == self@,
    {
        match self {
            GitError::Command(reason) => GitError::Command(reason.clone()),
            GitError::HooksDirNotFound => GitError::HooksDirNotFound,
            GitError::NotGitRepo => GitError::NotGitRepo,
        }
    }

    /// What the error says.
    pub open spec fn message_text(self) -> Seq<char> {
        match self {
            GitError::Command(reason) => "Failed to execute git command: "@ + reason@,
            GitError::HooksDirNotFound => "Git hooks directory not found"@,
            GitError::NotGitRepo => "Not a git repository"@,
        }
    }

    /// What the error says.
    pub fn message(&self) -> (text: String)
        ensures
            text@ == self.message_text(),
    {
        match self {
            GitError::Command(reason) => prefixed(
                "Failed to execute git command: ",
                reason.as_str(),
            ),
            GitError::HooksDirNotFound => String::from_str("Git hooks directory not found"),
            GitError::NotGitRepo => String::from_str("Not a git repository"),
        }
    }
}

impl HookExecutionError {
    /// An error with the same value.
    pub fn duplicate(&self) -> (copy: HookExecutionError)
        ensures
            copy@ == self@,
    {
        match self {
            HookExecutionError::Command(reason) => HookExecutionError::Command(reason.clone()),
            HookExecutionError::CommandFailed(code) => HookExecutionError::CommandFailed(*code),
            HookExecutionError::HookNotFound(name) => HookExecutionError::HookNotFound(
                name.clone(),
            ),
            HookExecutionError::InvalidRegex(pattern) => HookExecutionError::InvalidRegex(
                pattern.clone(),
            ),
        }
    }

    /// What the error says.
    pub open spec fn message_text(self) -> Seq<char> {
        match self {
            HookExecutionError::Command(reason) => "Failed to execute command: "@ + reason@,
            HookExecutionError::CommandFailed(code) => "Command failed with status code: "@
                + signed_decimal(code as int),
            HookExecutionError::HookNotFound(name) => "Hook not found: "@ + name@,
            HookExecutionError::InvalidRegex(pattern) => "Invalid regex pattern: "@ + pattern@,
        }
    }

    /// What the error says.
    pub fn message(&self) -> (text: String)
        ensures
            text@ == self.message_text(),
    {
        match self {
            HookExecutionError::Command(reason) => prefixed(
                "Failed to execute command: ",
                reason.as_str(),
            ),
            HookExecutionError::CommandFailed(code) => prefixed(
                "Command failed with status code: ",
                status_code_string(*code).as_str(),
            ),
            HookExecutionError::HookNotFound(name) => prefixed("Hook not found: ", name.as_str()),
            HookExecutionError::InvalidRegex(pattern) => prefixed(
                "Invalid regex pattern: ",
                pattern.as_str(),
            ),
        }
    }
}

impl ValidationError {
    /// An error with the same value.
    pub fn duplicate(&self) -> (copy: ValidationError)
        ensures
            copy@ == self@,
    {
        match self {
            ValidationError::InvalidHookName(name) => ValidationError::InvalidHookName(
                name.clone(),
            ),
            ValidationError::InvalidCommand(command) => ValidationError::InvalidCommand(
                command.clone(),
            ),
        }
    }

    /// What the error says.
    pub open spec fn message_text(self) -> Seq<char> {
        match self {
            ValidationError::InvalidHookName(name) => "Invalid hook name: "@ + name@,
            ValidationError::InvalidCommand(command) => "Invalid command: "@ + command@,
        }
    }

    /// What the error says.
    pub fn message(&self) -> (text: String)
        ensures
            text@ == self.message_text(),
    {
        match self {
            ValidationError::InvalidHookName(name) => prefixed(
                "Invalid hook name: ",
                name.as_str(),
            ),
            ValidationError::InvalidCommand(command) => prefixed(
                "Invalid command: ",
                command.as_str(),
            ),
        }
    }
}

impl HooksmithError {
    /// An error with the same value.
    pub fn duplicate(&self) -> (copy: HooksmithError)
        ensures
            copy@ == self@,
    {
        match self {
            HooksmithError::Config(e) => HooksmithError::Config(e.duplicate()),
            HooksmithError::Git(e) => HooksmithError::Git(e.duplicate()),
            HooksmithError::HookExecution(e) => HooksmithError::HookExecution(e.duplicate()),
            HooksmithError::Validation(e) => HooksmithError::Validation(e.duplicate()),
            HooksmithError::Io(reason) => HooksmithError::Io(reason.clone()),
        }
    }

    /// What the error says: the area it arose in, then what the inner error says.
    pub open spec fn message_text(self) -> Seq<char> {
        match self {
            HooksmithError::Config(e) => "Configuration error: "@ + e.message_text(),
            HooksmithError::Git(e) => "Git error: "@ + e.message_text(),
            HooksmithError::HookExecution(e) => "Hook execution error: "@ + e.message_text(),
            HooksmithError::Validation(e) => "Validation error: "@ + e.message_text(),
            HooksmithError::Io(reason) => "IO error: "@ + reason@,
        }
    }

    /// What the error says.
    pub fn message(&self) -> (text: String)
        ensures
            text@ == self.message_text(),
    {
        match self {
            HooksmithError::Config(e) => prefixed("Configuration error: ", e.message().as_str()),
            HooksmithError::Git(e) => prefixed("Git error: ", e.message().as_str()),
            HooksmithError::HookExecution(e) => prefixed(
                "Hook execution error: ",
                e.message().as_str(),
            ),
            HooksmithError::Validation(e) => prefixed(
                "Validation error: ",
                e.message().as_str(),
            ),
            HooksmithError::Io(reason) => prefixed("IO error: ", reason.as_str()),
        }
    }
}

/// The exit code that a result leads to: zero for success, the status code of
/// the failing command where a command failed with a code other than zero,
/// and one for any other error.
pub open spec fn exit_code_of(result: Result<(), HooksmithErrorView>) -> i32 {
    match result {
        Ok(_) => 0,
        Err(HooksmithErrorView::HookExecution(HookExecutionErrorView::CommandFailed(code))) => if code
            == 0 {
            1
        } else {
            code
        },
        Err(_) => 1,
    }
}

/// The exit code of the process for the result of an operation.
pub fn exit_code(result: &Result<(), HooksmithError>) -> (code: i32)
    ensures
        code == exit_code_of(result_view(*result)),
        (code == 0) == (result is Ok),
{
    match result {
        Ok(_) => 0,
        Err(HooksmithError::HookExecution(HookExecutionError::CommandFailed(code))) => {
            if *code == 0 {
                1
            } else {
                *code
            }
        },
        Err(_) => 1,
    }
}

} // verus!
