//! Where the hooks directory of the repository is, from what Git answers.

use crate::error::{GitError, GitErrorView};
use crate::plan::{HooksDir, HooksDirView};
use vstd::prelude::*;

verus! {

/// What `git rev-parse --git-path hooks` gave back.
#[derive(Debug, Clone, PartialEq, Eq)]
pub struct GitOutput {
    /// Whether Git reported success.
    pub success: bool,
    /// What Git wrote to its output stream.
    pub stdout: String,
}

/// Whether a character is white space: the characters with the Unicode
/// property White_Space.
pub open spec fn is_white_space(c: char) -> bool {
    ||| '\u{9}' <= c <= '\u{d}'
    ||| c == ' '
    ||| c == '\u{85}'
    ||| c == '\u{a0}'
    ||| c == '\u{1680}'
    ||| '\u{2000}' <= c <= '\u{200a}'
    ||| c == '\u{2028}'
    ||| c == '\u{2029}'
    ||| c == '\u{202f}'
    ||| c == '\u{205f}'
    ||| c == '\u{3000}'
}

/// A text without the white space at its start.
pub open spec fn trimmed_start(text: Seq<char>) -> Seq<char>
    decreases text.len(),
{
    if text.len() > 0 && is_white_space(text[0]) {
        trimmed_start(text.drop_first())
    } else {
        text
    }
}

/// A text without the white space at its end.
pub open spec fn trimmed_end(text: Seq<char>) -> Seq<char>
    decreases text.len(),
{
    if text.len() > 0 && is_white_space(text.last()) {
        trimmed_end(text.drop_last())
    } else {
        text
    }
}

/// A text without the white space at its start and at its end.
pub open spec fn trimmed(text: Seq<char>) -> Seq<char> {
    trimmed_end(trimmed_start(text))
}

/// `str::trim` of the standard library. Its documentation says that it
/// gives the text without leading and trailing white space, where white
/// space is what the Unicode property White_Space says. That is stated
/// here and not proved.
#[verifier::external_body]
fn trim(text: &str) -> (kept: &str)
    ensures
        kept@ == trimmed(text@),
{
    text.trim()
}

/// The value of what Git answered, or of why it could not be asked.
pub open spec fn asked_view(asked: Result<GitOutput, String>) -> Result<(bool, Seq<char>), Seq<char>> {
    match asked {
        Ok(output) => Ok((output.success, output.stdout@)),
        Err(reason) => Err(reason@),
    }
}

/// The path of the hooks directory: what Git wrote, without the white space
/// around it. Where Git could not be started that is the error; where Git
/// reported a failure, this is no repository.
pub open spec fn hooks_path_of(asked: Result<(bool, Seq<char>), Seq<char>>) -> Result<
    Seq<char>,
    GitErrorView,
> {
    match asked {
        Err(reason) => Err(GitErrorView::Command(reason)),
        Ok((success, stdout)) => if success {
            Ok(trimmed(stdout))
        } else {
            Err(GitErrorView::NotGitRepo)
        },
    }
}

/// The value of a path or of the error in its place.
pub open spec fn path_view(path: Result<String, GitError>) -> Result<Seq<char>, GitErrorView> {
    match path {
        Ok(path) => Ok(path@),
        Err(e) => Err(e@),
    }
}

/// The value of the hooks directory or of the error in its place.
pub open spec fn located_view(located: Result<HooksDir, GitError>) -> Result<
    HooksDirView,
    GitErrorView,
> {
    match located {
        Ok(dir) => Ok(dir@),
        Err(e) => Err(e@),
    }
}

/// Get the path to the Git hooks directory, from what Git answered when it
/// was asked for it, or from the reason why it could not be started.
pub fn get_git_hooks_path(asked: Result<GitOutput, String>) -> (path: Result<String, GitError>)
    ensures
        path_view(path) == hooks_path_of(asked_view(asked)),
{
    match asked {
        Err(reason) => Err(GitError::Command(reason)),
        Ok(output) => {
            if !output.success {
                return Err(GitError::NotGitRepo);
            }
            Ok(String::from_str(trim(output.stdout.as_str())))
        },
    }
}

/// Check whether the current repository has a hooks directory: whether its
/// path could be resolved and something exists there. An error in place of
/// the directory counts as no directory.
pub fn check_for_git_hooks(located: &Result<HooksDir, GitError>) -> (present: bool)
    ensures
        present == (located matches Ok(dir) && dir.exists),
{
    match located {
        Ok(dir) => dir.exists,
        Err(_) => false,
    }
}

} // verus!
