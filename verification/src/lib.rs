//! Git hook management from a declarative configuration: every decision the
//! tool takes is computed here, on plain values, and handed to the caller as
//! a plan of actions to perform.

pub mod commands;
pub mod comparison;
pub mod config;
pub mod error;
pub mod git_related;
pub mod guarantees;
pub mod hook_names;
pub mod hooksmith;
pub mod init;
pub mod installation;
pub mod messages;
pub mod plan;
pub mod removal;
pub mod run;
pub mod scripts;
pub mod utils;
pub mod validation;

pub use error::HooksmithError;
pub use hooksmith::Hooksmith;

use config::{described, duplicate_hook_text, hook_names, repeats_at, Hook};
use error::{ConfigErrorView, GitError, HooksmithErrorView};
use git_related::located_view;
use installation::install_hooks_plan;
use plan::{ExecutionMode, HooksDir, Plan};
use vstd::prelude::*;

verus! {

/// Initialize Hooksmith from the hooks of a configuration file and install
/// them: the plan for installing every hook, quietly and for real. This is
/// meant to be called from a `build.rs` script. A hook name that occurs
/// twice is a configuration error, and nothing is done.
pub fn init(hooks: Vec<(String, Hook)>, located: &Result<HooksDir, GitError>) -> (plan: Plan)
    ensures
        hook_names(described(hooks@)).no_duplicates() ==> plan@ == install_hooks_plan(
            described(hooks@),
            ExecutionMode { dry_run: false, verbose: false },
            located_view(*located),
        ),
        !hook_names(described(hooks@)).no_duplicates() ==> {
            &&& plan@.steps.len() == 0
            &&& exists|j: int|
                0 <= j < hooks.len() && repeats_at(hook_names(described(hooks@)), j) && (forall|
                    k: int,
                | 0 <= k < j ==> !repeats_at(hook_names(described(hooks@)), k)) && plan@.result
                    == Err::<(), HooksmithErrorView>(
                    HooksmithErrorView::Config(
                        ConfigErrorView::Parse(duplicate_hook_text(hooks[j].0@)),
                    ),
                )
        },
{
    match Hooksmith::new_from_config(hooks, false, false) {
        Ok(hs) => hs.install_hooks(located),
        Err(e) => Plan { steps: Vec::new(), result: Err(e) },
    }
}

} // verus!
