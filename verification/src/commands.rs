//! The commands of the tool and what each of them sets off.

use crate::config::HookView;
use crate::error::{
    ConfigError, ConfigErrorView, GitError, GitErrorView, HookExecutionError, HooksmithError,
};
use crate::git_related::located_view;
use crate::comparison::compare_plan;
use crate::hooksmith::Hooksmith;
use crate::installation::install_hooks_plan;
use crate::removal::{uninstall_given_plan, uninstall_hooks_plan};
use crate::scripts::{hook_not_found, run_hook_turn};
use crate::validation::validation_steps;
use crate::init::init_turn;
use crate::messages::{usage_error, usage_error_text};
use crate::plan::{
    Action, ActionView, ExecutionMode, HooksDir, HooksDirView, Plan, PlanView,
};
use crate::run::{Next, NextView, Turn, TurnView};
use crate::utils::{err_line, say_err};
use vstd::prelude::*;

verus! {

/// Commands enum for hooksmith CLI.
#[derive(Debug, Clone, PartialEq, Eq)]
pub enum Command {
    /// Compare installed hooks with the configuration file.
    Compare,
    /// Write a first configuration file.
    Init,
    /// Install all hooks listed in the config file.
    Install,
    /// Run hooks: those named, or those that the user picks.
    Run { hook_names: Option<Vec<String>>, interactive: bool },
    /// Uninstall the named hook, or all hooks where none is named.
    Uninstall { hook_name: Option<String> },
    /// Validate hooks in configuration file against standard Git hooks.
    Validate,
}

/// The mathematical value of a [`Command`].
pub enum CommandView {
    Compare,
    Init,
    Install,
    Run { hook_names: Option<Seq<Seq<char>>>, interactive: bool },
    Uninstall { hook_name: Option<Seq<char>> },
    Validate,
}

impl View for Command {
    type V = CommandView;

    open spec fn view(&self) -> CommandView {
        match self {
            Command::Compare => CommandView::Compare,
            Command::Init => CommandView::Init,
            Command::Install => CommandView::Install,
            Command::Run { hook_names, interactive } => CommandView::Run {
                hook_names: match hook_names {
                    Some(names) => Some(names.deep_view()),
                    None => None,
                },
                interactive: *interactive,
            },
            Command::Uninstall { hook_name } => CommandView::Uninstall {
                hook_name: match hook_name {
                    Some(name) => Some(name@),
                    None => None,
                },
            },
            Command::Validate => CommandView::Validate,
        }
    }
}

/// A turn that performs a plan and ends with its result.
pub open spec fn finished(plan: PlanView) -> TurnView {
    TurnView { steps: plan.steps, next: NextView::Finished(plan.result) }
}

/// What a command sets off. To run hooks, either names or the interactive
/// choice must be given: neither is a usage error, said on the error stream.
pub open spec fn dispatch_turn(
    hooks: Seq<HookView>,
    mode: ExecutionMode,
    command: CommandView,
    config_path: Seq<char>,
    located: Result<HooksDirView, GitErrorView>,
    cwd: Option<Seq<char>>,
) -> TurnView {
    match command {
        CommandView::Compare => finished(compare_plan(hooks, mode.verbose, located)),
        CommandView::Init => init_turn(config_path, true, mode.dry_run, mode.verbose),
        CommandView::Install => finished(install_hooks_plan(hooks, mode, located)),
        CommandView::Run { hook_names, interactive } => if hook_names is None && !interactive {
            TurnView {
                steps: seq![ActionView::Say(err_line(usage_error_text()))],
                next: NextView::Finished(
                    Err(hook_not_found("No hook specified and interactive mode is disabled"@)),
                ),
            }
        } else {
            run_hook_turn(hooks, mode, cwd, hook_names, interactive)
        },
        CommandView::Uninstall { hook_name } => match hook_name {
            Some(name) => finished(uninstall_given_plan(hooks, mode, located, name)),
            None => finished(uninstall_hooks_plan(hooks, mode, located)),
        },
        CommandView::Validate => finished(
            PlanView { steps: validation_steps(hooks, mode.verbose), result: Ok(()) },
        ),
    }
}

/// Whether a command can start: every command but the one that writes a
/// first configuration file needs the configuration file to exist.
pub fn check_config_file(command: &Command, found: bool, config_path: &str) -> (result: Result<
    (),
    ConfigError,
>)
    ensures
        result is Ok <==> (found || command@ is Init),
        result matches Err(e) ==> e@ == ConfigErrorView::NotFound(config_path@),
{
    let writes_it = match command {
        Command::Init => true,
        _ => false,
    };
    if !found && !writes_it {
        return Err(ConfigError::NotFound(String::from_str(config_path)));
    }
    Ok(())
}

fn finish(plan: Plan) -> (turn: Turn)
    ensures
        turn@ == finished(plan@),
{
    let Plan { steps, result } = plan;
    Turn { steps, next: Next::Finished(result) }
}

impl Hooksmith {
    /// Sets off a command: its first turn. The configuration file, from
    /// which this manager was made, exists.
    pub fn dispatch(
        &self,
        command: &Command,
        config_path: &str,
        located: &Result<HooksDir, GitError>,
        cwd: &Option<String>,
    ) -> (turn: Turn)
        ensures
            turn@ == dispatch_turn(
                self.hooks(),
                self.mode(),
                command@,
                config_path@,
                located_view(*located),
                cwd.deep_view(),
            ),
    {
        match command {
            Command::Compare => finish(self.compare_hooks(located)),
            Command::Init => {
                let mode = self.execution_mode();
                Hooksmith::init_interactive(config_path, true, mode.dry_run, mode.verbose)
            },
            Command::Install => finish(self.install_hooks(located)),
            Command::Run { hook_names, interactive } => {
                if hook_names.is_none() && !*interactive {
                    let mut steps: Vec<Action> = Vec::new();
                    assert(steps.deep_view() =~= Seq::<ActionView>::empty());
                    say_err(&mut steps, usage_error());
                    assert(steps.deep_view() =~= seq![
                        ActionView::Say(err_line(usage_error_text())),
                    ]);
                    return Turn {
                        steps,
                        next: Next::Finished(
                            Err(
                                HooksmithError::HookExecution(
                                    HookExecutionError::HookNotFound(
                                        String::from_str(
                                            "No hook specified and interactive mode is disabled",
                                        ),
                                    ),
                                ),
                            ),
                        ),
                    };
                }
                self.run_hook(hook_names.as_ref(), *interactive, cwd)
            },
            Command::Uninstall { hook_name } => match hook_name {
                Some(item) => finish(self.uninstall_given_hook(item.as_str(), located)),
                None => finish(self.uninstall_hooks(located)),
            },
            Command::Validate => finish(self.validate_hooks()),
        }
    }
}

} // verus!
