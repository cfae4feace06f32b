//! The hook lifecycle manager: installing, running, removing, comparing and
//! validating the hooks of a configuration.

use crate::comparison::{
    compare_plan, compare_steps, extra_hooks, extra_to, missing_hooks, missing_in,
};
use crate::config::{
    described, duplicate_hook_text, hook_names, repeats_at, Config, Hook, HookView,
};
use crate::error::{
    ConfigErrorView, GitError, HookExecutionError, HooksmithError, HooksmithErrorView,
    ValidationError,
};
use crate::git_related::{check_for_git_hooks, located_view};
use crate::hook_names::{contains_name, is_git_hook, is_standard_hook};
use crate::installation::{
    ensure_dir_steps, ensured, hook_script, install_each, install_hook_plan, install_hooks_plan,
    install_steps, write_hook_steps,
};
use crate::messages::{
    all_match, all_valid_details, available_hooks_suggestion, command_completed,
    comparing, comparing_text, creating_dir, differences_found, dry_run_banner,
    dry_run_banner_text, dry_run_completed, dry_run_completed_text, extra_hook, extra_hook_text,
    hook_is_valid, hook_is_valid_text, installed, installing_file, installing_hook,
    installing_hook_text, installing_hooks, installing_hooks_text, invalid_hooks_details,
    invalid_names_error, missing_hook, missing_hook_text, no_commands_details, no_hook_file,
    not_configured, possible_hooks, run_question, running_command, running_hook,
    running_hook_text, setting_permissions, skip_create_dir, skip_install, step_command,
    step_header, uninstall_completed, uninstall_completed_text, uninstalling, uninstalling_all,
    uninstalling_all_text, uninstalling_text, validating, validating_before_install,
    validating_before_install_text, validating_text, would_remove, working_directory,
};
use crate::plan::{
    say_each, say_if, Action, ActionView, DirEntryView, ExecutionMode, HooksDir, HooksDirView,
    Plan,
};
use crate::removal::{
    uninstall_each, uninstall_given_plan, uninstall_hooks_plan, uninstall_steps,
};
use crate::run::{advance, turn_from, Next, RunItem, RunItemView, Turn};
use crate::scripts::{
    announcement, announcements, answer_view, command_items, commands_items, hook_items, item_if,
    lemma_unique_names, not_found_items, picked_names, picked_turn, run_hook_turn, run_items,
    selection_turn, unique_names,
};
use crate::utils::{
    add_step, debug_names, ends_with, format_list, format_message_with_suggestion, out_line,
    print_success, print_warning, say, say_err, Error, Line,
};
use crate::validation::{
    invalid_names, strict_validation_result, valid_names, validation_steps, validation_verdict,
};
use vstd::prelude::*;

verus! {

/// Manages the Git hooks of one configuration, in one execution mode.
#[derive(Debug, PartialEq, Eq)]
pub struct Hooksmith {
    config: Config,
    dry_run: bool,
    verbose: bool,
}

/// What validation finds: how many hook names of the configuration Git
/// knows, and the names that it does not know, in the configuration's order.
#[derive(Debug, Clone, PartialEq, Eq)]
pub struct Validation {
    pub valid_count: usize,
    pub invalid_names: Vec<String>,
}

/// What a comparison finds: the hooks of the configuration that are not
/// installed, and the installed files that are no hooks of the configuration.
#[derive(Debug, Clone, PartialEq, Eq)]
pub struct Comparison {
    pub missing: Vec<String>,
    pub extra: Vec<String>,
}

impl Hooksmith {
    /// The hooks of the configuration.
    pub closed spec fn hooks(&self) -> Seq<HookView> {
        self.config@
    }

    /// The execution mode.
    pub closed spec fn mode(&self) -> ExecutionMode {
        ExecutionMode { dry_run: self.dry_run, verbose: self.verbose }
    }

    /// Creates a manager for the hooks of a configuration file. Hook names are
    /// not validated here. A name that occurs twice is a configuration error.
    pub fn new_from_config(hooks: Vec<(String, Hook)>, dry_run: bool, verbose: bool) -> (result:
        Result<Hooksmith, HooksmithError>)
        ensures
            result is Ok <==> hook_names(described(hooks@)).no_duplicates(),
            result matches Ok(hooksmith) ==> {
                &&& hooksmith.hooks() == described(hooks@)
                &&& hooksmith.mode() == ExecutionMode { dry_run, verbose }
            },
            result matches Err(e) ==> exists|j: int|
                0 <= j < hooks.len() && repeats_at(hook_names(described(hooks@)), j) && (forall|
                    k: int,
                | 0 <= k < j ==> !repeats_at(hook_names(described(hooks@)), k)) && e@
                    == HooksmithErrorView::Config(
                    ConfigErrorView::Parse(duplicate_hook_text(hooks[j].0@)),
                ),
    {
        match Config::from_hooks(hooks) {
            Ok(config) => Ok(Hooksmith { config, dry_run, verbose }),
            Err(e) => Err(HooksmithError::Config(e)),
        }
    }

    /// The execution mode.
    pub fn execution_mode(&self) -> (mode: ExecutionMode)
        ensures
            mode == self.mode(),
    {
        ExecutionMode { dry_run: self.dry_run, verbose: self.verbose }
    }

    /// What is printed when the tool starts: in a dry run, that nothing will
    /// be executed.
    pub fn banner(&self) -> (steps: Vec<Action>)
        ensures
            steps.deep_view() == say_if(self.mode().dry_run, dry_run_banner_text()),
    {
        let mut steps: Vec<Action> = Vec::new();
        assert(steps.deep_view() =~= Seq::<ActionView>::empty());
        if self.dry_run {
            say(&mut steps, dry_run_banner());
        }
        assert(steps.deep_view() =~= say_if(self.mode().dry_run, dry_run_banner_text()));
        steps
    }

    /// Get a list of available hooks from the configuration.
    pub fn get_available_hooks(&self) -> (names: Vec<String>)
        ensures
            names.deep_view() == hook_names(self.hooks()),
    {
        let mut names: Vec<String> = Vec::new();
        let mut i: usize = 0;
        while i < self.config.len()
            invariant
                i <= self.config@.len(),
                names.deep_view() == hook_names(self.config@).take(i as int),
            decreases self.config@.len() - i,
        {
            let ghost before = names.deep_view();
            names.push(self.config.name(i).clone());
            assert(names.deep_view() =~= before.push(self.config@[i as int].name));
            assert(hook_names(self.config@).take(i + 1) =~= hook_names(self.config@).take(
                i as int,
            ).push(self.config@[i as int].name));
            i += 1;
        }
        assert(hook_names(self.config@).take(self.config@.len() as int) =~= hook_names(
            self.config@,
        ));
        names
    }

    /// Sorts the hook names of the configuration into those that Git knows
    /// and those that it does not. Every name is looked at.
    pub fn validate(&self) -> (found: Validation)
        ensures
            found.valid_count == valid_names(self.hooks()).len(),
            found.invalid_names.deep_view() == invalid_names(self.hooks()),
    {
        let mut valid_count: usize = 0;
        let mut invalid: Vec<String> = Vec::new();
        let ghost names = hook_names(self.config@);
        let ghost known = |name: Seq<char>| is_git_hook(name);
        let ghost unknown = |name: Seq<char>| !is_git_hook(name);
        let mut i: usize = 0;
        assert(invalid.deep_view() =~= names.take(0).filter(unknown));
        while i < self.config.len()
            invariant
                i <= self.config@.len(),
                names == hook_names(self.config@),
                known == (|name: Seq<char>| is_git_hook(name)),
                unknown == (|name: Seq<char>| !is_git_hook(name)),
                valid_count == names.take(i as int).filter(known).len(),
                valid_count <= i,
                invalid.deep_view() == names.take(i as int).filter(unknown),
            decreases self.config@.len() - i,
        {
            let name = self.config.name(i);
            proof {
                assert(names.take(i + 1) =~= names.take(i as int).push(name@));
                names.take(i as int).lemma_filter_push(name@, known);
                names.take(i as int).lemma_filter_push(name@, unknown);
            }
            if is_standard_hook(name.as_str()) {
                valid_count += 1;
            } else {
                let ghost before = invalid.deep_view();
                invalid.push(name.clone());
                assert(invalid.deep_view() =~= before.push(name@));
            }
            i += 1;
        }
        assert(names.take(self.config@.len() as int) =~= names);
        Validation { valid_count, invalid_names: invalid }
    }

    /// Validate that hooks in the configuration file are standard Git hooks.
    /// This reports and never fails.
    pub fn validate_hooks(&self) -> (plan: Plan)
        ensures
            plan@.steps == validation_steps(self.hooks(), self.mode().verbose),
            plan@.result is Ok,
    {
        let mut steps: Vec<Action> = Vec::new();
        assert(steps.deep_view() =~= Seq::<ActionView>::empty());
        self.report_validation(&mut steps);
        Plan { steps, result: Ok(()) }
    }

    fn report_validation(&self, steps: &mut Vec<Action>)
        ensures
            final(steps).deep_view() == old(steps).deep_view() + validation_steps(
                self.hooks(),
                self.mode().verbose,
            ),
    {
        let ghost start = steps.deep_view();
        let ghost hooks = self.config@;
        let ghost names = hook_names(hooks);
        let ghost known = |name: Seq<char>| is_git_hook(name);
        let ghost wording = |name: Seq<char>| hook_is_valid_text(name);
        if self.verbose {
            say(steps, validating());
        }
        let ghost opened = steps.deep_view();
        assert(opened =~= start + say_if(self.verbose, validating_text()));
        if self.verbose {
            let mut i: usize = 0;
            assert(names.take(0).filter(known) =~= Seq::<Seq<char>>::empty());
            assert(steps.deep_view() =~= opened + say_each(names.take(0).filter(known), wording));
            while i < self.config.len()
                invariant
                    i <= self.config@.len(),
                    hooks == self.config@,
                    names == hook_names(hooks),
                    known == (|name: Seq<char>| is_git_hook(name)),
                    wording == (|name: Seq<char>| hook_is_valid_text(name)),
                    steps.deep_view() == opened + say_each(
                        names.take(i as int).filter(known),
                        wording,
                    ),
                decreases self.config@.len() - i,
            {
                let name = self.config.name(i);
                let ghost before = steps.deep_view();
                let ghost seen = names.take(i as int).filter(known);
                proof {
                    assert(names.take(i + 1) =~= names.take(i as int).push(name@));
                    names.take(i as int).lemma_filter_push(name@, known);
                }
                if is_standard_hook(name.as_str()) {
                    say(steps, hook_is_valid(name.as_str()));
                    assert(steps.deep_view() =~= opened + say_each(seen.push(name@), wording));
                }
                i += 1;
            }
            assert(names.take(self.config@.len() as int) =~= names);
        }
        let ghost listed = steps.deep_view();
        assert(listed =~= opened + (if self.verbose {
            say_each(valid_names(hooks), wording)
        } else {
            Seq::empty()
        }));
        let found = self.validate();
        if found.invalid_names.len() == 0 {
            if self.verbose {
                let details = all_valid_details(found.valid_count);
                print_success(steps, "All hooks are valid", details.as_str());
            }
        } else {
            let list = format_list(&found.invalid_names);
            let details = invalid_hooks_details(list.as_str());
            print_warning(steps, "Invalid hooks detected", details.as_str());
        }
        assert(steps.deep_view() =~= listed + validation_verdict(hooks, self.verbose));
        assert(steps.deep_view() =~= start + validation_steps(hooks, self.verbose));
    }

    /// Validate hooks configuration before installation: an error if any
    /// hook name is not a standard Git hook name, which lists all of them.
    pub fn validate_hooks_for_install(&self) -> (plan: Plan)
        ensures
            plan@.steps == say_if(self.mode().verbose, validating_before_install_text()),
            plan@.result == strict_validation_result(self.hooks()),
    {
        let mut steps: Vec<Action> = Vec::new();
        assert(steps.deep_view() =~= Seq::<ActionView>::empty());
        if self.verbose {
            say(&mut steps, validating_before_install());
        }
        assert(steps.deep_view() =~= say_if(self.verbose, validating_before_install_text()));
        let result = self.check_names();
        Plan { steps, result }
    }

    fn check_names(&self) -> (result: Result<(), HooksmithError>)
        ensures
            crate::error::result_view(result) == strict_validation_result(self.hooks()),
    {
        let found = self.validate();
        if found.invalid_names.len() == 0 {
            Ok(())
        } else {
            let list = format_list(&found.invalid_names);
            Err(
                HooksmithError::Validation(
                    ValidationError::InvalidHookName(invalid_names_error(list.as_str())),
                ),
            )
        }
    }

    /// Runs multiple hooks by executing their commands: the first turn of
    /// the run of the named hooks, in the given order.
    pub fn run_hooks(&self, hook_names: &Vec<String>, cwd: &Option<String>) -> (turn: Turn)
        ensures
            turn@ == turn_from(
                run_items(self.hooks(), self.mode(), cwd.deep_view(), hook_names.deep_view()),
                0,
            ),
    {
        let ghost hooks = self.config@;
        let ghost mode = self.mode();
        let ghost names = hook_names.deep_view();
        let ghost whole = run_items(hooks, mode, cwd.deep_view(), names);
        let mut items: Vec<RunItem> = Vec::new();
        let mut i: usize = 0;
        assert(items.deep_view() =~= Seq::<RunItemView>::empty());
        assert(names.skip(0) =~= names);
        while i < hook_names.len()
            invariant
                i <= hook_names.len(),
                hooks == self.config@,
                mode == self.mode(),
                names == hook_names.deep_view(),
                whole == run_items(hooks, mode, cwd.deep_view(), names),
                items.deep_view() + run_items(hooks, mode, cwd.deep_view(), names.skip(i as int))
                    == whole,
            decreases hook_names.len() - i,
        {
            let name = &hook_names[i];
            let ghost before = items.deep_view();
            let ghost rest = names.skip(i as int);
            assert(rest[0] == name@);
            assert(rest.drop_first() =~= names.skip(i + 1));
            match self.config.get(name.as_str()) {
                Some(commands) => {
                    self.script_hook(&mut items, name, commands, cwd);
                    assert(items.deep_view() + run_items(
                        hooks,
                        mode,
                        cwd.deep_view(),
                        names.skip(i + 1),
                    ) =~= before + run_items(hooks, mode, cwd.deep_view(), rest));
                },
                None => {
                    self.handle_hook_not_found(&mut items, name);
                    assert(items.deep_view() =~= whole);
                    return advance(items, 0);
                },
            }
            i += 1;
        }
        assert(items.deep_view() =~= whole);
        advance(items, 0)
    }

    /// Handle the "hook not found error": the configured hooks are listed,
    /// and the run fails.
    fn handle_hook_not_found(&self, items: &mut Vec<RunItem>, hook_name: &String)
        ensures
            final(items).deep_view() == old(items).deep_view() + not_found_items(
                self.hooks(),
                hook_name@,
            ),
    {
        let ghost before = items.deep_view();
        let available = self.get_available_hooks();
        let formatted_hooks = format_list(&available);
        let details = no_commands_details(hook_name.as_str());
        let suggestion = available_hooks_suggestion(formatted_hooks.as_str());
        let text = format_message_with_suggestion::<Error>(
            "Hook not found",
            details.as_str(),
            suggestion.as_str(),
        );
        items.push(RunItem::Say(Line { to_stderr: true, text }));
        items.push(
            RunItem::Fail(
                HooksmithError::HookExecution(HookExecutionError::HookNotFound(hook_name.clone())),
            ),
        );
        assert(items.deep_view() =~= before + not_found_items(self.hooks(), hook_name@));
    }

    /// Adds the script for one hook of the configuration.
    fn script_hook(
        &self,
        items: &mut Vec<RunItem>,
        hook_name: &String,
        commands: &Vec<String>,
        cwd: &Option<String>,
    )
        ensures
            final(items).deep_view() == old(items).deep_view() + hook_items(
                self.mode(),
                cwd.deep_view(),
                hook_name@,
                commands.deep_view(),
            ),
    {
        let ghost start = items.deep_view();
        let ghost all = commands.deep_view();
        let ghost dir = cwd.deep_view();
        let total = commands.len();
        if self.dry_run {
            let mut idx: usize = 0;
            assert(all.skip(0) =~= all);
            while idx < total
                invariant
                    idx <= total,
                    total == commands.len(),
                    all == commands.deep_view(),
                    dir == cwd.deep_view(),
                    items.deep_view() + announcements(
                        dir,
                        all.skip(idx as int),
                        (idx + 1) as nat,
                        total as nat,
                    ) == start + announcements(dir, all, 1, total as nat),
                decreases total - idx,
            {
                let ghost before = items.deep_view();
                let ghost rest = all.skip(idx as int);
                assert(rest[0] == commands[idx as int]@);
                assert(rest.drop_first() =~= all.skip(idx + 1));
                handle_dry_run(items, commands[idx].as_str(), idx, total, cwd);
                assert(items.deep_view() + announcements(
                    dir,
                    all.skip(idx + 1),
                    (idx + 2) as nat,
                    total as nat,
                ) =~= before + announcements(dir, rest, (idx + 1) as nat, total as nat));
                idx += 1;
            }
            let ghost announced = items.deep_view();
            assert(announced =~= start + announcements(dir, all, 1, total as nat));
            items.push(
                RunItem::Say(Line { to_stderr: false, text: dry_run_completed(total) }),
            );
            assert(all.len() == total);
            assert(items.deep_view() =~= announced.push(
                RunItemView::Say(out_line(dry_run_completed_text(total as nat))),
            ));
            assert(items.deep_view() =~= start + hook_items(self.mode(), dir, hook_name@, all));
        } else {
            if self.verbose {
                items.push(
                    RunItem::Say(
                        Line { to_stderr: false, text: running_hook(hook_name.as_str()) },
                    ),
                );
            }
            let ghost opened = items.deep_view();
            assert(opened =~= start + item_if(self.verbose, running_hook_text(hook_name@)));
            let mut idx: usize = 0;
            assert(all.skip(0) =~= all);
            while idx < total
                invariant
                    idx <= total,
                    total == commands.len(),
                    all == commands.deep_view(),
                    items.deep_view() + commands_items(
                        self.verbose,
                        hook_name@,
                        all.skip(idx as int),
                    ) == opened + commands_items(self.verbose, hook_name@, all),
                decreases total - idx,
            {
                let ghost before = items.deep_view();
                let ghost rest = all.skip(idx as int);
                assert(rest[0] == commands[idx as int]@);
                assert(rest.drop_first() =~= all.skip(idx + 1));
                self.execute_single_command(items, commands[idx].as_str(), hook_name);
                assert(items.deep_view() + commands_items(
                    self.verbose,
                    hook_name@,
                    all.skip(idx + 1),
                ) =~= before + commands_items(self.verbose, hook_name@, rest));
                idx += 1;
            }
            assert(items.deep_view() =~= opened + commands_items(self.verbose, hook_name@, all));
            assert(items.deep_view() =~= start + hook_items(self.mode(), dir, hook_name@, all));
        }
    }

    /// Adds the script that executes a single command of a hook.
    fn execute_single_command(&self, items: &mut Vec<RunItem>, command_str: &str, hook_name: &String)
        ensures
            final(items).deep_view() == old(items).deep_view() + command_items(
                self.mode().verbose,
                hook_name@,
                command_str@,
            ),
    {
        let ghost before = items.deep_view();
        if self.verbose {
            items.push(
                RunItem::Say(Line { to_stderr: false, text: running_command(command_str) }),
            );
        }
        items.push(
            RunItem::Spawn { hook: hook_name.clone(), command: String::from_str(command_str) },
        );
        if self.verbose {
            items.push(RunItem::Say(Line { to_stderr: false, text: command_completed() }));
        }
        assert(items.deep_view() =~= before + command_items(
            self.verbose,
            hook_name@,
            command_str@,
        ));
    }

    /// The turn that lets the user pick the hooks to run.
    pub fn select_hooks_interactively(&self) -> (turn: Turn)
        ensures
            turn@ == selection_turn(self.hooks()),
    {
        let hooks = self.get_available_hooks();
        let steps: Vec<Action> = Vec::new();
        assert(steps.deep_view() =~= Seq::<ActionView>::empty());
        assert(hooks.deep_view().len() == hooks.len());
        assert(hook_names(self.config@).len() == self.config@.len());
        if hooks.len() == 0 {
            return Turn {
                steps,
                next: Next::Finished(
                    Err(
                        HooksmithError::HookExecution(
                            HookExecutionError::HookNotFound(
                                String::from_str("No hooks available in configuration"),
                            ),
                        ),
                    ),
                ),
            };
        }
        Turn { steps, next: Next::Ask { question: run_question(), choices: hooks } }
    }

    /// The first turn of a run of the hooks that the user picked, given the
    /// positions of the picked choices, or the reason why the question failed.
    pub fn run_selected(&self, answer: Result<Vec<usize>, String>, cwd: &Option<String>) -> (turn:
        Turn)
        requires
            answer matches Ok(picks) ==> forall|k: int|
                0 <= k < picks.len() ==> picks[k] < self.hooks().len(),
        ensures
            turn@ == picked_turn(self.hooks(), self.mode(), cwd.deep_view(), answer_view(answer)),
    {
        let steps: Vec<Action> = Vec::new();
        assert(steps.deep_view() =~= Seq::<ActionView>::empty());
        match answer {
            Err(reason) => Turn {
                steps,
                next: Next::Finished(
                    Err(HooksmithError::HookExecution(HookExecutionError::HookNotFound(reason))),
                ),
            },
            Ok(picks) => {
                if picks.len() == 0 {
                    return Turn {
                        steps,
                        next: Next::Finished(
                            Err(
                                HooksmithError::HookExecution(
                                    HookExecutionError::HookNotFound(
                                        String::from_str("No hooks selected"),
                                    ),
                                ),
                            ),
                        ),
                    };
                }
                let mut names: Vec<String> = Vec::new();
                let mut k: usize = 0;
                assert(names.deep_view() =~= picked_names(self.config@, picks@.take(0)));
                while k < picks.len()
                    invariant
                        k <= picks.len(),
                        forall|j: int| 0 <= j < picks.len() ==> picks[j] < self.config@.len(),
                        names.deep_view() == picked_names(self.config@, picks@.take(k as int)),
                    decreases picks.len() - k,
                {
                    let ghost before = names.deep_view();
                    names.push(self.config.name(picks[k]).clone());
                    assert(names.deep_view() =~= before.push(
                        hook_names(self.config@)[picks[k as int] as int],
                    ));
                    assert(picks@.take(k + 1) =~= picks@.take(k as int).push(picks[k as int]));
                    assert(names.deep_view() =~= picked_names(self.config@, picks@.take(k + 1)));
                    k += 1;
                }
                assert(picks@.take(picks.len() as int) =~= picks@);
                self.run_hooks(&names, cwd)
            },
        }
    }

    /// Runs hooks either interactively or from provided names: the first
    /// turn of the run.
    pub fn run_hook(
        &self,
        hook_names: Option<&Vec<String>>,
        interactive: bool,
        cwd: &Option<String>,
    ) -> (turn: Turn)
        ensures
            turn@ == run_hook_turn(
                self.hooks(),
                self.mode(),
                cwd.deep_view(),
                match hook_names {
                    Some(names) => Some(names.deep_view()),
                    None => None,
                },
                interactive,
            ),
    {
        if interactive {
            return self.select_hooks_interactively();
        }
        let steps: Vec<Action> = Vec::new();
        assert(steps.deep_view() =~= Seq::<ActionView>::empty());
        match hook_names {
            Some(names) => {
                if names.len() == 0 {
                    return Turn {
                        steps,
                        next: Next::Finished(
                            Err(
                                HooksmithError::HookExecution(
                                    HookExecutionError::HookNotFound(
                                        String::from_str("No hooks specified"),
                                    ),
                                ),
                            ),
                        ),
                    };
                }
                let unique_hooks = unique(names);
                self.run_hooks(&unique_hooks, cwd)
            },
            None => Turn {
                steps,
                next: Next::Finished(
                    Err(
                        HooksmithError::HookExecution(
                            HookExecutionError::HookNotFound(
                                String::from_str(
                                    "No hook specified and interactive mode is disabled",
                                ),
                            ),
                        ),
                    ),
                ),
            },
        }
    }

    /// Generates the hook script content: a shell script that checks for
    /// the tool and runs the specified hook.
    pub fn generate_hook_content(hook_name: &str) -> (content: String)
        ensures
            content@ == hook_script(hook_name@),
    {
        let mut content = String::from_str(
            "#!/bin/sh\n\nif hooksmith -h >/dev/null 2>&1\nthen\n  exec hooksmith run ",
        );
        content.append(hook_name);
        content.append("\nelse\n  cargo install hooksmith\n  exec hooksmith run ");
        content.append(hook_name);
        content.append("\nfi");
        content
    }

    /// Creates the git hooks directory if it doesn't exist. Handles both
    /// normal and dry run modes.
    fn ensure_hooks_directory(&self, steps: &mut Vec<Action>, exists: bool)
        ensures
            final(steps).deep_view() == old(steps).deep_view() + ensure_dir_steps(
                self.mode(),
                exists,
            ),
    {
        let ghost before = steps.deep_view();
        if !exists {
            if self.dry_run {
                say(steps, skip_create_dir());
            } else {
                if self.verbose {
                    say(steps, creating_dir());
                }
                add_step(steps, Action::CreateDir);
            }
        }
        assert(steps.deep_view() =~= before + ensure_dir_steps(self.mode(), exists));
    }

    /// Writes the hook file and sets appropriate permissions. Handles both
    /// normal and dry run modes.
    fn write_hook_file(&self, steps: &mut Vec<Action>, posix: bool, hook_name: &str, content: String)
        requires
            content@ == hook_script(hook_name@),
        ensures
            final(steps).deep_view() == old(steps).deep_view() + write_hook_steps(
                self.mode(),
                posix,
                hook_name@,
            ),
    {
        let ghost before = steps.deep_view();
        if self.dry_run {
            say(steps, skip_install(hook_name));
            assert(steps.deep_view() =~= before + write_hook_steps(
                self.mode(),
                posix,
                hook_name@,
            ));
            return ;
        }
        add_step(steps, Action::WriteFile { hook: String::from_str(hook_name), content });
        if self.verbose {
            say(steps, installing_file(hook_name));
        }
        if posix {
            add_step(steps, Action::SetMode { hook: String::from_str(hook_name), mode: 0o755 });
            if self.verbose {
                say(steps, setting_permissions());
            }
        }
        assert(steps.deep_view() =~= before + write_hook_steps(self.mode(), posix, hook_name@));
    }

    /// Adds the installation of one hook into a directory of which it is
    /// known whether it exists and whether its files have permission bits.
    fn install_into(
        &self,
        steps: &mut Vec<Action>,
        Ghost(dir): Ghost<HooksDirView>,
        exists: bool,
        posix: bool,
        hook_name: &str,
    )
        requires
            dir.exists == exists,
            dir.posix == posix,
        ensures
            final(steps).deep_view() == old(steps).deep_view() + install_steps(
                self.mode(),
                dir,
                hook_name@,
            ),
    {
        let ghost before = steps.deep_view();
        if self.verbose && !self.dry_run {
            say(steps, installing_hook(hook_name));
        }
        self.ensure_hooks_directory(steps, exists);
        let hook_content = Self::generate_hook_content(hook_name);
        self.write_hook_file(steps, posix, hook_name, hook_content);
        if self.verbose {
            say(steps, installed(hook_name));
        }
        assert(steps.deep_view() =~= before + install_steps(self.mode(), dir, hook_name@));
    }

    /// Install a single, given hook, whether or not the configuration has it.
    pub fn install_hook(&self, hook_name: &str, located: &Result<HooksDir, GitError>) -> (plan: Plan)
        ensures
            plan@ == install_hook_plan(self.mode(), located_view(*located), hook_name@),
    {
        let mut steps: Vec<Action> = Vec::new();
        assert(steps.deep_view() =~= Seq::<ActionView>::empty());
        match located {
            Err(e) => {
                if self.verbose && !self.dry_run {
                    say(&mut steps, installing_hook(hook_name));
                }
                assert(steps.deep_view() =~= say_if(
                    self.verbose && !self.dry_run,
                    installing_hook_text(hook_name@),
                ));
                Plan { steps, result: Err(HooksmithError::Git(e.duplicate())) }
            },
            Ok(dir) => {
                self.install_into(&mut steps, Ghost(dir@), dir.exists, dir.posix, hook_name);
                assert(steps.deep_view() =~= install_steps(self.mode(), dir@, hook_name@));
                Plan { steps, result: Ok(()) }
            },
        }
    }

    /// Install all hooks of the configuration, after validating their names.
    pub fn install_hooks(&self, located: &Result<HooksDir, GitError>) -> (plan: Plan)
        ensures
            plan@ == install_hooks_plan(self.hooks(), self.mode(), located_view(*located)),
    {
        let ghost hooks = self.config@;
        let ghost mode = self.mode();
        let Plan { steps, result } = self.validate_hooks_for_install();
        let mut steps = steps;
        let ghost opening = steps.deep_view();
        match result {
            Err(e) => {
                return Plan { steps, result: Err(e) };
            },
            Ok(_) => {},
        }
        self.report_validation(&mut steps);
        let ghost validated = steps.deep_view();
        match located {
            Err(e) => Plan { steps, result: Err(HooksmithError::Git(e.duplicate())) },
            Ok(dir) => {
                let present = check_for_git_hooks(located);
                self.ensure_hooks_directory(&mut steps, present);
                if self.verbose {
                    say(&mut steps, installing_hooks());
                }
                let exists = present || !self.dry_run;
                let ghost target = ensured(mode, dir@);
                let ghost names = hook_names(hooks);
                let ghost prepared = steps.deep_view();
                assert(prepared =~= validated + ensure_dir_steps(mode, dir.exists) + say_if(
                    mode.verbose,
                    installing_hooks_text(),
                ));
                let mut i: usize = 0;
                assert(names.skip(0) =~= names);
                while i < self.config.len()
                    invariant
                        i <= self.config@.len(),
                        hooks == self.config@,
                        mode == self.mode(),
                        names == hook_names(hooks),
                        target.exists == exists,
                        target.posix == dir.posix,
                        steps.deep_view() + install_each(mode, target, names.skip(i as int))
                            == prepared + install_each(mode, target, names),
                    decreases self.config@.len() - i,
                {
                    let ghost before = steps.deep_view();
                    let ghost rest = names.skip(i as int);
                    let name = self.config.name(i);
                    assert(rest[0] == name@);
                    assert(rest.drop_first() =~= names.skip(i + 1));
                    self.install_into(&mut steps, Ghost(target), exists, dir.posix, name.as_str());
                    assert(steps.deep_view() + install_each(mode, target, names.skip(i + 1))
                        =~= before + install_each(mode, target, rest));
                    i += 1;
                }
                assert(steps.deep_view() =~= prepared + install_each(mode, target, names));
                Plan { steps, result: Ok(()) }
            },
        }
    }

    /// Finds the hooks that are in the configuration but not installed, and
    /// the files that are installed but not in the configuration.
    pub fn compare(&self, dir: &HooksDir) -> (found: Comparison)
        ensures
            found.missing.deep_view() == missing_hooks(self.hooks(), dir@),
            found.extra.deep_view() == extra_hooks(self.hooks(), dir@),
    {
        let missing = self.check_missing_hooks(dir);
        let extra = self.check_extra_hooks(dir);
        Comparison { missing, extra }
    }

    /// Check for hooks that are in config but not installed.
    fn check_missing_hooks(&self, dir: &HooksDir) -> (missing: Vec<String>)
        ensures
            missing.deep_view() == missing_hooks(self.hooks(), dir@),
    {
        let ghost names = hook_names(self.config@);
        let ghost absent = missing_in(dir@);
        let mut missing: Vec<String> = Vec::new();
        let mut i: usize = 0;
        assert(missing.deep_view() =~= names.take(0).filter(absent));
        while i < self.config.len()
            invariant
                i <= self.config@.len(),
                names == hook_names(self.config@),
                absent == missing_in(dir@),
                missing.deep_view() == names.take(i as int).filter(absent),
            decreases self.config@.len() - i,
        {
            let name = self.config.name(i);
            proof {
                assert(names.take(i + 1) =~= names.take(i as int).push(name@));
                names.take(i as int).lemma_filter_push(name@, absent);
            }
            if !dir.contains(name.as_str()) {
                let ghost before = missing.deep_view();
                missing.push(name.clone());
                assert(missing.deep_view() =~= before.push(name@));
            }
            i += 1;
        }
        assert(names.take(self.config@.len() as int) =~= names);
        missing
    }

    /// Check for hooks that are installed but not in config.
    fn check_extra_hooks(&self, dir: &HooksDir) -> (extra: Vec<String>)
        ensures
            extra.deep_view() == extra_hooks(self.hooks(), dir@),
    {
        let ghost entries = dir.entries.deep_view();
        let ghost alien = extra_to(self.config@);
        let ghost name_of = |entry: DirEntryView| entry.name;
        let mut extra: Vec<String> = Vec::new();
        let mut i: usize = 0;
        assert(extra.deep_view() =~= entries.take(0).filter(alien).map_values(name_of));
        while i < dir.entries.len()
            invariant
                i <= dir.entries.len(),
                entries == dir.entries.deep_view(),
                alien == extra_to(self.config@),
                name_of == (|entry: DirEntryView| entry.name),
                extra.deep_view() == entries.take(i as int).filter(alien).map_values(name_of),
            decreases dir.entries.len() - i,
        {
            let entry = &dir.entries[i];
            proof {
                assert(entries.take(i + 1) =~= entries.take(i as int).push(entry@));
                entries.take(i as int).lemma_filter_push(entry@, alien);
            }
            if entry.is_file && !ends_with(entry.name.as_str(), ".sample")
                && !self.config.contains_key(entry.name.as_str()) {
                let ghost before = extra.deep_view();
                extra.push(entry.name.clone());
                assert(extra.deep_view() =~= before.push(entry@.name));
                assert(entries.take(i as int).filter(alien).push(entry@).map_values(name_of)
                    =~= entries.take(i as int).filter(alien).map_values(name_of).push(
                    entry@.name,
                ));
            }
            i += 1;
        }
        assert(entries.take(dir.entries.len() as int) =~= entries);
        extra
    }

    /// Compare installed hooks with the configuration file.
    pub fn compare_hooks(&self, located: &Result<HooksDir, GitError>) -> (plan: Plan)
        ensures
            plan@ == compare_plan(self.hooks(), self.mode().verbose, located_view(*located)),
    {
        let mut steps: Vec<Action> = Vec::new();
        assert(steps.deep_view() =~= Seq::<ActionView>::empty());
        let dir = match located {
            Err(e) => {
                return Plan { steps, result: Err(HooksmithError::Git(e.duplicate())) };
            },
            Ok(dir) => dir,
        };
        if self.verbose {
            say(&mut steps, comparing());
        }
        let ghost opened = steps.deep_view();
        assert(opened =~= say_if(self.verbose, comparing_text()));
        let found = self.compare(dir);
        let ghost missing = found.missing.deep_view();
        let ghost extra = found.extra.deep_view();
        assert(missing.len() == found.missing.len() && extra.len() == found.extra.len());
        if found.missing.len() > 0 || found.extra.len() > 0 {
            say(&mut steps, differences_found());
            let ghost headed = steps.deep_view();
            let ghost missing_wording = |name: Seq<char>| missing_hook_text(name);
            let ghost extra_wording = |name: Seq<char>| extra_hook_text(name);
            let mut i: usize = 0;
            assert(steps.deep_view() =~= headed + say_each(missing.take(0), missing_wording));
            while i < found.missing.len()
                invariant
                    i <= found.missing.len(),
                    missing == found.missing.deep_view(),
                    missing_wording == (|name: Seq<char>| missing_hook_text(name)),
                    steps.deep_view() == headed + say_each(missing.take(i as int), missing_wording),
                decreases found.missing.len() - i,
            {
                say(&mut steps, missing_hook(found.missing[i].as_str()));
                assert(missing.take(i + 1) =~= missing.take(i as int).push(missing[i as int]));
                assert(steps.deep_view() =~= headed + say_each(
                    missing.take(i + 1),
                    missing_wording,
                ));
                i += 1;
            }
            assert(missing.take(found.missing.len() as int) =~= missing);
            let ghost listed = steps.deep_view();
            let mut j: usize = 0;
            assert(steps.deep_view() =~= listed + say_each(extra.take(0), extra_wording));
            while j < found.extra.len()
                invariant
                    j <= found.extra.len(),
                    extra == found.extra.deep_view(),
                    extra_wording == (|name: Seq<char>| extra_hook_text(name)),
                    steps.deep_view() == listed + say_each(extra.take(j as int), extra_wording),
                decreases found.extra.len() - j,
            {
                say(&mut steps, extra_hook(found.extra[j].as_str()));
                assert(extra.take(j + 1) =~= extra.take(j as int).push(extra[j as int]));
                assert(steps.deep_view() =~= listed + say_each(extra.take(j + 1), extra_wording));
                j += 1;
            }
            assert(extra.take(found.extra.len() as int) =~= extra);
            assert(steps.deep_view() =~= compare_steps(self.config@, self.verbose, dir@));
        } else {
            say(&mut steps, all_match());
            assert(steps.deep_view() =~= compare_steps(self.config@, self.verbose, dir@));
        }
        Plan { steps, result: Ok(()) }
    }

    /// Adds the removal of one hook of the configuration.
    fn uninstall_from(&self, steps: &mut Vec<Action>, dir: &HooksDir, hook_name: &str)
        ensures
            final(steps).deep_view() == old(steps).deep_view() + uninstall_steps(
                self.mode(),
                dir@,
                hook_name@,
            ),
    {
        let ghost before = steps.deep_view();
        if self.verbose && !self.dry_run {
            say(steps, uninstalling(hook_name));
        }
        if dir.contains(hook_name) {
            if self.dry_run {
                let path = dir.hook_path(hook_name);
                say(steps, would_remove(path.as_str()));
            } else {
                add_step(steps, Action::RemoveFile { hook: String::from_str(hook_name) });
            }
        } else {
            say(steps, no_hook_file(hook_name));
        }
        assert(steps.deep_view() =~= before + uninstall_steps(self.mode(), dir@, hook_name@));
    }

    /// Uninstalls a single, given hook by removing its file.
    pub fn uninstall_given_hook(&self, hook_name: &str, located: &Result<HooksDir, GitError>) -> (plan:
        Plan)
        ensures
            plan@ == uninstall_given_plan(
                self.hooks(),
                self.mode(),
                located_view(*located),
                hook_name@,
            ),
    {
        let mut steps: Vec<Action> = Vec::new();
        assert(steps.deep_view() =~= Seq::<ActionView>::empty());
        if self.config.contains_key(hook_name) {
            match located {
                Err(e) => {
                    if self.verbose && !self.dry_run {
                        say(&mut steps, uninstalling(hook_name));
                    }
                    assert(steps.deep_view() =~= say_if(
                        self.verbose && !self.dry_run,
                        uninstalling_text(hook_name@),
                    ));
                    Plan { steps, result: Err(HooksmithError::Git(e.duplicate())) }
                },
                Ok(dir) => {
                    self.uninstall_from(&mut steps, dir, hook_name);
                    assert(steps.deep_view() =~= uninstall_steps(self.mode(), dir@, hook_name@));
                    Plan { steps, result: Ok(()) }
                },
            }
        } else {
            let possible_hooks_list = self.get_available_hooks();
            say_err(&mut steps, not_configured(hook_name));
            say_err(&mut steps, possible_hooks(debug_names(&possible_hooks_list).as_str()));
            assert(steps.deep_view() =~= uninstall_given_plan(
                self.hooks(),
                self.mode(),
                located_view(*located),
                hook_name@,
            ).steps);
            Plan {
                steps,
                result: Err(
                    HooksmithError::Validation(
                        ValidationError::InvalidHookName(String::from_str(hook_name)),
                    ),
                ),
            }
        }
    }

    /// Uninstalls all hooks by removing their files.
    pub fn uninstall_hooks(&self, located: &Result<HooksDir, GitError>) -> (plan: Plan)
        ensures
            plan@ == uninstall_hooks_plan(self.hooks(), self.mode(), located_view(*located)),
    {
        let ghost hooks = self.config@;
        let ghost mode = self.mode();
        let ghost names = hook_names(hooks);
        let loud = self.verbose && !self.dry_run;
        let mut steps: Vec<Action> = Vec::new();
        assert(steps.deep_view() =~= Seq::<ActionView>::empty());
        if loud {
            say(&mut steps, uninstalling_all());
        }
        let ghost opening = steps.deep_view();
        assert(opening =~= say_if(loud, uninstalling_all_text()));
        if self.config.len() > 0 {
            let dir = match located {
                Err(e) => {
                    if loud {
                        say(&mut steps, uninstalling(self.config.name(0).as_str()));
                    }
                    assert(steps.deep_view() =~= opening + say_if(
                        loud,
                        uninstalling_text(hooks[0].name),
                    ));
                    return Plan { steps, result: Err(HooksmithError::Git(e.duplicate())) };
                },
                Ok(dir) => dir,
            };
            let mut i: usize = 0;
            assert(names.skip(0) =~= names);
            while i < self.config.len()
                invariant
                    i <= self.config@.len(),
                    hooks == self.config@,
                    mode == self.mode(),
                    names == hook_names(hooks),
                    steps.deep_view() + uninstall_each(mode, dir@, names.skip(i as int)) == opening
                        + uninstall_each(mode, dir@, names),
                decreases self.config@.len() - i,
            {
                let ghost before = steps.deep_view();
                let ghost rest = names.skip(i as int);
                let name = self.config.name(i);
                assert(rest[0] == name@);
                assert(rest.drop_first() =~= names.skip(i + 1));
                self.uninstall_from(&mut steps, dir, name.as_str());
                assert(steps.deep_view() + uninstall_each(mode, dir@, names.skip(i + 1))
                    =~= before + uninstall_each(mode, dir@, rest));
                i += 1;
            }
            assert(steps.deep_view() =~= opening + uninstall_each(mode, dir@, names));
        }
        let ghost removed = steps.deep_view();
        if loud {
            say(&mut steps, uninstall_completed(self.config.len()));
        }
        assert(steps.deep_view() =~= removed + say_if(
            loud,
            uninstall_completed_text(hooks.len()),
        ));
        Plan { steps, result: Ok(()) }
    }
}

/// Handles the dry run output for a command: adds what a dry run says of it.
fn handle_dry_run(
    items: &mut Vec<RunItem>,
    command_str: &str,
    idx: usize,
    total_commands: usize,
    cwd: &Option<String>,
)
    requires
        idx < total_commands,
    ensures
        final(items).deep_view() == old(items).deep_view() + announcement(
            cwd.deep_view(),
            command_str@,
            (idx + 1) as nat,
            total_commands as nat,
        ),
{
    let ghost before = items.deep_view();
    items.push(
        RunItem::Say(Line { to_stderr: false, text: step_header(idx + 1, total_commands) }),
    );
    items.push(RunItem::Say(Line { to_stderr: false, text: step_command(command_str) }));
    match cwd {
        Some(dir) => {
            items.push(
                RunItem::Say(Line { to_stderr: false, text: working_directory(dir.as_str()) }),
            );
        },
        None => {},
    }
    items.push(RunItem::Say(Line { to_stderr: false, text: String::new() }));
    assert(items.deep_view() =~= before + announcement(
        cwd.deep_view(),
        command_str@,
        (idx + 1) as nat,
        total_commands as nat,
    ));
}

/// The names of a list without repetitions, each where it first occurs.
pub fn unique(names: &Vec<String>) -> (kept: Vec<String>)
    ensures
        kept.deep_view() == unique_names(names.deep_view()),
        kept.deep_view().no_duplicates(),
        forall|name: Seq<char>| kept.deep_view().contains(name) <==> names.deep_view().contains(name),
{
    let mut kept: Vec<String> = Vec::new();
    let mut i: usize = 0;
    assert(kept.deep_view() =~= unique_names(names.deep_view().take(0)));
    while i < names.len()
        invariant
            i <= names.len(),
            kept.deep_view() == unique_names(names.deep_view().take(i as int)),
        decreases names.len() - i,
    {
        let ghost before = kept.deep_view();
        let ghost seen = names.deep_view().take(i + 1);
        assert(seen.drop_last() =~= names.deep_view().take(i as int));
        assert(seen.last() == names[i as int]@);
        if !contains_name(&kept, names[i].as_str()) {
            kept.push(names[i].clone());
            assert(kept.deep_view() =~= before.push(names[i as int]@));
        }
        i += 1;
    }
    assert(names.deep_view().take(names.len() as int) =~= names.deep_view());
    proof {
        lemma_unique_names(names.deep_view());
    }
    kept
}

} // verus!
