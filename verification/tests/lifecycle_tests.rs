use hooksmith::config::Hook;
use hooksmith::error::{
    exit_code, GitError, HookExecutionError, HooksmithError, ValidationError,
};
use hooksmith::plan::{Action, DirEntry, HooksDir, Plan};
use hooksmith::run::{CommandOutcome, Next, Turn};
use hooksmith::utils::Line;
use hooksmith::Hooksmith;

fn hook(commands: &[&str]) -> Hook {
    Hook { commands: commands.iter().map(|c| c.to_string()).collect() }
}

fn manager(hooks: &[(&str, &[&str])], dry_run: bool, verbose: bool) -> Hooksmith {
    let hooks = hooks.iter().map(|(name, commands)| (name.to_string(), hook(commands))).collect();
    Hooksmith::new_from_config(hooks, dry_run, verbose).unwrap()
}

/// A configuration with two hooks of one command each.
fn test_env(dry_run: bool, verbose: bool) -> Hooksmith {
    manager(
        &[("pre-commit", &["cargo fmt --all -- --check"]), ("pre-push", &["cargo test"])],
        dry_run,
        verbose,
    )
}

fn hooks_dir(exists: bool, files: &[&str]) -> HooksDir {
    HooksDir {
        path: ".git/hooks".to_string(),
        exists,
        posix: true,
        entries: files.iter().map(|f| DirEntry { name: f.to_string(), is_file: true }).collect(),
    }
}

fn out(text: &str) -> Action {
    Action::Say(Line { to_stderr: false, text: text.to_string() })
}

fn err(text: &str) -> Action {
    Action::Say(Line { to_stderr: true, text: text.to_string() })
}

fn names(list: &[&str]) -> Vec<String> {
    list.iter().map(|n| n.to_string()).collect()
}

fn mutations(steps: &[Action]) -> usize {
    steps.iter().filter(|step| !matches!(step, Action::Say(_))).count()
}

/// Drives a run with the given outcomes, one for each command that is
/// started, and gives back the commands that were started and the result.
fn drive(mut turn: Turn, outcomes: &[CommandOutcome]) -> (Vec<String>, Result<(), HooksmithError>) {
    let mut started = Vec::new();
    let mut next_outcome = outcomes.iter();
    loop {
        match turn.next {
            Next::Spawn { command, pending } => {
                started.push(command);
                let outcome = next_outcome.next().expect("an outcome for each command").clone();
                turn = pending.resume(outcome);
            }
            Next::Finished(result) => return (started, result),
            Next::Ask { .. } | Next::Confirm { .. } => panic!("no question was expected"),
        }
    }
}

const SCRIPT: &str = "#!/bin/sh\n\nif hooksmith -h >/dev/null 2>&1\nthen\n  exec hooksmith run pre-commit\nelse\n  cargo install hooksmith\n  exec hooksmith run pre-commit\nfi";

#[test]
fn test_validate_hooks_for_install_invalid() {
    // Create config with invalid hook
    let hs = manager(&[("non-existent-hook", &["echo 'invalid'"])], false, false);

    let result = hs.validate_hooks_for_install().result;
    assert!(result.is_err());
}

#[test]
fn test_empty_commands_list() {
    let hs = manager(&[("pre-commit", &[])], false, false);

    let (started, result) = drive(hs.run_hooks(&names(&["pre-commit"]), &None), &[]);
    assert!(result.is_ok()); // Should handle empty command lists gracefully
    assert!(started.is_empty());
}

#[test]
fn test_install_hook() {
    let hs = test_env(false, false);
    let mut dir = hooks_dir(true, &[]);

    // Run the function
    let plan = hs.install_hook("pre-commit", &Ok(dir.clone()));
    assert!(plan.result.is_ok());
    dir.apply_all(&plan.steps);

    // Verify hook was created
    assert!(dir.contains("pre-commit"));

    // Check content
    let content = plan
        .steps
        .iter()
        .find_map(|step| match step {
            Action::WriteFile { hook, content } if hook == "pre-commit" => Some(content.clone()),
            _ => None,
        })
        .unwrap();
    assert!(content.contains("exec hooksmith run pre-commit"));
}

#[test]
fn test_execute_command() {
    let hs = manager(&[("pre-commit", &["echo 'test command'"])], false, false);
    let (started, result) = drive(
        hs.run_hooks(&names(&["pre-commit"]), &None),
        &[CommandOutcome::Exited(Some(0))],
    );
    assert_eq!(started, vec!["echo 'test command'".to_string()]);
    assert!(result.is_ok());

    // Test dry run
    let hs = manager(&[("pre-commit", &["invalid_command_that_should_fail"])], true, false);
    let (started, result) = drive(hs.run_hooks(&names(&["pre-commit"]), &None), &[]);
    assert!(started.is_empty());
    assert!(result.is_ok()); // Should succeed in dry run mode
}

#[test]
fn test_run_hook() {
    let hs = test_env(true, false);

    // Test with dry run
    let (started, result) = drive(hs.run_hooks(&names(&["pre-commit"]), &None), &[]);
    assert!(started.is_empty());
    assert!(result.is_ok());
}

#[test]
fn test_validate_hooks() {
    let hs = test_env(false, false);
    assert!(hs.validate_hooks().result.is_ok());

    // Create config with an invalid hook
    let invalid = manager(&[("not-a-real-hook", &["echo 'test'"])], false, false);
    assert!(invalid.validate_hooks().result.is_ok());
}

#[test]
fn run_many_fails_with_the_code_of_the_failing_hook() {
    let hs = manager(&[("pre-commit", &["true"]), ("pre-push", &["false"])], false, false);
    let turn = hs.run_hook(Some(&names(&["pre-commit", "pre-push"])), false, &None);
    let (started, result) = drive(
        turn,
        &[CommandOutcome::Exited(Some(0)), CommandOutcome::Exited(Some(1))],
    );
    assert_eq!(started, names(&["true", "false"]));
    assert_eq!(
        result,
        Err(HooksmithError::HookExecution(HookExecutionError::CommandFailed(1)))
    );
    assert_eq!(exit_code(&result), 1);
}

#[test]
fn unknown_hook_name_is_reported_and_stops_installation() {
    let hs = manager(&[("not-a-real-hook", &["echo hi"])], false, false);
    let found = hs.validate();
    assert_eq!(found.valid_count, 0);
    assert_eq!(found.invalid_names, names(&["not-a-real-hook"]));

    let report = hs.validate_hooks();
    assert_eq!(exit_code(&report.result), 0);
    assert_eq!(
        report.steps,
        vec![out(
            "⚠️ WARNING: Invalid hooks detected\n\nThe following hooks are not recognized by Git:\n  - not-a-real-hook\n\nPlease use only valid Git hook names in your configuration."
        )]
    );

    let plan = hs.install_hooks(&Ok(hooks_dir(false, &[])));
    assert_eq!(mutations(&plan.steps), 0);
    assert_eq!(
        plan.result,
        Err(HooksmithError::Validation(ValidationError::InvalidHookName(
            "Invalid hook names detected\n\nThe following hooks are not recognized by Git:\n  - not-a-real-hook\n\nPlease check your configuration file and use only valid Git hook names.".to_string()
        )))
    );
    assert_ne!(exit_code(&plan.result), 0);
}

#[test]
fn compare_reports_a_hook_that_is_not_installed() {
    let hs = manager(&[("pre-commit", &["true"])], false, false);
    let dir = hooks_dir(true, &[]);
    let found = hs.compare(&dir);
    assert_eq!(found.missing, names(&["pre-commit"]));
    assert!(found.extra.is_empty());

    let plan = hs.compare_hooks(&Ok(dir));
    assert_eq!(
        plan,
        Plan {
            steps: vec![
                out("\n❌ Differences found:"),
                out("  - Hook 'pre-commit' is in config but not installed"),
            ],
            result: Ok(()),
        }
    );
}

#[test]
fn compare_reports_files_that_are_not_configured_and_skips_samples() {
    let hs = manager(&[("pre-commit", &["true"])], false, true);
    let mut dir = hooks_dir(true, &["pre-commit", "pre-push", "pre-commit.sample", "sample"]);
    dir.entries.push(DirEntry { name: "info".to_string(), is_file: false });
    let plan = hs.compare_hooks(&Ok(dir));
    assert_eq!(
        plan.steps,
        vec![
            out("🔍 Comparing installed hooks with configuration file..."),
            out("\n❌ Differences found:"),
            out("  - Hook 'pre-push' is installed but not in config"),
            out("  - Hook 'sample' is installed but not in config"),
        ]
    );
    assert!(plan.result.is_ok());
}

#[test]
fn compare_without_a_repository_fails() {
    let hs = test_env(false, true);
    let plan = hs.compare_hooks(&Err(GitError::NotGitRepo));
    assert_eq!(plan, Plan { steps: vec![], result: Err(HooksmithError::Git(GitError::NotGitRepo)) });
}

#[test]
fn install_all_then_compare_reports_no_difference() {
    let hs = test_env(false, false);
    let mut dir = hooks_dir(false, &[]);
    let plan = hs.install_hooks(&Ok(dir.clone()));
    assert!(plan.result.is_ok());
    dir.apply_all(&plan.steps);
    assert!(dir.exists);
    assert!(dir.contains("pre-commit") && dir.contains("pre-push"));

    let compared = hs.compare_hooks(&Ok(dir));
    assert_eq!(
        compared,
        Plan { steps: vec![out("✅ All hooks match the configuration file")], result: Ok(()) }
    );
}

#[test]
fn install_all_creates_the_directory_and_installs_each_hook() {
    let hs = test_env(false, false);
    let plan = hs.install_hooks(&Ok(hooks_dir(false, &[])));
    let script = |hook: &str| SCRIPT.replace("pre-commit", hook);
    assert_eq!(
        plan.steps,
        vec![
            Action::CreateDir,
            Action::WriteFile { hook: "pre-commit".to_string(), content: script("pre-commit") },
            Action::SetMode { hook: "pre-commit".to_string(), mode: 0o755 },
            Action::WriteFile { hook: "pre-push".to_string(), content: script("pre-push") },
            Action::SetMode { hook: "pre-push".to_string(), mode: 0o755 },
        ]
    );
    assert!(plan.result.is_ok());
}

#[test]
fn install_all_says_more_when_verbose() {
    let hs = manager(&[("pre-commit", &["true"])], false, true);
    let plan = hs.install_hooks(&Ok(hooks_dir(false, &[])));
    assert_eq!(
        plan.steps,
        vec![
            out("🔍 Validating hooks before installation..."),
            out("🔍 Validating hooks in configuration file..."),
            out("  ✅ Hook 'pre-commit' is valid"),
            out("✅ SUCCESS: All hooks are valid\n\nFound 1 valid Git hooks in your configuration."),
            out("  - Creating .git/hooks directory..."),
            Action::CreateDir,
            out("🪝 Installing hooks..."),
            out("🪝 Installing pre-commit hook..."),
            Action::WriteFile { hook: "pre-commit".to_string(), content: SCRIPT.to_string() },
            out("  - Installing pre-commit file..."),
            Action::SetMode { hook: "pre-commit".to_string(), mode: 0o755 },
            out("  - Setting file permissions..."),
            out("  ✅ Installed pre-commit file"),
        ]
    );
}

#[test]
fn install_one_writes_the_exact_script_and_makes_it_executable() {
    let hs = manager(&[], false, false);
    let plan = hs.install_hook("pre-commit", &Ok(hooks_dir(true, &[])));
    assert_eq!(
        plan,
        Plan {
            steps: vec![
                Action::WriteFile { hook: "pre-commit".to_string(), content: SCRIPT.to_string() },
                Action::SetMode { hook: "pre-commit".to_string(), mode: 0o755 },
            ],
            result: Ok(()),
        }
    );
    assert_eq!(Hooksmith::generate_hook_content("pre-commit"), SCRIPT);
}

#[test]
fn install_one_skips_permissions_where_there_are_none() {
    let hs = manager(&[], false, true);
    let mut dir = hooks_dir(true, &[]);
    dir.posix = false;
    let plan = hs.install_hook("pre-commit", &Ok(dir));
    assert_eq!(
        plan.steps,
        vec![
            out("🪝 Installing pre-commit hook..."),
            Action::WriteFile { hook: "pre-commit".to_string(), content: SCRIPT.to_string() },
            out("  - Installing pre-commit file..."),
            out("  ✅ Installed pre-commit file"),
        ]
    );
}

#[test]
fn install_one_without_a_repository_fails() {
    let hs = manager(&[], false, true);
    let plan = hs.install_hook("pre-commit", &Err(GitError::NotGitRepo));
    assert_eq!(
        plan,
        Plan {
            steps: vec![out("🪝 Installing pre-commit hook...")],
            result: Err(HooksmithError::Git(GitError::NotGitRepo)),
        }
    );
}

#[test]
fn install_one_twice_leaves_the_same_file() {
    let hs = manager(&[], false, false);
    let mut dir = hooks_dir(false, &[]);
    let first = hs.install_hook("pre-commit", &Ok(dir.clone()));
    dir.apply_all(&first.steps);
    let once = dir.clone();
    let second = hs.install_hook("pre-commit", &Ok(dir.clone()));
    dir.apply_all(&second.steps);
    assert_eq!(dir, once);

    let written = |plan: &Plan| -> Vec<String> {
        plan.steps
            .iter()
            .filter_map(|step| match step {
                Action::WriteFile { content, .. } => Some(content.clone()),
                _ => None,
            })
            .collect()
    };
    assert_eq!(written(&first), vec![SCRIPT.to_string()]);
    assert_eq!(written(&second), written(&first));
}

#[test]
fn uninstall_one_removes_that_file_and_no_other() {
    let hs = test_env(false, false);
    let mut dir = hooks_dir(true, &["pre-commit", "pre-push", "commit-msg.sample"]);
    let plan = hs.uninstall_given_hook("pre-commit", &Ok(dir.clone()));
    assert_eq!(
        plan,
        Plan { steps: vec![Action::RemoveFile { hook: "pre-commit".to_string() }], result: Ok(()) }
    );
    dir.apply_all(&plan.steps);
    assert!(!dir.contains("pre-commit"));
    assert!(dir.contains("pre-push"));
    assert!(dir.contains("commit-msg.sample"));
}

#[test]
fn uninstall_one_that_has_no_file_is_no_error() {
    let hs = test_env(false, true);
    let plan = hs.uninstall_given_hook("pre-push", &Ok(hooks_dir(true, &["pre-commit"])));
    assert_eq!(
        plan,
        Plan {
            steps: vec![
                out("🗑️ Uninstalling hook: pre-push"),
                out("  ⚠️ No hook file found for pre-push"),
            ],
            result: Ok(()),
        }
    );
}

#[test]
fn uninstall_one_that_is_not_configured_is_refused() {
    let hs = manager(&[("pre-commit", &["echo \"hi\""])], false, false);
    let plan = hs.uninstall_given_hook("post-merge", &Ok(hooks_dir(true, &["post-merge"])));
    assert_eq!(
        plan,
        Plan {
            steps: vec![
                err("No file found for hook 'post-merge'"),
                err("Possible hooks: [\"pre-commit\"]"),
            ],
            result: Err(HooksmithError::Validation(ValidationError::InvalidHookName(
                "post-merge".to_string()
            ))),
        }
    );
}

#[test]
fn uninstall_all_removes_every_configured_hook_that_is_there() {
    let hs = test_env(false, true);
    let mut dir = hooks_dir(true, &["pre-push", "post-merge"]);
    let plan = hs.uninstall_hooks(&Ok(dir.clone()));
    assert_eq!(
        plan.steps,
        vec![
            out("🗑️ Uninstalling all hooks"),
            out("🗑️ Uninstalling hook: pre-commit"),
            out("  ⚠️ No hook file found for pre-commit"),
            out("🗑️ Uninstalling hook: pre-push"),
            Action::RemoveFile { hook: "pre-push".to_string() },
            out("🏁 Uninstallation completed: 2 hooks removed"),
        ]
    );
    assert!(plan.result.is_ok());
    dir.apply_all(&plan.steps);
    assert_eq!(dir, hooks_dir(true, &["post-merge"]));
}

#[test]
fn uninstall_all_without_a_repository_fails_at_the_first_hook() {
    let hs = test_env(false, false);
    let plan = hs.uninstall_hooks(&Err(GitError::Command("no git".to_string())));
    assert_eq!(
        plan,
        Plan {
            steps: vec![],
            result: Err(HooksmithError::Git(GitError::Command("no git".to_string()))),
        }
    );
}

#[test]
fn dry_run_changes_nothing_and_ends_as_the_real_run() {
    let dry = test_env(true, false);
    let wet = test_env(false, false);
    let dir = hooks_dir(false, &[]);
    let full = hooks_dir(true, &["pre-commit", "pre-push"]);

    let plans = vec![
        (dry.install_hooks(&Ok(dir.clone())), wet.install_hooks(&Ok(dir.clone()))),
        (
            dry.install_hook("pre-commit", &Ok(dir.clone())),
            wet.install_hook("pre-commit", &Ok(dir.clone())),
        ),
        (dry.uninstall_hooks(&Ok(full.clone())), wet.uninstall_hooks(&Ok(full.clone()))),
        (
            dry.uninstall_given_hook("pre-push", &Ok(full.clone())),
            wet.uninstall_given_hook("pre-push", &Ok(full.clone())),
        ),
        (
            dry.uninstall_given_hook("missing", &Ok(full.clone())),
            wet.uninstall_given_hook("missing", &Ok(full.clone())),
        ),
        (dry.install_hooks(&Err(GitError::NotGitRepo)), wet.install_hooks(&Err(GitError::NotGitRepo))),
    ];
    for (dry_plan, wet_plan) in plans {
        assert_eq!(mutations(&dry_plan.steps), 0);
        assert_eq!(dry_plan.result, wet_plan.result);
    }
}

#[test]
fn dry_run_announces_what_it_skips() {
    let hs = manager(&[("pre-commit", &["true"])], true, false);
    let plan = hs.install_hooks(&Ok(hooks_dir(false, &[])));
    assert_eq!(
        plan.steps,
        vec![
            out("🪝 Skipping creation of .git/hooks directory in dry run mode"),
            out("🪝 Skipping creation of .git/hooks directory in dry run mode"),
            out("🪝 Skipping installation of pre-commit hook in dry run mode"),
        ]
    );
    let plan = hs.uninstall_given_hook("pre-commit", &Ok(hooks_dir(true, &["pre-commit"])));
    assert_eq!(
        plan.steps,
        vec![out("  🚧 Dry run: Would remove hook file: .git/hooks/pre-commit")]
    );
}

#[test]
fn dry_run_of_a_hook_announces_each_step_and_starts_nothing() {
    let hs = manager(&[("pre-commit", &["false", "exit 3"])], true, true);
    let turn = hs.run_hooks(&names(&["pre-commit"]), &Some("/work".to_string()));
    assert_eq!(
        turn.steps,
        vec![
            out("Step 1 of 2:"),
            out("  Command: false"),
            out("  Working directory: /work"),
            out(""),
            out("Step 2 of 2:"),
            out("  Command: exit 3"),
            out("  Working directory: /work"),
            out(""),
            out("🏁 Dry run completed. 2 commands would be executed"),
        ]
    );
    assert_eq!(turn.next, Next::Finished(Ok(())));

    let turn = hs.run_hooks(&names(&["pre-commit"]), &None);
    assert_eq!(turn.steps.len(), 7);
}

#[test]
fn run_halts_at_the_first_failing_command() {
    let hs = manager(&[("pre-commit", &["ok-1", "fail", "ok-2"])], false, false);
    let (started, result) = drive(
        hs.run_hooks(&names(&["pre-commit"]), &None),
        &[CommandOutcome::Exited(Some(0)), CommandOutcome::Exited(Some(42))],
    );
    assert_eq!(started, names(&["ok-1", "fail"]));
    assert_eq!(
        result,
        Err(HooksmithError::HookExecution(HookExecutionError::CommandFailed(42)))
    );
    assert_eq!(exit_code(&result), 42);
}

#[test]
fn run_says_what_failed() {
    let hs = manager(&[("pre-commit", &["first", "second"])], false, true);
    let turn = hs.run_hooks(&names(&["pre-commit"]), &None);
    assert_eq!(
        turn.steps,
        vec![out("📋 Running Hook: pre-commit"), out("  - Running command: first")]
    );
    let Next::Spawn { command, pending } = turn.next else { panic!("a command was expected") };
    assert_eq!(command, "first");
    let turn = pending.resume(CommandOutcome::Exited(Some(0)));
    assert_eq!(
        turn.steps,
        vec![out("\n  ✅ Command completed successfully"), out("  - Running command: second")]
    );
    let Next::Spawn { command, pending } = turn.next else { panic!("a command was expected") };
    assert_eq!(command, "second");
    let turn = pending.resume(CommandOutcome::Exited(Some(2)));
    assert_eq!(
        turn,
        Turn {
            steps: vec![err(
                "🚨 ERROR: Command failed\n\nHook 'pre-commit' command failed with status code 2\n\nPlease check your command and try again."
            )],
            next: Next::Finished(Err(HooksmithError::HookExecution(
                HookExecutionError::CommandFailed(2)
            ))),
        }
    );
}

#[test]
fn a_command_ended_by_a_signal_counts_as_code_one() {
    let hs = manager(&[("pre-commit", &["sleep 100"])], false, false);
    let (_, result) =
        drive(hs.run_hooks(&names(&["pre-commit"]), &None), &[CommandOutcome::Exited(None)]);
    assert_eq!(
        result,
        Err(HooksmithError::HookExecution(HookExecutionError::CommandFailed(1)))
    );
}

#[test]
fn a_command_that_cannot_be_started_fails_the_run() {
    let hs = manager(&[("pre-commit", &["a", "b"])], false, false);
    let turn = hs.run_hooks(&names(&["pre-commit"]), &None);
    let Next::Spawn { pending, .. } = turn.next else { panic!("a command was expected") };
    let turn = pending.resume(CommandOutcome::NotStarted("no shell".to_string()));
    assert_eq!(
        turn,
        Turn {
            steps: vec![err(
                "🚨 ERROR: Failed to execute command\n\nError: no shell\n\nPlease ensure the command exists and is executable."
            )],
            next: Next::Finished(Err(HooksmithError::HookExecution(
                HookExecutionError::Command("no shell".to_string())
            ))),
        }
    );
    let Next::Finished(result) = turn.next else { panic!("the run should be over") };
    assert_eq!(exit_code(&result), 1);
}

#[test]
fn run_of_an_unknown_hook_lists_the_configured_hooks() {
    let hs = test_env(false, false);
    let turn = hs.run_hooks(&names(&["post-merge"]), &None);
    assert_eq!(
        turn,
        Turn {
            steps: vec![err(
                "🚨 ERROR: Hook not found\n\nNo commands defined for hook 'post-merge'\n\nAvailable hooks:\n  - pre-commit\n  - pre-push\n\nPlease check your configuration file."
            )],
            next: Next::Finished(Err(HooksmithError::HookExecution(
                HookExecutionError::HookNotFound("post-merge".to_string())
            ))),
        }
    );
}

#[test]
fn run_many_runs_the_hooks_before_an_unknown_one() {
    let hs = test_env(false, false);
    let (started, result) = drive(
        hs.run_hooks(&names(&["pre-push", "nope", "pre-commit"]), &None),
        &[CommandOutcome::Exited(Some(0))],
    );
    assert_eq!(started, names(&["cargo test"]));
    assert_eq!(
        result,
        Err(HooksmithError::HookExecution(HookExecutionError::HookNotFound("nope".to_string())))
    );
}

#[test]
fn run_many_runs_a_hook_named_twice_only_once() {
    let hs = test_env(false, false);
    let turn = hs.run_hook(Some(&names(&["pre-push", "pre-commit", "pre-push"])), false, &None);
    let (started, result) = drive(
        turn,
        &[CommandOutcome::Exited(Some(0)), CommandOutcome::Exited(Some(0))],
    );
    assert_eq!(started, names(&["cargo test", "cargo fmt --all -- --check"]));
    assert!(result.is_ok());
    assert_eq!(
        hooksmith::hooksmith::unique(&names(&["b", "a", "b", "c", "a"])),
        names(&["b", "a", "c"])
    );
}

#[test]
fn run_without_names_is_an_error() {
    let hs = test_env(false, false);
    let not_found = |text: &str| {
        Next::Finished(Err(HooksmithError::HookExecution(HookExecutionError::HookNotFound(
            text.to_string(),
        ))))
    };
    assert_eq!(hs.run_hook(Some(&vec![]), false, &None).next, not_found("No hooks specified"));
    assert_eq!(
        hs.run_hook(None, false, &None).next,
        not_found("No hook specified and interactive mode is disabled")
    );
}

#[test]
fn interactive_run_asks_then_runs_what_was_picked() {
    let hs = test_env(false, false);
    let turn = hs.run_hook(None, true, &None);
    assert_eq!(
        turn.next,
        Next::Ask {
            question: "Select hooks to run (Space to select, Enter to confirm)".to_string(),
            choices: names(&["pre-commit", "pre-push"]),
        }
    );
    let (started, result) =
        drive(hs.run_selected(Ok(vec![1]), &None), &[CommandOutcome::Exited(Some(0))]);
    assert_eq!(started, names(&["cargo test"]));
    assert!(result.is_ok());

    let not_found = |text: &str| {
        Next::Finished(Err(HooksmithError::HookExecution(HookExecutionError::HookNotFound(
            text.to_string(),
        ))))
    };
    assert_eq!(hs.run_selected(Ok(vec![]), &None).next, not_found("No hooks selected"));
    assert_eq!(hs.run_selected(Err("closed".to_string()), &None).next, not_found("closed"));
    let empty = manager(&[], false, false);
    assert_eq!(
        empty.run_hook(None, true, &None).next,
        not_found("No hooks available in configuration")
    );
}

#[test]
fn validate_counts_known_names_and_lists_unknown_ones() {
    let hs = manager(
        &[("pre-commit", &[]), ("bogus", &[]), ("post-index-change", &[]), ("Pre-Push", &[])],
        false,
        true,
    );
    let found = hs.validate();
    assert_eq!(found.valid_count, 2);
    assert_eq!(found.invalid_names, names(&["bogus", "Pre-Push"]));
    assert_eq!(
        hs.validate_hooks().steps,
        vec![
            out("🔍 Validating hooks in configuration file..."),
            out("  ✅ Hook 'pre-commit' is valid"),
            out("  ✅ Hook 'post-index-change' is valid"),
            out(
                "⚠️ WARNING: Invalid hooks detected\n\nThe following hooks are not recognized by Git:\n  - bogus\n  - Pre-Push\n\nPlease use only valid Git hook names in your configuration."
            ),
        ]
    );
}

#[test]
fn banner_opens_a_dry_run_only() {
    assert_eq!(
        test_env(true, false).banner(),
        vec![out("🔄 DRY RUN MODE - No commands will be executed\n")]
    );
    assert!(test_env(false, true).banner().is_empty());
}

#[test]
fn available_hooks_are_the_configured_names_in_order() {
    assert_eq!(test_env(false, false).get_available_hooks(), names(&["pre-commit", "pre-push"]));
}

#[test]
fn crate_level_init_installs_quietly() {
    let hooks = vec![("pre-commit".to_string(), hook(&["true"]))];
    let plan = hooksmith::init(hooks, &Ok(hooks_dir(true, &[])));
    assert_eq!(
        plan,
        Plan {
            steps: vec![
                Action::WriteFile { hook: "pre-commit".to_string(), content: SCRIPT.to_string() },
                Action::SetMode { hook: "pre-commit".to_string(), mode: 0o755 },
            ],
            result: Ok(()),
        }
    );
    let twice = vec![("a".to_string(), hook(&[])), ("a".to_string(), hook(&[]))];
    let plan = hooksmith::init(twice, &Ok(hooks_dir(true, &[])));
    assert!(plan.steps.is_empty());
    assert!(plan.result.is_err());
}
