use hooksmith::commands::{check_config_file, Command};
use hooksmith::config::{Config, Hook};
use hooksmith::error::{
    exit_code, ConfigError, GitError, HookExecutionError, HooksmithError, ValidationError,
};
use hooksmith::git_related::{check_for_git_hooks, get_git_hooks_path, GitOutput};
use hooksmith::hook_names::{contains_name, git_hooks, is_standard_hook};
use hooksmith::plan::{Action, DirEntry, HooksDir};
use hooksmith::run::Next;
use hooksmith::utils::Line;
use hooksmith::Hooksmith;

fn out(text: &str) -> Action {
    Action::Say(Line { to_stderr: false, text: text.to_string() })
}

fn none() -> Hook {
    Hook { commands: vec![] }
}

#[test]
fn there_are_twenty_eight_standard_hooks() {
    let hooks = git_hooks();
    assert_eq!(hooks.len(), 28);
    assert_eq!(hooks[0], "applypatch-msg");
    assert_eq!(hooks[3], "pre-commit");
    assert_eq!(hooks[27], "post-index-change");
    for name in &hooks {
        assert!(is_standard_hook(name));
    }
    assert!(!is_standard_hook("not-a-real-hook"));
    assert!(!is_standard_hook(""));
    assert!(!is_standard_hook("pre-commit "));
    assert!(contains_name(&hooks, "update"));
    assert!(!contains_name(&hooks, "updat"));
}

#[test]
fn config_refuses_a_name_that_occurs_twice() {
    let hooks = vec![
        ("pre-commit".to_string(), none()),
        ("pre-push".to_string(), none()),
        ("pre-commit".to_string(), none()),
        ("pre-push".to_string(), none()),
    ];
    assert_eq!(
        Config::from_hooks(hooks.clone()),
        Err(ConfigError::Parse("duplicate hook name: pre-commit".to_string()))
    );
    assert_eq!(
        Hooksmith::new_from_config(hooks, false, false),
        Err(HooksmithError::Config(ConfigError::Parse(
            "duplicate hook name: pre-commit".to_string()
        )))
    );
}

#[test]
fn config_keeps_hooks_in_order() {
    let hooks = vec![
        ("b".to_string(), Hook { commands: vec!["one".to_string(), "two".to_string()] }),
        ("a".to_string(), none()),
    ];
    let config = Config::from_hooks(hooks).unwrap();
    assert_eq!(config.len(), 2);
    assert_eq!(config.name(0), "b");
    assert_eq!(config.name(1), "a");
    assert_eq!(config.commands(0), &vec!["one".to_string(), "two".to_string()]);
    assert_eq!(config.position("a"), Some(1));
    assert_eq!(config.position("c"), None);
    assert!(config.contains_key("b"));
    assert!(!config.contains_key("B"));
    assert_eq!(config.get("a"), Some(&vec![]));
    assert_eq!(config.get("zz"), None);
    assert_eq!(Config::new().len(), 0);
}

#[test]
fn hooks_path_is_what_git_wrote_without_surrounding_white_space() {
    let asked = Ok(GitOutput { success: true, stdout: "  .git/hooks\n".to_string() });
    assert_eq!(get_git_hooks_path(asked), Ok(".git/hooks".to_string()));
    let asked = Ok(GitOutput { success: true, stdout: "/a b/.git/hooks\r\n\t".to_string() });
    assert_eq!(get_git_hooks_path(asked), Ok("/a b/.git/hooks".to_string()));
}

#[test]
fn hooks_path_fails_outside_a_repository() {
    let asked = Ok(GitOutput { success: false, stdout: ".git/hooks\n".to_string() });
    assert_eq!(get_git_hooks_path(asked), Err(GitError::NotGitRepo));
    assert_eq!(
        get_git_hooks_path(Err("not found".to_string())),
        Err(GitError::Command("not found".to_string()))
    );
}

#[test]
fn hooks_directory_exists_only_where_it_was_found() {
    let dir = |exists| HooksDir { path: "x".to_string(), exists, posix: true, entries: vec![] };
    assert!(check_for_git_hooks(&Ok(dir(true))));
    assert!(!check_for_git_hooks(&Ok(dir(false))));
    assert!(!check_for_git_hooks(&Err(GitError::NotGitRepo)));
    assert!(!check_for_git_hooks(&Err(GitError::HooksDirNotFound)));
}

#[test]
fn hooks_dir_model_follows_the_actions() {
    let mut dir = HooksDir { path: "h".to_string(), exists: false, posix: true, entries: vec![] };
    assert_eq!(dir.hook_path("pre-commit"), "h/pre-commit");
    let write = Action::WriteFile { hook: "a".to_string(), content: "x".to_string() };
    dir.apply(&write);
    assert!(!dir.contains("a"));
    dir.apply(&Action::CreateDir);
    assert!(dir.exists);
    dir.apply(&write);
    dir.apply(&write);
    dir.apply(&out("hello"));
    dir.apply(&Action::SetMode { hook: "a".to_string(), mode: 0o755 });
    dir.apply(&Action::WriteConfig { path: "c".to_string(), content: "x".to_string() });
    assert_eq!(dir.entries, vec![DirEntry { name: "a".to_string(), is_file: true }]);
    dir.entries.push(DirEntry { name: "b".to_string(), is_file: false });
    dir.apply(&Action::RemoveFile { hook: "a".to_string() });
    assert_eq!(dir.entries, vec![DirEntry { name: "b".to_string(), is_file: false }]);
    dir.apply(&Action::RemoveFile { hook: "zz".to_string() });
    assert_eq!(dir.entries.len(), 1);
}

#[test]
fn errors_say_what_went_wrong() {
    let cases: Vec<(HooksmithError, &str)> = vec![
        (
            HooksmithError::Config(ConfigError::Io("denied".to_string())),
            "Configuration error: Failed to read config file: denied",
        ),
        (
            HooksmithError::Config(ConfigError::Parse("bad".to_string())),
            "Configuration error: Failed to parse config file: bad",
        ),
        (
            HooksmithError::Config(ConfigError::NotFound("hooksmith.yaml".to_string())),
            "Configuration error: Config file not found at: hooksmith.yaml",
        ),
        (
            HooksmithError::Git(GitError::Command("no git".to_string())),
            "Git error: Failed to execute git command: no git",
        ),
        (
            HooksmithError::Git(GitError::HooksDirNotFound),
            "Git error: Git hooks directory not found",
        ),
        (HooksmithError::Git(GitError::NotGitRepo), "Git error: Not a git repository"),
        (
            HooksmithError::HookExecution(HookExecutionError::Command("no sh".to_string())),
            "Hook execution error: Failed to execute command: no sh",
        ),
        (
            HooksmithError::HookExecution(HookExecutionError::CommandFailed(127)),
            "Hook execution error: Command failed with status code: 127",
        ),
        (
            HooksmithError::HookExecution(HookExecutionError::CommandFailed(-9)),
            "Hook execution error: Command failed with status code: -9",
        ),
        (
            HooksmithError::HookExecution(HookExecutionError::HookNotFound("x".to_string())),
            "Hook execution error: Hook not found: x",
        ),
        (
            HooksmithError::HookExecution(HookExecutionError::InvalidRegex("(".to_string())),
            "Hook execution error: Invalid regex pattern: (",
        ),
        (
            HooksmithError::Validation(ValidationError::InvalidHookName("x".to_string())),
            "Validation error: Invalid hook name: x",
        ),
        (
            HooksmithError::Validation(ValidationError::InvalidCommand("y".to_string())),
            "Validation error: Invalid command: y",
        ),
        (HooksmithError::Io("disk full".to_string()), "IO error: disk full"),
    ];
    for (error, text) in cases {
        assert_eq!(error.message(), text);
        assert_eq!(error.duplicate(), error);
        assert_eq!(exit_code(&Err(error.clone())), match error {
            HooksmithError::HookExecution(HookExecutionError::CommandFailed(code)) => code,
            _ => 1,
        });
    }
}

#[test]
fn exit_code_is_zero_only_for_success() {
    assert_eq!(exit_code(&Ok(())), 0);
    let failed = |code| Err(HooksmithError::HookExecution(HookExecutionError::CommandFailed(code)));
    assert_eq!(exit_code(&failed(3)), 3);
    assert_eq!(exit_code(&failed(0)), 1);
    assert_eq!(exit_code(&Err(HooksmithError::Git(GitError::NotGitRepo))), 1);
}

#[test]
fn every_command_but_init_needs_the_configuration_file() {
    assert_eq!(check_config_file(&Command::Init, false, "h.yaml"), Ok(()));
    assert_eq!(check_config_file(&Command::Install, true, "h.yaml"), Ok(()));
    for command in [
        Command::Compare,
        Command::Install,
        Command::Validate,
        Command::Uninstall { hook_name: None },
        Command::Run { hook_names: None, interactive: true },
    ] {
        assert_eq!(
            check_config_file(&command, false, "h.yaml"),
            Err(ConfigError::NotFound("h.yaml".to_string()))
        );
    }
}

#[test]
fn dispatch_sets_off_the_operation_of_each_command() {
    let hooks = vec![("pre-commit".to_string(), Hook { commands: vec!["true".to_string()] })];
    let hs = Hooksmith::new_from_config(hooks, false, false).unwrap();
    let located = Ok(HooksDir {
        path: ".git/hooks".to_string(),
        exists: true,
        posix: true,
        entries: vec![DirEntry { name: "pre-commit".to_string(), is_file: true }],
    });

    let turn = hs.dispatch(&Command::Compare, "h.yaml", &located, &None);
    assert_eq!(turn.steps, vec![out("✅ All hooks match the configuration file")]);
    assert_eq!(turn.next, Next::Finished(Ok(())));

    let turn = hs.dispatch(&Command::Validate, "h.yaml", &located, &None);
    assert!(turn.steps.is_empty());
    assert_eq!(turn.next, Next::Finished(Ok(())));

    let turn = hs.dispatch(&Command::Install, "h.yaml", &located, &None);
    assert_eq!(turn.steps.len(), 2);
    assert_eq!(turn.next, Next::Finished(Ok(())));

    let one = Command::Uninstall { hook_name: Some("pre-commit".to_string()) };
    let turn = hs.dispatch(&one, "h.yaml", &located, &None);
    assert_eq!(turn.steps, vec![Action::RemoveFile { hook: "pre-commit".to_string() }]);

    let all = Command::Uninstall { hook_name: None };
    let turn = hs.dispatch(&all, "h.yaml", &located, &None);
    assert_eq!(turn.steps, vec![Action::RemoveFile { hook: "pre-commit".to_string() }]);

    let run = Command::Run { hook_names: Some(vec!["pre-commit".to_string()]), interactive: false };
    let turn = hs.dispatch(&run, "h.yaml", &located, &None);
    assert!(matches!(turn.next, Next::Spawn { ref command, .. } if command == "true"));

    let turn = hs.dispatch(&Command::Init, "h.yaml", &located, &None);
    assert_eq!(
        turn.next,
        Next::Confirm {
            question: "Configuration file 'h.yaml' already exists. Overwrite?".to_string()
        }
    );
}

#[test]
fn run_without_names_or_interactive_choice_is_a_usage_error() {
    let hs = Hooksmith::new_from_config(vec![], false, false).unwrap();
    let run = Command::Run { hook_names: None, interactive: false };
    let turn = hs.dispatch(&run, "h.yaml", &Err(GitError::NotGitRepo), &None);
    assert_eq!(
        turn.steps,
        vec![Action::Say(Line {
            to_stderr: true,
            text: "Error: Either provide hook names or use --interactive (-i) flag".to_string(),
        })]
    );
    let Next::Finished(result) = turn.next else { panic!("the run should be over") };
    assert_eq!(exit_code(&result), 1);
}
