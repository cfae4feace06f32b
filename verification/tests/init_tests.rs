use hooksmith::error::{HookExecutionError, HooksmithError};
use hooksmith::hook_names::git_hooks;
use hooksmith::plan::Action;
use hooksmith::run::{Next, Turn};
use hooksmith::utils::Line;
use hooksmith::Hooksmith;

fn out(text: &str) -> Action {
    Action::Say(Line { to_stderr: false, text: text.to_string() })
}

const QUESTION: &str = "Select hooks to configure (Space to select, Enter to confirm)";

const PRE_COMMIT: &str = "pre-commit:\n  commands:\n    - echo \"Running pre-commit checks...\"\n    # Add your pre-commit commands here\n    # Examples:\n    # - cargo fmt --all -- --check\n    # - cargo clippy -- --deny warnings\n\n";

const UPDATE: &str =
    "update:\n  commands:\n    - echo \"Running update hook...\"\n    # Add your commands here\n\n";

#[test]
fn generated_configuration_has_the_exact_layout() {
    assert_eq!(Hooksmith::generate_hook_config("pre-commit"), PRE_COMMIT);
    assert_eq!(Hooksmith::generate_hook_config("update"), UPDATE);
    assert_eq!(
        Hooksmith::generate_hook_config("pre-push"),
        "pre-push:\n  commands:\n    - echo \"Running pre-push checks...\"\n    # Add your pre-push commands here\n    # Examples:\n    # - cargo test\n    # - cargo build --release\n\n"
    );
    assert_eq!(
        Hooksmith::generate_hook_config("commit-msg"),
        "commit-msg:\n  commands:\n    - echo \"Validating commit message...\"\n    # Add your commit message validation here\n    # Example:\n    # - ./scripts/validate-commit-msg.sh $1\n\n"
    );
    assert_eq!(
        Hooksmith::generate_hook_config("post-commit"),
        "post-commit:\n  commands:\n    - echo \"Post-commit actions...\"\n    # Add your post-commit commands here\n\n"
    );
}

#[test]
fn init_asks_before_it_replaces_a_file() {
    let turn = Hooksmith::init_interactive("h.yaml", true, false, true);
    assert_eq!(
        turn,
        Turn {
            steps: vec![out("🚀 Initializing hooksmith configuration...")],
            next: Next::Confirm {
                question: "Configuration file 'h.yaml' already exists. Overwrite?".to_string()
            },
        }
    );
    let ask = Next::Ask { question: QUESTION.to_string(), choices: git_hooks() };
    assert_eq!(Hooksmith::init_interactive("h.yaml", false, false, false).next, ask);
    let turn = Hooksmith::init_interactive("h.yaml", true, true, false);
    assert_eq!(turn.steps, vec![out("🔄 DRY RUN MODE - No files will be created\n")]);
    assert_eq!(turn.next, ask);
}

#[test]
fn init_goes_on_only_if_the_user_agrees() {
    assert_eq!(
        Hooksmith::init_confirmed(Ok(false)),
        Turn { steps: vec![out("❌ Initialization cancelled")], next: Next::Finished(Ok(())) }
    );
    assert_eq!(
        Hooksmith::init_confirmed(Ok(true)),
        Turn {
            steps: vec![],
            next: Next::Ask { question: QUESTION.to_string(), choices: git_hooks() },
        }
    );
    assert_eq!(
        Hooksmith::init_confirmed(Err("closed".to_string())).next,
        Next::Finished(Err(HooksmithError::HookExecution(HookExecutionError::HookNotFound(
            "closed".to_string()
        ))))
    );
}

#[test]
fn init_writes_the_configuration_of_the_picked_hooks() {
    let turn = Hooksmith::init_selected("h.yaml", false, true, Ok(vec![13, 3]));
    assert_eq!(
        turn,
        Turn {
            steps: vec![
                out("📝 Selected hooks: update, pre-commit"),
                Action::WriteConfig {
                    path: "h.yaml".to_string(),
                    content: format!("{UPDATE}{PRE_COMMIT}"),
                },
                out("✅ Configuration file 'h.yaml' created successfully!"),
                out("📝 You can now edit the file to customize your hook commands."),
                out("🚀 Run 'hooksmith install' to install the configured hooks."),
            ],
            next: Next::Finished(Ok(())),
        }
    );
}

#[test]
fn init_in_a_dry_run_only_shows_the_configuration() {
    let turn = Hooksmith::init_selected("h.yaml", true, false, Ok(vec![13]));
    assert_eq!(
        turn.steps,
        vec![out("🔍 Would create configuration file 'h.yaml' with content:"), out(UPDATE)]
    );
    assert_eq!(turn.next, Next::Finished(Ok(())));
}

#[test]
fn init_without_a_pick_writes_nothing() {
    assert_eq!(
        Hooksmith::init_selected("h.yaml", false, true, Ok(vec![])),
        Turn {
            steps: vec![out("❌ No hooks selected. Configuration file not created.")],
            next: Next::Finished(Ok(())),
        }
    );
    assert_eq!(
        Hooksmith::init_selected("h.yaml", false, true, Err("closed".to_string())).next,
        Next::Finished(Err(HooksmithError::HookExecution(HookExecutionError::HookNotFound(
            "closed".to_string()
        ))))
    );
}
