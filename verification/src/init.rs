//! Writing a first configuration file for the hooks that the user picks.

use crate::error::{HookExecutionError, HooksmithError};
use crate::hook_names::{git_hook_names, git_hooks};
use crate::hooksmith::Hooksmith;
use crate::messages::{
    configure_question, configure_question_text, created, created_text, edit_hint, edit_hint_text,
    init_banner, init_banner_text, init_cancelled, init_cancelled_text, initializing,
    initializing_text, install_hint, install_hint_text, none_selected, none_selected_text,
    overwrite_question, overwrite_question_text, selected_hooks, selected_hooks_text, would_create,
    would_create_text,
};
use crate::plan::{say_if, Action, ActionView};
use crate::run::{Next, NextView, Turn, TurnView};
use crate::scripts::{answer_view, refused};
use crate::utils::{add_step, out_line, say};
use vstd::prelude::*;

verus! {

/// What the first command of a new hook says.
pub open spec fn echo_message(hook: Seq<char>) -> Seq<char> {
    if hook == "pre-commit"@ {
        "Running pre-commit checks..."@
    } else if hook == "pre-push"@ {
        "Running pre-push checks..."@
    } else if hook == "commit-msg"@ {
        "Validating commit message..."@
    } else if hook == "post-commit"@ {
        "Post-commit actions..."@
    } else {
        "Running "@ + hook + " hook..."@
    }
}

/// The comments that stand below the first command of a new hook.
pub open spec fn examples(hook: Seq<char>) -> Seq<Seq<char>> {
    if hook == "pre-commit"@ {
        seq![
            "# Add your pre-commit commands here"@,
            "# Examples:"@,
            "# - cargo fmt --all -- --check"@,
            "# - cargo clippy -- --deny warnings"@,
        ]
    } else if hook == "pre-push"@ {
        seq![
            "# Add your pre-push commands here"@,
            "# Examples:"@,
            "# - cargo test"@,
            "# - cargo build --release"@,
        ]
    } else if hook == "commit-msg"@ {
        seq![
            "# Add your commit message validation here"@,
            "# Example:"@,
            "# - ./scripts/validate-commit-msg.sh $1"@,
        ]
    } else if hook == "post-commit"@ {
        seq!["# Add your post-commit commands here"@]
    } else {
        seq!["# Add your commands here"@]
    }
}

/// Lines of a configuration file at the depth of a command, one for each
/// text.
pub open spec fn indented_lines(texts: Seq<Seq<char>>) -> Seq<char>
    decreases texts.len(),
{
    if texts.len() == 0 {
        Seq::empty()
    } else {
        indented_lines(texts.drop_last()) + "    "@ + texts.last() + "\n"@
    }
}

/// The part of a new configuration file for one hook: its name, one command
/// that says what runs, the comments, and an empty line.
pub open spec fn hook_config_text(hook: Seq<char>) -> Seq<char> {
    hook + ":\n"@ + "  commands:\n"@ + "    - echo \""@ + echo_message(hook) + "\"\n"@
        + indented_lines(examples(hook)) + "\n"@
}

/// A new configuration file for the given hooks, in their order.
pub open spec fn config_text(hooks: Seq<Seq<char>>) -> Seq<char>
    decreases hooks.len(),
{
    if hooks.len() == 0 {
        Seq::empty()
    } else {
        config_text(hooks.drop_last()) + hook_config_text(hooks.last())
    }
}

/// Texts in a row, with a comma and a space between each two.
pub open spec fn comma_separated(texts: Seq<Seq<char>>) -> Seq<char>
    decreases texts.len(),
{
    if texts.len() == 0 {
        Seq::empty()
    } else if texts.len() == 1 {
        texts[0]
    } else {
        comma_separated(texts.drop_last()) + ", "@ + texts.last()
    }
}

/// The standard hook names at the picked positions, in the order in which
/// they were picked.
pub open spec fn picked_git_hooks(picks: Seq<usize>) -> Seq<Seq<char>> {
    picks.map_values(|i: usize| git_hook_names()[i as int])
}

/// The turn that asks which hooks to configure, among all standard names.
pub open spec fn configure_turn() -> TurnView {
    TurnView {
        steps: Seq::empty(),
        next: NextView::Ask { question: configure_question_text(), choices: git_hook_names() },
    }
}

/// The first turn of an initialisation. A configuration file that exists
/// is replaced only if the user agrees; a dry run, which writes nothing,
/// does not ask.
pub open spec fn init_turn(path: Seq<char>, exists: bool, dry_run: bool, verbose: bool) -> TurnView {
    let opening = say_if(dry_run, init_banner_text()) + say_if(verbose, initializing_text());
    if exists && !dry_run {
        TurnView {
            steps: opening,
            next: NextView::Confirm { question: overwrite_question_text(path) },
        }
    } else {
        TurnView { steps: opening, next: configure_turn().next }
    }
}

/// The turn after the user was asked whether the configuration file may be
/// replaced.
pub open spec fn confirmed_turn(answer: Result<bool, Seq<char>>) -> TurnView {
    match answer {
        Err(reason) => refused(reason),
        Ok(overwrite) => if overwrite {
            configure_turn()
        } else {
            TurnView {
                steps: say_if(true, init_cancelled_text()),
                next: NextView::Finished(Ok(())),
            }
        },
    }
}

/// Writing the new configuration file, which a dry run only shows.
pub open spec fn write_config_steps(path: Seq<char>, dry_run: bool, content: Seq<char>) -> Seq<
    ActionView,
> {
    if dry_run {
        seq![
            ActionView::Say(out_line(would_create_text(path))),
            ActionView::Say(out_line(content)),
        ]
    } else {
        seq![
            ActionView::WriteConfig { path, content },
            ActionView::Say(out_line(created_text(path))),
            ActionView::Say(out_line(edit_hint_text())),
            ActionView::Say(out_line(install_hint_text())),
        ]
    }
}

/// The last turn of an initialisation, after the user picked hooks. With
/// no hook picked no file is written, which is no error.
pub open spec fn selected_turn(
    path: Seq<char>,
    dry_run: bool,
    verbose: bool,
    answer: Result<Seq<usize>, Seq<char>>,
) -> TurnView {
    match answer {
        Err(reason) => refused(reason),
        Ok(picks) => if picks.len() == 0 {
            TurnView {
                steps: say_if(true, none_selected_text()),
                next: NextView::Finished(Ok(())),
            }
        } else {
            TurnView {
                steps: say_if(
                    verbose,
                    selected_hooks_text(comma_separated(picked_git_hooks(picks))),
                ) + write_config_steps(path, dry_run, config_text(picked_git_hooks(picks))),
                next: NextView::Finished(Ok(())),
            }
        },
    }
}

fn same_text(a: &str, b: &str) -> (same: bool)
    ensures
        same == (a@ == b@),
{
    String::from_str(a) == String::from_str(b)
}

fn default_examples(hook: &str) -> (lines: Vec<String>)
    ensures
        lines.deep_view() == examples(hook@),
{
    let mut lines: Vec<String> = Vec::new();
    if same_text(hook, "pre-commit") {
        lines.push(String::from_str("# Add your pre-commit commands here"));
        lines.push(String::from_str("# Examples:"));
        lines.push(String::from_str("# - cargo fmt --all -- --check"));
        lines.push(String::from_str("# - cargo clippy -- --deny warnings"));
    } else if same_text(hook, "pre-push") {
        lines.push(String::from_str("# Add your pre-push commands here"));
        lines.push(String::from_str("# Examples:"));
        lines.push(String::from_str("# - cargo test"));
        lines.push(String::from_str("# - cargo build --release"));
    } else if same_text(hook, "commit-msg") {
        lines.push(String::from_str("# Add your commit message validation here"));
        lines.push(String::from_str("# Example:"));
        lines.push(String::from_str("# - ./scripts/validate-commit-msg.sh $1"));
    } else if same_text(hook, "post-commit") {
        lines.push(String::from_str("# Add your post-commit commands here"));
    } else {
        lines.push(String::from_str("# Add your commands here"));
    }
    assert(lines.deep_view() =~= examples(hook@));
    lines
}

fn default_echo(hook: &str) -> (text: String)
    ensures
        text@ == echo_message(hook@),
{
    if same_text(hook, "pre-commit") {
        String::from_str("Running pre-commit checks...")
    } else if same_text(hook, "pre-push") {
        String::from_str("Running pre-push checks...")
    } else if same_text(hook, "commit-msg") {
        String::from_str("Validating commit message...")
    } else if same_text(hook, "post-commit") {
        String::from_str("Post-commit actions...")
    } else {
        let mut text = String::from_str("Running ");
        text.append(hook);
        text.append(" hook...");
        text
    }
}

fn join_with_commas(texts: &Vec<String>) -> (joined: String)
    ensures
        joined@ == comma_separated(texts.deep_view()),
{
    let mut joined = String::new();
    let mut i: usize = 0;
    while i < texts.len()
        invariant
            i <= texts.len(),
            joined@ == comma_separated(texts.deep_view().take(i as int)),
        decreases texts.len() - i,
    {
        let ghost seen = texts.deep_view().take(i + 1);
        assert(seen.drop_last() =~= texts.deep_view().take(i as int));
        assert(seen.last() == texts[i as int]@);
        if i > 0 {
            joined.append(", ");
        }
        joined.append(texts[i].as_str());
        assert(joined@ =~= comma_separated(seen));
        i += 1;
    }
    assert(texts.deep_view().take(texts.len() as int) =~= texts.deep_view());
    joined
}

fn refuse(reason: String) -> (turn: Turn)
    ensures
        turn@ == refused(reason@),
{
    let steps: Vec<Action> = Vec::new();
    assert(steps.deep_view() =~= Seq::<ActionView>::empty());
    Turn {
        steps,
        next: Next::Finished(
            Err(HooksmithError::HookExecution(HookExecutionError::HookNotFound(reason))),
        ),
    }
}

fn ask_which_to_configure() -> (turn: Turn)
    ensures
        turn@ == configure_turn(),
{
    let steps: Vec<Action> = Vec::new();
    assert(steps.deep_view() =~= Seq::<ActionView>::empty());
    Turn { steps, next: Next::Ask { question: configure_question(), choices: git_hooks() } }
}

impl Hooksmith {
    /// Generates configuration content for a specific hook type.
    pub fn generate_hook_config(hook: &str) -> (config: String)
        ensures
            config@ == hook_config_text(hook@),
    {
        let mut config = String::new();
        config.append(hook);
        config.append(":\n");
        config.append("  commands:\n");
        let echo_msg = default_echo(hook);
        let examples = default_examples(hook);
        config.append("    - echo \"");
        config.append(echo_msg.as_str());
        config.append("\"\n");
        let ghost head = config@;
        assert(head =~= hook@ + ":\n"@ + "  commands:\n"@ + "    - echo \""@ + echo_message(hook@)
            + "\"\n"@);
        let mut i: usize = 0;
        while i < examples.len()
            invariant
                i <= examples.len(),
                config@ == head + indented_lines(examples.deep_view().take(i as int)),
            decreases examples.len() - i,
        {
            let ghost seen = examples.deep_view().take(i + 1);
            assert(seen.drop_last() =~= examples.deep_view().take(i as int));
            assert(seen.last() == examples[i as int]@);
            config.append("    ");
            config.append(examples[i].as_str());
            config.append("\n");
            assert(config@ =~= head + indented_lines(seen));
            i += 1;
        }
        assert(examples.deep_view().take(examples.len() as int) =~= examples.deep_view());
        config.append("\n");
        config
    }

    /// Initialize hooksmith configuration interactively: the first turn,
    /// given whether a file exists at the path of the configuration file.
    pub fn init_interactive(config_path: &str, exists: bool, dry_run: bool, verbose: bool) -> (turn:
        Turn)
        ensures
            turn@ == init_turn(config_path@, exists, dry_run, verbose),
    {
        let mut steps: Vec<Action> = Vec::new();
        assert(steps.deep_view() =~= Seq::<ActionView>::empty());
        if dry_run {
            say(&mut steps, init_banner());
        }
        if verbose {
            say(&mut steps, initializing());
        }
        assert(steps.deep_view() =~= say_if(dry_run, init_banner_text()) + say_if(
            verbose,
            initializing_text(),
        ));
        if exists && !dry_run {
            Turn { steps, next: Next::Confirm { question: overwrite_question(config_path) } }
        } else {
            Turn { steps, next: ask_which_to_configure().next }
        }
    }

    /// Goes on with an initialisation after the user was asked whether the
    /// configuration file may be replaced, given the answer, or the reason
    /// why the question failed.
    pub fn init_confirmed(answer: Result<bool, String>) -> (turn: Turn)
        ensures
            turn@ == confirmed_turn(
                match answer {
                    Ok(overwrite) => Ok(overwrite),
                    Err(reason) => Err(reason@),
                },
            ),
    {
        match answer {
            Err(reason) => refuse(reason),
            Ok(overwrite) => {
                if !overwrite {
                    let mut steps: Vec<Action> = Vec::new();
                    assert(steps.deep_view() =~= Seq::<ActionView>::empty());
                    say(&mut steps, init_cancelled());
                    assert(steps.deep_view() =~= say_if(true, init_cancelled_text()));
                    return Turn { steps, next: Next::Finished(Ok(())) };
                }
                ask_which_to_configure()
            },
        }
    }

    /// Ends an initialisation after the user picked the hooks to configure,
    /// given the positions of the picked choices, or the reason why the
    /// question failed.
    pub fn init_selected(
        config_path: &str,
        dry_run: bool,
        verbose: bool,
        answer: Result<Vec<usize>, String>,
    ) -> (turn: Turn)
        requires
            answer matches Ok(picks) ==> forall|k: int|
                0 <= k < picks.len() ==> picks[k] < git_hook_names().len(),
        ensures
            turn@ == selected_turn(
                config_path@,
                dry_run,
                verbose,
                answer_view(answer),
            ),
    {
        let picks = match answer {
            Err(reason) => {
                return refuse(reason);
            },
            Ok(picks) => picks,
        };
        let mut steps: Vec<Action> = Vec::new();
        assert(steps.deep_view() =~= Seq::<ActionView>::empty());
        if picks.len() == 0 {
            say(&mut steps, none_selected());
            assert(steps.deep_view() =~= say_if(true, none_selected_text()));
            return Turn { steps, next: Next::Finished(Ok(())) };
        }
        let hook_options = git_hooks();
        let mut selected: Vec<String> = Vec::new();
        let mut config_content = String::new();
        let mut k: usize = 0;
        assert(selected.deep_view() =~= picked_git_hooks(picks@.take(0)));
        while k < picks.len()
            invariant
                k <= picks.len(),
                hook_options.deep_view() == git_hook_names(),
                forall|j: int| 0 <= j < picks.len() ==> picks[j] < git_hook_names().len(),
                selected.deep_view() == picked_git_hooks(picks@.take(k as int)),
                config_content@ == config_text(picked_git_hooks(picks@.take(k as int))),
            decreases picks.len() - k,
        {
            let ghost before = selected.deep_view();
            let ghost seen = picked_git_hooks(picks@.take(k + 1));
            assert(hook_options.deep_view().len() == hook_options.len());
            let hook = &hook_options[picks[k]];
            assert(hook@ == hook_options.deep_view()[picks[k as int] as int]);
            assert(picks@.take(k + 1) =~= picks@.take(k as int).push(picks[k as int]));
            assert(seen.drop_last() =~= before);
            assert(seen.last() == hook@);
            selected.push(hook.clone());
            assert(selected.deep_view() =~= before.push(hook@));
            assert(selected.deep_view() =~= seen);
            config_content.append(Self::generate_hook_config(hook.as_str()).as_str());
            k += 1;
        }
        assert(picks@.take(picks.len() as int) =~= picks@);
        if verbose {
            say(&mut steps, selected_hooks(join_with_commas(&selected).as_str()));
        }
        let ghost told = steps.deep_view();
        assert(told =~= say_if(
            verbose,
            selected_hooks_text(comma_separated(picked_git_hooks(picks@))),
        ));
        if dry_run {
            say(&mut steps, would_create(config_path));
            say(&mut steps, config_content);
        } else {
            add_step(
                &mut steps,
                Action::WriteConfig {
                    path: String::from_str(config_path),
                    content: config_content,
                },
            );
            say(&mut steps, created(config_path));
            say(&mut steps, edit_hint());
            say(&mut steps, install_hint());
        }
        assert(steps.deep_view() =~= told + write_config_steps(
            config_path@,
            dry_run,
            config_text(picked_git_hooks(picks@)),
        ));
        Turn { steps, next: Next::Finished(Ok(())) }
    }
}

} // verus!
