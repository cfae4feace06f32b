//! Running hooks: the script of a run, which says what is printed and which
//! commands are started, in order.

use crate::config::{commands_of, hook_names, HookView};
use crate::error::{HookExecutionErrorView, HooksmithErrorView};
use crate::messages::{
    available_hooks_suggestion_text, command_completed_text, dry_run_completed_text,
    no_commands_details_text, run_question_text, running_command_text, running_hook_text,
    step_command_text, step_header_text, working_directory_text,
};
use crate::plan::ExecutionMode;
use crate::run::{turn_from, NextView, RunItemView, TurnView};
use crate::utils::{list_text, message_with_suggestion_line, out_line, Error};
use vstd::prelude::*;

verus! {

/// A printed line of a script, where `wanted`.
pub open spec fn item_if(wanted: bool, text: Seq<char>) -> Seq<RunItemView> {
    if wanted {
        seq![RunItemView::Say(out_line(text))]
    } else {
        Seq::empty()
    }
}

/// The script for one command: the command is started; where more is to be
/// said, it is announced before and, once it has ended well, after.
pub open spec fn command_items(verbose: bool, hook: Seq<char>, command: Seq<char>) -> Seq<
    RunItemView,
> {
    item_if(verbose, running_command_text(command)) + seq![RunItemView::Spawn { hook, command }]
        + item_if(verbose, command_completed_text())
}

/// The script for the commands of a hook, in their order.
pub open spec fn commands_items(verbose: bool, hook: Seq<char>, commands: Seq<Seq<char>>) -> Seq<
    RunItemView,
>
    decreases commands.len(),
{
    if commands.len() == 0 {
        Seq::empty()
    } else {
        command_items(verbose, hook, commands[0]) + commands_items(
            verbose,
            hook,
            commands.drop_first(),
        )
    }
}

/// What a dry run says of one command: which step of how many it is, the
/// command, the working directory where it is known, and an empty line.
pub open spec fn announcement(cwd: Option<Seq<char>>, command: Seq<char>, step: nat, total: nat) -> Seq<
    RunItemView,
> {
    seq![
        RunItemView::Say(out_line(step_header_text(step, total))),
        RunItemView::Say(out_line(step_command_text(command))),
    ] + (match cwd {
        Some(dir) => seq![RunItemView::Say(out_line(working_directory_text(dir)))],
        None => Seq::empty(),
    }) + seq![RunItemView::Say(out_line(Seq::empty()))]
}

/// What a dry run says of the commands of a hook, in their order, the first
/// of them being step `first` of `total`.
pub open spec fn announcements(
    cwd: Option<Seq<char>>,
    commands: Seq<Seq<char>>,
    first: nat,
    total: nat,
) -> Seq<RunItemView>
    decreases commands.len(),
{
    if commands.len() == 0 {
        Seq::empty()
    } else {
        announcement(cwd, commands[0], first, total) + announcements(
            cwd,
            commands.drop_first(),
            first + 1,
            total,
        )
    }
}

/// The script for one hook. In a dry run every command is announced and
/// none is started. Otherwise the commands are started in their order.
pub open spec fn hook_items(
    mode: ExecutionMode,
    cwd: Option<Seq<char>>,
    hook: Seq<char>,
    commands: Seq<Seq<char>>,
) -> Seq<RunItemView> {
    if mode.dry_run {
        announcements(cwd, commands, 1, commands.len()) + seq![
            RunItemView::Say(out_line(dry_run_completed_text(commands.len()))),
        ]
    } else {
        item_if(mode.verbose, running_hook_text(hook)) + commands_items(
            mode.verbose,
            hook,
            commands,
        )
    }
}

/// The error for a hook name that the configuration does not have.
pub open spec fn hook_not_found(hook: Seq<char>) -> HooksmithErrorView {
    HooksmithErrorView::HookExecution(HookExecutionErrorView::HookNotFound(hook))
}

/// The script for a hook name that the configuration does not have: the
/// configured names are listed on the error stream, and the run fails.
pub open spec fn not_found_items(hooks: Seq<HookView>, hook: Seq<char>) -> Seq<RunItemView> {
    seq![
        RunItemView::Say(
            message_with_suggestion_line::<Error>(
                "Hook not found"@,
                no_commands_details_text(hook),
                available_hooks_suggestion_text(list_text(hook_names(hooks))),
            ),
        ),
        RunItemView::Fail(hook_not_found(hook)),
    ]
}

/// The script for running hooks by name, in the given order. It ends at the
/// first name that the configuration does not have.
pub open spec fn run_items(
    hooks: Seq<HookView>,
    mode: ExecutionMode,
    cwd: Option<Seq<char>>,
    names: Seq<Seq<char>>,
) -> Seq<RunItemView>
    decreases names.len(),
{
    if names.len() == 0 {
        Seq::empty()
    } else {
        match commands_of(hooks, names[0]) {
            Some(commands) => hook_items(mode, cwd, names[0], commands) + run_items(
                hooks,
                mode,
                cwd,
                names.drop_first(),
            ),
            None => not_found_items(hooks, names[0]),
        }
    }
}

/// A turn that ends a run at once, with an error about the choice of hooks.
pub open spec fn refused(reason: Seq<char>) -> TurnView {
    TurnView { steps: Seq::empty(), next: NextView::Finished(Err(hook_not_found(reason))) }
}

/// The names of a list without repetitions: each name stands where it first
/// occurs.
pub open spec fn unique_names(names: Seq<Seq<char>>) -> Seq<Seq<char>>
    decreases names.len(),
{
    if names.len() == 0 {
        Seq::empty()
    } else {
        let before = unique_names(names.drop_last());
        if before.contains(names.last()) {
            before
        } else {
            before.push(names.last())
        }
    }
}

/// The turn that lets the user pick the hooks to run: a question with the
/// configured names as choices, or an error where there is none to pick.
pub open spec fn selection_turn(hooks: Seq<HookView>) -> TurnView {
    if hooks.len() == 0 {
        refused("No hooks available in configuration"@)
    } else {
        TurnView {
            steps: Seq::empty(),
            next: NextView::Ask { question: run_question_text(), choices: hook_names(hooks) },
        }
    }
}

/// The names that were picked: those at the picked positions, in the order
/// in which they were picked.
pub open spec fn picked_names(hooks: Seq<HookView>, picks: Seq<usize>) -> Seq<Seq<char>> {
    picks.map_values(|i: usize| hook_names(hooks)[i as int])
}

/// The first turn of a run of the hooks that the user picked. A failed
/// question and an empty choice are errors.
pub open spec fn picked_turn(
    hooks: Seq<HookView>,
    mode: ExecutionMode,
    cwd: Option<Seq<char>>,
    answer: Result<Seq<usize>, Seq<char>>,
) -> TurnView {
    match answer {
        Err(reason) => refused(reason),
        Ok(picks) => if picks.len() == 0 {
            refused("No hooks selected"@)
        } else {
            turn_from(run_items(hooks, mode, cwd, picked_names(hooks, picks)), 0)
        },
    }
}

/// The first turn of a run. With the interactive choice the user is asked.
/// Otherwise the named hooks run, each once, in the order in which they
/// were first named; to name none is an error.
pub open spec fn run_hook_turn(
    hooks: Seq<HookView>,
    mode: ExecutionMode,
    cwd: Option<Seq<char>>,
    names: Option<Seq<Seq<char>>>,
    interactive: bool,
) -> TurnView {
    if interactive {
        selection_turn(hooks)
    } else {
        match names {
            Some(names) => if names.len() == 0 {
                refused("No hooks specified"@)
            } else {
                turn_from(run_items(hooks, mode, cwd, unique_names(names)), 0)
            },
            None => refused("No hook specified and interactive mode is disabled"@),
        }
    }
}

/// The value of an answer to a question with several choices.
pub open spec fn answer_view(answer: Result<Vec<usize>, String>) -> Result<Seq<usize>, Seq<char>> {
    match answer {
        Ok(picks) => Ok(picks@),
        Err(reason) => Err(reason@),
    }
}

/// The names of a list without repetitions hold each name of the list, and
/// none twice.
pub proof fn lemma_unique_names(names: Seq<Seq<char>>)
    ensures
        unique_names(names).no_duplicates(),
        forall|name: Seq<char>| unique_names(names).contains(name) <==> names.contains(name),
    decreases names.len(),
{
    if names.len() > 0 {
        let shorter = names.drop_last();
        let before = unique_names(shorter);
        let kept = unique_names(names);
        lemma_unique_names(shorter);
        assert forall|name: Seq<char>| kept.contains(name) <==> names.contains(name) by {
            assert(before.contains(name) <==> shorter.contains(name));
            if names.contains(name) {
                let i = choose|i: int| 0 <= i < names.len() && names[i] == name;
                if i < names.len() - 1 {
                    assert(shorter[i] == name);
                    assert(shorter.contains(name));
                    let k = choose|k: int| 0 <= k < before.len() && before[k] == name;
                    assert(kept[k] == name);
                } else if !before.contains(names.last()) {
                    assert(kept[before.len() as int] == name);
                }
                assert(kept.contains(name));
            }
            if kept.contains(name) {
                let k = choose|k: int| 0 <= k < kept.len() && kept[k] == name;
                if k < before.len() {
                    assert(before[k] == name);
                    assert(before.contains(name));
                    let i = choose|i: int| 0 <= i < shorter.len() && shorter[i] == name;
                    assert(names[i] == name);
                } else {
                    assert(names[names.len() - 1] == name);
                }
                assert(names.contains(name));
            }
        }
    }
}

} // verus!
