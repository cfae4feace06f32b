//! Removal: the plans that take the files of hooks out of the hooks
//! directory.

use crate::config::{has_hook, hook_names, HookView};
use crate::error::{GitErrorView, HooksmithErrorView, ValidationErrorView};
use crate::messages::{
    no_hook_file_text, not_configured_text, possible_hooks_text, uninstall_completed_text,
    uninstalling_all_text, uninstalling_text, would_remove_text,
};
use crate::plan::{has_entry, hook_path, say_if, ActionView, ExecutionMode, HooksDirView, PlanView};
use crate::utils::{debug_list, err_line};
use vstd::prelude::*;

verus! {

/// Removing the file of one hook of the configuration: it is removed where
/// it is there, which a dry run only announces; that it is not there is
/// said and is no error.
pub open spec fn uninstall_steps(mode: ExecutionMode, dir: HooksDirView, hook: Seq<char>) -> Seq<
    ActionView,
> {
    say_if(mode.verbose && !mode.dry_run, uninstalling_text(hook)) + (if has_entry(dir, hook) {
        if mode.dry_run {
            say_if(true, would_remove_text(hook_path(dir.path, hook)))
        } else {
            seq![ActionView::RemoveFile { hook }]
        }
    } else {
        say_if(true, no_hook_file_text(hook))
    })
}

/// The error for a hook name that is not accepted.
pub open spec fn invalid_hook_name(hook: Seq<char>) -> HooksmithErrorView {
    HooksmithErrorView::Validation(ValidationErrorView::InvalidHookName(hook))
}

/// The plan for removing one hook. Only a hook of the configuration can be
/// removed.
pub open spec fn uninstall_given_plan(
    hooks: Seq<HookView>,
    mode: ExecutionMode,
    located: Result<HooksDirView, GitErrorView>,
    hook: Seq<char>,
) -> PlanView {
    if has_hook(hooks, hook) {
        match located {
            Err(e) => PlanView {
                steps: say_if(mode.verbose && !mode.dry_run, uninstalling_text(hook)),
                result: Err(HooksmithErrorView::Git(e)),
            },
            Ok(dir) => PlanView { steps: uninstall_steps(mode, dir, hook), result: Ok(()) },
        }
    } else {
        PlanView {
            steps: seq![
                ActionView::Say(err_line(not_configured_text(hook))),
                ActionView::Say(err_line(possible_hooks_text(debug_list(hook_names(hooks))))),
            ],
            result: Err(invalid_hook_name(hook)),
        }
    }
}

/// Removing hooks by name, in the given order.
pub open spec fn uninstall_each(mode: ExecutionMode, dir: HooksDirView, names: Seq<Seq<char>>) -> Seq<
    ActionView,
>
    decreases names.len(),
{
    if names.len() == 0 {
        Seq::empty()
    } else {
        uninstall_steps(mode, dir, names[0]) + uninstall_each(mode, dir, names.drop_first())
    }
}

/// The plan for removing every hook of the configuration. It stops at the
/// first hook that fails.
pub open spec fn uninstall_hooks_plan(
    hooks: Seq<HookView>,
    mode: ExecutionMode,
    located: Result<HooksDirView, GitErrorView>,
) -> PlanView {
    let loud = mode.verbose && !mode.dry_run;
    let opening = say_if(loud, uninstalling_all_text());
    if hooks.len() == 0 {
        PlanView { steps: opening + say_if(loud, uninstall_completed_text(0)), result: Ok(()) }
    } else {
        match located {
            Err(e) => PlanView {
                steps: opening + say_if(loud, uninstalling_text(hooks[0].name)),
                result: Err(HooksmithErrorView::Git(e)),
            },
            Ok(dir) => PlanView {
                steps: opening + uninstall_each(mode, dir, hook_names(hooks)) + say_if(
                    loud,
                    uninstall_completed_text(hooks.len()),
                ),
                result: Ok(()),
            },
        }
    }
}

} // verus!
