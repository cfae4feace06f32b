//! Installation: the script that stands for a hook, and the plans that put
//! it into the hooks directory.

use crate::config::{hook_names, HookView};
use crate::error::{GitErrorView, HooksmithErrorView};
use crate::messages::{
    creating_dir_text, installed_text, installing_file_text, installing_hook_text,
    installing_hooks_text, setting_permissions_text, skip_create_dir_text, skip_install_text,
    validating_before_install_text,
};
use crate::plan::{say_if, ActionView, ExecutionMode, HooksDirView, PlanView};
use crate::validation::{invalid_names, strict_validation_result, validation_steps};
use vstd::prelude::*;

verus! {

/// The script that is installed for a hook: it hands the hook over to this
/// tool, which it installs first where it is not at hand.
pub open spec fn hook_script(hook: Seq<char>) -> Seq<char> {
    "#!/bin/sh\n\nif hooksmith -h >/dev/null 2>&1\nthen\n  exec hooksmith run "@ + hook
        + "\nelse\n  cargo install hooksmith\n  exec hooksmith run "@ + hook + "\nfi"@
}

/// The permission bits of an installed hook: all for the owner, reading and
/// executing for the group and for others.
pub open spec fn hook_file_mode() -> u32 {
    0o755
}

/// Making sure that the hooks directory exists: where it is missing it is
/// created, or, in a dry run, that it would be is announced.
pub open spec fn ensure_dir_steps(mode: ExecutionMode, exists: bool) -> Seq<ActionView> {
    if exists {
        Seq::empty()
    } else if mode.dry_run {
        say_if(true, skip_create_dir_text())
    } else {
        say_if(mode.verbose, creating_dir_text()) + seq![ActionView::CreateDir]
    }
}

/// Writing the file of a hook: the script is written and, where files have
/// permission bits, made executable. In a dry run that is only announced.
pub open spec fn write_hook_steps(mode: ExecutionMode, posix: bool, hook: Seq<char>) -> Seq<
    ActionView,
> {
    if mode.dry_run {
        say_if(true, skip_install_text(hook))
    } else {
        seq![ActionView::WriteFile { hook, content: hook_script(hook) }] + say_if(
            mode.verbose,
            installing_file_text(hook),
        ) + (if posix {
            seq![ActionView::SetMode { hook, mode: hook_file_mode() }] + say_if(
                mode.verbose,
                setting_permissions_text(),
            )
        } else {
            Seq::empty()
        })
    }
}

/// Installing one hook into the hooks directory, whether or not the
/// configuration has it.
pub open spec fn install_steps(mode: ExecutionMode, dir: HooksDirView, hook: Seq<char>) -> Seq<
    ActionView,
> {
    say_if(mode.verbose && !mode.dry_run, installing_hook_text(hook)) + ensure_dir_steps(
        mode,
        dir.exists,
    ) + write_hook_steps(mode, dir.posix, hook) + say_if(mode.verbose, installed_text(hook))
}

/// The plan for installing one hook.
pub open spec fn install_hook_plan(
    mode: ExecutionMode,
    located: Result<HooksDirView, GitErrorView>,
    hook: Seq<char>,
) -> PlanView {
    match located {
        Err(e) => PlanView {
            steps: say_if(mode.verbose && !mode.dry_run, installing_hook_text(hook)),
            result: Err(HooksmithErrorView::Git(e)),
        },
        Ok(dir) => PlanView { steps: install_steps(mode, dir, hook), result: Ok(()) },
    }
}

/// Installing hooks by name, in the given order.
pub open spec fn install_each(mode: ExecutionMode, dir: HooksDirView, names: Seq<Seq<char>>) -> Seq<
    ActionView,
>
    decreases names.len(),
{
    if names.len() == 0 {
        Seq::empty()
    } else {
        install_steps(mode, dir, names[0]) + install_each(mode, dir, names.drop_first())
    }
}

/// The hooks directory once it has been made sure that it exists: outside
/// a dry run it does.
pub open spec fn ensured(mode: ExecutionMode, dir: HooksDirView) -> HooksDirView {
    HooksDirView { exists: dir.exists || !mode.dry_run, ..dir }
}

/// The plan for installing every hook of the configuration. A hook name
/// that Git does not know stops it before anything is touched.
pub open spec fn install_hooks_plan(
    hooks: Seq<HookView>,
    mode: ExecutionMode,
    located: Result<HooksDirView, GitErrorView>,
) -> PlanView {
    let opening = say_if(mode.verbose, validating_before_install_text());
    if invalid_names(hooks).len() > 0 {
        PlanView { steps: opening, result: strict_validation_result(hooks) }
    } else {
        let validated = opening + validation_steps(hooks, mode.verbose);
        match located {
            Err(e) => PlanView { steps: validated, result: Err(HooksmithErrorView::Git(e)) },
            Ok(dir) => PlanView {
                steps: validated + ensure_dir_steps(mode, dir.exists) + say_if(
                    mode.verbose,
                    installing_hooks_text(),
                ) + install_each(mode, ensured(mode, dir), hook_names(hooks)),
                result: Ok(()),
            },
        }
    }
}

} // verus!
