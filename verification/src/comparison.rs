//! Comparison: what the hooks directory and the configuration do not have
//! in common, and how that is reported.

use crate::config::{has_hook, hook_names, HookView};
use crate::error::{GitErrorView, HooksmithErrorView};
use crate::messages::{
    all_match_text, comparing_text, differences_found_text, extra_hook_text, missing_hook_text,
};
use crate::plan::{has_entry, say_each, say_if, ActionView, DirEntryView, HooksDirView, PlanView};
use crate::utils::has_suffix;
use vstd::prelude::*;

verus! {

/// Whether a name is that of a sample file, which Git itself puts into the
/// hooks directory.
pub open spec fn is_sample(name: Seq<char>) -> bool {
    has_suffix(name, ".sample"@)
}

/// The test for a hook name that has no entry in the directory.
pub open spec fn missing_in(dir: HooksDirView) -> spec_fn(Seq<char>) -> bool {
    |name: Seq<char>| !has_entry(dir, name)
}

/// The test for an entry of the directory that is a regular file, no sample
/// file, and no hook of the configuration.
pub open spec fn extra_to(hooks: Seq<HookView>) -> spec_fn(DirEntryView) -> bool {
    |entry: DirEntryView| entry.is_file && !is_sample(entry.name) && !has_hook(hooks, entry.name)
}

/// The hooks of the configuration that are not installed, in its order.
pub open spec fn missing_hooks(hooks: Seq<HookView>, dir: HooksDirView) -> Seq<Seq<char>> {
    hook_names(hooks).filter(missing_in(dir))
}

/// The files in the hooks directory that are no hooks of the configuration,
/// in the directory's order. Sample files do not count.
pub open spec fn extra_hooks(hooks: Seq<HookView>, dir: HooksDirView) -> Seq<Seq<char>> {
    dir.entries.filter(extra_to(hooks)).map_values(|entry: DirEntryView| entry.name)
}

/// The comparison report: one line for each hook that is not installed and
/// one for each installed file that is not configured, under a heading; or,
/// where there is neither, one line that says that all agrees.
pub open spec fn compare_steps(hooks: Seq<HookView>, verbose: bool, dir: HooksDirView) -> Seq<
    ActionView,
> {
    say_if(verbose, comparing_text()) + (if missing_hooks(hooks, dir).len() + extra_hooks(
        hooks,
        dir,
    ).len() > 0 {
        say_if(true, differences_found_text()) + say_each(
            missing_hooks(hooks, dir),
            |name: Seq<char>| missing_hook_text(name),
        ) + say_each(extra_hooks(hooks, dir), |name: Seq<char>| extra_hook_text(name))
    } else {
        say_if(true, all_match_text())
    })
}

/// The plan for comparing the hooks directory with the configuration.
pub open spec fn compare_plan(
    hooks: Seq<HookView>,
    verbose: bool,
    located: Result<HooksDirView, GitErrorView>,
) -> PlanView {
    match located {
        Err(e) => PlanView { steps: Seq::empty(), result: Err(HooksmithErrorView::Git(e)) },
        Ok(dir) => PlanView { steps: compare_steps(hooks, verbose, dir), result: Ok(()) },
    }
}

} // verus!
