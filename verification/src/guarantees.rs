//! What holds of the operations taken together: what a plan leaves on disk
//! when it is performed, and how a run goes for given outcomes of its
//! commands.

use crate::comparison::{
    compare_plan, compare_steps, extra_hooks, extra_to, missing_hooks, missing_in,
};
use crate::config::{commands_of, has_hook, hook_names, HookView};
use crate::error::{GitErrorView, HooksmithErrorView};
use crate::init::{init_turn, selected_turn};
use crate::installation::{
    ensure_dir_steps, ensured, hook_file_mode, hook_script, install_each, install_hook_plan,
    install_hooks_plan, install_steps, write_hook_steps,
};
use crate::messages::{
    all_match_text, command_completed_text, comparing_text, creating_dir_text,
    differences_found_text, dry_run_completed_text, extra_hook_text, installed_text,
    installing_file_text, installing_hook_text, installing_hooks_text, missing_hook_text,
    no_hook_file_text, running_command_text, running_hook_text, setting_permissions_text,
    uninstall_completed_text, uninstalling_all_text, uninstalling_text,
    validating_before_install_text, would_remove_text,
};
use crate::plan::{
    effect, effects, entry_names, has_entry, hook_path, is_say, lemma_effects_concat,
    lemma_says_change_nothing, only_says, say_each, say_if, ActionView, DirEntryView,
    ExecutionMode, HooksDirView, PlanView,
};
use crate::removal::{
    uninstall_each, uninstall_given_plan, uninstall_hooks_plan, uninstall_steps,
};
use crate::run::{
    failure_of, lemma_run_halts_at_first_failure, lemma_run_to_the_end, lemma_script_concat,
    lemma_turn_follows_script, lemma_turn_only_says, never_fails, planned, run_trace, succeeded,
    turn_from, verdict, CommandOutcomeView, NextView, RunItemView, RunTrace,
};
use crate::scripts::{
    announcement, announcements, command_items, commands_items, hook_items, hook_not_found,
    item_if, not_found_items, run_items,
};
use crate::utils::out_line;
use crate::validation::{invalid_names, validation_steps, validation_verdict};
use vstd::prelude::*;

verus! {

/// Performing a single action.
pub proof fn lemma_effects_one(dir: HooksDirView, action: ActionView)
    ensures
        effects(dir, seq![action]) == effect(dir, action),
{
    let steps = seq![action];
    assert(steps.drop_last() =~= Seq::<ActionView>::empty());
    assert(effects(dir, steps.drop_last()) == dir);
    assert(steps.last() == action);
}

/// Sequences of actions that only say something, put together, only say
/// something.
pub proof fn lemma_only_says_concat(first: Seq<ActionView>, then: Seq<ActionView>)
    requires
        only_says(first),
        only_says(then),
    ensures
        only_says(first + then),
{
    assert forall|i: int| 0 <= i < (first + then).len() implies is_say(
        #[trigger] (first + then)[i],
    ) by {
        if i < first.len() {
            assert((first + then)[i] == first[i]);
        } else {
            assert((first + then)[i] == then[i - first.len()]);
        }
    }
}

/// The validation report changes nothing on disk.
pub proof fn lemma_validation_only_says(hooks: Seq<HookView>, verbose: bool)
    ensures
        only_says(validation_steps(hooks, verbose)),
{
    assert(only_says(validation_verdict(hooks, verbose)));
    assert forall|i: int| 0 <= i < validation_steps(hooks, verbose).len() implies is_say(
        #[trigger] validation_steps(hooks, verbose)[i],
    ) by {
    }
}

/// The directory after the script of a hook has been written into it; in a
/// dry run, the directory as it was.
pub open spec fn written(mode: ExecutionMode, dir: HooksDirView, hook: Seq<char>) -> HooksDirView {
    if mode.dry_run {
        dir
    } else {
        effect(dir, ActionView::WriteFile { hook, content: hook_script(hook) })
    }
}

/// The directory after the scripts of hooks have been written into it, in
/// the given order.
pub open spec fn all_written(mode: ExecutionMode, dir: HooksDirView, names: Seq<Seq<char>>) -> HooksDirView
    decreases names.len(),
{
    if names.len() == 0 {
        dir
    } else {
        all_written(mode, written(mode, dir, names[0]), names.drop_first())
    }
}

/// Making sure that the hooks directory exists leaves a directory that
/// exists, except in a dry run, which leaves all as it was.
pub proof fn lemma_ensure_dir(mode: ExecutionMode, dir: HooksDirView)
    ensures
        effects(dir, ensure_dir_steps(mode, dir.exists)) == ensured(mode, dir),
{
    let steps = ensure_dir_steps(mode, dir.exists);
    if dir.exists {
        assert(ensured(mode, dir) == dir);
    } else if mode.dry_run {
        lemma_says_change_nothing(dir, steps);
        assert(ensured(mode, dir) == dir);
    } else {
        let says = say_if(mode.verbose, creating_dir_text());
        lemma_effects_concat(dir, says, seq![ActionView::CreateDir]);
        lemma_says_change_nothing(dir, says);
        lemma_effects_one(dir, ActionView::CreateDir);
    }
}

/// Writing the file of a hook leaves the directory with the script in it.
pub proof fn lemma_write_hook(mode: ExecutionMode, posix: bool, dir: HooksDirView, hook: Seq<char>)
    ensures
        effects(dir, write_hook_steps(mode, posix, hook)) == written(mode, dir, hook),
{
    let steps = write_hook_steps(mode, posix, hook);
    if mode.dry_run {
        lemma_says_change_nothing(dir, steps);
    } else {
        let write = seq![ActionView::WriteFile { hook, content: hook_script(hook) }];
        let said = say_if(mode.verbose, installing_file_text(hook));
        let bits = if posix {
            seq![ActionView::SetMode { hook, mode: hook_file_mode() }] + say_if(
                mode.verbose,
                setting_permissions_text(),
            )
        } else {
            Seq::empty()
        };
        let after = written(mode, dir, hook);
        assert(steps == write + said + bits);
        lemma_effects_concat(dir, write + said, bits);
        lemma_effects_concat(dir, write, said);
        lemma_effects_one(dir, write[0]);
        lemma_says_change_nothing(after, said);
        if posix {
            let set = seq![ActionView::SetMode { hook, mode: hook_file_mode() }];
            let told = say_if(mode.verbose, setting_permissions_text());
            lemma_effects_concat(after, set, told);
            lemma_effects_one(after, set[0]);
            lemma_says_change_nothing(after, told);
        }
    }
}

/// Installing one hook leaves a directory that exists and holds the script,
/// except in a dry run, which leaves all as it was.
pub proof fn lemma_install_steps(
    mode: ExecutionMode,
    seen: HooksDirView,
    dir: HooksDirView,
    hook: Seq<char>,
)
    requires
        seen.exists == dir.exists,
        seen.posix == dir.posix,
    ensures
        effects(dir, install_steps(mode, seen, hook)) == written(mode, ensured(mode, dir), hook),
{
    let opening = say_if(
        mode.verbose && !mode.dry_run,
        installing_hook_text(hook),
    );
    let ensure = ensure_dir_steps(mode, seen.exists);
    let write = write_hook_steps(mode, seen.posix, hook);
    let closing = say_if(mode.verbose, installed_text(hook));
    assert(install_steps(mode, seen, hook) == opening + ensure + write + closing);
    lemma_effects_concat(dir, opening + ensure + write, closing);
    lemma_effects_concat(dir, opening + ensure, write);
    lemma_effects_concat(dir, opening, ensure);
    lemma_says_change_nothing(dir, opening);
    lemma_ensure_dir(mode, dir);
    lemma_write_hook(mode, seen.posix, ensured(mode, dir), hook);
    lemma_says_change_nothing(written(mode, ensured(mode, dir), hook), closing);
}

/// Installing hooks into a directory that exists, or in a dry run, leaves
/// the directory with the script of each of them in it.
pub proof fn lemma_install_each(
    mode: ExecutionMode,
    seen: HooksDirView,
    dir: HooksDirView,
    names: Seq<Seq<char>>,
)
    requires
        seen.exists == dir.exists,
        seen.posix == dir.posix,
        dir.exists || mode.dry_run,
    ensures
        effects(dir, install_each(mode, seen, names)) == all_written(mode, dir, names),
    decreases names.len(),
{
    if names.len() > 0 {
        let first = install_steps(mode, seen, names[0]);
        let rest = install_each(mode, seen, names.drop_first());
        lemma_effects_concat(dir, first, rest);
        lemma_install_steps(mode, seen, dir, names[0]);
        assert(ensured(mode, dir) == dir);
        lemma_install_each(mode, seen, written(mode, dir, names[0]), names.drop_first());
    }
}

/// What writing the script of a hook into a directory that exists leaves:
/// the entries that were there, in their places, then perhaps the hook as a
/// regular file; and the hook is among them.
pub proof fn lemma_written(dir: HooksDirView, hook: Seq<char>)
    requires
        dir.exists,
    ensures
        ({
            let after = written(ExecutionMode { dry_run: false, verbose: false }, dir, hook);
            &&& after.exists
            &&& after.path == dir.path
            &&& after.posix == dir.posix
            &&& has_entry(after, hook)
            &&& after.entries.len() >= dir.entries.len()
            &&& after.entries.take(dir.entries.len() as int) == dir.entries
            &&& forall|i: int|
                dir.entries.len() <= i < after.entries.len() ==> after.entries[i]
                    == (DirEntryView { name: hook, is_file: true })
        }),
{
    let after = written(ExecutionMode { dry_run: false, verbose: false }, dir, hook);
    if has_entry(dir, hook) {
        assert(after == dir);
        assert(after.entries.take(dir.entries.len() as int) =~= dir.entries);
    } else {
        let added = DirEntryView { name: hook, is_file: true };
        assert(after.entries == dir.entries.push(added));
        assert(entry_names(after)[dir.entries.len() as int] == hook);
        assert(after.entries.take(dir.entries.len() as int) =~= dir.entries);
    }
}

/// What writing the scripts of hooks into a directory that exists leaves:
/// the entries that were there, in their places, then regular files with
/// names among those of the hooks; and each of the hooks is among them.
pub proof fn lemma_all_written(mode: ExecutionMode, dir: HooksDirView, names: Seq<Seq<char>>)
    requires
        dir.exists,
        !mode.dry_run,
    ensures
        ({
            let after = all_written(mode, dir, names);
            &&& after.exists
            &&& after.path == dir.path
            &&& after.posix == dir.posix
            &&& after.entries.len() >= dir.entries.len()
            &&& after.entries.take(dir.entries.len() as int) == dir.entries
            &&& forall|i: int|
                dir.entries.len() <= i < after.entries.len() ==> (#[trigger] after.entries[i]).is_file
                    && names.contains(after.entries[i].name)
            &&& forall|k: int| 0 <= k < names.len() ==> has_entry(after, #[trigger] names[k])
            &&& forall|name: Seq<char>| has_entry(dir, name) ==> has_entry(after, name)
        }),
    decreases names.len(),
{
    let after = all_written(mode, dir, names);
    if names.len() == 0 {
        assert(after.entries.take(dir.entries.len() as int) =~= dir.entries);
    } else {
        let next = written(mode, dir, names[0]);
        let rest = names.drop_first();
        lemma_written(dir, names[0]);
        assert(next == written(ExecutionMode { dry_run: false, verbose: false }, dir, names[0]));
        lemma_all_written(mode, next, rest);
        let n = dir.entries.len() as int;
        let m = next.entries.len() as int;
        assert(after.entries.take(n) =~= dir.entries) by {
            assert(after.entries.take(m) == next.entries);
            assert(next.entries.take(n) == dir.entries);
            assert forall|i: int| 0 <= i < n implies after.entries.take(n)[i] == dir.entries[i] by {
                assert(after.entries.take(m)[i] == after.entries[i]);
                assert(next.entries.take(n)[i] == next.entries[i]);
            }
        }
        assert forall|i: int| n <= i < after.entries.len() implies (#[trigger] after.entries[i]).is_file
            && names.contains(after.entries[i].name) by {
            if i < m {
                assert(after.entries.take(m)[i] == after.entries[i]);
                assert(next.entries[i] == (DirEntryView { name: names[0], is_file: true }));
                assert(names[0] == after.entries[i].name);
            } else {
                assert(rest.contains(after.entries[i].name));
                let k = choose|k: int| 0 <= k < rest.len() && rest[k] == after.entries[i].name;
                assert(names[k + 1] == after.entries[i].name);
            }
        }
        assert forall|k: int| 0 <= k < names.len() implies has_entry(after, #[trigger] names[k]) by {
            if k == 0 {
                assert(has_entry(next, names[0]));
            } else {
                assert(rest[k - 1] == names[k]);
            }
        }
        assert forall|name: Seq<char>| has_entry(dir, name) implies has_entry(after, name) by {
            let i = choose|i: int| 0 <= i < entry_names(dir).len() && entry_names(dir)[i] == name;
            assert(next.entries.take(n)[i] == next.entries[i]);
            assert(entry_names(next)[i] == name);
            assert(has_entry(next, name));
        }
    }
}

/// A filter that none of the elements passes leaves nothing.
pub proof fn lemma_filter_none<A>(items: Seq<A>, test: spec_fn(A) -> bool)
    requires
        forall|i: int| 0 <= i < items.len() ==> !test(#[trigger] items[i]),
    ensures
        items.filter(test) == Seq::<A>::empty(),
    decreases items.len(),
{
    reveal(Seq::filter);
    if items.len() > 0 {
        assert forall|i: int| 0 <= i < items.drop_last().len() implies !test(
            #[trigger] items.drop_last()[i],
        ) by {
            assert(items.drop_last()[i] == items[i]);
        }
        lemma_filter_none(items.drop_last(), test);
    }
}

/// After every hook of a configuration has been installed, a comparison
/// finds nothing amiss: no hook of the configuration is missing, and no
/// file is reported that was not reported before. This holds outside a
/// dry run, for a configuration whose hook names Git knows, and where the
/// hooks directory could be found. Then, if the directory held no file
/// before that is no hook of the configuration, the comparison says that
/// all hooks match.
pub proof fn lemma_install_then_compare(
    hooks: Seq<HookView>,
    mode: ExecutionMode,
    dir: HooksDirView,
    verbose: bool,
)
    requires
        !mode.dry_run,
        invalid_names(hooks).len() == 0,
    ensures
        ({
            let plan = install_hooks_plan(hooks, mode, Ok(dir));
            let after = effects(dir, plan.steps);
            &&& plan.result is Ok
            &&& after.exists
            &&& missing_hooks(hooks, after) == Seq::<Seq<char>>::empty()
            &&& extra_hooks(hooks, after) == extra_hooks(hooks, dir)
            &&& extra_hooks(hooks, dir).len() == 0 ==> compare_plan(hooks, verbose, Ok(after))
                == (PlanView {
                steps: say_if(verbose, comparing_text()) + say_if(true, all_match_text()),
                result: Ok(()),
            })
        }),
{
    let plan = install_hooks_plan(hooks, mode, Ok(dir));
    let after = effects(dir, plan.steps);
    let names = hook_names(hooks);
    let opening = say_if(mode.verbose, validating_before_install_text());
    let validated = opening + validation_steps(hooks, mode.verbose);
    let ensure = ensure_dir_steps(mode, dir.exists);
    let told = say_if(mode.verbose, installing_hooks_text());
    let target = ensured(mode, dir);
    let each = install_each(mode, target, names);
    assert(plan.steps == validated + ensure + told + each);
    lemma_validation_only_says(hooks, mode.verbose);
    lemma_only_says_concat(opening, validation_steps(hooks, mode.verbose));
    lemma_effects_concat(dir, validated + ensure + told, each);
    lemma_effects_concat(dir, validated + ensure, told);
    lemma_effects_concat(dir, validated, ensure);
    lemma_says_change_nothing(dir, validated);
    lemma_ensure_dir(mode, dir);
    lemma_says_change_nothing(target, told);
    lemma_install_each(mode, target, target, names);
    assert(after == all_written(mode, target, names));
    lemma_all_written(mode, target, names);
    // No hook of the configuration is missing.
    assert forall|i: int| 0 <= i < names.len() implies !missing_in(after)(#[trigger] names[i]) by {
        assert(has_entry(after, names[i]));
    }
    lemma_filter_none(names, missing_in(after));
    // What was added are hooks of the configuration.
    let n = dir.entries.len() as int;
    let added = after.entries.skip(n);
    assert(target.entries == dir.entries);
    assert(after.entries =~= dir.entries + added) by {
        assert(after.entries.take(n) == dir.entries);
        assert forall|i: int| 0 <= i < n implies after.entries[i] == dir.entries[i] by {
            assert(after.entries.take(n)[i] == after.entries[i]);
        }
    }
    assert forall|i: int| 0 <= i < added.len() implies !extra_to(hooks)(#[trigger] added[i]) by {
        assert(added[i] == after.entries[n + i]);
        assert(names.contains(after.entries[n + i].name));
    }
    lemma_filter_none(added, extra_to(hooks));
    Seq::filter_distributes_over_add(dir.entries, added, extra_to(hooks));
    assert(after.entries.filter(extra_to(hooks)) =~= dir.entries.filter(extra_to(hooks)));
}


/// Installing a hook writes nothing but the script of that hook into the
/// file of that hook, and outside a dry run it does write it.
pub proof fn lemma_install_writes_the_script(mode: ExecutionMode, dir: HooksDirView, hook: Seq<char>)
    ensures
        forall|i: int|
            0 <= i < install_steps(mode, dir, hook).len() && (#[trigger] install_steps(
                mode,
                dir,
                hook,
            )[i]) is WriteFile ==> install_steps(mode, dir, hook)[i] == (ActionView::WriteFile {
                hook,
                content: hook_script(hook),
            }),
        !mode.dry_run ==> install_steps(mode, dir, hook).contains(
            ActionView::WriteFile { hook, content: hook_script(hook) },
        ),
{
    let opening = say_if(
        mode.verbose && !mode.dry_run,
        installing_hook_text(hook),
    );
    let ensure = ensure_dir_steps(mode, dir.exists);
    let write = write_hook_steps(mode, dir.posix, hook);
    let closing = say_if(mode.verbose, installed_text(hook));
    let steps = install_steps(mode, dir, hook);
    let script = ActionView::WriteFile { hook, content: hook_script(hook) };
    assert(steps == opening + ensure + write + closing);
    assert forall|i: int| 0 <= i < write.len() && (#[trigger] write[i]) is WriteFile implies write[i]
        == script by {
    }
    assert forall|i: int| 0 <= i < steps.len() && (#[trigger] steps[i]) is WriteFile implies steps[i]
        == script by {
        let a = opening.len() as int;
        let b = a + ensure.len();
        let c = b + write.len();
        if i < a {
            assert(steps[i] == opening[i]);
        } else if i < b {
            assert(steps[i] == ensure[i - a]);
        } else if i < c {
            assert(steps[i] == write[i - b]);
        } else {
            assert(steps[i] == closing[i - c]);
        }
    }
    if !mode.dry_run {
        let at = (opening.len() + ensure.len()) as int;
        assert(write[0] == script);
        assert(steps[at] == script);
    }
}

/// Installing a hook twice leaves what installing it once leaves: the
/// second plan, made for the directory as the first left it, changes
/// nothing in it.
pub proof fn lemma_install_twice(mode: ExecutionMode, dir: HooksDirView, hook: Seq<char>)
    ensures
        ({
            let first = install_hook_plan(mode, Ok(dir), hook);
            let once = effects(dir, first.steps);
            let second = install_hook_plan(mode, Ok(once), hook);
            &&& first.result is Ok
            &&& second.result is Ok
            &&& effects(once, second.steps) == once
            &&& !mode.dry_run ==> once.exists && has_entry(once, hook)
        }),
{
    let first = install_hook_plan(mode, Ok(dir), hook);
    let once = effects(dir, first.steps);
    lemma_install_steps(mode, dir, dir, hook);
    lemma_install_steps(mode, once, once, hook);
    if !mode.dry_run {
        lemma_written(ensured(mode, dir), hook);
        assert(ensured(mode, once) == once);
    }
}

/// The names of the entries that are left when the entries of one name are
/// taken away: the other names that were there, and not that name.
pub proof fn lemma_names_without(entries: Seq<DirEntryView>, hook: Seq<char>, name: Seq<char>)
    ensures
        entries.filter(|entry: DirEntryView| entry.name != hook).map_values(
            |entry: DirEntryView| entry.name,
        ).contains(name) <==> name != hook && entries.map_values(
            |entry: DirEntryView| entry.name,
        ).contains(name),
    decreases entries.len(),
{
    reveal(Seq::filter);
    let keep = |entry: DirEntryView| entry.name != hook;
    let name_of = |entry: DirEntryView| entry.name;
    let kept = entries.filter(keep).map_values(name_of);
    let all = entries.map_values(name_of);
    if entries.len() > 0 {
        let shorter = entries.drop_last();
        let last = entries.last();
        let kept_before = shorter.filter(keep).map_values(name_of);
        let all_before = shorter.map_values(name_of);
        lemma_names_without(shorter, hook, name);
        if kept.contains(name) {
            let i = choose|i: int| 0 <= i < kept.len() && kept[i] == name;
            if i < kept_before.len() {
                assert(kept_before[i] == name);
                assert(kept_before.contains(name));
                let j = choose|j: int| 0 <= j < all_before.len() && all_before[j] == name;
                assert(all[j] == name);
            } else {
                assert(all[entries.len() - 1] == name);
            }
        }
        if name != hook && all.contains(name) {
            let j = choose|j: int| 0 <= j < all.len() && all[j] == name;
            if j < entries.len() - 1 {
                assert(all_before[j] == name);
                assert(all_before.contains(name));
                let i = choose|i: int| 0 <= i < kept_before.len() && kept_before[i] == name;
                assert(kept[i] == name);
            } else {
                assert(keep(last));
                assert(kept[kept.len() - 1] == name);
            }
        }
    }
}

/// Removing one hook of the configuration leaves no file of that hook, and
/// leaves every other entry of the hooks directory where it was. This holds
/// outside a dry run, where the hooks directory could be found.
pub proof fn lemma_uninstall_one(
    hooks: Seq<HookView>,
    mode: ExecutionMode,
    dir: HooksDirView,
    hook: Seq<char>,
)
    requires
        has_hook(hooks, hook),
        !mode.dry_run,
    ensures
        ({
            let plan = uninstall_given_plan(hooks, mode, Ok(dir), hook);
            let after = effects(dir, plan.steps);
            &&& plan.result is Ok
            &&& !has_entry(after, hook)
            &&& forall|other: Seq<char>|
                other != hook ==> has_entry(after, other) == has_entry(dir, other)
            &&& after.exists == dir.exists
        }),
{
    lemma_uninstall_steps(mode, dir, dir, hook);
}

/// The directory after the file of a hook has been removed from it, if it
/// was seen in it; in a dry run, the directory as it was.
pub open spec fn removed(
    mode: ExecutionMode,
    seen: HooksDirView,
    dir: HooksDirView,
    hook: Seq<char>,
) -> HooksDirView {
    if !mode.dry_run && has_entry(seen, hook) {
        effect(dir, ActionView::RemoveFile { hook })
    } else {
        dir
    }
}

/// What removing one hook leaves, for the plan that was made when the
/// directory was seen in one state and is performed on it in another.
pub proof fn lemma_uninstall_steps(
    mode: ExecutionMode,
    seen: HooksDirView,
    dir: HooksDirView,
    hook: Seq<char>,
)
    ensures
        effects(dir, uninstall_steps(mode, seen, hook)) == removed(mode, seen, dir, hook),
        forall|other: Seq<char>|
            other != hook ==> has_entry(removed(mode, seen, dir, hook), other) == has_entry(
                dir,
                other,
            ),
        !mode.dry_run && (has_entry(seen, hook) || !has_entry(dir, hook)) ==> !has_entry(
            removed(mode, seen, dir, hook),
            hook,
        ),
        removed(mode, seen, dir, hook).exists == dir.exists,
{
    let opening = say_if(mode.verbose && !mode.dry_run, uninstalling_text(hook));
    let act = if has_entry(seen, hook) {
        if mode.dry_run {
            say_if(true, would_remove_text(hook_path(seen.path, hook)))
        } else {
            seq![ActionView::RemoveFile { hook }]
        }
    } else {
        say_if(true, no_hook_file_text(hook))
    };
    assert(uninstall_steps(mode, seen, hook) == opening + act);
    lemma_effects_concat(dir, opening, act);
    lemma_says_change_nothing(dir, opening);
    if !mode.dry_run && has_entry(seen, hook) {
        lemma_effects_one(dir, ActionView::RemoveFile { hook });
    } else {
        lemma_says_change_nothing(dir, act);
    }
    let after = removed(mode, seen, dir, hook);
    assert forall|other: Seq<char>| other != hook implies has_entry(after, other) == has_entry(
        dir,
        other,
    ) by {
        lemma_names_without(dir.entries, hook, other);
    }
    lemma_names_without(dir.entries, hook, hook);
}


/// What removing hooks leaves, for the plan that was made when the
/// directory was seen in one state and is performed on it in another that
/// holds no entry that was not seen: no entry of any of the hooks, and
/// every other entry.
pub proof fn lemma_uninstall_each(
    mode: ExecutionMode,
    seen: HooksDirView,
    dir: HooksDirView,
    names: Seq<Seq<char>>,
)
    requires
        !mode.dry_run,
        forall|name: Seq<char>| has_entry(dir, name) ==> has_entry(seen, name),
    ensures
        ({
            let after = effects(dir, uninstall_each(mode, seen, names));
            &&& forall|name: Seq<char>| names.contains(name) ==> !has_entry(after, name)
            &&& forall|name: Seq<char>|
                !names.contains(name) ==> has_entry(after, name) == has_entry(dir, name)
            &&& after.exists == dir.exists
        }),
    decreases names.len(),
{
    if names.len() > 0 {
        let first = uninstall_steps(mode, seen, names[0]);
        let rest = uninstall_each(mode, seen, names.drop_first());
        let next = removed(mode, seen, dir, names[0]);
        let after = effects(dir, first + rest);
        lemma_effects_concat(dir, first, rest);
        lemma_uninstall_steps(mode, seen, dir, names[0]);
        assert forall|name: Seq<char>| has_entry(next, name) implies has_entry(seen, name) by {
            if name != names[0] {
                assert(has_entry(next, name) == has_entry(dir, name));
            }
        }
        lemma_uninstall_each(mode, seen, next, names.drop_first());
        assert forall|name: Seq<char>| names.contains(name) implies !has_entry(after, name) by {
            let k = choose|k: int| 0 <= k < names.len() && names[k] == name;
            if k > 0 {
                assert(names.drop_first()[k - 1] == name);
                assert(names.drop_first().contains(name));
            } else if !names.drop_first().contains(name) {
                assert(has_entry(after, name) == has_entry(next, name));
            }
        }
        assert forall|name: Seq<char>| !names.contains(name) implies has_entry(after, name)
            == has_entry(dir, name) by {
            assert(name != names[0]);
            if names.drop_first().contains(name) {
                let k = choose|k: int|
                    0 <= k < names.drop_first().len() && names.drop_first()[k] == name;
                assert(names[k + 1] == name);
            }
        }
    }
}

/// Removing every hook of the configuration leaves no file of any of them,
/// and leaves every other entry of the hooks directory where it was. This
/// holds outside a dry run, where the hooks directory could be found.
pub proof fn lemma_uninstall_all(hooks: Seq<HookView>, mode: ExecutionMode, dir: HooksDirView)
    requires
        !mode.dry_run,
    ensures
        ({
            let plan = uninstall_hooks_plan(hooks, mode, Ok(dir));
            let after = effects(dir, plan.steps);
            &&& plan.result is Ok
            &&& forall|name: Seq<char>| has_hook(hooks, name) ==> !has_entry(after, name)
            &&& forall|name: Seq<char>|
                !has_hook(hooks, name) ==> has_entry(after, name) == has_entry(dir, name)
        }),
{
    let loud = mode.verbose && !mode.dry_run;
    let opening = say_if(loud, uninstalling_all_text());
    let closing = say_if(loud, uninstall_completed_text(hooks.len()));
    let names = hook_names(hooks);
    let each = uninstall_each(mode, dir, names);
    if hooks.len() == 0 {
        lemma_only_says_concat(opening, say_if(loud, uninstall_completed_text(0)));
        lemma_says_change_nothing(dir, opening + say_if(loud, uninstall_completed_text(0)));
        assert forall|name: Seq<char>| !has_hook(hooks, name) by {
            assert(names.len() == 0);
        }
    } else {
        lemma_effects_concat(dir, opening + each, closing);
        lemma_effects_concat(dir, opening, each);
        lemma_says_change_nothing(dir, opening);
        lemma_uninstall_each(mode, dir, dir, names);
        lemma_says_change_nothing(effects(dir, each), closing);
    }
}

/// A dry run of an installation, of a removal or of a comparison changes
/// nothing on disk: its plan only says what would be done. And it ends as
/// the same operation ends outside a dry run when every action succeeds.
pub proof fn lemma_dry_run_changes_nothing(
    hooks: Seq<HookView>,
    verbose: bool,
    located: Result<HooksDirView, GitErrorView>,
    hook: Seq<char>,
)
    ensures
        ({
            let dry = ExecutionMode { dry_run: true, verbose };
            let wet = ExecutionMode { dry_run: false, verbose };
            &&& only_says(install_hook_plan(dry, located, hook).steps)
            &&& install_hook_plan(dry, located, hook).result == install_hook_plan(
                wet,
                located,
                hook,
            ).result
            &&& only_says(install_hooks_plan(hooks, dry, located).steps)
            &&& install_hooks_plan(hooks, dry, located).result == install_hooks_plan(
                hooks,
                wet,
                located,
            ).result
            &&& only_says(uninstall_given_plan(hooks, dry, located, hook).steps)
            &&& uninstall_given_plan(hooks, dry, located, hook).result == uninstall_given_plan(
                hooks,
                wet,
                located,
                hook,
            ).result
            &&& only_says(uninstall_hooks_plan(hooks, dry, located).steps)
            &&& uninstall_hooks_plan(hooks, dry, located).result == uninstall_hooks_plan(
                hooks,
                wet,
                located,
            ).result
            &&& only_says(compare_plan(hooks, verbose, located).steps)
            &&& only_says(validation_steps(hooks, verbose))
        }),
{
    let dry = ExecutionMode { dry_run: true, verbose };
    lemma_validation_only_says(hooks, verbose);
    match located {
        Ok(dir) => {
            lemma_dry_install_only_says(verbose, dir, hook);
            lemma_dry_install_each_only_says(verbose, ensured(dry, dir), hook_names(hooks));
            let opening = say_if(verbose, validating_before_install_text());
            let validated = opening + validation_steps(hooks, verbose);
            lemma_only_says_concat(opening, validation_steps(hooks, verbose));
            lemma_only_says_concat(validated, ensure_dir_steps(dry, dir.exists));
            lemma_only_says_concat(
                validated + ensure_dir_steps(dry, dir.exists),
                say_if(verbose, installing_hooks_text()),
            );
            lemma_only_says_concat(
                validated + ensure_dir_steps(dry, dir.exists) + say_if(
                    verbose,
                    installing_hooks_text(),
                ),
                install_each(dry, ensured(dry, dir), hook_names(hooks)),
            );
            lemma_dry_uninstall_each_only_says(verbose, dir, hook_names(hooks));
            lemma_only_says_concat(
                say_if(false, uninstalling_all_text()),
                uninstall_each(dry, dir, hook_names(hooks)),
            );
            lemma_only_says_concat(
                say_if(false, uninstalling_all_text()) + uninstall_each(
                    dry,
                    dir,
                    hook_names(hooks),
                ),
                say_if(false, uninstall_completed_text(hooks.len())),
            );
            lemma_compare_only_says(hooks, verbose, dir);
        },
        Err(e) => {
            let opening = say_if(verbose, validating_before_install_text());
            lemma_only_says_concat(opening, validation_steps(hooks, verbose));
        },
    }
}

/// A dry run of the installation of one hook only says what would be done.
pub proof fn lemma_dry_install_only_says(verbose: bool, dir: HooksDirView, hook: Seq<char>)
    ensures
        only_says(install_steps(ExecutionMode { dry_run: true, verbose }, dir, hook)),
        only_says(uninstall_steps(ExecutionMode { dry_run: true, verbose }, dir, hook)),
{
    let dry = ExecutionMode { dry_run: true, verbose };
    let opening = say_if(false, installing_hook_text(hook));
    let ensure = ensure_dir_steps(dry, dir.exists);
    let write = write_hook_steps(dry, dir.posix, hook);
    let closing = say_if(verbose, installed_text(hook));
    lemma_only_says_concat(opening, ensure);
    lemma_only_says_concat(opening + ensure, write);
    lemma_only_says_concat(opening + ensure + write, closing);
    let saying = say_if(false, uninstalling_text(hook));
    let act = if has_entry(dir, hook) {
        say_if(true, would_remove_text(hook_path(dir.path, hook)))
    } else {
        say_if(true, no_hook_file_text(hook))
    };
    lemma_only_says_concat(saying, act);
}

/// A dry run of the installation of hooks only says what would be done.
pub proof fn lemma_dry_install_each_only_says(verbose: bool, dir: HooksDirView, names: Seq<Seq<char>>)
    ensures
        only_says(install_each(ExecutionMode { dry_run: true, verbose }, dir, names)),
    decreases names.len(),
{
    let dry = ExecutionMode { dry_run: true, verbose };
    if names.len() > 0 {
        lemma_dry_install_only_says(verbose, dir, names[0]);
        lemma_dry_install_each_only_says(verbose, dir, names.drop_first());
        lemma_only_says_concat(
            install_steps(dry, dir, names[0]),
            install_each(dry, dir, names.drop_first()),
        );
    }
}

/// A dry run of the removal of hooks only says what would be done.
pub proof fn lemma_dry_uninstall_each_only_says(
    verbose: bool,
    dir: HooksDirView,
    names: Seq<Seq<char>>,
)
    ensures
        only_says(uninstall_each(ExecutionMode { dry_run: true, verbose }, dir, names)),
    decreases names.len(),
{
    let dry = ExecutionMode { dry_run: true, verbose };
    if names.len() > 0 {
        lemma_dry_install_only_says(verbose, dir, names[0]);
        lemma_dry_uninstall_each_only_says(verbose, dir, names.drop_first());
        lemma_only_says_concat(
            uninstall_steps(dry, dir, names[0]),
            uninstall_each(dry, dir, names.drop_first()),
        );
    }
}

/// A comparison changes nothing on disk.
pub proof fn lemma_compare_only_says(hooks: Seq<HookView>, verbose: bool, dir: HooksDirView)
    ensures
        only_says(compare_steps(hooks, verbose, dir)),
{
    let opening = say_if(verbose, comparing_text());
    let missing = say_each(
        missing_hooks(hooks, dir),
        |name: Seq<char>| missing_hook_text(name),
    );
    let extra = say_each(
        extra_hooks(hooks, dir),
        |name: Seq<char>| extra_hook_text(name),
    );
    let heading = say_if(true, differences_found_text());
    lemma_only_says_concat(heading, missing);
    lemma_only_says_concat(heading + missing, extra);
    lemma_only_says_concat(opening, heading + missing + extra);
    lemma_only_says_concat(opening, say_if(true, all_match_text()));
}



/// A dry run of an initialisation writes no file and does not ask whether
/// a file may be replaced; and it ends as the initialisation ends outside
/// a dry run.
pub proof fn lemma_dry_init_writes_nothing(
    path: Seq<char>,
    exists: bool,
    verbose: bool,
    answer: Result<Seq<usize>, Seq<char>>,
)
    ensures
        only_says(init_turn(path, exists, true, verbose).steps),
        !(init_turn(path, exists, true, verbose).next is Confirm),
        only_says(selected_turn(path, true, verbose, answer).steps),
        selected_turn(path, true, verbose, answer).next == selected_turn(
            path,
            false,
            verbose,
            answer,
        ).next,
{
    let opening = init_turn(path, exists, true, verbose).steps;
    assert forall|i: int| 0 <= i < opening.len() implies is_say(#[trigger] opening[i]) by {
    }
    let closing = selected_turn(path, true, verbose, answer).steps;
    assert forall|i: int| 0 <= i < closing.len() implies is_say(#[trigger] closing[i]) by {
    }
}

/// The commands of the named hooks, in order, up to the first name that
/// the configuration does not have.
pub open spec fn planned_commands(hooks: Seq<HookView>, names: Seq<Seq<char>>) -> Seq<Seq<char>>
    decreases names.len(),
{
    if names.len() == 0 {
        Seq::empty()
    } else {
        match commands_of(hooks, names[0]) {
            Some(commands) => commands + planned_commands(hooks, names.drop_first()),
            None => Seq::empty(),
        }
    }
}

/// How a run of the named hooks ends if every command ends well: with an
/// error for the first name that the configuration does not have, or with
/// success if it has them all.
pub open spec fn names_verdict(hooks: Seq<HookView>, names: Seq<Seq<char>>) -> Result<
    (),
    HooksmithErrorView,
>
    decreases names.len(),
{
    if names.len() == 0 {
        Ok(())
    } else {
        match commands_of(hooks, names[0]) {
            Some(commands) => names_verdict(hooks, names.drop_first()),
            None => Err(hook_not_found(names[0])),
        }
    }
}

/// A line of a script plans no command and is no failure.
pub proof fn lemma_item_if(wanted: bool, text: Seq<char>)
    ensures
        never_fails(item_if(wanted, text)),
        planned(item_if(wanted, text)) == Seq::<Seq<char>>::empty(),
{
    let items = item_if(wanted, text);
    if wanted {
        assert(items.drop_first() =~= Seq::<RunItemView>::empty());
        assert(planned(items.drop_first()) =~= Seq::<Seq<char>>::empty());
    }
    assert(planned(items) =~= Seq::<Seq<char>>::empty());
}

/// Scripts that hold no failure, put together, hold no failure.
pub proof fn lemma_never_fails_concat(first: Seq<RunItemView>, then: Seq<RunItemView>)
    requires
        never_fails(first),
        never_fails(then),
    ensures
        never_fails(first + then),
{
    assert forall|i: int| 0 <= i < (first + then).len() implies !((#[trigger] (first + then)[i])
        is Fail) by {
        if i < first.len() {
            assert((first + then)[i] == first[i]);
        } else {
            assert((first + then)[i] == then[i - first.len()]);
        }
    }
}

/// The script for the commands of a hook plans those commands, in order.
pub proof fn lemma_commands_items(verbose: bool, hook: Seq<char>, commands: Seq<Seq<char>>)
    ensures
        never_fails(commands_items(verbose, hook, commands)),
        planned(commands_items(verbose, hook, commands)) == commands,
    decreases commands.len(),
{
    if commands.len() == 0 {
        assert(planned(commands_items(verbose, hook, commands)) =~= commands);
    } else {
        let command = commands[0];
        let before = item_if(verbose, running_command_text(command));
        let start = seq![RunItemView::Spawn { hook, command }];
        let after = item_if(verbose, command_completed_text());
        let one = command_items(verbose, hook, command);
        let rest = commands_items(verbose, hook, commands.drop_first());
        assert(one == before + start + after);
        lemma_item_if(verbose, running_command_text(command));
        lemma_item_if(verbose, command_completed_text());
        assert(never_fails(start));
        assert(start.drop_first() =~= Seq::<RunItemView>::empty());
        assert(planned(start.drop_first()) =~= Seq::<Seq<char>>::empty());
        assert(start[0] == RunItemView::Spawn { hook, command });
        assert(planned(start) =~= seq![command]);
        lemma_never_fails_concat(before, start);
        lemma_never_fails_concat(before + start, after);
        lemma_script_concat(before, start);
        lemma_script_concat(before + start, after);
        assert(planned(one) =~= seq![command]);
        lemma_commands_items(verbose, hook, commands.drop_first());
        lemma_never_fails_concat(one, rest);
        lemma_script_concat(one, rest);
        assert(seq![command] + commands.drop_first() =~= commands);
    }
}

/// What a dry run says of the commands of a hook plans no command.
pub proof fn lemma_announcements(
    cwd: Option<Seq<char>>,
    commands: Seq<Seq<char>>,
    first: nat,
    total: nat,
)
    ensures
        never_fails(announcements(cwd, commands, first, total)),
        planned(announcements(cwd, commands, first, total)) == Seq::<Seq<char>>::empty(),
    decreases commands.len(),
{
    if commands.len() == 0 {
    } else {
        let one = announcement(cwd, commands[0], first, total);
        let rest = announcements(cwd, commands.drop_first(), first + 1, total);
        lemma_only_lines(one);
        lemma_announcements(cwd, commands.drop_first(), first + 1, total);
        lemma_never_fails_concat(one, rest);
        lemma_script_concat(one, rest);
        assert(planned(one) + planned(rest) =~= Seq::<Seq<char>>::empty());
    }
}

/// A script that only prints plans no command and is no failure.
pub proof fn lemma_only_lines(items: Seq<RunItemView>)
    requires
        forall|i: int| 0 <= i < items.len() ==> (#[trigger] items[i]) is Say,
    ensures
        never_fails(items),
        planned(items) == Seq::<Seq<char>>::empty(),
        verdict(items) == Ok::<(), HooksmithErrorView>(()),
    decreases items.len(),
{
    if items.len() > 0 {
        assert(items[0] is Say);
        assert forall|i: int| 0 <= i < items.drop_first().len() implies (
        #[trigger] items.drop_first()[i]) is Say by {
            assert(items.drop_first()[i] == items[i + 1]);
        }
        lemma_only_lines(items.drop_first());
    }
}

/// The script for one hook plans its commands, or in a dry run none, and
/// holds no failure.
pub proof fn lemma_hook_items(
    mode: ExecutionMode,
    cwd: Option<Seq<char>>,
    hook: Seq<char>,
    commands: Seq<Seq<char>>,
)
    ensures
        never_fails(hook_items(mode, cwd, hook, commands)),
        planned(hook_items(mode, cwd, hook, commands)) == (if mode.dry_run {
            Seq::<Seq<char>>::empty()
        } else {
            commands
        }),
{
    if mode.dry_run {
        let said = announcements(cwd, commands, 1, commands.len());
        let closing = seq![
            RunItemView::Say(out_line(dry_run_completed_text(commands.len()))),
        ];
        lemma_announcements(cwd, commands, 1, commands.len());
        lemma_only_lines(closing);
        lemma_never_fails_concat(said, closing);
        lemma_script_concat(said, closing);
        assert(planned(said) + planned(closing) =~= Seq::<Seq<char>>::empty());
    } else {
        let opening = item_if(mode.verbose, running_hook_text(hook));
        let rest = commands_items(mode.verbose, hook, commands);
        lemma_item_if(mode.verbose, running_hook_text(hook));
        lemma_commands_items(mode.verbose, hook, commands);
        lemma_never_fails_concat(opening, rest);
        lemma_script_concat(opening, rest);
        assert(planned(opening) + planned(rest) =~= commands);
    }
}

/// The script for running hooks by name plans the commands of the named
/// hooks, or in a dry run none, and ends as the names say.
pub proof fn lemma_run_items(
    hooks: Seq<HookView>,
    mode: ExecutionMode,
    cwd: Option<Seq<char>>,
    names: Seq<Seq<char>>,
)
    ensures
        planned(run_items(hooks, mode, cwd, names)) == (if mode.dry_run {
            Seq::<Seq<char>>::empty()
        } else {
            planned_commands(hooks, names)
        }),
        verdict(run_items(hooks, mode, cwd, names)) == names_verdict(hooks, names),
    decreases names.len(),
{
    if names.len() > 0 {
        match commands_of(hooks, names[0]) {
            Some(commands) => {
                let first = hook_items(mode, cwd, names[0], commands);
                let rest = run_items(hooks, mode, cwd, names.drop_first());
                lemma_hook_items(mode, cwd, names[0], commands);
                lemma_run_items(hooks, mode, cwd, names.drop_first());
                lemma_script_concat(first, rest);
                if mode.dry_run {
                    assert(planned(first) + planned(rest) =~= Seq::<Seq<char>>::empty());
                }
            },
            None => {
                let items = not_found_items(hooks, names[0]);
                assert(items[0] is Say);
                assert(items.drop_first()[0] is Fail);
                assert(items.drop_first()[0] == RunItemView::Fail(hook_not_found(names[0])));
                assert(planned(items.drop_first()) =~= Seq::<Seq<char>>::empty());
                assert(planned(items) =~= Seq::<Seq<char>>::empty());
                assert(verdict(items.drop_first()) == Err::<(), HooksmithErrorView>(
                    hook_not_found(names[0]),
                ));
                assert(verdict(items) == verdict(items.drop_first()));
            },
        }
    }
}

/// A dry run of hooks starts no command. It ends at once, and as a run
/// outside a dry run ends when every command ends well: with success if
/// the configuration has every named hook, else with an error for the
/// first that it does not have.
pub proof fn lemma_dry_run_starts_nothing(
    hooks: Seq<HookView>,
    verbose: bool,
    cwd: Option<Seq<char>>,
    names: Seq<Seq<char>>,
    outcomes: Seq<CommandOutcomeView>,
)
    requires
        forall|j: int| 0 <= j < outcomes.len() ==> succeeded(#[trigger] outcomes[j]),
        outcomes.len() >= planned_commands(hooks, names).len(),
    ensures
        ({
            let dry = ExecutionMode { dry_run: true, verbose };
            let wet = ExecutionMode { dry_run: false, verbose };
            &&& turn_from(run_items(hooks, dry, cwd, names), 0).next == NextView::Finished(
                names_verdict(hooks, names),
            )
            &&& only_says(turn_from(run_items(hooks, dry, cwd, names), 0).steps)
            &&& run_trace(turn_from(run_items(hooks, wet, cwd, names), 0), outcomes).result == Some(
                names_verdict(hooks, names),
            )
        }),
{
    let dry = ExecutionMode { dry_run: true, verbose };
    let wet = ExecutionMode { dry_run: false, verbose };
    let script = run_items(hooks, dry, cwd, names);
    let actual = run_items(hooks, wet, cwd, names);
    lemma_run_items(hooks, dry, cwd, names);
    lemma_run_items(hooks, wet, cwd, names);
    assert(script.skip(0) =~= script);
    assert(actual.skip(0) =~= actual);
    lemma_turn_follows_script(script, 0);
    lemma_turn_only_says(script, 0);
    lemma_run_to_the_end(actual, 0, outcomes);
}

/// A hook without commands runs well and starts nothing, in every mode.
pub proof fn lemma_empty_hook_runs_well(
    hooks: Seq<HookView>,
    mode: ExecutionMode,
    cwd: Option<Seq<char>>,
    hook: Seq<char>,
)
    requires
        commands_of(hooks, hook) == Some(Seq::<Seq<char>>::empty()),
    ensures
        turn_from(run_items(hooks, mode, cwd, seq![hook]), 0).next == NextView::Finished(Ok(())),
{
    let names = seq![hook];
    let script = run_items(hooks, mode, cwd, names);
    lemma_run_items(hooks, mode, cwd, names);
    assert(names.drop_first() =~= Seq::<Seq<char>>::empty());
    assert(planned_commands(hooks, names.drop_first()) =~= Seq::<Seq<char>>::empty());
    assert(planned_commands(hooks, names) =~= Seq::<Seq<char>>::empty());
    assert(names_verdict(hooks, names.drop_first()) == Ok::<(), HooksmithErrorView>(()));
    assert(names[0] == hook);
    assert(names_verdict(hooks, names) == Ok::<(), HooksmithErrorView>(()));
    assert(script.skip(0) =~= script);
    lemma_turn_follows_script(script, 0);
}

/// A run of hooks halts at the first command that does not end well. The
/// commands of the named hooks are started in order, up to that one; no
/// command after it is started, of that hook or of a later one; and the
/// run ends with the error of that command, which carries its status code.
pub proof fn lemma_run_hooks_halts_at_first_failure(
    hooks: Seq<HookView>,
    verbose: bool,
    cwd: Option<Seq<char>>,
    names: Seq<Seq<char>>,
    outcomes: Seq<CommandOutcomeView>,
    k: int,
)
    requires
        0 <= k < outcomes.len(),
        k < planned_commands(hooks, names).len(),
        forall|j: int| 0 <= j < k ==> succeeded(#[trigger] outcomes[j]),
        !succeeded(outcomes[k]),
    ensures
        run_trace(
            turn_from(
                run_items(hooks, ExecutionMode { dry_run: false, verbose }, cwd, names),
                0,
            ),
            outcomes,
        ) == (RunTrace {
            started: planned_commands(hooks, names).take(k + 1),
            result: Some(Err(failure_of(outcomes[k]))),
        }),
{
    let wet = ExecutionMode { dry_run: false, verbose };
    let script = run_items(hooks, wet, cwd, names);
    lemma_run_items(hooks, wet, cwd, names);
    assert(script.skip(0) =~= script);
    lemma_run_halts_at_first_failure(script, 0, outcomes, k);
}

/// A run of hooks whose commands all end well starts every command of the
/// named hooks, in order, up to the first name that the configuration does
/// not have, and ends as the names say.
pub proof fn lemma_run_hooks_to_the_end(
    hooks: Seq<HookView>,
    verbose: bool,
    cwd: Option<Seq<char>>,
    names: Seq<Seq<char>>,
    outcomes: Seq<CommandOutcomeView>,
)
    requires
        forall|j: int| 0 <= j < outcomes.len() ==> succeeded(#[trigger] outcomes[j]),
        outcomes.len() >= planned_commands(hooks, names).len(),
    ensures
        run_trace(
            turn_from(
                run_items(hooks, ExecutionMode { dry_run: false, verbose }, cwd, names),
                0,
            ),
            outcomes,
        ) == (RunTrace {
            started: planned_commands(hooks, names),
            result: Some(names_verdict(hooks, names)),
        }),
{
    let wet = ExecutionMode { dry_run: false, verbose };
    let script = run_items(hooks, wet, cwd, names);
    lemma_run_items(hooks, wet, cwd, names);
    assert(script.skip(0) =~= script);
    lemma_run_to_the_end(script, 0, outcomes);
}

} // verus!
