//! What an operation hands back: the actions to perform, in order, and the
//! result to report once they are done. Also the hooks directory as the
//! operations see it, and what each action does to it.

use crate::error::{result_view, HooksmithError, HooksmithErrorView};
use crate::utils::{out_line, Line, LineView};
use vstd::prelude::*;

verus! {

/// How operations are carried out.
#[derive(Debug, Clone, Copy, PartialEq, Eq)]
pub struct ExecutionMode {
    /// Nothing is written, removed or started; what would happen is announced.
    pub dry_run: bool,
    /// More is said about each step. What is done does not depend on it.
    pub verbose: bool,
}

/// One entry of the hooks directory.
#[derive(Debug, Clone, PartialEq, Eq)]
pub struct DirEntry {
    pub name: String,
    /// Whether the entry is a regular file.
    pub is_file: bool,
}

/// The mathematical value of a [`DirEntry`].
pub struct DirEntryView {
    pub name: Seq<char>,
    pub is_file: bool,
}

/// The hooks directory of a repository, as found on disk.
#[derive(Debug, Clone, PartialEq, Eq)]
pub struct HooksDir {
    /// The path that Git gives for the directory.
    pub path: String,
    /// Whether anything exists at that path.
    pub exists: bool,
    /// Whether files carry permission bits for owner, group and others.
    pub posix: bool,
    /// What the directory holds.
    pub entries: Vec<DirEntry>,
}

/// The mathematical value of a [`HooksDir`].
pub struct HooksDirView {
    pub path: Seq<char>,
    pub exists: bool,
    pub posix: bool,
    pub entries: Seq<DirEntryView>,
}

/// One thing for the caller to do.
#[derive(Debug, Clone, PartialEq, Eq)]
pub enum Action {
    /// Print a line.
    Say(Line),
    /// Create the hooks directory, with the directories above it.
    CreateDir,
    /// Write the file of a hook, replacing what it held.
    WriteFile { hook: String, content: String },
    /// Set the permission bits of the file of a hook.
    SetMode { hook: String, mode: u32 },
    /// Remove the file of a hook.
    RemoveFile { hook: String },
    /// Write a configuration file at the given path.
    WriteConfig { path: String, content: String },
}

/// The mathematical value of an [`Action`].
pub enum ActionView {
    Say(LineView),
    CreateDir,
    WriteFile { hook: Seq<char>, content: Seq<char> },
    SetMode { hook: Seq<char>, mode: u32 },
    RemoveFile { hook: Seq<char> },
    WriteConfig { path: Seq<char>, content: Seq<char> },
}

/// The outcome of an operation: actions to perform in order, and the result
/// to report if each of them succeeds.
#[derive(Debug, PartialEq, Eq)]
pub struct Plan {
    pub steps: Vec<Action>,
    pub result: Result<(), HooksmithError>,
}

/// The mathematical value of a [`Plan`].
pub struct PlanView {
    pub steps: Seq<ActionView>,
    pub result: Result<(), HooksmithErrorView>,
}

impl View for DirEntry {
    type V = DirEntryView;

    open spec fn view(&self) -> DirEntryView {
        DirEntryView { name: self.name@, is_file: self.is_file }
    }
}

impl DeepView for DirEntry {
    type V = DirEntryView;

    open spec fn deep_view(&self) -> DirEntryView {
        self@
    }
}

impl View for HooksDir {
    type V = HooksDirView;

    open spec fn view(&self) -> HooksDirView {
        HooksDirView {
            path: self.path@,
            exists: self.exists,
            posix: self.posix,
            entries: self.entries.deep_view(),
        }
    }
}

impl View for Action {
    type V = ActionView;

    open spec fn view(&self) -> ActionView {
        match self {
            Action::Say(line) => ActionView::Say(line@),
            Action::CreateDir => ActionView::CreateDir,
            Action::WriteFile { hook, content } => ActionView::WriteFile {
                hook: hook@,
                content: content@,
            },
            Action::SetMode { hook, mode } => ActionView::SetMode { hook: hook@, mode: *mode },
            Action::RemoveFile { hook } => ActionView::RemoveFile { hook: hook@ },
            Action::WriteConfig { path, content } => ActionView::WriteConfig {
                path: path@,
                content: content@,
            },
        }
    }
}

impl DeepView for Action {
    type V = ActionView;

    open spec fn deep_view(&self) -> ActionView {
        self@
    }
}

impl View for Plan {
    type V = PlanView;

    open spec fn view(&self) -> PlanView {
        PlanView { steps: self.steps.deep_view(), result: result_view(self.result) }
    }
}

/// One printed line for each name, in order.
pub open spec fn say_each(names: Seq<Seq<char>>, wording: spec_fn(Seq<char>) -> Seq<char>) -> Seq<
    ActionView,
> {
    names.map_values(|name: Seq<char>| ActionView::Say(out_line(wording(name))))
}

/// A printed line, where `wanted`.
pub open spec fn say_if(wanted: bool, text: Seq<char>) -> Seq<ActionView> {
    if wanted {
        seq![ActionView::Say(out_line(text))]
    } else {
        Seq::empty()
    }
}

/// Whether an action changes nothing on disk.
pub open spec fn is_say(action: ActionView) -> bool {
    action is Say
}

/// Whether a sequence of actions changes nothing on disk.
pub open spec fn only_says(steps: Seq<ActionView>) -> bool {
    forall|i: int| 0 <= i < steps.len() ==> is_say(#[trigger] steps[i])
}

/// The names of the entries of a directory, in its order.
pub open spec fn entry_names(dir: HooksDirView) -> Seq<Seq<char>> {
    dir.entries.map_values(|entry: DirEntryView| entry.name)
}

/// Whether a directory holds an entry of the given name.
pub open spec fn has_entry(dir: HooksDirView, name: Seq<char>) -> bool {
    entry_names(dir).contains(name)
}

/// Where the file of a hook lies: in the hooks directory, under the hook's name.
pub open spec fn hook_path(dir: Seq<char>, hook: Seq<char>) -> Seq<char> {
    dir + "/"@ + hook
}

/// The directory after an action. The directory comes into being when it is
/// created. A file written into an existing directory is in it afterwards,
/// as a regular file if no entry had its name. A removed file is not in it
/// afterwards. Nothing else changes: a configuration file is no part of the
/// hooks directory.
pub open spec fn effect(dir: HooksDirView, action: ActionView) -> HooksDirView {
    match action {
        ActionView::Say(_) => dir,
        ActionView::CreateDir => HooksDirView { exists: true, ..dir },
        ActionView::WriteFile { hook, content } => if dir.exists && !has_entry(dir, hook) {
            HooksDirView {
                entries: dir.entries.push(DirEntryView { name: hook, is_file: true }),
                ..dir
            }
        } else {
            dir
        },
        ActionView::SetMode { hook, mode } => dir,
        ActionView::RemoveFile { hook } => HooksDirView {
            entries: dir.entries.filter(|entry: DirEntryView| entry.name != hook),
            ..dir
        },
        ActionView::WriteConfig { path, content } => dir,
    }
}

/// The directory after a sequence of actions, performed in order.
pub open spec fn effects(dir: HooksDirView, steps: Seq<ActionView>) -> HooksDirView
    decreases steps.len(),
{
    if steps.len() == 0 {
        dir
    } else {
        effect(effects(dir, steps.drop_last()), steps.last())
    }
}

/// Actions that only say something leave the directory as it is.
pub proof fn lemma_says_change_nothing(dir: HooksDirView, steps: Seq<ActionView>)
    requires
        only_says(steps),
    ensures
        effects(dir, steps) == dir,
    decreases steps.len(),
{
    if steps.len() > 0 {
        assert(is_say(steps[steps.len() - 1]));
        lemma_says_change_nothing(dir, steps.drop_last());
    }
}

/// Performing one sequence of actions and then another is performing them
/// all in order.
pub proof fn lemma_effects_concat(dir: HooksDirView, first: Seq<ActionView>, then: Seq<ActionView>)
    ensures
        effects(dir, first + then) == effects(effects(dir, first), then),
    decreases then.len(),
{
    if then.len() == 0 {
        assert(first + then =~= first);
    } else {
        assert((first + then).drop_last() =~= first + then.drop_last());
        assert((first + then).last() == then.last());
        lemma_effects_concat(dir, first, then.drop_last());
    }
}

impl HooksDir {
    /// Whether the directory holds an entry of the given name.
    pub fn contains(&self, name: &str) -> (found: bool)
        ensures
            found == has_entry(self@, name@),
    {
        let wanted = String::from_str(name);
        let mut i: usize = 0;
        while i < self.entries.len()
            invariant
                i <= self.entries.len(),
                wanted@ == name@,
                forall|k: int| 0 <= k < i ==> entry_names(self@)[k] != name@,
            decreases self.entries.len() - i,
        {
            if self.entries[i].name == wanted {
                assert(entry_names(self@)[i as int] == name@);
                return true;
            }
            i += 1;
        }
        false
    }

    /// Where the file of a hook lies.
    pub fn hook_path(&self, hook: &str) -> (path: String)
        ensures
            path@ == hook_path(self.path@, hook@),
    {
        let mut path = self.path.clone();
        path.append("/");
        path.append(hook);
        path
    }

    /// Performs an action on this picture of the directory.
    pub fn apply(&mut self, action: &Action)
        ensures
            final(self)@ == effect(old(self)@, action@),
    {
        match action {
            Action::Say(_) => {},
            Action::CreateDir => {
                self.exists = true;
            },
            Action::WriteFile { hook, content } => {
                if self.exists && !self.contains(hook.as_str()) {
                    self.entries.push(DirEntry { name: hook.clone(), is_file: true });
                    assert(self.entries.deep_view() =~= old(self).entries.deep_view().push(
                        DirEntryView { name: hook@, is_file: true },
                    ));
                }
            },
            Action::SetMode { hook, mode } => {},
            Action::WriteConfig { path, content } => {},
            Action::RemoveFile { hook } => {
                let ghost keep = |entry: DirEntryView| entry.name != hook@;
                let mut kept: Vec<DirEntry> = Vec::new();
                let mut i: usize = 0;
                while i < self.entries.len()
                    invariant
                        i <= self.entries.len(),
                        keep == (|entry: DirEntryView| entry.name != hook@),
                        kept.deep_view() == self.entries.deep_view().take(i as int).filter(keep),
                    decreases self.entries.len() - i,
                {
                    let ghost seen = self.entries.deep_view().take(i as int);
                    let ghost current = self.entries[i as int]@;
                    proof {
                        assert(self.entries.deep_view().take(i + 1) =~= seen.push(current));
                        seen.lemma_filter_push(current, keep);
                    }
                    if self.entries[i].name != *hook {
                        let ghost before = kept.deep_view();
                        kept.push(
                            DirEntry {
                                name: self.entries[i].name.clone(),
                                is_file: self.entries[i].is_file,
                            },
                        );
                        assert(kept.deep_view() =~= before.push(current));
                    }
                    i += 1;
                }
                assert(self.entries.deep_view().take(self.entries.len() as int)
                    =~= self.entries.deep_view());
                self.entries = kept;
            },
        }
    }

    /// Performs the actions of a sequence on this picture of the directory,
    /// in order.
    pub fn apply_all(&mut self, steps: &Vec<Action>)
        ensures
            final(self)@ == effects(old(self)@, steps.deep_view()),
    {
        let mut i: usize = 0;
        while i < steps.len()
            invariant
                i <= steps.len(),
                self@ == effects(old(self)@, steps.deep_view().take(i as int)),
            decreases steps.len() - i,
        {
            assert(steps.deep_view().take(i + 1).drop_last() =~= steps.deep_view().take(i as int));
            assert(steps.deep_view().take(i + 1).last() == steps[i as int]@);
            self.apply(&steps[i]);
            i += 1;
        }
        assert(steps.deep_view().take(steps.len() as int) =~= steps.deep_view());
    }
}

} // verus!
