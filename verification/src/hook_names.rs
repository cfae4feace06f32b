//! The hook names that Git itself knows.

use vstd::prelude::*;

verus! {

/// The standard Git hook names, in their fixed order.
pub open spec fn git_hook_names() -> Seq<Seq<char>> {
    seq![
        "applypatch-msg"@,
        "pre-applypatch"@,
        "post-applypatch"@,
        "pre-commit"@,
        "pre-merge-commit"@,
        "prepare-commit-msg"@,
        "commit-msg"@,
        "post-commit"@,
        "pre-rebase"@,
        "post-checkout"@,
        "post-merge"@,
        "pre-push"@,
        "pre-receive"@,
        "update"@,
        "proc-receive"@,
        "post-receive"@,
        "post-update"@,
        "reference-transaction"@,
        "push-to-checkout"@,
        "pre-auto-gc"@,
        "post-rewrite"@,
        "sendemail-validate"@,
        "fsmonitor-watchman"@,
        "p4-changelist"@,
        "p4-prepare-changelist"@,
        "p4-post-changelist"@,
        "p4-pre-submit"@,
        "post-index-change"@,
    ]
}

/// Whether a name is one of the standard Git hook names.
pub open spec fn is_git_hook(name: Seq<char>) -> bool {
    git_hook_names().contains(name)
}

/// The standard Git hook names, in their fixed order.
pub fn git_hooks() -> (names: Vec<String>)
    ensures
        names.deep_view() == git_hook_names(),
{
    let mut names: Vec<String> = Vec::new();
    names.push(String::from_str("applypatch-msg"));
    names.push(String::from_str("pre-applypatch"));
    names.push(String::from_str("post-applypatch"));
    names.push(String::from_str("pre-commit"));
    names.push(String::from_str("pre-merge-commit"));
    names.push(String::from_str("prepare-commit-msg"));
    names.push(String::from_str("commit-msg"));
    names.push(String::from_str("post-commit"));
    names.push(String::from_str("pre-rebase"));
    names.push(String::from_str("post-checkout"));
    names.push(String::from_str("post-merge"));
    names.push(String::from_str("pre-push"));
    names.push(String::from_str("pre-receive"));
    names.push(String::from_str("update"));
    names.push(String::from_str("proc-receive"));
    names.push(String::from_str("post-receive"));
    names.push(String::from_str("post-update"));
    names.push(String::from_str("reference-transaction"));
    names.push(String::from_str("push-to-checkout"));
    names.push(String::from_str("pre-auto-gc"));
    names.push(String::from_str("post-rewrite"));
    names.push(String::from_str("sendemail-validate"));
    names.push(String::from_str("fsmonitor-watchman"));
    names.push(String::from_str("p4-changelist"));
    names.push(String::from_str("p4-prepare-changelist"));
    names.push(String::from_str("p4-post-changelist"));
    names.push(String::from_str("p4-pre-submit"));
    names.push(String::from_str("post-index-change"));
    assert(names.deep_view() =~= git_hook_names());
    names
}

/// Whether a list of names holds the given name.
pub fn contains_name(names: &Vec<String>, name: &str) -> (found: bool)
    ensures
        found == names.deep_view().contains(name@),
{
    let wanted = String::from_str(name);
    let mut i: usize = 0;
    while i < names.len()
        invariant
            i <= names.len(),
            wanted@ == name@,
            forall|k: int| 0 <= k < i ==> names.deep_view()[k] != name@,
        decreases names.len() - i,
    {
        if names[i] == wanted {
            assert(names.deep_view()[i as int] == name@);
            return true;
        }
        i += 1;
    }
    false
}

/// Whether a name is one of the standard Git hook names.
pub fn is_standard_hook(name: &str) -> (standard: bool)
    ensures
        standard == is_git_hook(name@),
{
    let table = git_hooks();
    contains_name(&table, name)
}

} // verus!
