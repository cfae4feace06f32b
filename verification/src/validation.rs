//! Validation: which hook names of a configuration Git knows, and what is
//! reported of them.

use crate::config::{hook_names, HookView};
use crate::error::{HooksmithErrorView, ValidationErrorView};
use crate::hook_names::is_git_hook;
use crate::messages::{
    all_valid_details_text, hook_is_valid_text, invalid_hooks_details_text,
    invalid_names_error_text, validating_text,
};
use crate::plan::{say_each, say_if, ActionView};
use crate::utils::{list_text, message_line, Success, Warning};
use vstd::prelude::*;

verus! {

/// The hook names of a configuration that Git knows, in its order.
pub open spec fn valid_names(hooks: Seq<HookView>) -> Seq<Seq<char>> {
    hook_names(hooks).filter(|name: Seq<char>| is_git_hook(name))
}

/// The hook names of a configuration that Git does not know, in its order.
pub open spec fn invalid_names(hooks: Seq<HookView>) -> Seq<Seq<char>> {
    hook_names(hooks).filter(|name: Seq<char>| !is_git_hook(name))
}

/// What the validation report ends with: where every name is known, and more
/// is to be said, their number; where some are not, a warning that lists them.
pub open spec fn validation_verdict(hooks: Seq<HookView>, verbose: bool) -> Seq<ActionView> {
    if invalid_names(hooks).len() == 0 {
        if verbose {
            seq![
                ActionView::Say(
                    message_line::<Success>(
                        "All hooks are valid"@,
                        all_valid_details_text(valid_names(hooks).len()),
                    ),
                ),
            ]
        } else {
            Seq::empty()
        }
    } else {
        seq![
            ActionView::Say(
                message_line::<Warning>(
                    "Invalid hooks detected"@,
                    invalid_hooks_details_text(list_text(invalid_names(hooks))),
                ),
            ),
        ]
    }
}

/// The validation report: an opening line and one line for each known name,
/// where more is to be said, then the verdict.
pub open spec fn validation_steps(hooks: Seq<HookView>, verbose: bool) -> Seq<ActionView> {
    say_if(verbose, validating_text()) + (if verbose {
        say_each(valid_names(hooks), |name: Seq<char>| hook_is_valid_text(name))
    } else {
        Seq::empty()
    }) + validation_verdict(hooks, verbose)
}

/// The result of the validation that guards an installation: an error that
/// lists every name that Git does not know, if there is one.
pub open spec fn strict_validation_result(hooks: Seq<HookView>) -> Result<(), HooksmithErrorView> {
    if invalid_names(hooks).len() == 0 {
        Ok(())
    } else {
        Err(
            HooksmithErrorView::Validation(
                ValidationErrorView::InvalidHookName(
                    invalid_names_error_text(list_text(invalid_names(hooks))),
                ),
            ),
        )
    }
}

} // verus!
