//! The wording of everything the tool says.

use crate::utils::{decimal, decimal_string, signed_decimal, status_code_string};
use vstd::prelude::*;

verus! {

/// Opens every dry run.
pub open spec fn dry_run_banner_text() -> Seq<char> {
    "🔄 DRY RUN MODE - No commands will be executed\n"@
}

/// Opens every dry run.
pub fn dry_run_banner() -> (text: String)
    ensures
        text@ == dry_run_banner_text(),
{
    String::from_str("🔄 DRY RUN MODE - No commands will be executed\n")
}

/// Opens a comparison, when more is to be said.
pub open spec fn comparing_text() -> Seq<char> {
    "🔍 Comparing installed hooks with configuration file..."@
}

/// Opens a comparison, when more is to be said.
pub fn comparing() -> (text: String)
    ensures
        text@ == comparing_text(),
{
    String::from_str("🔍 Comparing installed hooks with configuration file...")
}

/// Stands above the first difference.
pub open spec fn differences_found_text() -> Seq<char> {
    "\n❌ Differences found:"@
}

/// Stands above the first difference.
pub fn differences_found() -> (text: String)
    ensures
        text@ == differences_found_text(),
{
    String::from_str("\n❌ Differences found:")
}

/// A hook of the configuration has no file.
pub open spec fn missing_hook_text(hook: Seq<char>) -> Seq<char> {
    "  - Hook '"@ + hook + "' is in config but not installed"@
}

/// A hook of the configuration has no file.
pub fn missing_hook(hook: &str) -> (text: String)
    ensures
        text@ == missing_hook_text(hook@),
{
    let mut text = String::from_str("  - Hook '");
    text.append(hook);
    text.append("' is in config but not installed");
    text
}

/// A file in the hooks directory is no hook of the configuration.
pub open spec fn extra_hook_text(hook: Seq<char>) -> Seq<char> {
    "  - Hook '"@ + hook + "' is installed but not in config"@
}

/// A file in the hooks directory is no hook of the configuration.
pub fn extra_hook(hook: &str) -> (text: String)
    ensures
        text@ == extra_hook_text(hook@),
{
    let mut text = String::from_str("  - Hook '");
    text.append(hook);
    text.append("' is installed but not in config");
    text
}

/// The hooks directory and the configuration agree.
pub open spec fn all_match_text() -> Seq<char> {
    "✅ All hooks match the configuration file"@
}

/// The hooks directory and the configuration agree.
pub fn all_match() -> (text: String)
    ensures
        text@ == all_match_text(),
{
    String::from_str("✅ All hooks match the configuration file")
}

/// In a dry run the hooks directory is not created.
pub open spec fn skip_create_dir_text() -> Seq<char> {
    "🪝 Skipping creation of .git/hooks directory in dry run mode"@
}

/// In a dry run the hooks directory is not created.
pub fn skip_create_dir() -> (text: String)
    ensures
        text@ == skip_create_dir_text(),
{
    String::from_str("🪝 Skipping creation of .git/hooks directory in dry run mode")
}

/// The hooks directory is about to be created.
pub open spec fn creating_dir_text() -> Seq<char> {
    "  - Creating .git/hooks directory..."@
}

/// The hooks directory is about to be created.
pub fn creating_dir() -> (text: String)
    ensures
        text@ == creating_dir_text(),
{
    String::from_str("  - Creating .git/hooks directory...")
}

/// In a dry run the file of a hook is not written.
pub open spec fn skip_install_text(hook: Seq<char>) -> Seq<char> {
    "🪝 Skipping installation of "@ + hook + " hook in dry run mode"@
}

/// In a dry run the file of a hook is not written.
pub fn skip_install(hook: &str) -> (text: String)
    ensures
        text@ == skip_install_text(hook@),
{
    let mut text = String::from_str("🪝 Skipping installation of ");
    text.append(hook);
    text.append(" hook in dry run mode");
    text
}

/// The file of a hook has been written.
pub open spec fn installing_file_text(hook: Seq<char>) -> Seq<char> {
    "  - Installing "@ + hook + " file..."@
}

/// The file of a hook has been written.
pub fn installing_file(hook: &str) -> (text: String)
    ensures
        text@ == installing_file_text(hook@),
{
    let mut text = String::from_str("  - Installing ");
    text.append(hook);
    text.append(" file...");
    text
}

/// The file of a hook has been made executable.
pub open spec fn setting_permissions_text() -> Seq<char> {
    "  - Setting file permissions..."@
}

/// The file of a hook has been made executable.
pub fn setting_permissions() -> (text: String)
    ensures
        text@ == setting_permissions_text(),
{
    String::from_str("  - Setting file permissions...")
}

/// Opens the installation of one hook.
pub open spec fn installing_hook_text(hook: Seq<char>) -> Seq<char> {
    "🪝 Installing "@ + hook + " hook..."@
}

/// Opens the installation of one hook.
pub fn installing_hook(hook: &str) -> (text: String)
    ensures
        text@ == installing_hook_text(hook@),
{
    let mut text = String::from_str("🪝 Installing ");
    text.append(hook);
    text.append(" hook...");
    text
}

/// Closes the installation of one hook.
pub open spec fn installed_text(hook: Seq<char>) -> Seq<char> {
    "  ✅ Installed "@ + hook + " file"@
}

/// Closes the installation of one hook.
pub fn installed(hook: &str) -> (text: String)
    ensures
        text@ == installed_text(hook@),
{
    let mut text = String::from_str("  ✅ Installed ");
    text.append(hook);
    text.append(" file");
    text
}

/// Opens the installation of all hooks.
pub open spec fn installing_hooks_text() -> Seq<char> {
    "🪝 Installing hooks..."@
}

/// Opens the installation of all hooks.
pub fn installing_hooks() -> (text: String)
    ensures
        text@ == installing_hooks_text(),
{
    String::from_str("🪝 Installing hooks...")
}

/// A command is about to run.
pub open spec fn running_command_text(command: Seq<char>) -> Seq<char> {
    "  - Running command: "@ + command
}

/// A command is about to run.
pub fn running_command(command: &str) -> (text: String)
    ensures
        text@ == running_command_text(command@),
{
    let mut text = String::from_str("  - Running command: ");
    text.append(command);
    text
}

/// A command has ended well.
pub open spec fn command_completed_text() -> Seq<char> {
    "\n  ✅ Command completed successfully"@
}

/// A command has ended well.
pub fn command_completed() -> (text: String)
    ensures
        text@ == command_completed_text(),
{
    String::from_str("\n  ✅ Command completed successfully")
}

/// Which hook's command failed, and with which status code.
pub open spec fn command_failed_details_text(hook: Seq<char>, code: int) -> Seq<char> {
    "Hook '"@ + hook + "' command failed with status code "@ + signed_decimal(code)
}

/// Which hook's command failed, and with which status code.
pub fn command_failed_details(hook: &str, code: i32) -> (text: String)
    ensures
        text@ == command_failed_details_text(hook@, code as int),
{
    let mut text = String::from_str("Hook '");
    text.append(hook);
    text.append("' command failed with status code ");
    text.append(status_code_string(code).as_str());
    text
}

/// Why a command could not be started.
pub open spec fn spawn_failed_details_text(reason: Seq<char>) -> Seq<char> {
    "Error: "@ + reason
}

/// Why a command could not be started.
pub fn spawn_failed_details(reason: &str) -> (text: String)
    ensures
        text@ == spawn_failed_details_text(reason@),
{
    let mut text = String::from_str("Error: ");
    text.append(reason);
    text
}

/// Which hook the configuration lacks.
pub open spec fn no_commands_details_text(hook: Seq<char>) -> Seq<char> {
    "No commands defined for hook '"@ + hook + "'"@
}

/// Which hook the configuration lacks.
pub fn no_commands_details(hook: &str) -> (text: String)
    ensures
        text@ == no_commands_details_text(hook@),
{
    let mut text = String::from_str("No commands defined for hook '");
    text.append(hook);
    text.append("'");
    text
}

/// The hooks that the configuration does have, as a bullet list.
pub open spec fn available_hooks_suggestion_text(list: Seq<char>) -> Seq<char> {
    "Available hooks:\n"@ + list + "\n\nPlease check your configuration file."@
}

/// The hooks that the configuration does have, as a bullet list.
pub fn available_hooks_suggestion(list: &str) -> (text: String)
    ensures
        text@ == available_hooks_suggestion_text(list@),
{
    let mut text = String::from_str("Available hooks:\n");
    text.append(list);
    text.append("\n\nPlease check your configuration file.");
    text
}

/// Opens the run of one hook.
pub open spec fn running_hook_text(hook: Seq<char>) -> Seq<char> {
    "📋 Running Hook: "@ + hook
}

/// Opens the run of one hook.
pub fn running_hook(hook: &str) -> (text: String)
    ensures
        text@ == running_hook_text(hook@),
{
    let mut text = String::from_str("📋 Running Hook: ");
    text.append(hook);
    text
}

/// In a dry run, which command of how many comes next, counted from one.
pub open spec fn step_header_text(step: nat, total: nat) -> Seq<char> {
    "Step "@ + decimal(step) + " of "@ + decimal(total) + ":"@
}

/// In a dry run, which command of how many comes next, counted from one.
pub fn step_header(step: usize, total: usize) -> (text: String)
    ensures
        text@ == step_header_text(step as nat, total as nat),
{
    let mut text = String::from_str("Step ");
    text.append(decimal_string(step as u64).as_str());
    text.append(" of ");
    text.append(decimal_string(total as u64).as_str());
    text.append(":");
    text
}

/// In a dry run, the command that would run.
pub open spec fn step_command_text(command: Seq<char>) -> Seq<char> {
    "  Command: "@ + command
}

/// In a dry run, the command that would run.
pub fn step_command(command: &str) -> (text: String)
    ensures
        text@ == step_command_text(command@),
{
    let mut text = String::from_str("  Command: ");
    text.append(command);
    text
}

/// In a dry run, where the command would run.
pub open spec fn working_directory_text(dir: Seq<char>) -> Seq<char> {
    "  Working directory: "@ + dir
}

/// In a dry run, where the command would run.
pub fn working_directory(dir: &str) -> (text: String)
    ensures
        text@ == working_directory_text(dir@),
{
    let mut text = String::from_str("  Working directory: ");
    text.append(dir);
    text
}

/// Closes the dry run of one hook.
pub open spec fn dry_run_completed_text(total: nat) -> Seq<char> {
    "🏁 Dry run completed. "@ + decimal(total) + " commands would be executed"@
}

/// Closes the dry run of one hook.
pub fn dry_run_completed(total: usize) -> (text: String)
    ensures
        text@ == dry_run_completed_text(total as nat),
{
    let mut text = String::from_str("🏁 Dry run completed. ");
    text.append(decimal_string(total as u64).as_str());
    text.append(" commands would be executed");
    text
}

/// Opens the removal of one hook.
pub open spec fn uninstalling_text(hook: Seq<char>) -> Seq<char> {
    "🗑️ Uninstalling hook: "@ + hook
}

/// Opens the removal of one hook.
pub fn uninstalling(hook: &str) -> (text: String)
    ensures
        text@ == uninstalling_text(hook@),
{
    let mut text = String::from_str("🗑️ Uninstalling hook: ");
    text.append(hook);
    text
}

/// In a dry run, the file that would be removed.
pub open spec fn would_remove_text(path: Seq<char>) -> Seq<char> {
    "  🚧 Dry run: Would remove hook file: "@ + path
}

/// In a dry run, the file that would be removed.
pub fn would_remove(path: &str) -> (text: String)
    ensures
        text@ == would_remove_text(path@),
{
    let mut text = String::from_str("  🚧 Dry run: Would remove hook file: ");
    text.append(path);
    text
}

/// A hook to remove has no file.
pub open spec fn no_hook_file_text(hook: Seq<char>) -> Seq<char> {
    "  ⚠️ No hook file found for "@ + hook
}

/// A hook to remove has no file.
pub fn no_hook_file(hook: &str) -> (text: String)
    ensures
        text@ == no_hook_file_text(hook@),
{
    let mut text = String::from_str("  ⚠️ No hook file found for ");
    text.append(hook);
    text
}

/// A hook to remove is not in the configuration.
pub open spec fn not_configured_text(hook: Seq<char>) -> Seq<char> {
    "No file found for hook '"@ + hook + "'"@
}

/// A hook to remove is not in the configuration.
pub fn not_configured(hook: &str) -> (text: String)
    ensures
        text@ == not_configured_text(hook@),
{
    let mut text = String::from_str("No file found for hook '");
    text.append(hook);
    text.append("'");
    text
}

/// The hooks that can be removed, as a quoted list.
pub open spec fn possible_hooks_text(list: Seq<char>) -> Seq<char> {
    "Possible hooks: "@ + list
}

/// The hooks that can be removed, as a quoted list.
pub fn possible_hooks(list: &str) -> (text: String)
    ensures
        text@ == possible_hooks_text(list@),
{
    let mut text = String::from_str("Possible hooks: ");
    text.append(list);
    text
}

/// Opens the removal of all hooks.
pub open spec fn uninstalling_all_text() -> Seq<char> {
    "🗑️ Uninstalling all hooks"@
}

/// Opens the removal of all hooks.
pub fn uninstalling_all() -> (text: String)
    ensures
        text@ == uninstalling_all_text(),
{
    String::from_str("🗑️ Uninstalling all hooks")
}

/// Closes the removal of all hooks.
pub open spec fn uninstall_completed_text(total: nat) -> Seq<char> {
    "🏁 Uninstallation completed: "@ + decimal(total) + " hooks removed"@
}

/// Closes the removal of all hooks.
pub fn uninstall_completed(total: usize) -> (text: String)
    ensures
        text@ == uninstall_completed_text(total as nat),
{
    let mut text = String::from_str("🏁 Uninstallation completed: ");
    text.append(decimal_string(total as u64).as_str());
    text.append(" hooks removed");
    text
}

/// Opens a validation, when more is to be said.
pub open spec fn validating_text() -> Seq<char> {
    "🔍 Validating hooks in configuration file..."@
}

/// Opens a validation, when more is to be said.
pub fn validating() -> (text: String)
    ensures
        text@ == validating_text(),
{
    String::from_str("🔍 Validating hooks in configuration file...")
}

/// A hook of the configuration is known to Git.
pub open spec fn hook_is_valid_text(hook: Seq<char>) -> Seq<char> {
    "  ✅ Hook '"@ + hook + "' is valid"@
}

/// A hook of the configuration is known to Git.
pub fn hook_is_valid(hook: &str) -> (text: String)
    ensures
        text@ == hook_is_valid_text(hook@),
{
    let mut text = String::from_str("  ✅ Hook '");
    text.append(hook);
    text.append("' is valid");
    text
}

/// How many hooks of the configuration are known to Git.
pub open spec fn all_valid_details_text(count: nat) -> Seq<char> {
    "Found "@ + decimal(count) + " valid Git hooks in your configuration."@
}

/// How many hooks of the configuration are known to Git.
pub fn all_valid_details(count: usize) -> (text: String)
    ensures
        text@ == all_valid_details_text(count as nat),
{
    let mut text = String::from_str("Found ");
    text.append(decimal_string(count as u64).as_str());
    text.append(" valid Git hooks in your configuration.");
    text
}

/// The hooks that Git does not know, as a bullet list.
pub open spec fn invalid_hooks_details_text(list: Seq<char>) -> Seq<char> {
    "The following hooks are not recognized by Git:\n"@ + list + "\n\nPlease use only valid Git hook names in your configuration."@
}

/// The hooks that Git does not know, as a bullet list.
pub fn invalid_hooks_details(list: &str) -> (text: String)
    ensures
        text@ == invalid_hooks_details_text(list@),
{
    let mut text = String::from_str("The following hooks are not recognized by Git:\n");
    text.append(list);
    text.append("\n\nPlease use only valid Git hook names in your configuration.");
    text
}

/// Opens the validation that guards an installation, when more is to be said.
pub open spec fn validating_before_install_text() -> Seq<char> {
    "🔍 Validating hooks before installation..."@
}

/// Opens the validation that guards an installation, when more is to be said.
pub fn validating_before_install() -> (text: String)
    ensures
        text@ == validating_before_install_text(),
{
    String::from_str("🔍 Validating hooks before installation...")
}

/// Why an installation is refused: the hooks that Git does not know, as a bullet list.
pub open spec fn invalid_names_error_text(list: Seq<char>) -> Seq<char> {
    "Invalid hook names detected\n\nThe following hooks are not recognized by Git:\n"@ + list + "\n\nPlease check your configuration file and use only valid Git hook names."@
}

/// Why an installation is refused: the hooks that Git does not know, as a bullet list.
pub fn invalid_names_error(list: &str) -> (text: String)
    ensures
        text@ == invalid_names_error_text(list@),
{
    let mut text = String::from_str("Invalid hook names detected\n\nThe following hooks are not recognized by Git:\n");
    text.append(list);
    text.append("\n\nPlease check your configuration file and use only valid Git hook names.");
    text
}

/// Opens the dry run of an initialisation.
pub open spec fn init_banner_text() -> Seq<char> {
    "🔄 DRY RUN MODE - No files will be created\n"@
}

/// Opens the dry run of an initialisation.
pub fn init_banner() -> (text: String)
    ensures
        text@ == init_banner_text(),
{
    String::from_str("🔄 DRY RUN MODE - No files will be created\n")
}

/// Opens an initialisation, when more is to be said.
pub open spec fn initializing_text() -> Seq<char> {
    "🚀 Initializing hooksmith configuration..."@
}

/// Opens an initialisation, when more is to be said.
pub fn initializing() -> (text: String)
    ensures
        text@ == initializing_text(),
{
    String::from_str("🚀 Initializing hooksmith configuration...")
}

/// Asks whether an existing configuration file may be replaced.
pub open spec fn overwrite_question_text(path: Seq<char>) -> Seq<char> {
    "Configuration file '"@ + path + "' already exists. Overwrite?"@
}

/// Asks whether an existing configuration file may be replaced.
pub fn overwrite_question(path: &str) -> (text: String)
    ensures
        text@ == overwrite_question_text(path@),
{
    let mut text = String::from_str("Configuration file '");
    text.append(path);
    text.append("' already exists. Overwrite?");
    text
}

/// The existing configuration file stays.
pub open spec fn init_cancelled_text() -> Seq<char> {
    "❌ Initialization cancelled"@
}

/// The existing configuration file stays.
pub fn init_cancelled() -> (text: String)
    ensures
        text@ == init_cancelled_text(),
{
    String::from_str("❌ Initialization cancelled")
}

/// Asks which hooks to configure.
pub open spec fn configure_question_text() -> Seq<char> {
    "Select hooks to configure (Space to select, Enter to confirm)"@
}

/// Asks which hooks to configure.
pub fn configure_question() -> (text: String)
    ensures
        text@ == configure_question_text(),
{
    String::from_str("Select hooks to configure (Space to select, Enter to confirm)")
}

/// No hook was picked for the new configuration.
pub open spec fn none_selected_text() -> Seq<char> {
    "❌ No hooks selected. Configuration file not created."@
}

/// No hook was picked for the new configuration.
pub fn none_selected() -> (text: String)
    ensures
        text@ == none_selected_text(),
{
    String::from_str("❌ No hooks selected. Configuration file not created.")
}

/// The hooks picked for the new configuration, separated by commas.
pub open spec fn selected_hooks_text(list: Seq<char>) -> Seq<char> {
    "📝 Selected hooks: "@ + list
}

/// The hooks picked for the new configuration, separated by commas.
pub fn selected_hooks(list: &str) -> (text: String)
    ensures
        text@ == selected_hooks_text(list@),
{
    let mut text = String::from_str("📝 Selected hooks: ");
    text.append(list);
    text
}

/// In a dry run, the configuration file that would be written.
pub open spec fn would_create_text(path: Seq<char>) -> Seq<char> {
    "🔍 Would create configuration file '"@ + path + "' with content:"@
}

/// In a dry run, the configuration file that would be written.
pub fn would_create(path: &str) -> (text: String)
    ensures
        text@ == would_create_text(path@),
{
    let mut text = String::from_str("🔍 Would create configuration file '");
    text.append(path);
    text.append("' with content:");
    text
}

/// The configuration file has been written.
pub open spec fn created_text(path: Seq<char>) -> Seq<char> {
    "✅ Configuration file '"@ + path + "' created successfully!"@
}

/// The configuration file has been written.
pub fn created(path: &str) -> (text: String)
    ensures
        text@ == created_text(path@),
{
    let mut text = String::from_str("✅ Configuration file '");
    text.append(path);
    text.append("' created successfully!");
    text
}

/// What to do with a new configuration file.
pub open spec fn edit_hint_text() -> Seq<char> {
    "📝 You can now edit the file to customize your hook commands."@
}

/// What to do with a new configuration file.
pub fn edit_hint() -> (text: String)
    ensures
        text@ == edit_hint_text(),
{
    String::from_str("📝 You can now edit the file to customize your hook commands.")
}

/// How to install the hooks of a new configuration file.
pub open spec fn install_hint_text() -> Seq<char> {
    "🚀 Run 'hooksmith install' to install the configured hooks."@
}

/// How to install the hooks of a new configuration file.
pub fn install_hint() -> (text: String)
    ensures
        text@ == install_hint_text(),
{
    String::from_str("🚀 Run 'hooksmith install' to install the configured hooks.")
}

/// Asks which hooks to run.
pub open spec fn run_question_text() -> Seq<char> {
    "Select hooks to run (Space to select, Enter to confirm)"@
}

/// Asks which hooks to run.
pub fn run_question() -> (text: String)
    ensures
        text@ == run_question_text(),
{
    String::from_str("Select hooks to run (Space to select, Enter to confirm)")
}

/// Neither hook names nor the interactive choice were asked for.
pub open spec fn usage_error_text() -> Seq<char> {
    "Error: Either provide hook names or use --interactive (-i) flag"@
}

/// Neither hook names nor the interactive choice were asked for.
pub fn usage_error() -> (text: String)
    ensures
        text@ == usage_error_text(),
{
    String::from_str("Error: Either provide hook names or use --interactive (-i) flag")
}

} // verus!
