use hooksmith::plan::Action;
use hooksmith::utils::{
    decimal_string, format_list, format_message, format_message_with_suggestion, print_error,
    print_success, print_warning, status_code_string, Error, Line, Success, Warning,
};

#[test]
fn test_format_message() {
    let title = "Test Title";
    let details = "Test Details";

    // Test error message
    let error_msg = format_message::<Error>(title, details);
    assert!(error_msg.contains("🚨 ERROR"));
    assert!(error_msg.contains(title));
    assert!(error_msg.contains(details));

    // Test warning message
    let warning_msg = format_message::<Warning>(title, details);
    assert!(warning_msg.contains("⚠️ WARNING"));
    assert!(warning_msg.contains(title));
    assert!(warning_msg.contains(details));

    // Test success message
    let success_msg = format_message::<Success>(title, details);
    assert!(success_msg.contains("✅ SUCCESS"));
    assert!(success_msg.contains(title));
    assert!(success_msg.contains(details));
}

#[test]
fn test_format_message_with_suggestion() {
    let title = "Test Title";
    let details = "Test Details";
    let suggestion = "Test Suggestion";

    // Test error message with suggestion
    let error_msg = format_message_with_suggestion::<Error>(title, details, suggestion);
    assert!(error_msg.contains("🚨 ERROR"));
    assert!(error_msg.contains(title));
    assert!(error_msg.contains(details));
    assert!(error_msg.contains(suggestion));

    // Test warning message with suggestion
    let warning_msg = format_message_with_suggestion::<Warning>(title, details, suggestion);
    assert!(warning_msg.contains("⚠️ WARNING"));
    assert!(warning_msg.contains(title));
    assert!(warning_msg.contains(details));
    assert!(warning_msg.contains(suggestion));

    // Test success message with suggestion
    let success_msg = format_message_with_suggestion::<Success>(title, details, suggestion);
    assert!(success_msg.contains("✅ SUCCESS"));
    assert!(success_msg.contains(title));
    assert!(success_msg.contains(details));
    assert!(success_msg.contains(suggestion));
}

#[test]
fn test_format_list() {
    let empty_list: Vec<String> = vec![];
    assert_eq!(format_list(&empty_list), "");

    let single_item = vec!["item1".to_string()];
    assert_eq!(format_list(&single_item), "  - item1");

    let multiple_items = vec!["item1".to_string(), "item2".to_string()];
    let formatted = format_list(&multiple_items);
    assert!(formatted.contains("  - item1"));
    assert!(formatted.contains("  - item2"));
}

#[test]
fn format_message_has_the_exact_layout() {
    assert_eq!(format_message::<Error>("T", "D"), "🚨 ERROR: T\n\nD");
    assert_eq!(format_message::<Warning>("T", "D"), "⚠️ WARNING: T\n\nD");
    assert_eq!(
        format_message_with_suggestion::<Success>("T", "D", "S"),
        "✅ SUCCESS: T\n\nD\n\nS"
    );
}

#[test]
fn format_list_separates_items_by_newlines() {
    let items = vec!["a".to_string(), "b".to_string(), "c".to_string()];
    assert_eq!(format_list(&items), "  - a\n  - b\n  - c");
}

#[test]
fn decimal_string_writes_numbers_as_the_standard_library_does() {
    for n in [0u64, 1, 9, 10, 11, 99, 100, 101, 12345, 1_000_000, u64::MAX] {
        assert_eq!(decimal_string(n), n.to_string());
    }
}

#[test]
fn status_code_string_handles_negative_codes() {
    for code in [0i32, 1, 2, 127, 255, -1, -15, i32::MAX, i32::MIN] {
        assert_eq!(status_code_string(code), code.to_string());
    }
}

#[test]
fn print_error_goes_to_the_error_stream() {
    let mut steps: Vec<Action> = Vec::new();
    print_error(&mut steps, "Title", "Details", "Suggestion");
    assert_eq!(
        steps,
        vec![Action::Say(Line {
            to_stderr: true,
            text: "🚨 ERROR: Title\n\nDetails\n\nSuggestion".to_string(),
        })]
    );
}

#[test]
fn print_warning_and_success_go_to_the_output_stream() {
    let mut steps: Vec<Action> = Vec::new();
    print_warning(&mut steps, "Careful", "Something is odd");
    print_success(&mut steps, "Done", "All is well");
    assert_eq!(
        steps,
        vec![
            Action::Say(Line {
                to_stderr: false,
                text: "⚠️ WARNING: Careful\n\nSomething is odd".to_string(),
            }),
            Action::Say(Line {
                to_stderr: false,
                text: "✅ SUCCESS: Done\n\nAll is well".to_string(),
            }),
        ]
    );
}
