//! Console messages: the three message kinds, their layout, and bullet lists.

use crate::plan::{Action, ActionView};
use vstd::prelude::*;

verus! {

/// One line of console output and the stream it belongs to.
#[derive(Debug, Clone, PartialEq, Eq)]
pub struct Line {
    /// Whether the line goes to the error stream rather than the output stream.
    pub to_stderr: bool,
    /// The text, without the newline that ends it.
    pub text: String,
}

/// The mathematical value of a [`Line`].
pub struct LineView {
    pub to_stderr: bool,
    pub text: Seq<char>,
}

impl View for Line {
    type V = LineView;

    open spec fn view(&self) -> LineView {
        LineView { to_stderr: self.to_stderr, text: self.text@ }
    }
}

impl DeepView for Line {
    type V = LineView;

    open spec fn deep_view(&self) -> LineView {
        self@
    }
}

/// A line for the output stream.
pub open spec fn out_line(text: Seq<char>) -> LineView {
    LineView { to_stderr: false, text }
}

/// A line for the error stream.
pub open spec fn err_line(text: Seq<char>) -> LineView {
    LineView { to_stderr: true, text }
}

/// A kind of console message: its prefix and its stream.
pub trait MessageType {
    /// The prefix that opens every message of this kind.
    spec fn prefix_text() -> Seq<char>;

    /// Whether messages of this kind go to the error stream.
    spec fn on_stderr() -> bool;

    fn prefix() -> (p: &'static str)
        ensures
            p@ == Self::prefix_text(),
    ;

    fn to_stderr() -> (b: bool)
        ensures
            b == Self::on_stderr(),
    ;
}

/// Messages that report a failure.
pub struct Error;

/// Messages that report something suspicious that does not stop the work.
pub struct Warning;

/// Messages that report that all went well.
pub struct Success;

impl MessageType for Error {
    open spec fn prefix_text() -> Seq<char> {
        "🚨 ERROR"@
    }

    open spec fn on_stderr() -> bool {
        true
    }

    fn prefix() -> (p: &'static str) {
        "🚨 ERROR"
    }

    fn to_stderr() -> (b: bool) {
        true
    }
}

impl MessageType for Warning {
    open spec fn prefix_text() -> Seq<char> {
        "⚠️ WARNING"@
    }

    open spec fn on_stderr() -> bool {
        false
    }

    fn prefix() -> (p: &'static str) {
        "⚠️ WARNING"
    }

    fn to_stderr() -> (b: bool) {
        false
    }
}

impl MessageType for Success {
    open spec fn prefix_text() -> Seq<char> {
        "✅ SUCCESS"@
    }

    open spec fn on_stderr() -> bool {
        false
    }

    fn prefix() -> (p: &'static str) {
        "✅ SUCCESS"
    }

    fn to_stderr() -> (b: bool) {
        false
    }
}

/// The text of a message without a suggestion: prefix, title, a blank line, details.
pub open spec fn message_text(prefix: Seq<char>, title: Seq<char>, details: Seq<char>) -> Seq<char> {
    prefix + ": "@ + title + "\n\n"@ + details
}

/// The text of a message with a suggestion: the message, a blank line, the suggestion.
pub open spec fn message_with_suggestion_text(
    prefix: Seq<char>,
    title: Seq<char>,
    details: Seq<char>,
    suggestion: Seq<char>,
) -> Seq<char> {
    message_text(prefix, title, details) + "\n\n"@ + suggestion
}

/// Formats a message without suggestion.
pub fn format_message<T: MessageType>(title: &str, details: &str) -> (text: String)
    ensures
        text@ == message_text(T::prefix_text(), title@, details@),
{
    let mut text = String::from_str(T::prefix());
    text.append(": ");
    text.append(title);
    text.append("\n\n");
    text.append(details);
    text
}

/// Formats a message with suggestion.
pub fn format_message_with_suggestion<T: MessageType>(
    title: &str,
    details: &str,
    suggestion: &str,
) -> (text: String)
    ensures
        text@ == message_with_suggestion_text(T::prefix_text(), title@, details@, suggestion@),
{
    let mut text = format_message::<T>(title, details);
    text.append("\n\n");
    text.append(suggestion);
    text
}

/// One item of a bullet list.
pub open spec fn bullet(item: Seq<char>) -> Seq<char> {
    "  - "@ + item
}

/// A bullet list: one bullet per item, in order, separated by newlines, with
/// no newline after the last.
pub open spec fn list_text(items: Seq<Seq<char>>) -> Seq<char>
    decreases items.len(),
{
    if items.len() == 0 {
        Seq::empty()
    } else if items.len() == 1 {
        bullet(items[0])
    } else {
        list_text(items.drop_last()) + "\n"@ + bullet(items.last())
    }
}

/// Formats a list of items, one bullet per line.
pub fn format_list(items: &Vec<String>) -> (text: String)
    ensures
        text@ == list_text(items.deep_view()),
{
    let mut text = String::new();
    let mut i: usize = 0;
    while i < items.len()
        invariant
            i <= items.len(),
            text@ == list_text(items.deep_view().take(i as int)),
        decreases items.len() - i,
    {
        let ghost before = items.deep_view().take(i as int);
        let ghost after = items.deep_view().take(i + 1);
        assert(after.drop_last() == before);
        assert(after.last() == items[i as int]@);
        if i > 0 {
            text.append("\n");
        }
        text.append("  - ");
        text.append(items[i].as_str());
        proof {
            if i == 0 {
                assert(text@ == bullet(items[0]@));
            } else {
                assert(text@ == list_text(before) + "\n"@ + "  - "@ + items[i as int]@);
                assert(text@ == list_text(before) + "\n"@ + bullet(items[i as int]@));
            }
        }
        i += 1;
    }
    assert(items.deep_view().take(items.len() as int) == items.deep_view());
    text
}

/// The decimal digit for a number below ten.
pub open spec fn digit(d: nat) -> char {
    if d == 0 {
        '0'
    } else if d == 1 {
        '1'
    } else if d == 2 {
        '2'
    } else if d == 3 {
        '3'
    } else if d == 4 {
        '4'
    } else if d == 5 {
        '5'
    } else if d == 6 {
        '6'
    } else if d == 7 {
        '7'
    } else if d == 8 {
        '8'
    } else {
        '9'
    }
}

/// A natural number in decimal, without leading zeros.
pub open spec fn decimal(n: nat) -> Seq<char>
    decreases n,
{
    if n < 10 {
        seq![digit(n)]
    } else {
        decimal(n / 10).push(digit(n % 10))
    }
}

/// An integer in decimal, with a minus sign in front where it is negative.
pub open spec fn signed_decimal(n: int) -> Seq<char> {
    if n < 0 {
        seq!['-'] + decimal((-n) as nat)
    } else {
        decimal(n as nat)
    }
}

fn digit_str(d: u64) -> (s: &'static str)
    requires
        d < 10,
    ensures
        s@ == seq![digit(d as nat)],
{
    proof {
        reveal_strlit("0");
        reveal_strlit("1");
        reveal_strlit("2");
        reveal_strlit("3");
        reveal_strlit("4");
        reveal_strlit("5");
        reveal_strlit("6");
        reveal_strlit("7");
        reveal_strlit("8");
        reveal_strlit("9");
    }
    let s = if d == 0 {
        "0"
    } else if d == 1 {
        "1"
    } else if d == 2 {
        "2"
    } else if d == 3 {
        "3"
    } else if d == 4 {
        "4"
    } else if d == 5 {
        "5"
    } else if d == 6 {
        "6"
    } else if d == 7 {
        "7"
    } else if d == 8 {
        "8"
    } else {
        "9"
    };
    assert(s@ =~= seq![digit(d as nat)]);
    s
}

/// Writes a natural number in decimal.
pub fn decimal_string(n: u64) -> (text: String)
    ensures
        text@ == decimal(n as nat),
    decreases n,
{
    if n < 10 {
        String::from_str(digit_str(n))
    } else {
        let mut text = decimal_string(n / 10);
        text.append(digit_str(n % 10));
        assert(text@ =~= decimal(n as nat));
        text
    }
}

/// Writes a status code in decimal.
pub fn status_code_string(code: i32) -> (text: String)
    ensures
        text@ == signed_decimal(code as int),
{
    if code < 0 {
        let magnitude: u64 = (-(code as i64)) as u64;
        let mut text = String::from_str("-");
        text.append(decimal_string(magnitude).as_str());
        proof {
            reveal_strlit("-");
            assert("-"@ =~= seq!['-']);
        }
        text
    } else {
        decimal_string(code as u64)
    }
}



/// Whether a text ends with another.
pub open spec fn has_suffix(text: Seq<char>, suffix: Seq<char>) -> bool {
    text.len() >= suffix.len() && text.subrange(text.len() - suffix.len(), text.len() as int)
        == suffix
}

/// `str::ends_with` of the standard library, for a pattern that is a text.
/// Its documentation says that it tells whether the pattern matches a
/// suffix of the text. That is stated here and not proved.
#[verifier::external_body]
pub(crate) fn ends_with(text: &str, suffix: &str) -> (found: bool)
    ensures
        found == has_suffix(text@, suffix@),
{
    text.ends_with(suffix)
}

/// A list of texts as the standard library writes it for debugging: in
/// square brackets, separated by commas, each text in double quotes with
/// its special characters escaped.
pub uninterp spec fn debug_list(items: Seq<Seq<char>>) -> Seq<char>;

/// The `Debug` formatting of the standard library for a vector of strings,
/// which depends on the strings alone. Nothing is claimed of its result but
/// that it is the text called `debug_list` of them.
#[verifier::external_body]
pub(crate) fn debug_names(items: &Vec<String>) -> (text: String)
    ensures
        text@ == debug_list(items.deep_view()),
{
    format!("{:?}", items)
}

/// Adds a line for the output stream to a sequence of actions.
pub fn say(steps: &mut Vec<Action>, text: String)
    ensures
        final(steps).deep_view() == old(steps).deep_view().push(ActionView::Say(out_line(text@))),
{
    steps.push(Action::Say(Line { to_stderr: false, text }));
    assert(steps.deep_view() =~= old(steps).deep_view().push(ActionView::Say(out_line(text@))));
}

/// Adds a line for the error stream to a sequence of actions.
pub fn say_err(steps: &mut Vec<Action>, text: String)
    ensures
        final(steps).deep_view() == old(steps).deep_view().push(ActionView::Say(err_line(text@))),
{
    steps.push(Action::Say(Line { to_stderr: true, text }));
    assert(steps.deep_view() =~= old(steps).deep_view().push(ActionView::Say(err_line(text@))));
}

/// Adds any action to a sequence of actions.
pub fn add_step(steps: &mut Vec<Action>, action: Action)
    ensures
        final(steps).deep_view() == old(steps).deep_view().push(action@),
{
    steps.push(action);
    assert(steps.deep_view() =~= old(steps).deep_view().push(action@));
}

/// The line of a message without a suggestion, on the stream of its kind.
pub open spec fn message_line<T: MessageType>(title: Seq<char>, details: Seq<char>) -> LineView {
    LineView { to_stderr: T::on_stderr(), text: message_text(T::prefix_text(), title, details) }
}

/// The line of a message with a suggestion, on the stream of its kind.
pub open spec fn message_with_suggestion_line<T: MessageType>(
    title: Seq<char>,
    details: Seq<char>,
    suggestion: Seq<char>,
) -> LineView {
    LineView {
        to_stderr: T::on_stderr(),
        text: message_with_suggestion_text(T::prefix_text(), title, details, suggestion),
    }
}

/// Prints a message without suggestion.
pub fn print_message<T: MessageType>(steps: &mut Vec<Action>, title: &str, details: &str)
    ensures
        final(steps).deep_view() == old(steps).deep_view().push(
            ActionView::Say(message_line::<T>(title@, details@)),
        ),
{
    let text = format_message::<T>(title, details);
    if T::to_stderr() {
        say_err(steps, text);
    } else {
        say(steps, text);
    }
}

/// Prints a message with suggestion.
pub fn print_message_with_suggestion<T: MessageType>(
    steps: &mut Vec<Action>,
    title: &str,
    details: &str,
    suggestion: &str,
)
    ensures
        final(steps).deep_view() == old(steps).deep_view().push(
            ActionView::Say(message_with_suggestion_line::<T>(title@, details@, suggestion@)),
        ),
{
    let text = format_message_with_suggestion::<T>(title, details, suggestion);
    if T::to_stderr() {
        say_err(steps, text);
    } else {
        say(steps, text);
    }
}

/// Prints an error message: on the error stream, with a suggestion.
pub fn print_error(steps: &mut Vec<Action>, title: &str, details: &str, suggestion: &str)
    ensures
        final(steps).deep_view() == old(steps).deep_view().push(
            ActionView::Say(message_with_suggestion_line::<Error>(title@, details@, suggestion@)),
        ),
{
    print_message_with_suggestion::<Error>(steps, title, details, suggestion);
}

/// Prints a warning message: on the output stream, without a suggestion.
pub fn print_warning(steps: &mut Vec<Action>, title: &str, details: &str)
    ensures
        final(steps).deep_view() == old(steps).deep_view().push(
            ActionView::Say(message_line::<Warning>(title@, details@)),
        ),
{
    print_message::<Warning>(steps, title, details);
}

/// Prints a success message: on the output stream, without a suggestion.
pub fn print_success(steps: &mut Vec<Action>, title: &str, details: &str)
    ensures
        final(steps).deep_view() == old(steps).deep_view().push(
            ActionView::Say(message_line::<Success>(title@, details@)),
        ),
{
    print_message::<Success>(steps, title, details);
}

} // verus!
