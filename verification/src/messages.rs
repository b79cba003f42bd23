//! Messages for the user: a kind in square brackets, a text, and a colour.

use crate::text::{to_uppercase, uppercase};
use colored::Colorize;
use vstd::prelude::*;
use vstd::string::*;

verus! {

/// The colour of a message that reports success.
pub const GREEN: &'static str = "green";

/// The colour of a message that reports a failure.
pub const RED: &'static str = "red";

/// A text wrapped in the terminal escape sequences that show it in a colour.
pub uninterp spec fn painted(text: Seq<char>, color: Seq<char>) -> Seq<char>;

/// Colours a text with `Colorize::color` of the crate `colored` and formats
/// the result. Trusted: where colours are switched off (by the environment
/// or by an override) the text comes back as it is; where they are on, it
/// comes back wrapped in escape sequences that depend on the text and the
/// colour's name alone, which `painted` names. This holds of a call during
/// which nothing switches colours on or off.
#[verifier::external_body]
pub(crate) fn paint(text: &str, color: &str) -> (shown: String)
    ensures
        shown@ == text@ || shown@ == painted(text@, color@),
{
    text.color(color).to_string()
}

/// A message line: the kind in square brackets, a space, the message.
pub open spec fn message_text(kind: Seq<char>, message: Seq<char>) -> Seq<char> {
    "["@ + kind + "] "@ + message
}

/// A text between two line breaks.
pub open spec fn framed(text: Seq<char>) -> Seq<char> {
    "\n"@ + text + "\n"@
}

/// `shown` is the message of the given kind in the given colour, as it goes
/// to the terminal: the kind in upper case, the line in colour where the
/// terminal takes colours and plain where it does not, a line break before
/// and behind.
pub open spec fn shows(
    shown: Seq<char>,
    message_type: Seq<char>,
    message: Seq<char>,
    color: Seq<char>,
) -> bool {
    let line = message_text(uppercase(message_type), message);
    shown == framed(line) || shown == framed(painted(line, color))
}

/// The line of a message whose kind is already in the case to show.
pub fn format_message(kind: &str, message: &str) -> (line: String)
    ensures
        line@ == message_text(kind@, message@),
{
    let mut line = String::from_str("[");
    line.append(kind);
    line.append("] ");
    line.append(message);
    line
}

/// The text that shows a message on the terminal.
pub fn display_message(message_type: &str, message: &str, color: &str) -> (shown: String)
    ensures
        shows(shown@, message_type@, message@, color@),
{
    let kind = to_uppercase(message_type);
    let line = format_message(kind.as_str(), message);
    let msg = paint(line.as_str(), color);
    let mut shown = String::from_str("\n");
    shown.append(msg.as_str());
    shown.append("\n");
    shown
}

/// A message that waits to be shown.
#[derive(Debug)]
pub struct Notice {
    pub kind: String,
    pub text: String,
    pub color: String,
}

/// The mathematical value of a [`Notice`].
pub struct NoticeView {
    pub kind: Seq<char>,
    pub text: Seq<char>,
    pub color: Seq<char>,
}

impl View for Notice {
    type V = NoticeView;

    open spec fn view(&self) -> NoticeView {
        NoticeView { kind: self.kind@, text: self.text@, color: self.color@ }
    }
}

impl DeepView for Notice {
    type V = NoticeView;

    open spec fn deep_view(&self) -> NoticeView {
        self@
    }
}

impl Notice {
    /// A notice of the given kind, text and colour.
    pub fn new(kind: &str, text: String, color: &str) -> (notice: Notice)
        ensures
            notice@ == (NoticeView { kind: kind@, text: text@, color: color@ }),
    {
        Notice { kind: String::from_str(kind), text, color: String::from_str(color) }
    }

    /// The text that shows this notice on the terminal.
    pub fn display(&self) -> (shown: String)
        ensures
            shows(shown@, self@.kind, self@.text, self@.color),
    {
        display_message(self.kind.as_str(), self.text.as_str(), self.color.as_str())
    }
}

} // verus!
