//! How the shell's texts are to be shown: which colour and weight each
//! kind of text gets. Turning a styled text into terminal codes is left to
//! the caller.

use vstd::prelude::*;
use vstd::string::*;

verus! {

/// The foreground colours the theme uses.
#[derive(Clone, Copy, Debug, PartialEq, Eq, Structural)]
pub enum Tint {
    Blue,
    BrightBlue,
    BrightCyan,
    Red,
    Green,
    White,
    Yellow,
}

/// A text together with the way it is to be shown.
#[derive(Clone, Debug, PartialEq, Eq)]
pub struct StyledText {
    pub text: String,
    pub tint: Option<Tint>,
    pub bold: bool,
    pub italic: bool,
}

/// A styled text with its text as a sequence of characters.
pub struct StyledView {
    pub text: Seq<char>,
    pub tint: Option<Tint>,
    pub bold: bool,
    pub italic: bool,
}

impl View for StyledText {
    type V = StyledView;

    open spec fn view(&self) -> StyledView {
        StyledView { text: self.text@, tint: self.tint, bold: self.bold, italic: self.italic }
    }
}

/// Whether `styled` holds exactly `text`, shown in `tint` and with the
/// given weight and slant.
pub open spec fn shows(
    styled: StyledText,
    text: Seq<char>,
    tint: Option<Tint>,
    bold: bool,
    italic: bool,
) -> bool {
    &&& styled.text@ == text
    &&& styled.tint == tint
    &&& styled.bold == bold
    &&& styled.italic == italic
}

/// The text of the prompt.
pub open spec fn prompt() -> Seq<char> {
    "shell>"@
}

/// The banner shown when the shell starts.
pub open spec fn banner() -> Seq<char> {
    "\n  ____  _          _ _ \n / ___|| |__   ___| | |\n \\___ \\| '_ \\ / _ \\ | |\n  ___) | | | |  __/ | |\n |____/|_| |_|\\___|_|_|\n                       \n        Custom Shell\n"@
}

/// The shell's theme.
pub struct Theme;

impl Theme {
    /// A text shown as it is.
    pub fn plain_text(text: &str) -> (out: StyledText)
        ensures
            shows(out, text@, None, false, false),
    {
        StyledText { text: text.to_owned(), tint: None, bold: false, italic: false }
    }

    /// The prompt: bright blue and bold.
    pub fn prompt_text() -> (out: StyledText)
        ensures
            shows(out, prompt(), Some(Tint::BrightBlue), true, false),
    {
        StyledText {
            text: "shell>".to_owned(),
            tint: Some(Tint::BrightBlue),
            bold: true,
            italic: false,
        }
    }

    /// A directory: bright cyan and bold.
    pub fn directory_text(dir: &str) -> (out: StyledText)
        ensures
            shows(out, dir@, Some(Tint::BrightCyan), true, false),
    {
        StyledText { text: dir.to_owned(), tint: Some(Tint::BrightCyan), bold: true, italic: false }
    }

    /// An error: red and bold.
    pub fn error_text(message: &str) -> (out: StyledText)
        ensures
            shows(out, message@, Some(Tint::Red), true, false),
    {
        StyledText { text: message.to_owned(), tint: Some(Tint::Red), bold: true, italic: false }
    }

    /// A command about to run: green.
    pub fn command_text(cmd: &str) -> (out: StyledText)
        ensures
            shows(out, cmd@, Some(Tint::Green), false, false),
    {
        StyledText { text: cmd.to_owned(), tint: Some(Tint::Green), bold: false, italic: false }
    }

    /// The shell's own output: white.
    pub fn output_text(output: &str) -> (out: StyledText)
        ensures
            shows(out, output@, Some(Tint::White), false, false),
    {
        StyledText { text: output.to_owned(), tint: Some(Tint::White), bold: false, italic: false }
    }

    /// The time a command took: yellow and italic. `seconds` is the time
    /// in seconds, already written out as a decimal number.
    pub fn execution_time_text(seconds: &str) -> (out: StyledText)
        ensures
            shows(
                out,
                "Execution time: "@ + seconds@ + " seconds"@,
                Some(Tint::Yellow),
                false,
                true,
            ),
    {
        let mut text = "Execution time: ".to_owned();
        text.append(seconds);
        text.append(" seconds");
        StyledText { text, tint: Some(Tint::Yellow), bold: false, italic: true }
    }

    /// The banner: blue and bold.
    pub fn welcome_message() -> (out: StyledText)
        ensures
            shows(out, banner(), Some(Tint::Blue), true, false),
    {
        StyledText {
            text: "\n  ____  _          _ _ \n / ___|| |__   ___| | |\n \\___ \\| '_ \\ / _ \\ | |\n  ___) | | | |  __/ | |\n |____/|_| |_|\\___|_|_|\n                       \n        Custom Shell\n".to_owned(),
            tint: Some(Tint::Blue),
            bold: true,
            italic: false,
        }
    }
}

} // verus!
