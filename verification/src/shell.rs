//! The dispatcher: what one line of input asks the shell to do.
//!
//! The shell keeps the history of its input and the alias table. The job
//! table is not part of it: it is shared with the watchers of the
//! background jobs and lives with the caller, behind its lock.

use crate::alias::AliasManager;
use crate::env::{set_env_var, unset_env_var};
use crate::error::{compose, Builtin, ErrorView, ShellError};
use crate::text::{
    contains, ends_with, is_blank, join_from, joined, lemma_blank_has_no_tokens, occurs,
    same_text, split_whitespace, texts, tokens, trim, trimmed,
};
use crate::theme::{StyledText, StyledView, Theme, Tint};
use vstd::prelude::*;
use vstd::string::*;

verus! {

/// How a line that names no builtin is executed.
#[derive(Clone, Copy, Debug, PartialEq, Eq, Structural)]
pub enum Kind {
    /// Commands joined by `&&`.
    Chain,
    /// Commands joined by `|`.
    Pipeline,
    /// A command that ends in `&`.
    Background,
    /// A single command in the foreground.
    Single,
}

/// How the line `input` is executed: as a chain where it holds `&&` or
/// `||`, else as a pipeline where it holds `|`, else in the background
/// where it ends in `&`, else as a single command.
pub open spec fn classify(input: Seq<char>) -> Kind {
    if occurs(input, "&&"@) || occurs(input, "||"@) {
        Kind::Chain
    } else if occurs(input, "|"@) {
        Kind::Pipeline
    } else if input.len() > 0 && input.last() == '&' {
        Kind::Background
    } else {
        Kind::Single
    }
}

/// Decides `classify`.
pub fn kind_of(input: &str) -> (out: Kind)
    ensures
        out == classify(input@),
{
    if contains(input, "&&") || contains(input, "||") {
        Kind::Chain
    } else if contains(input, "|") {
        Kind::Pipeline
    } else if ends_with(input, '&') {
        Kind::Background
    } else {
        Kind::Single
    }
}

/// What one line of input asks the caller to do.
#[derive(Clone, Debug, PartialEq, Eq)]
pub enum Request {
    /// The line is blank.
    Nothing,
    /// Show this text on the output stream.
    Show(StyledText),
    /// Report this failure on the error stream.
    Fail(ShellError),
    /// Set an environment variable.
    SetEnv { name: String, value: String },
    /// Remove an environment variable.
    UnsetEnv { name: String },
    /// Show the environment.
    PrintEnv,
    /// Change the working directory; see `builtins::change_directory`.
    ChangeDirectory { args: Vec<String> },
    /// Show the working directory; see `builtins::print_working_directory`.
    PrintWorkingDirectory,
    /// Show the jobs of the job table.
    ListJobs,
    /// Hand `input` to `JobManager::foreground`.
    Foreground { input: String },
    /// Hand `input` to `JobManager::background`.
    Background { input: String },
    /// Run the script at `path`; see `scripting::execute_script`.
    Source { path: String },
    /// The line names no builtin. Where `input` is the path of a file, run
    /// that file with `args`; otherwise execute `input` in the way that
    /// `kind` tells.
    Execute { input: String, args: Vec<String>, kind: Kind },
}

/// A `Request` with its texts as sequences of characters.
pub enum RequestView {
    Nothing,
    Show(StyledView),
    Fail(ErrorView),
    SetEnv { name: Seq<char>, value: Seq<char> },
    UnsetEnv { name: Seq<char> },
    PrintEnv,
    ChangeDirectory { args: Seq<Seq<char>> },
    PrintWorkingDirectory,
    ListJobs,
    Foreground { input: Seq<char> },
    Background { input: Seq<char> },
    Source { path: Seq<char> },
    Execute { input: Seq<char>, args: Seq<Seq<char>>, kind: Kind },
}

impl View for Request {
    type V = RequestView;

    open spec fn view(&self) -> RequestView {
        match *self {
            Request::Nothing => RequestView::Nothing,
            Request::Show(text) => RequestView::Show(text@),
            Request::Fail(error) => RequestView::Fail(error@),
            Request::SetEnv { name, value } => RequestView::SetEnv { name: name@, value: value@ },
            Request::UnsetEnv { name } => RequestView::UnsetEnv { name: name@ },
            Request::PrintEnv => RequestView::PrintEnv,
            Request::ChangeDirectory { args } => RequestView::ChangeDirectory {
                args: texts(args@),
            },
            Request::PrintWorkingDirectory => RequestView::PrintWorkingDirectory,
            Request::ListJobs => RequestView::ListJobs,
            Request::Foreground { input } => RequestView::Foreground { input: input@ },
            Request::Background { input } => RequestView::Background { input: input@ },
            Request::Source { path } => RequestView::Source { path: path@ },
            Request::Execute { input, args, kind } => RequestView::Execute {
                input: input@,
                args: texts(args@),
                kind,
            },
        }
    }
}

/// What the shell remembers: the lines it was given, and the aliases.
pub struct ShellState {
    pub history: Seq<Seq<char>>,
    pub aliases: Map<Seq<char>, Seq<char>>,
}

/// A text in the style of the shell's own output.
pub open spec fn output_view(text: Seq<char>) -> StyledView {
    StyledView { text, tint: Some(Tint::White), bold: false, italic: false }
}

/// A usage failure.
pub open spec fn usage(builtin: Builtin) -> RequestView {
    RequestView::Fail(ErrorView::Usage { builtin })
}

/// What the line `line` asks for in the state `state`, and the state
/// after it.
///
/// The line is trimmed. A blank line asks for nothing and leaves no
/// trace. Any other line goes into the history, and its first word decides:
/// a builtin is checked for the number of its arguments, and `alias` and
/// `unalias` change the alias table at once; any other word makes the
/// line a command to execute. `alias` takes the name and the command, which
/// is every word after the name, joined by single spaces.
pub open spec fn dispatch(state: ShellState, line: Seq<char>) -> (ShellState, RequestView) {
    let input = trimmed(line);
    let words = tokens(input);
    if words.len() == 0 {
        (state, RequestView::Nothing)
    } else {
        let word = words[0];
        let args = words.skip(1);
        let recorded = ShellState { history: state.history.push(input), aliases: state.aliases };
        if word == "set"@ {
            (
                recorded,
                if args.len() == 2 {
                    RequestView::SetEnv { name: args[0], value: args[1] }
                } else {
                    usage(Builtin::SetVar)
                },
            )
        } else if word == "unset"@ {
            (
                recorded,
                if args.len() == 1 {
                    RequestView::UnsetEnv { name: args[0] }
                } else {
                    usage(Builtin::UnsetVar)
                },
            )
        } else if word == "env"@ {
            (recorded, RequestView::PrintEnv)
        } else if word == "cd"@ {
            (recorded, RequestView::ChangeDirectory { args })
        } else if word == "pwd"@ {
            (recorded, RequestView::PrintWorkingDirectory)
        } else if word == "jobs"@ {
            (recorded, RequestView::ListJobs)
        } else if word == "fg"@ {
            (recorded, RequestView::Foreground { input })
        } else if word == "bg"@ {
            (recorded, RequestView::Background { input })
        } else if word == "alias"@ {
            if args.len() >= 2 {
                (
                    ShellState {
                        history: recorded.history,
                        aliases: state.aliases.insert(args[0], joined(args.skip(1))),
                    },
                    RequestView::Show(
                        output_view("Alias added: "@ + args[0] + " -> "@ + joined(args.skip(1))),
                    ),
                )
            } else {
                (recorded, usage(Builtin::Alias))
            }
        } else if word == "unalias"@ {
            if args.len() == 1 {
                (
                    ShellState {
                        history: recorded.history,
                        aliases: state.aliases.remove(args[0]),
                    },
                    RequestView::Show(output_view("Alias removed: "@ + args[0])),
                )
            } else {
                (recorded, usage(Builtin::Unalias))
            }
        } else if word == "source"@ {
            (
                recorded,
                if args.len() == 1 {
                    RequestView::Source { path: args[0] }
                } else {
                    usage(Builtin::Source)
                },
            )
        } else {
            (recorded, RequestView::Execute { input, args, kind: classify(input) })
        }
    }
}

/// A line asks for nothing, and leaves the shell as it was, exactly when
/// it is blank.
pub proof fn lemma_only_blank_lines_ask_for_nothing(state: ShellState, line: Seq<char>)
    ensures
        dispatch(state, line).1 == RequestView::Nothing <==> is_blank(line),
        is_blank(line) ==> dispatch(state, line).0 == state,
{
    lemma_blank_has_no_tokens(line);
    lemma_blank_has_no_tokens(trimmed(line));
}

/// The line that announces a command about to be executed.
pub fn announce(input: &str) -> (out: StyledText)
    ensures
        out@ == (StyledView {
            text: "Executing command: "@ + input@,
            tint: Some(Tint::Green),
            bold: false,
            italic: false,
        }),
{
    let mut line = "Executing command: ".to_owned();
    line.append(input);
    Theme::command_text(line.as_str())
}

/// The shell: the history of its input and its aliases.
pub struct Shell {
    history: Vec<String>,
    aliases: AliasManager,
}

impl View for Shell {
    type V = ShellState;

    closed spec fn view(&self) -> ShellState {
        ShellState { history: texts(self.history@), aliases: self.aliases@ }
    }
}

impl Shell {
    /// A shell with no history and no aliases. The caller greets the user
    /// with `Theme::welcome_message`.
    pub fn new() -> (shell: Self)
        ensures
            shell@.history == Seq::<Seq<char>>::empty(),
            shell@.aliases == Map::<Seq<char>, Seq<char>>::empty(),
    {
        let shell = Shell { history: Vec::new(), aliases: AliasManager::new() };
        assert(shell@.history =~= Seq::<Seq<char>>::empty());
        shell
    }

    /// The lines given so far, trimmed, without the blank ones.
    pub fn history(&self) -> (out: &Vec<String>)
        ensures
            texts(out@) == self@.history,
    {
        &self.history
    }

    /// The alias table.
    pub fn aliases(&self) -> (out: &AliasManager)
        ensures
            out@ == self@.aliases,
    {
        &self.aliases
    }

    /// Takes one line of input and says what it asks for. The caller reads
    /// the lines, does what is asked for, and comes back with the next
    /// line, until its input ends.
    pub fn run(&mut self, line: &str) -> (out: Request)
        ensures
            final(self)@ == dispatch(old(self)@, line@).0,
            out@ == dispatch(old(self)@, line@).1,
    {
        let input = trim(line);
        let mut args = split_whitespace(input);
        let ghost words = texts(args@);
        if args.len() == 0 {
            return Request::Nothing;
        }
        let ghost before = self@;
        self.history.push(input.to_owned());
        let word = args.remove(0);
        proof {
            assert(word@ == words[0]);
            assert(texts(args@) =~= words.skip(1));
            assert(texts(self.history@) =~= before.history.push(input@));
            assert(forall|i: int| 0 <= i < args@.len() ==> texts(args@)[i] == args@[i]@);
        }
        let word = word.as_str();
        if same_text(word, "set") {
            match set_env_var(args.as_slice()) {
                Ok((name, value)) => Request::SetEnv { name, value },
                Err(error) => Request::Fail(error),
            }
        } else if same_text(word, "unset") {
            match unset_env_var(args.as_slice()) {
                Ok(name) => Request::UnsetEnv { name },
                Err(error) => Request::Fail(error),
            }
        } else if same_text(word, "env") {
            Request::PrintEnv
        } else if same_text(word, "cd") {
            Request::ChangeDirectory { args }
        } else if same_text(word, "pwd") {
            Request::PrintWorkingDirectory
        } else if same_text(word, "jobs") {
            Request::ListJobs
        } else if same_text(word, "fg") {
            Request::Foreground { input: input.to_owned() }
        } else if same_text(word, "bg") {
            Request::Background { input: input.to_owned() }
        } else if same_text(word, "alias") {
            if args.len() >= 2 {
                let command = join_from(&args, 1);
                self.aliases.add_alias(args[0].as_str(), command.as_str());
                let text = compose("Alias added: ", args[0].as_str(), " -> ", command.as_str());
                Request::Show(Theme::output_text(text.as_str()))
            } else {
                Request::Fail(ShellError::Usage { builtin: Builtin::Alias })
            }
        } else if same_text(word, "unalias") {
            if args.len() == 1 {
                self.aliases.remove_alias(args[0].as_str());
                let mut text = "Alias removed: ".to_owned();
                text.append(args[0].as_str());
                Request::Show(Theme::output_text(text.as_str()))
            } else {
                Request::Fail(ShellError::Usage { builtin: Builtin::Unalias })
            }
        } else if same_text(word, "source") {
            if args.len() == 1 {
                Request::Source { path: args[0].clone() }
            } else {
                Request::Fail(ShellError::Usage { builtin: Builtin::Source })
            }
        } else {
            Request::Execute { input: input.to_owned(), args, kind: kind_of(input) }
        }
    }
}

} // verus!
