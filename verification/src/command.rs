//! The process launcher's requests and results, and the tokenizer that
//! turns a command segment into a command name and its arguments.

use crate::alias::{resolve, AliasManager};
pub use crate::chain::execute_chain;
pub use crate::pipeline::execute_pipe;
use crate::error::{ErrorView, Origin, ShellError};
use crate::number::{decimal_digits, format_usize};
use crate::text::{same_text, split_whitespace, texts, tokens};
use crate::theme::{shows, StyledText, Theme, Tint};
use vstd::prelude::*;
use vstd::string::*;

verus! {

/// How a process is wired to the terminal.
#[derive(Clone, Copy, Debug, PartialEq, Eq, Structural)]
pub enum IoMode {
    /// Input, output and errors are those of the shell.
    Inherit,
    /// Output and errors are discarded.
    Suppressed,
    /// A stage of a pipeline: its input is what the stage before it wrote
    /// (`takes_input`), and what it writes is kept for the stage after it
    /// (`captures_output`). What is not piped is inherited.
    Piped { takes_input: bool, captures_output: bool },
}

/// A request to create one process.
#[derive(Clone, Debug, PartialEq, Eq)]
pub struct Launch {
    /// The resolved command name.
    pub command: String,
    /// The arguments, in order.
    pub args: Vec<String>,
    pub mode: IoMode,
    /// Whether the launcher waits for the process to exit.
    pub wait: bool,
}

/// A launch request with its texts as sequences of characters.
pub struct LaunchView {
    pub command: Seq<char>,
    pub args: Seq<Seq<char>>,
    pub mode: IoMode,
    pub wait: bool,
}

impl View for Launch {
    type V = LaunchView;

    open spec fn view(&self) -> LaunchView {
        LaunchView {
            command: self.command@,
            args: texts(self.args@),
            mode: self.mode,
            wait: self.wait,
        }
    }
}

/// What became of a launch request.
#[derive(Clone, Debug, PartialEq, Eq)]
pub enum Outcome {
    /// The process was created and runs on; nobody waited for it.
    Started { pid: u32 },
    /// The process was created and has exited, with status zero or not.
    Exited { success: bool },
    /// The process could not be created.
    LaunchFailed { reason: String },
    /// The process was created, but its exit status could not be had.
    WaitFailed { reason: String },
}

/// Whether a launch counts as a success: the process exists and, where it
/// was waited for, exited with status zero.
pub open spec fn succeeded(outcome: Outcome) -> bool {
    match outcome {
        Outcome::Started { .. } => true,
        Outcome::Exited { success } => success,
        Outcome::LaunchFailed { .. } => false,
        Outcome::WaitFailed { .. } => false,
    }
}

/// The failure that an outcome amounts to, if any. An exit with a status
/// other than zero is no failure of the shell.
pub open spec fn failure_of(origin: Origin, command: Seq<char>, outcome: Outcome) -> Option<
    ErrorView,
> {
    match outcome {
        Outcome::LaunchFailed { reason } => Some(
            ErrorView::Launch { origin, command, reason: reason@ },
        ),
        Outcome::WaitFailed { reason } => Some(
            ErrorView::Wait { origin, command, reason: reason@ },
        ),
        _ => None,
    }
}

/// The command that `input` names under `table`: its first word, resolved,
/// and the words after it. `None` when `input` holds no word.
pub open spec fn launch_of(
    table: Map<Seq<char>, Seq<char>>,
    input: Seq<char>,
    mode: IoMode,
    wait: bool,
) -> Option<LaunchView> {
    let words = tokens(input);
    if words.len() == 0 {
        None
    } else {
        Some(LaunchView { command: resolve(table, words[0]), args: words.skip(1), mode, wait })
    }
}

/// The mode in which a single command is launched.
pub open spec fn command_mode(background: bool) -> IoMode {
    if background {
        IoMode::Suppressed
    } else {
        IoMode::Inherit
    }
}

/// A copy of `items`.
pub fn copy_texts(items: &[String]) -> (out: Vec<String>)
    ensures
        texts(out@) == texts(items@),
{
    let mut out: Vec<String> = Vec::new();
    let mut at: usize = 0;
    while at < items.len()
        invariant
            at <= items@.len(),
            out@.len() == at,
            forall|i: int| 0 <= i < at ==> out@[i]@ == items@[i]@,
        decreases items@.len() - at,
    {
        out.push(items[at].clone());
        at += 1;
    }
    assert(texts(out@) =~= texts(items@));
    out
}

impl Launch {
    /// A copy of this request.
    pub fn duplicate(&self) -> (out: Launch)
        ensures
            out@ == self@,
    {
        Launch {
            command: self.command.clone(),
            args: copy_texts(self.args.as_slice()),
            mode: self.mode,
            wait: self.wait,
        }
    }
}

/// Splits `input` on whitespace and resolves its first word through
/// `aliases`. Only the first word is looked up, and only once; the words
/// after it are the arguments, unchanged.
pub fn parse_command(input: &str, aliases: &AliasManager) -> (out: (String, Vec<String>))
    requires
        tokens(input@).len() > 0,
    ensures
        out.0@ == resolve(aliases@, tokens(input@)[0]),
        texts(out.1@) == tokens(input@).skip(1),
{
    let mut parts = split_whitespace(input);
    let ghost words = parts@;
    assert(words.len() == texts(words).len());
    let first = parts.remove(0);
    let command = aliases.expand_alias(first.as_str()).to_owned();
    assert(first@ == texts(words)[0]);
    assert(texts(parts@) =~= texts(words).skip(1));
    (command, parts)
}

/// What an optional launch request looks like as sequences of characters.
pub open spec fn seen(launch: Option<Launch>) -> Option<LaunchView> {
    match launch {
        Some(launch) => Some(launch@),
        None => None,
    }
}

/// The command of the segment `input`, to be launched in `mode`; `None`
/// when the segment holds no word.
pub fn parse_segment(input: &str, aliases: &AliasManager, mode: IoMode, wait: bool) -> (out:
    Option<Launch>)
    ensures
        seen(out) == launch_of(aliases@, input@, mode, wait),
{
    let mut parts = split_whitespace(input);
    let ghost words = parts@;
    assert(words.len() == texts(words).len());
    if parts.len() == 0 {
        return None;
    }
    let first = parts.remove(0);
    let command = aliases.expand_alias(first.as_str()).to_owned();
    assert(first@ == texts(words)[0]);
    assert(texts(parts@) =~= texts(words).skip(1));
    Some(Launch { command, args: parts, mode, wait })
}

/// The request to launch `command` with `args`: in the background with
/// its output discarded and without waiting, otherwise on the terminal and
/// waiting for its exit.
pub fn execute_command(command: &str, args: &[String], background: bool) -> (out: Launch)
    ensures
        out@ == (LaunchView {
            command: command@,
            args: texts(args@),
            mode: command_mode(background),
            wait: !background,
        }),
{
    Launch {
        command: command.to_owned(),
        args: copy_texts(args),
        mode: if background {
            IoMode::Suppressed
        } else {
            IoMode::Inherit
        },
        wait: !background,
    }
}

/// The request to run the executable file at `file_path` with `args`, on
/// the terminal, waiting for its exit.
pub fn execute_file(file_path: &str, args: &[String]) -> (out: Launch)
    ensures
        out@ == (LaunchView {
            command: file_path@,
            args: texts(args@),
            mode: IoMode::Inherit,
            wait: true,
        }),
{
    Launch { command: file_path.to_owned(), args: copy_texts(args), mode: IoMode::Inherit, wait: true }
}

/// Decides `succeeded`.
pub fn has_succeeded(outcome: &Outcome) -> (out: bool)
    ensures
        out == succeeded(*outcome),
{
    match outcome {
        Outcome::Started { .. } => true,
        Outcome::Exited { success } => *success,
        Outcome::LaunchFailed { .. } => false,
        Outcome::WaitFailed { .. } => false,
    }
}

/// The failure to report for `outcome`, if it is one: it names the
/// operation, the command that was attempted and the system's reason.
pub fn launch_failure(origin: Origin, command: &str, outcome: &Outcome) -> (out: Option<
    ShellError,
>)
    ensures
        match out {
            Some(error) => failure_of(origin, command@, *outcome) == Some(error@),
            None => failure_of(origin, command@, *outcome) is None,
        },
{
    match outcome {
        Outcome::LaunchFailed { reason } => Some(
            ShellError::Launch { origin, command: command.to_owned(), reason: reason.clone() },
        ),
        Outcome::WaitFailed { reason } => Some(
            ShellError::Wait { origin, command: command.to_owned(), reason: reason.clone() },
        ),
        _ => None,
    }
}

/// The line that tells of a command started in the background.
pub fn started_notice(pid: u32) -> (out: StyledText)
    ensures
        shows(
            out,
            "Started background job with PID: "@ + decimal_digits(pid as nat),
            None,
            false,
            false,
        ),
{
    let mut line = "Started background job with PID: ".to_owned();
    line.append(format_usize(pid as usize).as_str());
    Theme::plain_text(line.as_str())
}

/// The line that tells how an executable file ended; `status` is the
/// system's description of its exit status.
pub fn exit_notice(status: &str) -> (out: StyledText)
    ensures
        shows(out, "Process exited with status: "@ + status@, Some(Tint::White), false, false),
{
    let mut line = "Process exited with status: ".to_owned();
    line.append(status);
    Theme::output_text(line.as_str())
}

/// What a single command line asks for.
#[derive(Clone, Debug, PartialEq, Eq)]
pub enum CommandAction {
    /// End the session, with status zero.
    Exit,
    /// Change the working directory.
    ChangeDirectory { args: Vec<String> },
    /// Launch a process.
    Run(Launch),
}

/// A `CommandAction` with its texts as sequences of characters.
pub enum CommandActionView {
    Exit,
    ChangeDirectory { args: Seq<Seq<char>> },
    Run(LaunchView),
}

impl View for CommandAction {
    type V = CommandActionView;

    open spec fn view(&self) -> CommandActionView {
        match *self {
            CommandAction::Exit => CommandActionView::Exit,
            CommandAction::ChangeDirectory { args } => CommandActionView::ChangeDirectory {
                args: texts(args@),
            },
            CommandAction::Run(launch) => CommandActionView::Run(launch@),
        }
    }
}

/// What the single command `input` asks for: `exit` and `cd`, looked at
/// after alias resolution, are the shell's own; every other name is
/// launched.
pub open spec fn single_command(
    table: Map<Seq<char>, Seq<char>>,
    input: Seq<char>,
    background: bool,
) -> CommandActionView {
    let words = tokens(input);
    let command = resolve(table, words[0]);
    if command == "exit"@ {
        CommandActionView::Exit
    } else if command == "cd"@ {
        CommandActionView::ChangeDirectory { args: words.skip(1) }
    } else {
        CommandActionView::Run(
            LaunchView {
                command,
                args: words.skip(1),
                mode: command_mode(background),
                wait: !background,
            },
        )
    }
}

/// Parses the single command `input` and decides what it asks for.
pub fn execute_single_command(input: &str, background: bool, aliases: &AliasManager) -> (out:
    CommandAction)
    requires
        tokens(input@).len() > 0,
    ensures
        out@ == single_command(aliases@, input@, background),
{
    let (command, args) = parse_command(input, aliases);
    if same_text(command.as_str(), "exit") {
        CommandAction::Exit
    } else if same_text(command.as_str(), "cd") {
        CommandAction::ChangeDirectory { args }
    } else {
        let launch = execute_command(command.as_str(), args.as_slice(), background);
        CommandAction::Run(launch)
    }
}

/// Why a chain or a pipeline ended without success.
#[derive(Clone, Copy, Debug, PartialEq, Eq, Structural)]
pub enum Cause {
    /// The process exited with a status other than zero.
    UnsuccessfulExit,
    /// The process could not be created.
    LaunchFailed,
    /// The exit status of the process could not be had.
    WaitFailed,
    /// The segment holds no word, so there is nothing to launch.
    EmptyCommand,
}

/// How a chain or a pipeline ended.
#[derive(Clone, Copy, Debug, PartialEq, Eq, Structural)]
pub enum End {
    Succeeded,
    /// It ended at the segment or stage of this index, counted from zero.
    Failed { stage: usize, cause: Cause },
}

/// What an executor asks its caller to do next.
#[derive(Clone, Debug, PartialEq, Eq)]
pub enum Action {
    /// Create this process, and report what became of it.
    Launch(Launch),
    /// Wait for the process of this stage, created earlier, and report its
    /// exit.
    Await { stage: usize },
    /// Nothing more: the run is over.
    Done(End),
}

/// An `Action` with its texts as sequences of characters.
pub enum ActionView {
    Launch(LaunchView),
    Await { stage: usize },
    Done(End),
}

impl View for Action {
    type V = ActionView;

    open spec fn view(&self) -> ActionView {
        match *self {
            Action::Launch(launch) => ActionView::Launch(launch@),
            Action::Await { stage } => ActionView::Await { stage },
            Action::Done(end) => ActionView::Done(end),
        }
    }
}

/// Why a run ends on `outcome`, where it does.
pub open spec fn cause_of(outcome: Outcome) -> Cause {
    match outcome {
        Outcome::LaunchFailed { .. } => Cause::LaunchFailed,
        Outcome::WaitFailed { .. } => Cause::WaitFailed,
        _ => Cause::UnsuccessfulExit,
    }
}

/// Decides `cause_of`.
pub fn outcome_cause(outcome: &Outcome) -> (out: Cause)
    ensures
        out == cause_of(*outcome),
{
    match outcome {
        Outcome::LaunchFailed { .. } => Cause::LaunchFailed,
        Outcome::WaitFailed { .. } => Cause::WaitFailed,
        _ => Cause::UnsuccessfulExit,
    }
}

} // verus!
