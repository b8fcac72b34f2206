//! What can go wrong with a command, and the one place where each failure
//! is put into words.

use crate::number::{decimal_digits, format_usize};
use crate::theme::{shows, StyledText, Theme, Tint};
use vstd::prelude::*;
use vstd::string::*;

verus! {

/// The operation during which a process failed.
#[derive(Clone, Copy, Debug, PartialEq, Eq, Structural)]
pub enum Origin {
    /// A foreground command, alone or as a segment of a chain.
    Command,
    /// A command started without waiting for it.
    BackgroundCommand,
    /// A stage of a pipeline.
    Stage,
    /// An executable file named by its path.
    File,
    /// A job of the job table.
    Job,
}

/// The builtins that take arguments.
#[derive(Clone, Copy, Debug, PartialEq, Eq, Structural)]
pub enum Builtin {
    Fg,
    Bg,
    Alias,
    Unalias,
    Source,
    SetVar,
    UnsetVar,
}

/// A failure of the current command. None ends the session.
#[derive(Clone, Debug, PartialEq, Eq)]
pub enum ShellError {
    /// The process could not be created.
    Launch { origin: Origin, command: String, reason: String },
    /// The process was created, but its exit status could not be had.
    Wait { origin: Origin, command: String, reason: String },
    /// The exit status of a job could not be had.
    JobWait { id: usize, reason: String },
    /// The job table holds no job of this identifier.
    JobNotFound { builtin: Builtin, id: usize },
    /// The script file could not be read.
    ScriptRead { path: String, reason: String },
    /// A builtin was given the wrong number of arguments.
    Usage { builtin: Builtin },
    /// `cd` without argument, and no home directory is known.
    HomeNotSet,
    /// The working directory could not be changed to `dir`.
    ChangeDirectory { dir: String, reason: String },
    /// The working directory is not valid text.
    PathNotText,
    /// The working directory could not be determined.
    WorkingDirectory { reason: String },
}

/// A failure with its texts as sequences of characters.
pub enum ErrorView {
    Launch { origin: Origin, command: Seq<char>, reason: Seq<char> },
    Wait { origin: Origin, command: Seq<char>, reason: Seq<char> },
    JobWait { id: usize, reason: Seq<char> },
    JobNotFound { builtin: Builtin, id: usize },
    ScriptRead { path: Seq<char>, reason: Seq<char> },
    Usage { builtin: Builtin },
    HomeNotSet,
    ChangeDirectory { dir: Seq<char>, reason: Seq<char> },
    PathNotText,
    WorkingDirectory { reason: Seq<char> },
}

impl View for ShellError {
    type V = ErrorView;

    open spec fn view(&self) -> ErrorView {
        match *self {
            ShellError::Launch { origin, command, reason } => ErrorView::Launch {
                origin,
                command: command@,
                reason: reason@,
            },
            ShellError::Wait { origin, command, reason } => ErrorView::Wait {
                origin,
                command: command@,
                reason: reason@,
            },
            ShellError::JobWait { id, reason } => ErrorView::JobWait { id, reason: reason@ },
            ShellError::JobNotFound { builtin, id } => ErrorView::JobNotFound { builtin, id },
            ShellError::ScriptRead { path, reason } => ErrorView::ScriptRead {
                path: path@,
                reason: reason@,
            },
            ShellError::Usage { builtin } => ErrorView::Usage { builtin },
            ShellError::HomeNotSet => ErrorView::HomeNotSet,
            ShellError::ChangeDirectory { dir, reason } => ErrorView::ChangeDirectory {
                dir: dir@,
                reason: reason@,
            },
            ShellError::PathNotText => ErrorView::PathNotText,
            ShellError::WorkingDirectory { reason } => ErrorView::WorkingDirectory {
                reason: reason@,
            },
        }
    }
}

/// The words that begin the message of a failed launch.
pub open spec fn launch_prefix(origin: Origin) -> Seq<char> {
    match origin {
        Origin::Command => "Failed to execute command '"@,
        Origin::BackgroundCommand => "Failed to start background job"@,
        Origin::Stage => "Failed to spawn command '"@,
        Origin::File => "Failed to execute file '"@,
        Origin::Job => "Failed to start job '"@,
    }
}

/// The usage line of a builtin.
pub open spec fn usage_text(builtin: Builtin) -> Seq<char> {
    match builtin {
        Builtin::Fg => "Usage: fg <job_id>"@,
        Builtin::Bg => "Usage: bg <job_id>"@,
        Builtin::Alias => "Usage: alias name command"@,
        Builtin::Unalias => "Usage: unalias name"@,
        Builtin::Source => "Usage: source scriptfile"@,
        Builtin::SetVar => "Usage: set VAR value"@,
        Builtin::UnsetVar => "Usage: unset VAR"@,
    }
}

/// The message of a failure, as it is written to the error stream.
pub open spec fn error_text(error: ErrorView) -> Seq<char> {
    match error {
        ErrorView::Launch { origin, command, reason } => match origin {
            Origin::BackgroundCommand => launch_prefix(origin) + ": "@ + reason,
            _ => launch_prefix(origin) + command + "': "@ + reason,
        },
        ErrorView::Wait { origin, command, reason } => match origin {
            Origin::Command => launch_prefix(origin) + command + "': "@ + reason,
            _ => "Failed to wait on child process '"@ + command + "': "@ + reason,
        },
        ErrorView::JobWait { id, reason } => "Failed to wait on job "@ + decimal_digits(
            id as nat,
        ) + ": "@ + reason,
        ErrorView::JobNotFound { builtin, id } => match builtin {
            Builtin::Bg => "bg: job not found: "@ + decimal_digits(id as nat),
            _ => "fg: job not found: "@ + decimal_digits(id as nat),
        },
        ErrorView::ScriptRead { path, reason } => "Failed to read script file '"@ + path + "': "@
            + reason,
        ErrorView::Usage { builtin } => usage_text(builtin),
        ErrorView::HomeNotSet => "cd: HOME environment variable not set"@,
        ErrorView::ChangeDirectory { dir, reason } => "cd: "@ + reason + ": "@ + dir,
        ErrorView::PathNotText => "pwd: Failed to convert path to string"@,
        ErrorView::WorkingDirectory { reason } => "pwd: "@ + reason,
    }
}

/// Whether a failure is shown in the theme's error style. The messages of
/// the job table, of the script reader and of `set`, `unset`, `fg` and `bg`
/// are shown plain.
pub open spec fn error_is_themed(error: ErrorView) -> bool {
    match error {
        ErrorView::Launch { origin, .. } => origin != Origin::Job,
        ErrorView::Wait { origin, .. } => origin != Origin::Job,
        ErrorView::JobWait { .. } => false,
        ErrorView::JobNotFound { .. } => false,
        ErrorView::ScriptRead { .. } => false,
        ErrorView::Usage { builtin } => builtin == Builtin::Alias || builtin == Builtin::Unalias
            || builtin == Builtin::Source,
        ErrorView::HomeNotSet => true,
        ErrorView::ChangeDirectory { .. } => true,
        ErrorView::PathNotText => true,
        ErrorView::WorkingDirectory { .. } => true,
    }
}

/// `prefix`, `first`, `middle` and `second`, one after the other.
pub fn compose(prefix: &str, first: &str, middle: &str, second: &str) -> (out: String)
    ensures
        out@ == prefix@ + first@ + middle@ + second@,
{
    let mut out = prefix.to_owned();
    out.append(first);
    out.append(middle);
    out.append(second);
    out
}

fn launch_words(origin: Origin) -> (out: &'static str)
    ensures
        out@ == launch_prefix(origin),
{
    match origin {
        Origin::Command => "Failed to execute command '",
        Origin::BackgroundCommand => "Failed to start background job",
        Origin::Stage => "Failed to spawn command '",
        Origin::File => "Failed to execute file '",
        Origin::Job => "Failed to start job '",
    }
}

fn usage_words(builtin: Builtin) -> (out: &'static str)
    ensures
        out@ == usage_text(builtin),
{
    match builtin {
        Builtin::Fg => "Usage: fg <job_id>",
        Builtin::Bg => "Usage: bg <job_id>",
        Builtin::Alias => "Usage: alias name command",
        Builtin::Unalias => "Usage: unalias name",
        Builtin::Source => "Usage: source scriptfile",
        Builtin::SetVar => "Usage: set VAR value",
        Builtin::UnsetVar => "Usage: unset VAR",
    }
}

impl ShellError {
    /// The message of this failure.
    pub fn message(&self) -> (out: String)
        ensures
            out@ == error_text(self@),
    {
        let out = match self {
            ShellError::Launch { origin, command, reason } => match origin {
                Origin::BackgroundCommand => compose(launch_words(*origin), "", ": ", reason.as_str()),
                _ => compose(launch_words(*origin), command.as_str(), "': ", reason.as_str()),
            },
            ShellError::Wait { origin, command, reason } => match origin {
                Origin::Command => compose(
                    launch_words(*origin),
                    command.as_str(),
                    "': ",
                    reason.as_str(),
                ),
                _ => compose(
                    "Failed to wait on child process '",
                    command.as_str(),
                    "': ",
                    reason.as_str(),
                ),
            },
            ShellError::JobWait { id, reason } => compose(
                "Failed to wait on job ",
                format_usize(*id).as_str(),
                ": ",
                reason.as_str(),
            ),
            ShellError::JobNotFound { builtin, id } => match builtin {
                Builtin::Bg => compose("bg: job not found: ", format_usize(*id).as_str(), "", ""),
                _ => compose("fg: job not found: ", format_usize(*id).as_str(), "", ""),
            },
            ShellError::ScriptRead { path, reason } => compose(
                "Failed to read script file '",
                path.as_str(),
                "': ",
                reason.as_str(),
            ),
            ShellError::Usage { builtin } => usage_words(*builtin).to_owned(),
            ShellError::HomeNotSet => "cd: HOME environment variable not set".to_owned(),
            ShellError::ChangeDirectory { dir, reason } => compose(
                "cd: ",
                reason.as_str(),
                ": ",
                dir.as_str(),
            ),
            ShellError::PathNotText => "pwd: Failed to convert path to string".to_owned(),
            ShellError::WorkingDirectory { reason } => compose("pwd: ", reason.as_str(), "", ""),
        };
        proof {
            reveal_strlit("");
            assert(out@ =~= error_text(self@));
        }
        out
    }

    /// Whether this failure is shown in the theme's error style.
    pub fn is_themed(&self) -> (out: bool)
        ensures
            out == error_is_themed(self@),
    {
        match self {
            ShellError::Launch { origin, .. } => !matches!(origin, Origin::Job),
            ShellError::Wait { origin, .. } => !matches!(origin, Origin::Job),
            ShellError::JobWait { .. } => false,
            ShellError::JobNotFound { .. } => false,
            ShellError::ScriptRead { .. } => false,
            ShellError::Usage { builtin } => matches!(
                builtin,
                Builtin::Alias | Builtin::Unalias | Builtin::Source
            ),
            ShellError::HomeNotSet => true,
            ShellError::ChangeDirectory { .. } => true,
            ShellError::PathNotText => true,
            ShellError::WorkingDirectory { .. } => true,
        }
    }

    /// This failure as it is shown: its message, red and bold where the
    /// theme applies, plain otherwise.
    pub fn notice(&self) -> (out: StyledText)
        ensures
            error_is_themed(self@) ==> shows(out, error_text(self@), Some(Tint::Red), true, false),
            !error_is_themed(self@) ==> shows(out, error_text(self@), None, false, false),
    {
        let message = self.message();
        if self.is_themed() {
            Theme::error_text(message.as_str())
        } else {
            Theme::plain_text(message.as_str())
        }
    }
}

} // verus!
