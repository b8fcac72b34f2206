use custom_shell::error::{compose, Builtin, Origin, ShellError};
use custom_shell::theme::{StyledText, Tint};

fn launch(origin: Origin) -> ShellError {
    ShellError::Launch { origin, command: "frob".to_string(), reason: "No such file".to_string() }
}

fn wait(origin: Origin) -> ShellError {
    ShellError::Wait { origin, command: "frob".to_string(), reason: "interrupted".to_string() }
}

#[test]
fn compose_concatenates() {
    assert_eq!(compose("a", "b", "c", "d"), "abcd");
    assert_eq!(compose("", "", "", ""), "");
}

#[test]
fn launch_messages_name_the_operation() {
    assert_eq!(launch(Origin::Command).message(), "Failed to execute command 'frob': No such file");
    assert_eq!(launch(Origin::BackgroundCommand).message(), "Failed to start background job: No such file");
    assert_eq!(launch(Origin::Stage).message(), "Failed to spawn command 'frob': No such file");
    assert_eq!(launch(Origin::File).message(), "Failed to execute file 'frob': No such file");
    assert_eq!(launch(Origin::Job).message(), "Failed to start job 'frob': No such file");
}

#[test]
fn wait_messages_name_the_process() {
    assert_eq!(wait(Origin::Stage).message(), "Failed to wait on child process 'frob': interrupted");
    assert_eq!(wait(Origin::File).message(), "Failed to wait on child process 'frob': interrupted");
    assert_eq!(wait(Origin::Command).message(), "Failed to execute command 'frob': interrupted");
    let job = ShellError::JobWait { id: 12, reason: "interrupted".to_string() };
    assert_eq!(job.message(), "Failed to wait on job 12: interrupted");
}

#[test]
fn job_not_found_messages_name_the_builtin_and_the_job() {
    assert_eq!(ShellError::JobNotFound { builtin: Builtin::Fg, id: 3 }.message(), "fg: job not found: 3");
    assert_eq!(ShellError::JobNotFound { builtin: Builtin::Bg, id: 40 }.message(), "bg: job not found: 40");
}

#[test]
fn script_read_message_names_the_file() {
    let error = ShellError::ScriptRead { path: "run.sh".to_string(), reason: "denied".to_string() };
    assert_eq!(error.message(), "Failed to read script file 'run.sh': denied");
    assert!(!error.is_themed());
}

#[test]
fn usage_messages() {
    let usage = |builtin| ShellError::Usage { builtin }.message();
    assert_eq!(usage(Builtin::Fg), "Usage: fg <job_id>");
    assert_eq!(usage(Builtin::Bg), "Usage: bg <job_id>");
    assert_eq!(usage(Builtin::Alias), "Usage: alias name command");
    assert_eq!(usage(Builtin::Unalias), "Usage: unalias name");
    assert_eq!(usage(Builtin::Source), "Usage: source scriptfile");
    assert_eq!(usage(Builtin::SetVar), "Usage: set VAR value");
    assert_eq!(usage(Builtin::UnsetVar), "Usage: unset VAR");
}

#[test]
fn directory_messages() {
    assert_eq!(ShellError::HomeNotSet.message(), "cd: HOME environment variable not set");
    let cd = ShellError::ChangeDirectory { dir: "/nowhere".to_string(), reason: "No such file or directory".to_string() };
    assert_eq!(cd.message(), "cd: No such file or directory: /nowhere");
    assert_eq!(ShellError::PathNotText.message(), "pwd: Failed to convert path to string");
    let pwd = ShellError::WorkingDirectory { reason: "gone".to_string() };
    assert_eq!(pwd.message(), "pwd: gone");
}

#[test]
fn themed_failures_are_red_and_bold() {
    let notice = launch(Origin::Command).notice();
    assert_eq!(
        notice,
        StyledText {
            text: "Failed to execute command 'frob': No such file".to_string(),
            tint: Some(Tint::Red),
            bold: true,
            italic: false,
        }
    );
    assert!(ShellError::HomeNotSet.is_themed());
    assert!(ShellError::Usage { builtin: Builtin::Alias }.is_themed());
    assert!(ShellError::Usage { builtin: Builtin::Source }.is_themed());
    assert!(wait(Origin::Stage).is_themed());
}

#[test]
fn job_table_failures_are_plain() {
    let notice = ShellError::JobNotFound { builtin: Builtin::Fg, id: 3 }.notice();
    assert_eq!(
        notice,
        StyledText { text: "fg: job not found: 3".to_string(), tint: None, bold: false, italic: false }
    );
    assert!(!launch(Origin::Job).is_themed());
    assert!(!ShellError::Usage { builtin: Builtin::Fg }.is_themed());
    assert!(!ShellError::Usage { builtin: Builtin::SetVar }.is_themed());
    assert!(!ShellError::JobWait { id: 1, reason: String::new() }.is_themed());
}
