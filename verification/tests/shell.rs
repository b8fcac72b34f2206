use custom_shell::command::parse_command;
use custom_shell::error::{Builtin, ShellError};
use custom_shell::shell::{announce, kind_of, Kind, Request, Shell};
use custom_shell::theme::{StyledText, Tint};

fn owned(items: &[&str]) -> Vec<String> {
    items.iter().map(|s| s.to_string()).collect()
}

fn output(text: &str) -> Request {
    Request::Show(StyledText { text: text.to_string(), tint: Some(Tint::White), bold: false, italic: false })
}

fn usage(builtin: Builtin) -> Request {
    Request::Fail(ShellError::Usage { builtin })
}

#[test]
fn alias_then_invocation_keeps_the_arguments() {
    let mut shell = Shell::new();
    assert_eq!(shell.run("alias ll ls -la"), output("Alias added: ll -> ls -la"));
    let (command, args) = parse_command("ll /tmp", shell.aliases());
    assert_eq!(command, "ls -la");
    assert_eq!(args, owned(&["/tmp"]));
}

#[test]
fn a_new_shell_knows_nothing() {
    let shell = Shell::new();
    assert!(shell.history().is_empty());
    assert_eq!(shell.aliases().expand_alias("ll"), "ll");
}

#[test]
fn blank_lines_ask_for_nothing_and_leave_no_trace() {
    let mut shell = Shell::new();
    assert_eq!(shell.run(""), Request::Nothing);
    assert_eq!(shell.run("   \t "), Request::Nothing);
    assert!(shell.history().is_empty());
}

#[test]
fn lines_are_recorded_trimmed() {
    let mut shell = Shell::new();
    shell.run("  ls -l  ");
    shell.run("");
    shell.run("alias");
    shell.run("pwd\n");
    assert_eq!(shell.history(), &owned(&["ls -l", "alias", "pwd"]));
}

#[test]
fn set_and_unset() {
    let mut shell = Shell::new();
    assert_eq!(
        shell.run("set EDITOR vi"),
        Request::SetEnv { name: "EDITOR".to_string(), value: "vi".to_string() }
    );
    assert_eq!(shell.run("set EDITOR"), usage(Builtin::SetVar));
    assert_eq!(shell.run("set"), usage(Builtin::SetVar));
    assert_eq!(shell.run("set A b c"), usage(Builtin::SetVar));
    assert_eq!(shell.run("unset EDITOR"), Request::UnsetEnv { name: "EDITOR".to_string() });
    assert_eq!(shell.run("unset"), usage(Builtin::UnsetVar));
    assert_eq!(shell.run("unset A B"), usage(Builtin::UnsetVar));
}

#[test]
fn builtins_without_decisions() {
    let mut shell = Shell::new();
    assert_eq!(shell.run("env"), Request::PrintEnv);
    assert_eq!(shell.run("env extra"), Request::PrintEnv);
    assert_eq!(shell.run("pwd"), Request::PrintWorkingDirectory);
    assert_eq!(shell.run("jobs"), Request::ListJobs);
    assert_eq!(shell.run("cd"), Request::ChangeDirectory { args: Vec::new() });
    assert_eq!(shell.run("cd /tmp x"), Request::ChangeDirectory { args: owned(&["/tmp", "x"]) });
}

#[test]
fn fg_and_bg_hand_the_line_to_the_job_table() {
    let mut shell = Shell::new();
    assert_eq!(shell.run("  fg 3 "), Request::Foreground { input: "fg 3".to_string() });
    assert_eq!(shell.run("bg"), Request::Background { input: "bg".to_string() });
}

#[test]
fn alias_with_one_word_command() {
    let mut shell = Shell::new();
    assert_eq!(shell.run("alias l ls"), output("Alias added: l -> ls"));
    assert_eq!(shell.aliases().expand_alias("l"), "ls");
}

#[test]
fn alias_joins_the_words_of_the_command_with_single_spaces() {
    let mut shell = Shell::new();
    assert_eq!(shell.run("alias  gl   git   log  --oneline"), output("Alias added: gl -> git log --oneline"));
    assert_eq!(shell.aliases().expand_alias("gl"), "git log --oneline");
}

#[test]
fn alias_needs_a_name_and_a_command() {
    let mut shell = Shell::new();
    assert_eq!(shell.run("alias"), usage(Builtin::Alias));
    assert_eq!(shell.run("alias ll"), usage(Builtin::Alias));
    assert_eq!(shell.aliases().expand_alias("ll"), "ll");
}

#[test]
fn unalias_removes() {
    let mut shell = Shell::new();
    shell.run("alias ll ls -la");
    assert_eq!(shell.run("unalias ll"), output("Alias removed: ll"));
    assert_eq!(shell.aliases().expand_alias("ll"), "ll");
    assert_eq!(shell.run("unalias never"), output("Alias removed: never"));
    assert_eq!(shell.run("unalias"), usage(Builtin::Unalias));
    assert_eq!(shell.run("unalias a b"), usage(Builtin::Unalias));
}

#[test]
fn source_takes_one_path() {
    let mut shell = Shell::new();
    assert_eq!(shell.run("source run.sh"), Request::Source { path: "run.sh".to_string() });
    assert_eq!(shell.run("source"), usage(Builtin::Source));
    assert_eq!(shell.run("source a b"), usage(Builtin::Source));
}

#[test]
fn builtins_are_recognised_before_aliases() {
    let mut shell = Shell::new();
    shell.run("alias pwd ls");
    assert_eq!(shell.run("pwd"), Request::PrintWorkingDirectory);
}

#[test]
fn other_lines_are_executed() {
    let mut shell = Shell::new();
    assert_eq!(
        shell.run(" ls -l /tmp "),
        Request::Execute { input: "ls -l /tmp".to_string(), args: owned(&["-l", "/tmp"]), kind: Kind::Single }
    );
    assert_eq!(
        shell.run("a && b"),
        Request::Execute { input: "a && b".to_string(), args: owned(&["&&", "b"]), kind: Kind::Chain }
    );
    assert_eq!(
        shell.run("exit"),
        Request::Execute { input: "exit".to_string(), args: Vec::new(), kind: Kind::Single }
    );
}

#[test]
fn kinds_of_lines() {
    assert_eq!(kind_of("a && b"), Kind::Chain);
    assert_eq!(kind_of("a || b"), Kind::Chain);
    assert_eq!(kind_of("a | b && c"), Kind::Chain);
    assert_eq!(kind_of("a && b &"), Kind::Chain);
    assert_eq!(kind_of("a | b"), Kind::Pipeline);
    assert_eq!(kind_of("a | b &"), Kind::Pipeline);
    assert_eq!(kind_of("sleep 5 &"), Kind::Background);
    assert_eq!(kind_of("sleep 5&"), Kind::Background);
    assert_eq!(kind_of("&"), Kind::Background);
    assert_eq!(kind_of("a & b"), Kind::Single);
    assert_eq!(kind_of("ls"), Kind::Single);
    assert_eq!(kind_of(""), Kind::Single);
}

#[test]
fn announcement_is_green() {
    assert_eq!(
        announce("ls -l"),
        StyledText { text: "Executing command: ls -l".to_string(), tint: Some(Tint::Green), bold: false, italic: false }
    );
}
