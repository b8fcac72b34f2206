use custom_shell::alias::AliasManager;
use custom_shell::command::{execute_pipe, Action, Cause, End, IoMode, Launch, Outcome};
use custom_shell::pipeline::{Phase, PipeRun};

fn exited(success: bool) -> Outcome {
    Outcome::Exited { success }
}

fn started(pid: u32) -> Outcome {
    Outcome::Started { pid }
}

fn stage(command: &str, args: &[&str], takes_input: bool, captures_output: bool) -> Action {
    Action::Launch(Launch {
        command: command.to_string(),
        args: args.iter().map(|s| s.to_string()).collect(),
        mode: IoMode::Piped { takes_input, captures_output },
        wait: false,
    })
}

/// Creates both stages of a two-stage pipeline and reports their exits.
fn run_pair(first_exit: bool, second_exit: bool) -> End {
    let aliases = AliasManager::new();
    let (mut run, first) = execute_pipe("a | b", &aliases);
    assert_eq!(first, stage("a", &[], false, true));
    assert_eq!(run.advance(&started(10)), stage("b", &[], true, false));
    assert_eq!(run.advance(&started(11)), Action::Await { stage: 0 });
    assert_eq!(run.advance(&exited(first_exit)), Action::Await { stage: 1 });
    match run.advance(&exited(second_exit)) {
        Action::Done(end) => end,
        other => panic!("the pipeline is over, yet it asks for {:?}", other),
    }
}

#[test]
fn pipeline_succeeds_with_its_last_stage_though_the_first_fails() {
    assert_eq!(run_pair(false, true), End::Succeeded);
}

#[test]
fn pipeline_fails_with_its_last_stage_though_the_first_succeeds() {
    assert_eq!(run_pair(true, false), End::Failed { stage: 1, cause: Cause::UnsuccessfulExit });
}

#[test]
fn pipeline_result_is_the_last_exit_in_all_four_cases() {
    for first in [false, true] {
        for second in [false, true] {
            assert_eq!(run_pair(first, second) == End::Succeeded, second);
        }
    }
}

#[test]
fn pipeline_wires_three_stages() {
    let mut aliases = AliasManager::new();
    aliases.add_alias("c", "wc");
    let (mut run, first) = execute_pipe("cat f.txt | grep -n x | c -l", &aliases);
    assert_eq!(first, stage("cat", &["f.txt"], false, true));
    assert_eq!(run.phase(), Phase::Spawning { stage: 0 });
    assert_eq!(run.advance(&started(1)), stage("grep", &["-n", "x"], true, true));
    assert_eq!(run.advance(&started(2)), stage("wc", &["-l"], true, false));
    assert_eq!(run.advance(&started(3)), Action::Await { stage: 0 });
    assert_eq!(run.phase(), Phase::Waiting { stage: 0 });
    assert_eq!(run.advance(&exited(true)), Action::Await { stage: 1 });
    assert_eq!(run.advance(&exited(false)), Action::Await { stage: 2 });
    assert_eq!(run.advance(&exited(true)), Action::Done(End::Succeeded));
    assert_eq!(run.phase(), Phase::Over { end: End::Succeeded });
}

#[test]
fn pipeline_creates_every_stage_before_it_awaits_any() {
    let aliases = AliasManager::new();
    let (mut run, first) = execute_pipe("a | b | c", &aliases);
    let mut action = first;
    let mut created: u32 = 0;
    while let Action::Launch(_) = action {
        created += 1;
        action = run.advance(&started(created));
    }
    assert_eq!(created, 3);
    assert_eq!(action, Action::Await { stage: 0 });
}

#[test]
fn pipeline_aborts_when_a_stage_cannot_be_created() {
    let aliases = AliasManager::new();
    let (mut run, first) = execute_pipe("a | nosuch | c", &aliases);
    assert_eq!(first, stage("a", &[], false, true));
    assert_eq!(run.advance(&started(1)), stage("nosuch", &[], true, true));
    let failed = Outcome::LaunchFailed { reason: "No such file or directory".to_string() };
    let end = End::Failed { stage: 1, cause: Cause::LaunchFailed };
    assert_eq!(run.advance(&failed), Action::Done(end));
    assert_eq!(run.advance(&started(2)), Action::Done(end));
    assert_eq!(run.advance(&exited(true)), Action::Done(end));
}

#[test]
fn pipeline_ends_when_an_exit_status_cannot_be_had() {
    let aliases = AliasManager::new();
    let (mut run, _) = execute_pipe("a | b", &aliases);
    run.advance(&started(1));
    assert_eq!(run.advance(&started(2)), Action::Await { stage: 0 });
    let failed = Outcome::WaitFailed { reason: "interrupted".to_string() };
    assert_eq!(run.advance(&failed), Action::Done(End::Failed { stage: 0, cause: Cause::WaitFailed }));
}

#[test]
fn pipeline_ends_at_a_stage_without_a_word() {
    let aliases = AliasManager::new();
    let (mut run, first) = execute_pipe("a | | c", &aliases);
    assert_eq!(first, stage("a", &[], false, true));
    assert_eq!(
        run.advance(&started(1)),
        Action::Done(End::Failed { stage: 1, cause: Cause::EmptyCommand })
    );
    let (_, first) = execute_pipe("| a", &aliases);
    assert_eq!(first, Action::Done(End::Failed { stage: 0, cause: Cause::EmptyCommand }));
}

#[test]
fn pipeline_of_one_stage_pipes_nothing() {
    let aliases = AliasManager::new();
    let (mut run, first) = execute_pipe("ls", &aliases);
    assert_eq!(first, stage("ls", &[], false, false));
    assert_eq!(run.advance(&started(1)), Action::Await { stage: 0 });
    assert_eq!(
        run.advance(&exited(false)),
        Action::Done(End::Failed { stage: 0, cause: Cause::UnsuccessfulExit })
    );
}

#[test]
fn pipeline_keeps_waiting_while_no_exit_is_reported() {
    let aliases = AliasManager::new();
    let (mut run, _) = execute_pipe("a | b", &aliases);
    run.advance(&started(1));
    run.advance(&started(2));
    assert_eq!(run.advance(&started(3)), Action::Await { stage: 0 });
    assert_eq!(run.action(), Action::Await { stage: 0 });
}

#[test]
fn pipe_run_can_be_named() {
    let aliases = AliasManager::new();
    let (run, _): (PipeRun, Action) = execute_pipe("a | b", &aliases);
    assert_eq!(run.phase(), Phase::Spawning { stage: 0 });
}
