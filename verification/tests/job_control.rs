use custom_shell::alias::AliasManager;
use custom_shell::command::{IoMode, Launch};
use custom_shell::error::{Builtin, Origin, ShellError};
use custom_shell::job_control::{background_launch, confirm_job, parse_job_argument, JobManager};

fn table_of(commands: &[&str]) -> JobManager<String> {
    let mut jobs = JobManager::new();
    for command in commands {
        jobs.start_background_job(command, Ok(format!("handle of {}", command))).unwrap();
    }
    jobs
}

fn snapshot(jobs: &JobManager<String>) -> Vec<(usize, String)> {
    let mut list = jobs.list_jobs();
    list.sort();
    list
}

#[test]
fn a_new_table_is_empty_and_starts_at_one() {
    let jobs: JobManager<String> = JobManager::new();
    assert_eq!(jobs.len(), 0);
    assert_eq!(jobs.next_job_id(), 1);
    assert!(jobs.has_free_id());
    assert!(jobs.list_jobs().is_empty());
}

#[test]
fn jobs_get_increasing_identifiers() {
    let mut jobs: JobManager<u32> = JobManager::new();
    assert_eq!(jobs.start_background_job("sleep 1 &", Ok(100)), Ok(1));
    assert_eq!(jobs.start_background_job("sleep 2 &", Ok(101)), Ok(2));
    assert_eq!(jobs.start_background_job("sleep 3 &", Ok(102)), Ok(3));
    assert_eq!(jobs.len(), 3);
    assert_eq!(jobs.next_job_id(), 4);
}

#[test]
fn identifiers_are_not_reused_after_jobs_are_gone() {
    let mut jobs: JobManager<u32> = JobManager::new();
    let mut seen: Vec<usize> = Vec::new();
    for round in 0..5u32 {
        let first = jobs.start_background_job("a &", Ok(round)).unwrap();
        let second = jobs.start_background_job("b &", Ok(round)).unwrap();
        seen.push(first);
        seen.push(second);
        assert!(jobs.reap(first).is_some());
        assert!(jobs.foreground(&format!("fg {}", second)).is_ok());
        assert_eq!(jobs.len(), 0);
    }
    assert_eq!(seen, (1..=10).collect::<Vec<usize>>());
}

#[test]
fn a_job_that_cannot_be_started_takes_no_identifier() {
    let mut jobs: JobManager<u32> = JobManager::new();
    jobs.start_background_job("a &", Ok(1)).unwrap();
    let failed = jobs.start_background_job("nosuch &", Err("No such file or directory".to_string()));
    assert_eq!(
        failed,
        Err(ShellError::Launch {
            origin: Origin::Job,
            command: "nosuch &".to_string(),
            reason: "No such file or directory".to_string(),
        })
    );
    assert_eq!(failed.unwrap_err().message(), "Failed to start job 'nosuch &': No such file or directory");
    assert_eq!(jobs.len(), 1);
    assert_eq!(jobs.start_background_job("b &", Ok(2)), Ok(2));
}

#[test]
fn list_jobs_shows_every_job_once() {
    let jobs = table_of(&["sleep 1 &", "sleep 2 &", "make &"]);
    assert_eq!(
        snapshot(&jobs),
        vec![(1, "sleep 1 &".to_string()), (2, "sleep 2 &".to_string()), (3, "make &".to_string())]
    );
    assert_eq!(jobs.len(), 3);
}

#[test]
fn foreground_takes_the_job_out_and_hands_it_over() {
    let mut jobs = table_of(&["sleep 1 &", "sleep 2 &"]);
    let job = jobs.foreground("fg 1").ok().unwrap();
    assert_eq!(job.id(), 1);
    assert_eq!(job.command(), "sleep 1 &");
    assert_eq!(job.process(), "handle of sleep 1 &");
    assert_eq!(job.display(), "[Job ID: 1] Command: sleep 1 &");
    assert_eq!(job.into_process(), "handle of sleep 1 &");
    assert_eq!(snapshot(&jobs), vec![(2, "sleep 2 &".to_string())]);
    assert!(!jobs.contains(1));
    assert!(jobs.contains(2));
}

#[test]
fn foreground_of_an_unknown_job_leaves_the_table_unchanged() {
    let mut jobs = table_of(&["sleep 1 &", "sleep 2 &"]);
    let before = snapshot(&jobs);
    let result = jobs.foreground("fg 7");
    assert_eq!(result.err(), Some(ShellError::JobNotFound { builtin: Builtin::Fg, id: 7 }));
    assert_eq!(snapshot(&jobs), before);
    assert_eq!(jobs.len(), 2);
    assert_eq!(jobs.next_job_id(), 3);
    assert_eq!(jobs.process(1), Some(&"handle of sleep 1 &".to_string()));
    assert_eq!(jobs.process(2), Some(&"handle of sleep 2 &".to_string()));
}

#[test]
fn foreground_twice_finds_the_job_once() {
    let mut jobs = table_of(&["sleep 1 &"]);
    assert!(jobs.foreground("fg 1").is_ok());
    assert_eq!(jobs.foreground("fg 1").err(), Some(ShellError::JobNotFound { builtin: Builtin::Fg, id: 1 }));
}

#[test]
fn foreground_without_a_number_is_a_usage_failure() {
    let mut jobs = table_of(&["sleep 1 &"]);
    for input in ["fg", "fg one", "fg -1", "fg 1x", "fg 99999999999999999999999999"] {
        let result = jobs.foreground(input);
        assert_eq!(result.err(), Some(ShellError::Usage { builtin: Builtin::Fg }), "{:?}", input);
    }
    assert_eq!(jobs.len(), 1);
}

#[test]
fn foreground_looks_at_the_second_word_only() {
    let mut jobs = table_of(&["sleep 1 &", "sleep 2 &"]);
    assert_eq!(jobs.foreground("fg +2 1").ok().unwrap().id(), 2);
    assert_eq!(jobs.foreground("anything 01").ok().unwrap().id(), 1);
}

#[test]
fn background_confirms_a_job_and_reads_only() {
    let jobs = table_of(&["sleep 1 &", "make -j4 &"]);
    assert_eq!(jobs.background("bg 2"), Ok("[2] make -j4 &".to_string()));
    assert_eq!(jobs.background("bg 2"), Ok("[2] make -j4 &".to_string()));
    assert_eq!(jobs.len(), 2);
}

#[test]
fn background_failures() {
    let jobs = table_of(&["sleep 1 &"]);
    assert_eq!(jobs.background("bg 5"), Err(ShellError::JobNotFound { builtin: Builtin::Bg, id: 5 }));
    assert_eq!(jobs.background("bg"), Err(ShellError::Usage { builtin: Builtin::Bg }));
    assert_eq!(jobs.background("bg x"), Err(ShellError::Usage { builtin: Builtin::Bg }));
    assert_eq!(jobs.background("bg 0"), Err(ShellError::JobNotFound { builtin: Builtin::Bg, id: 0 }));
}

#[test]
fn reap_removes_exactly_once() {
    let mut jobs = table_of(&["a &", "b &", "c &"]);
    let job = jobs.reap(2).unwrap();
    assert_eq!(job.id(), 2);
    assert_eq!(job.command(), "b &");
    assert!(jobs.reap(2).is_none());
    assert!(jobs.reap(9).is_none());
    assert_eq!(snapshot(&jobs), vec![(1, "a &".to_string()), (3, "c &".to_string())]);
}

#[test]
fn reap_after_foreground_is_a_silent_no_op() {
    let mut jobs = table_of(&["a &", "b &"]);
    assert!(jobs.foreground("fg 1").is_ok());
    assert!(jobs.reap(1).is_none());
    assert_eq!(snapshot(&jobs), vec![(2, "b &".to_string())]);
}

#[test]
fn removing_one_job_leaves_the_others() {
    let mut left = table_of(&["a &", "b &", "c &"]);
    let mut right = table_of(&["a &", "b &", "c &"]);
    left.reap(1);
    left.reap(3);
    right.reap(3);
    right.reap(1);
    assert_eq!(snapshot(&left), vec![(2, "b &".to_string())]);
    assert_eq!(snapshot(&left), snapshot(&right));
    assert_eq!(left.process(2), Some(&"handle of b &".to_string()));
}

#[test]
fn process_gives_the_handle_of_a_job() {
    let jobs = table_of(&["a &"]);
    assert_eq!(jobs.process(1), Some(&"handle of a &".to_string()));
    assert_eq!(jobs.process(2), None);
}

#[test]
fn confirm_job_writes_identifier_and_command() {
    assert_eq!(confirm_job(1, "sleep 5 &"), "[1] sleep 5 &");
    assert_eq!(confirm_job(120, ""), "[120] ");
}

#[test]
fn parse_job_argument_reads_the_second_word() {
    assert_eq!(parse_job_argument("fg 3"), Some(3));
    assert_eq!(parse_job_argument("  bg   12  rest"), Some(12));
    assert_eq!(parse_job_argument("fg"), None);
    assert_eq!(parse_job_argument(""), None);
    assert_eq!(parse_job_argument("fg three"), None);
}

#[test]
fn background_launch_discards_output_and_does_not_wait() {
    let mut aliases = AliasManager::new();
    aliases.add_alias("nap", "sleep");
    assert_eq!(
        background_launch("nap 5 &", &aliases),
        Some(Launch {
            command: "sleep".to_string(),
            args: vec!["5".to_string(), "&".to_string()],
            mode: IoMode::Suppressed,
            wait: false,
        })
    );
    assert_eq!(background_launch("  ", &aliases), None);
}

#[test]
fn interleaved_starts_behind_one_lock_get_unique_identifiers() {
    let jobs: std::sync::Mutex<JobManager<usize>> = std::sync::Mutex::new(JobManager::new());
    let clients: usize = 4;
    let rounds: usize = 25;
    let mut handed_out: Vec<Vec<usize>> = vec![Vec::new(); clients];
    for round in 0..rounds {
        for client in 0..clients {
            let mut table = jobs.lock().unwrap();
            let id = table.start_background_job("job &", Ok(client * 1000 + round)).unwrap();
            handed_out[client].push(id);
        }
    }
    let mut all: Vec<usize> = handed_out.concat();
    all.sort();
    assert_eq!(all, (1..=clients * rounds).collect::<Vec<usize>>());
    let mut table = jobs.lock().unwrap();
    for id in handed_out[0].iter() {
        assert_eq!(table.reap(*id).map(|job| job.into_process() / 1000), Some(0));
    }
    assert_eq!(table.len(), (clients - 1) * rounds);
    for client in 1..clients {
        for id in handed_out[client].iter() {
            assert_eq!(table.process(*id).map(|process| process / 1000), Some(client));
        }
    }
}
