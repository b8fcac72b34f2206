//! The job table: the registry of the processes that run in the
//! background. Each job is known by an identifier that is handed out once
//! and never again.
//!
//! A table is valid when every job is filed under its own identifier and
//! every identifier in use was handed out before. A new table is valid,
//! and every operation keeps a valid table valid.
//!
//! The table owns the handle of each process from the moment the job is
//! registered until it is taken out, by `foreground` or by `reap`. It is a
//! plain value: a caller that shares it between threads guards it with one
//! lock, so that its operations happen one at a time.

use crate::alias::AliasManager;
use crate::command::{launch_of, parse_segment, seen, IoMode, Launch};
use crate::error::{compose, Builtin, ErrorView, Origin, ShellError};
use crate::number::{decimal_digits, format_usize, parse_number, parse_usize};
use crate::text::{split_whitespace, texts, tokens};
use std::collections::HashMap;
use vstd::std_specs::hash::spec_hash_map_iter;
use vstd::std_specs::iter::IteratorSpec;
use vstd::prelude::*;
use vstd::string::*;

verus! {

/// A background job: its identifier, the command line it was started
/// with, and the handle of its process.
pub struct Job<H> {
    id: usize,
    command: String,
    process: H,
}

/// A job with its command line as a sequence of characters.
pub struct JobView<H> {
    pub id: usize,
    pub command: Seq<char>,
    pub process: H,
}

impl<H> View for Job<H> {
    type V = JobView<H>;

    closed spec fn view(&self) -> JobView<H> {
        JobView { id: self.id, command: self.command@, process: self.process }
    }
}

/// The line that shows a job in the list of jobs.
pub open spec fn display_text(id: usize, command: Seq<char>) -> Seq<char> {
    "[Job ID: "@ + decimal_digits(id as nat) + "] Command: "@ + command
}

/// The line that confirms a job: its identifier in brackets, then its
/// command line.
pub open spec fn job_line(id: usize, command: Seq<char>) -> Seq<char> {
    "["@ + decimal_digits(id as nat) + "] "@ + command
}

/// Writes `job_line`.
pub fn confirm_job(id: usize, command: &str) -> (out: String)
    ensures
        out@ == job_line(id, command@),
{
    compose("[", format_usize(id).as_str(), "] ", command)
}

/// Writes `display_text`.
pub fn display_job(id: usize, command: &str) -> (out: String)
    ensures
        out@ == display_text(id, command@),
{
    compose("[Job ID: ", format_usize(id).as_str(), "] Command: ", command)
}

impl<H> Job<H> {
    fn new(id: usize, command: String, process: H) -> (job: Self)
        ensures
            job@ == (JobView { id, command: command@, process }),
    {
        Job { id, command, process }
    }

    /// The identifier of the job.
    pub fn id(&self) -> (out: usize)
        ensures
            out == self@.id,
    {
        self.id
    }

    /// The command line the job was started with.
    pub fn command(&self) -> (out: &str)
        ensures
            out@ == self@.command,
    {
        self.command.as_str()
    }

    /// The handle of the job's process.
    pub fn process(&self) -> (out: &H)
        ensures
            *out == self@.process,
    {
        &self.process
    }

    /// Gives up the job for the handle of its process.
    pub fn into_process(self) -> (out: H)
        ensures
            out == self@.process,
    {
        self.process
    }

    /// The line that shows the job in the list of jobs.
    pub fn display(&self) -> (out: String)
        ensures
            out@ == display_text(self@.id, self@.command),
    {
        display_job(self.id, self.command.as_str())
    }
}

/// The job table as a map from identifiers to jobs, with the identifier
/// that the next job will get.
pub struct JobTable<H> {
    pub jobs: Map<usize, JobView<H>>,
    pub next_id: nat,
}

impl<H> JobTable<H> {
    /// The table that holds no job and has handed out no identifier.
    pub open spec fn empty() -> JobTable<H> {
        JobTable { jobs: Map::empty(), next_id: 1 }
    }

    /// Every job is filed under its own identifier, and every identifier
    /// in use was handed out before: it is at least 1 and below the next.
    pub open spec fn valid(self) -> bool {
        &&& self.next_id >= 1
        &&& self.next_id <= usize::MAX
        &&& forall|id: usize| #[trigger]
            self.jobs.contains_key(id) ==> 1 <= id < self.next_id && self.jobs[id].id == id
    }

    /// The table after a job was registered for `command` and `process`.
    pub open spec fn started(self, command: Seq<char>, process: H) -> JobTable<H> {
        JobTable {
            jobs: self.jobs.insert(
                self.next_id as usize,
                JobView { id: self.next_id as usize, command, process },
            ),
            next_id: self.next_id + 1,
        }
    }

    /// The table after the job `id` was taken out. Nothing changes when
    /// the table holds no such job.
    pub open spec fn removed(self, id: usize) -> JobTable<H> {
        JobTable { jobs: self.jobs.remove(id), next_id: self.next_id }
    }
}

/// The job that the line `input` of `fg` or `bg` names: its second word,
/// read as a number. Words after it are not looked at.
pub open spec fn job_argument(input: Seq<char>) -> Option<usize> {
    let words = tokens(input);
    if words.len() >= 2 {
        parse_number(words[1])
    } else {
        None
    }
}

/// Reads the job that `input` names.
pub fn parse_job_argument(input: &str) -> (out: Option<usize>)
    ensures
        out == job_argument(input@),
{
    let words = split_whitespace(input);
    assert(texts(words@).len() == words@.len());
    if words.len() >= 2 {
        assert(texts(words@)[1] == words@[1]@);
        parse_usize(words[1].as_str())
    } else {
        None
    }
}

/// The registry of background jobs.
pub struct JobManager<H> {
    jobs: HashMap<usize, Job<H>>,
    next_job_id: usize,
}

impl<H> View for JobManager<H> {
    type V = JobTable<H>;

    closed spec fn view(&self) -> JobTable<H> {
        JobTable {
            jobs: self.jobs@.map_values(|job: Job<H>| job@),
            next_id: self.next_job_id as nat,
        }
    }
}

impl<H> JobManager<H> {
    /// An empty table, whose first job will be job 1.
    pub fn new() -> (table: Self)
        ensures
            table@ == JobTable::<H>::empty(),
            table@.valid(),
    {
        let table = JobManager { jobs: HashMap::new(), next_job_id: 1 };
        assert(table@.jobs =~= Map::<usize, JobView<H>>::empty());
        table
    }

    /// The identifier that the next job will get.
    pub fn next_job_id(&self) -> (out: usize)
        ensures
            out == self@.next_id,
    {
        self.next_job_id
    }

    /// Whether one more job can be registered: the identifiers are not
    /// used up.
    pub fn has_free_id(&self) -> (out: bool)
        ensures
            out == (self@.next_id < usize::MAX),
    {
        self.next_job_id < usize::MAX
    }

    /// The number of jobs in the table.
    pub fn len(&self) -> (out: usize)
        ensures
            out == self@.jobs.len(),
    {
        let out = self.jobs.len();
        proof {
            lemma_views_domain(self.jobs@);
        }
        out
    }

    /// Whether the table holds the job `id`.
    pub fn contains(&self, id: usize) -> (out: bool)
        ensures
            out == self@.jobs.contains_key(id),
    {
        self.jobs.contains_key(&id)
    }

    /// Registers the process that was started for the command line
    /// `command`, or takes note that none could be started.
    ///
    /// Where `started` holds the handle of the new process, the job gets
    /// the next identifier, which is returned, and the table owns the
    /// handle from now on. Where it holds the reason why no process could
    /// be created, the table and its next identifier stay as they are, and
    /// the failure to report is returned.
    pub fn start_background_job(&mut self, command: &str, started: Result<H, String>) -> (out:
        Result<usize, ShellError>)
        requires
            old(self)@.next_id < usize::MAX,
        ensures
            old(self)@.valid() ==> final(self)@.valid(),
            match started {
                Ok(process) => {
                    &&& out == Ok::<usize, ShellError>(old(self)@.next_id as usize)
                    &&& final(self)@ == old(self)@.started(command@, process)
                },
                Err(reason) => {
                    &&& out is Err
                    &&& out->Err_0@ == (ErrorView::Launch {
                        origin: Origin::Job,
                        command: command@,
                        reason: reason@,
                    })
                    &&& final(self)@ == old(self)@
                },
            },
    {
        match started {
            Err(reason) => Err(
                ShellError::Launch { origin: Origin::Job, command: command.to_owned(), reason },
            ),
            Ok(process) => {
                let job_id: usize = self.next_job_id;
                let job = Job::new(job_id, command.to_owned(), process);
                let ghost before = self@;
                self.jobs.insert(job_id, job);
                self.next_job_id = job_id + 1;
                assert(self@.jobs =~= before.jobs.insert(job_id, job@));
                Ok(job_id)
            },
        }
    }

    /// Takes the job `id` out of the table, if it is there. Taking out a
    /// job that is not there changes nothing and is no failure.
    pub fn reap(&mut self, id: usize) -> (out: Option<Job<H>>)
        ensures
            final(self)@ == old(self)@.removed(id),
            old(self)@.valid() ==> final(self)@.valid(),
            match out {
                Some(job) => old(self)@.jobs.contains_key(id) && job@ == old(self)@.jobs[id],
                None => !old(self)@.jobs.contains_key(id),
            },
    {
        let ghost before = self@;
        let out = self.jobs.remove(&id);
        assert(self@.jobs =~= before.jobs.remove(id));
        out
    }

    /// The handle of the process of job `id`, if the table holds it.
    pub fn process(&self, id: usize) -> (out: Option<&H>)
        ensures
            match out {
                Some(process) => self@.jobs.contains_key(id) && *process == self@.jobs[id].process,
                None => !self@.jobs.contains_key(id),
            },
    {
        match self.jobs.get(&id) {
            Some(job) => Some(job.process()),
            None => None,
        }
    }

    /// A snapshot of the table: the identifier and the command line of
    /// every job, each job once, in no particular order. The table is only
    /// read.
    pub fn list_jobs(&self) -> (out: Vec<(usize, String)>)
        ensures
            out@.len() == self@.jobs.len(),
            forall|i: int|
                0 <= i < out@.len() ==> self@.jobs.contains_key(#[trigger] out@[i].0)
                    && out@[i].1@ == self@.jobs[out@[i].0].command,
            forall|i: int, j: int|
                0 <= i < j < out@.len() ==> (#[trigger] out@[i]).0 != (#[trigger] out@[j]).0,
            forall|id: usize|
                self@.jobs.contains_key(id) ==> exists|i: int|
                    0 <= i < out@.len() && (#[trigger] out@[i]).0 == id,
    {
        let mut out: Vec<(usize, String)> = Vec::new();
        let ghost all = spec_hash_map_iter(&self.jobs).remaining();
        for entry in it: self.jobs.iter()
            invariant
                it.seq() == all,
                out@.len() == it.index(),
                forall|i: int|
                    0 <= i < out@.len() ==> (#[trigger] out@[i]).0 == *all[i].0 && out@[i].1@
                        == all[i].1.command@,
        {
            let (id, job) = entry;
            out.push((*id, job.command.clone()));
        }
        proof {
            lemma_views_domain(self.jobs@);
            assert forall|i: int, j: int| 0 <= i < j < out@.len() implies (#[trigger] out@[i]).0 != (
            #[trigger] out@[j]).0 by {
                assert(self.jobs@.contains_key(*all[i].0));
                assert(self.jobs@.contains_key(*all[j].0));
                if out@[i].0 == out@[j].0 {
                    assert(all[i] == all[j]);
                }
            }
            assert forall|id: usize| self@.jobs.contains_key(id) implies exists|i: int|
                0 <= i < out@.len() && (#[trigger] out@[i]).0 == id by {
                assert(self.jobs@.contains_key(id));
                let i = choose|i: int| 0 <= i < all.len() && all[i] == (&id, &self.jobs@[id]);
                assert(out@[i].0 == id);
            }
        }
        out
    }

    /// Brings a job to the foreground: `input` is the line `fg <id>`.
    ///
    /// The job is taken out of the table and handed to the caller, who
    /// waits for its process. Where `input` names no job, the usage is
    /// returned; where the table holds no job of that identifier,
    /// `JobNotFound`. In both cases the table stays as it is.
    pub fn foreground(&mut self, input: &str) -> (out: Result<Job<H>, ShellError>)
        ensures
            old(self)@.valid() ==> final(self)@.valid(),
            match job_argument(input@) {
                None => {
                    &&& out is Err
                    &&& out->Err_0@ == (ErrorView::Usage { builtin: Builtin::Fg })
                    &&& final(self)@ == old(self)@
                },
                Some(id) => if old(self)@.jobs.contains_key(id) {
                    &&& out is Ok
                    &&& out->Ok_0@ == old(self)@.jobs[id]
                    &&& final(self)@ == old(self)@.removed(id)
                } else {
                    &&& out is Err
                    &&& out->Err_0@ == (ErrorView::JobNotFound { builtin: Builtin::Fg, id })
                    &&& final(self)@ == old(self)@
                },
            },
    {
        match parse_job_argument(input) {
            None => Err(ShellError::Usage { builtin: Builtin::Fg }),
            Some(id) => {
                let ghost before = self@;
                match self.jobs.remove(&id) {
                    Some(job) => {
                        assert(self@.jobs =~= before.jobs.remove(id));
                        Ok(job)
                    },
                    None => {
                        assert(self@.jobs =~= before.jobs);
                        Err(ShellError::JobNotFound { builtin: Builtin::Fg, id })
                    },
                }
            },
        }
    }

    /// Confirms that a job is in the table: `input` is the line `bg <id>`.
    ///
    /// Returns the line that confirms the job. Where `input` names no job,
    /// the usage is returned; where the table holds no job of that
    /// identifier, `JobNotFound`. The table is only read.
    pub fn background(&self, input: &str) -> (out: Result<String, ShellError>)
        ensures
            match job_argument(input@) {
                None => out is Err && out->Err_0@ == (ErrorView::Usage { builtin: Builtin::Bg }),
                Some(id) => if self@.jobs.contains_key(id) {
                    out is Ok && out->Ok_0@ == job_line(id, self@.jobs[id].command)
                } else {
                    out is Err && out->Err_0@ == (ErrorView::JobNotFound {
                        builtin: Builtin::Bg,
                        id,
                    })
                },
            },
    {
        match parse_job_argument(input) {
            None => Err(ShellError::Usage { builtin: Builtin::Bg }),
            Some(id) => match self.jobs.get(&id) {
                Some(job) => Ok(confirm_job(id, job.command.as_str())),
                None => Err(ShellError::JobNotFound { builtin: Builtin::Bg, id }),
            },
        }
    }
}

/// The request to launch the command line `command` as a background job:
/// its first word resolved through `aliases`, its output discarded, and
/// nobody waiting for it. The line is split into words as it stands: the
/// `&` that ends it is not taken off. `None` when the line holds no word.
pub fn background_launch(command: &str, aliases: &AliasManager) -> (out: Option<Launch>)
    ensures
        seen(out) == launch_of(aliases@, command@, IoMode::Suppressed, false),
{
    parse_segment(command, aliases, IoMode::Suppressed, false)
}

/// One change to a job table.
pub enum JobOp<H> {
    /// A job is registered.
    Start { command: Seq<char>, process: H },
    /// A job is taken out, by `foreground` or by `reap`.
    Remove { id: usize },
}

impl<H> JobTable<H> {
    /// The table after the change `op`.
    pub open spec fn apply(self, op: JobOp<H>) -> JobTable<H> {
        match op {
            JobOp::Start { command, process } => self.started(command, process),
            JobOp::Remove { id } => self.removed(id),
        }
    }

    /// The table after the changes `ops`, oldest first.
    pub open spec fn after(self, ops: Seq<JobOp<H>>) -> JobTable<H>
        decreases ops.len(),
    {
        if ops.len() == 0 {
            self
        } else {
            self.after(ops.drop_last()).apply(ops.last())
        }
    }

    /// The identifiers that the jobs registered during `ops` get, in the
    /// order in which they are registered.
    pub open spec fn handed_out(self, ops: Seq<JobOp<H>>) -> Seq<nat>
        decreases ops.len(),
    {
        if ops.len() == 0 {
            Seq::empty()
        } else {
            let earlier = self.handed_out(ops.drop_last());
            match ops.last() {
                JobOp::Start { .. } => earlier.push(self.after(ops.drop_last()).next_id),
                JobOp::Remove { .. } => earlier,
            }
        }
    }
}

/// Over any sequence of registrations and removals, the identifiers
/// handed out are strictly increasing, so that none is handed out twice,
/// and none of them is or ever was in use: each is at least the identifier
/// that was next when the sequence began. The table stays valid.
///
/// The sequence is one that the machine's numbers suffice for.
pub proof fn lemma_job_ids_increase<H>(table: JobTable<H>, ops: Seq<JobOp<H>>)
    requires
        table.valid(),
        table.next_id + ops.len() <= usize::MAX,
    ensures
        table.after(ops).valid(),
        table.after(ops).next_id == table.next_id + table.handed_out(ops).len(),
        table.handed_out(ops).len() <= ops.len(),
        forall|i: int|
            0 <= i < table.handed_out(ops).len() ==> table.next_id <= #[trigger] table.handed_out(
                ops,
            )[i] < table.after(ops).next_id,
        forall|i: int|
            0 <= i < table.handed_out(ops).len() ==> !table.jobs.contains_key(
                #[trigger] table.handed_out(ops)[i] as usize,
            ),
        forall|i: int, j: int|
            0 <= i < j < table.handed_out(ops).len() ==> table.handed_out(ops)[i]
                < table.handed_out(ops)[j],
    decreases ops.len(),
{
    if ops.len() > 0 {
        lemma_job_ids_increase(table, ops.drop_last());
    }
}

/// Taking out a job leaves every other job as it was, and the order in
/// which two jobs are taken out does not matter.
pub proof fn lemma_removals_are_independent<H>(table: JobTable<H>, first: usize, second: usize)
    requires
        first != second,
    ensures
        table.removed(first).jobs.contains_key(second) == table.jobs.contains_key(second),
        table.jobs.contains_key(second) ==> table.removed(first).jobs[second]
            == table.jobs[second],
        table.removed(first).removed(second) == table.removed(second).removed(first),
{
    assert(table.removed(first).removed(second).jobs =~= table.removed(second).removed(first).jobs);
}

/// Taking out a job that is not in the table changes nothing, so taking
/// out the same job twice is taking it out once.
pub proof fn lemma_removal_happens_once<H>(table: JobTable<H>, id: usize)
    ensures
        !table.jobs.contains_key(id) ==> table.removed(id) == table,
        table.removed(id).removed(id) == table.removed(id),
        !table.removed(id).jobs.contains_key(id),
{
    assert(table.removed(id).removed(id).jobs =~= table.removed(id).jobs);
    if !table.jobs.contains_key(id) {
        assert(table.removed(id).jobs =~= table.jobs);
    }
}

/// Taking the views of the jobs of a map keeps its keys.
proof fn lemma_views_domain<H>(jobs: Map<usize, Job<H>>)
    ensures
        jobs.map_values(|job: Job<H>| job@).dom() == jobs.dom(),
{
    assert(jobs.map_values(|job: Job<H>| job@).dom() =~= jobs.dom());
}

} // verus!
