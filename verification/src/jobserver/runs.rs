//! Running one job or setup task: what the runner needs to know, the
//! command line it executes, how its output names the results, and how the
//! outcome is recorded in the server.

use vstd::prelude::*;
use crate::jobserver::proto::{clone_opt_string, clone_pairs, clone_strings, Status};
use crate::jobserver::server::{
    has_job, has_machine, has_task, job_pos, job_with_status, machine_pos, task_pos,
    task_with_status, MachineStatus, Server,
};
use crate::jobserver::requests::{keeps, machines_with};
use crate::jobserver::template::{
    cmd_replace_machine, cmd_replace_vars, cmd_to_path, err_path, log_path, log_path_cuttable,
    replace_machine, replace_vars,
};
use crate::text::{owned, push_str, split_whitespace, starts_with, str_starts_with, suffix_from, words};

verus! {

/// What the thread that runs a job needs.
pub struct JobRun {
    /// The command (without replacements).
    pub cmd: String,
    /// The machine assigned to the job.
    pub machine: String,
    /// The location to copy results, if any.
    pub cp_results: Option<String>,
    /// The variables of the job.
    pub variables: Vec<(String, String)>,
}

/// How a job or setup task command ended.
pub enum Outcome {
    /// It succeeded and printed the name of its results file.
    Results(String),
    /// It succeeded without naming results.
    NoResults,
    /// It failed with the given error.
    Failed(String),
}

/// The status recorded for a job that ran on `machine` with `outcome`.
pub open spec fn status_after(machine: String, outcome: Outcome) -> Status {
    match outcome {
        Outcome::Results(p) => Status::Done { machine, output: Some(p) },
        Outcome::NoResults => Status::Done { machine, output: None },
        Outcome::Failed(e) => Status::Failed { machine: Some(machine), error: e },
    }
}

/// The machine list with `machine` (if present) marked as running nothing.
pub open spec fn release(ms: Seq<(String, MachineStatus)>, machine: Seq<char>) -> Seq<(String, MachineStatus)> {
    if has_machine(ms, machine) {
        let q = machine_pos(ms, machine);
        ms.update(q, (ms[q].0, MachineStatus { class: ms[q].1.class, running: None }))
    } else {
        ms
    }
}

/// Completing setup task `jid`: the task is marked done and, if it has a
/// class, its machine becomes available in that class; `found` tells
/// whether the task existed.
pub open spec fn spec_finish_task(pre: Server, post: Server, jid: usize, found: bool) -> bool {
    &&& found == has_task(pre.setup_tasks@, jid)
    &&& post.setup_tasks@ == (if found {
        let p = task_pos(pre.setup_tasks@, jid);
        let t = pre.setup_tasks@[p];
        pre.setup_tasks@.update(p, task_with_status(t, Status::Done { machine: t.machine, output: None }))
    } else {
        pre.setup_tasks@
    })
    &&& post.machines@ == (if found {
        let t = pre.setup_tasks@[task_pos(pre.setup_tasks@, jid)];
        match t.class {
            Some(c) => machines_with(pre.machines@, t.machine, c),
            None => pre.machines@,
        }
    } else {
        pre.machines@
    })
    &&& keeps(pre, post, false, true, true, true, false, true)
}

/// What the thread of a setup task does next.
#[derive(Debug, Copy, Clone, PartialEq, Eq, Structural)]
pub enum SetupNext {
    /// Run the command at this position.
    Run(usize),
    /// Every command succeeded; the task is complete.
    Finish,
    /// Stop: the task is gone or its last command failed.
    Stop,
}

/// One decision of a setup task's thread. `next` is the position of the
/// command to run next and `outcome` how the command before it ended (none
/// before the first). A task that no longer exists stops with nothing
/// changed; a failed command marks the task failed on its machine with the
/// failure's message and stops; otherwise the next command, if any, becomes
/// the current one and runs, and after the last one the task completes
/// (`spec_finish_task`), which adds its machine to its class.
pub open spec fn spec_setup_step(
    pre: Server,
    post: Server,
    jid: usize,
    next: usize,
    outcome: Option<Outcome>,
    r: SetupNext,
) -> bool {
    if !has_task(pre.setup_tasks@, jid) {
        r is Stop && post == pre
    } else {
        let p = task_pos(pre.setup_tasks@, jid);
        let t = pre.setup_tasks@[p];
        match outcome {
            Some(Outcome::Failed(e)) => {
                &&& r is Stop
                &&& post.setup_tasks@ == pre.setup_tasks@.update(
                    p,
                    task_with_status(t, Status::Failed { machine: Some(t.machine), error: e }),
                )
                &&& keeps(pre, post, true, true, true, true, false, true)
            },
            _ => if next < t.cmds@.len() {
                &&& r == SetupNext::Run(next)
                &&& post.setup_tasks@ == pre.setup_tasks@.update(p, crate::jobserver::server::SetupTask {
                    jid: t.jid, machine: t.machine, cmds: t.cmds, current_cmd: next,
                    class: t.class, status: t.status, variables: t.variables,
                })
                &&& keeps(pre, post, true, true, true, true, false, true)
            } else {
                &&& r is Finish
                &&& spec_finish_task(pre, post, jid, true)
            },
        }
    }
}

impl Server {
    /// The job `jid` as its thread runs it, if it exists and has been
    /// assigned a machine.
    pub fn job_run(&self, jid: usize) -> (r: Option<JobRun>)
        requires
            self.wf(),
        ensures
            match r {
                Some(run) => has_job(self.jobs@, jid) && {
                    let j = self.jobs@[job_pos(self.jobs@, jid)];
                    &&& j.status matches Status::Running { machine } && run.machine == machine
                    &&& run.cmd == j.cmd
                    &&& run.cp_results == j.cp_results
                    &&& run.variables@ == j.variables@
                },
                None => !has_job(self.jobs@, jid) || !(self.jobs@[job_pos(self.jobs@, jid)].status is Running),
            },
    {
        match self.find_job(jid) {
            Some(p) => {
                let j = &self.jobs[p];
                match &j.status {
                    Status::Running { machine } => Some(JobRun {
                        cmd: j.cmd.clone(),
                        machine: machine.clone(),
                        cp_results: clone_opt_string(&j.cp_results),
                        variables: clone_pairs(&j.variables),
                    }),
                    _ => None,
                }
            },
            None => None,
        }
    }

    /// Records the outcome of job `jid`, which ran on `machine`: the job
    /// becomes done or failed; the machine stays busy until it is released.
    pub fn record_job_outcome(&mut self, jid: usize, machine: &String, outcome: Outcome)
        requires
            old(self).wf(),
        ensures
            final(self).wf(),
            final(self).jobs@ == (if has_job(old(self).jobs@, jid) {
                let p = job_pos(old(self).jobs@, jid);
                old(self).jobs@.update(p, job_with_status(old(self).jobs@[p], status_after(*machine, outcome)))
            } else {
                old(self).jobs@
            }),
            keeps(*old(self), *final(self), true, true, false, true, true, true),
    {
        if let Some(p) = self.find_job(jid) {
            let status = match outcome {
                Outcome::Results(path) => Status::Done { machine: machine.clone(), output: Some(path) },
                Outcome::NoResults => Status::Done { machine: machine.clone(), output: None },
                Outcome::Failed(e) => Status::Failed { machine: Some(machine.clone()), error: e },
            };
            self.jobs[p].status = status;
        }
        proof {
            assert forall|k: int| 0 <= k < self.jobs@.len() implies (#[trigger] self.jobs@[k]).jid == old(self).jobs@[k].jid by {}
        }
    }

    /// Frees `machine` for the next job.
    pub fn release_machine(&mut self, machine: &str)
        requires
            old(self).wf(),
        ensures
            final(self).wf(),
            final(self).machines@ == release(old(self).machines@, machine@),
            keeps(*old(self), *final(self), false, true, true, true, true, true),
    {
        if let Some(q) = self.find_machine(machine) {
            self.machines[q].1.running = None;
        }
        proof {
            assert forall|k: int| 0 <= k < self.machines@.len() implies (#[trigger] self.machines@[k]).0 == old(self).machines@[k].0 by {}
        }
    }

    /// Records how job `jid` on `machine` ended and releases the machine.
    pub fn finish_job(&mut self, jid: usize, machine: &String, outcome: Outcome)
        requires
            old(self).wf(),
        ensures
            final(self).wf(),
            final(self).jobs@ == (if has_job(old(self).jobs@, jid) {
                let p = job_pos(old(self).jobs@, jid);
                old(self).jobs@.update(p, job_with_status(old(self).jobs@[p], status_after(*machine, outcome)))
            } else {
                old(self).jobs@
            }),
            final(self).machines@ == release(old(self).machines@, machine@),
            keeps(*old(self), *final(self), false, true, false, true, true, true),
    {
        self.record_job_outcome(jid, machine, outcome);
        self.release_machine(machine.as_str());
    }

    /// The setup task `jid` as its thread runs it: the machine, commands and
    /// class of the task, and the server's current variables.
    pub fn task_run(&self, jid: usize) -> (r: Option<(String, Vec<String>, Option<String>, Vec<(String, String)>)>)
        requires
            self.wf(),
        ensures
            match r {
                Some((machine, cmds, class, vars)) => has_task(self.setup_tasks@, jid) && {
                    let t = self.setup_tasks@[task_pos(self.setup_tasks@, jid)];
                    &&& machine == t.machine
                    &&& cmds@ == t.cmds@
                    &&& class == t.class
                    &&& vars@ == self.variables@
                },
                None => !has_task(self.setup_tasks@, jid),
            },
    {
        match self.find_task(jid) {
            Some(p) => {
                let t = &self.setup_tasks[p];
                Some((t.machine.clone(), clone_strings(&t.cmds), clone_opt_string(&t.class), clone_pairs(&self.variables)))
            },
            None => None,
        }
    }

    /// Records that setup task `jid` is running its command `i`; `false` if
    /// the task no longer exists.
    fn task_progress(&mut self, jid: usize, i: usize) -> (found: bool)
        requires
            old(self).wf(),
            has_task(old(self).setup_tasks@, jid) ==> i < old(self).setup_tasks@[task_pos(old(self).setup_tasks@, jid)].cmds@.len(),
        ensures
            final(self).wf(),
            found == has_task(old(self).setup_tasks@, jid),
            final(self).setup_tasks@ == (if found {
                let p = task_pos(old(self).setup_tasks@, jid);
                let t = old(self).setup_tasks@[p];
                old(self).setup_tasks@.update(p, crate::jobserver::server::SetupTask {
                    jid: t.jid, machine: t.machine, cmds: t.cmds, current_cmd: i,
                    class: t.class, status: t.status, variables: t.variables,
                })
            } else {
                old(self).setup_tasks@
            }),
            keeps(*old(self), *final(self), true, true, true, true, false, true),
    {
        match self.find_task(jid) {
            Some(p) => {
                self.setup_tasks[p].current_cmd = i;
                proof {
                    assert forall|k: int| 0 <= k < self.setup_tasks@.len() implies (#[trigger] self.setup_tasks@[k]).jid == old(self).setup_tasks@[k].jid by {}
                }
                true
            },
            None => false,
        }
    }

    /// Records that setup task `jid` failed on `machine` with `error`.
    fn task_failed(&mut self, jid: usize, machine: &String, error: String)
        requires
            old(self).wf(),
        ensures
            final(self).wf(),
            final(self).setup_tasks@ == (if has_task(old(self).setup_tasks@, jid) {
                let p = task_pos(old(self).setup_tasks@, jid);
                old(self).setup_tasks@.update(p, task_with_status(
                    old(self).setup_tasks@[p],
                    Status::Failed { machine: Some(*machine), error },
                ))
            } else {
                old(self).setup_tasks@
            }),
            keeps(*old(self), *final(self), true, true, true, true, false, true),
    {
        if let Some(p) = self.find_task(jid) {
            self.setup_tasks[p].status = Status::Failed { machine: Some(machine.clone()), error };
            proof {
                assert forall|k: int| 0 <= k < self.setup_tasks@.len() implies (#[trigger] self.setup_tasks@[k]).jid == old(self).setup_tasks@[k].jid by {}
            }
        }
    }

    /// Records that setup task `jid` completed; `false` if it no longer
    /// exists.
    fn task_done(&mut self, jid: usize) -> (found: bool)
        requires
            old(self).wf(),
        ensures
            final(self).wf(),
            found == has_task(old(self).setup_tasks@, jid),
            final(self).setup_tasks@ == (if found {
                let p = task_pos(old(self).setup_tasks@, jid);
                let t = old(self).setup_tasks@[p];
                old(self).setup_tasks@.update(p, task_with_status(t, Status::Done { machine: t.machine, output: None }))
            } else {
                old(self).setup_tasks@
            }),
            keeps(*old(self), *final(self), true, true, true, true, false, true),
    {
        match self.find_task(jid) {
            Some(p) => {
                let m = self.setup_tasks[p].machine.clone();
                self.setup_tasks[p].status = Status::Done { machine: m, output: None };
                proof {
                    assert forall|k: int| 0 <= k < self.setup_tasks@.len() implies (#[trigger] self.setup_tasks@[k]).jid == old(self).setup_tasks@[k].jid by {}
                }
                true
            },
            None => false,
        }
    }

    /// Completes setup task `jid`: marks it done and, if it has a class,
    /// makes its machine available in that class (keeping the job the
    /// machine may run). `false` if the task no longer exists.
    fn finish_task(&mut self, jid: usize) -> (found: bool)
        requires
            old(self).wf(),
        ensures
            final(self).wf(),
            spec_finish_task(*old(self), *final(self), jid, found),
    {
        let info = self.task_run(jid);
        let found = self.task_done(jid);
        if let Some((machine, _cmds, class, _vars)) = info {
            if let Some(c) = class {
                let _ = self.make_available(machine, c);
            }
        }
        found
    }
}

impl Server {
    /// Decides what the thread of setup task `jid` does next, given the
    /// position `next` of the command to run next and how the command
    /// before it ended, and records that in the task.
    pub fn setup_task_step(&mut self, jid: usize, next: usize, outcome: Option<Outcome>) -> (r: SetupNext)
        requires
            old(self).wf(),
        ensures
            final(self).wf(),
            spec_setup_step(*old(self), *final(self), jid, next, outcome, r),
    {
        let p = match self.find_task(jid) {
            Some(p) => p,
            None => return SetupNext::Stop,
        };
        match outcome {
            Some(Outcome::Failed(e)) => {
                let m = self.setup_tasks[p].machine.clone();
                self.task_failed(jid, &m, e);
                SetupNext::Stop
            },
            _ => {
                if next < self.setup_tasks[p].cmds.len() {
                    self.task_progress(jid, next);
                    SetupNext::Run(next)
                } else {
                    self.finish_task(jid);
                    SetupNext::Finish
                }
            },
        }
    }
}

// ---------------------------------------------------------------------------
// The command line of a run.

/// A command ready to run: the expanded command, the files that receive
/// its output and its errors, and its arguments.
pub struct PreparedCmd {
    /// The command with variables and the machine substituted.
    pub cmd: String,
    /// The file that receives its standard output.
    pub out_file: String,
    /// The file that receives its standard error.
    pub err_file: String,
    /// Its whitespace-separated arguments.
    pub args: Vec<String>,
}

/// The expanded form of a command: variables first, then the machine.
pub open spec fn expand(cmd: Seq<char>, vars: Seq<(String, String)>, machine: Seq<char>) -> Seq<char> {
    replace_machine(replace_vars(cmd, vars), machine)
}

/// Expands `cmd` for `machine` and names its output files.
pub fn prepare_cmd(cmd: &str, vars: &Vec<(String, String)>, machine: &str) -> (r: PreparedCmd)
    requires
        log_path_cuttable(expand(cmd@, vars@, machine@)),
    ensures
        r.cmd@ == expand(cmd@, vars@, machine@),
        r.out_file@ == log_path(r.cmd@),
        r.err_file@ == log_path(r.cmd@) + ".err"@,
        r.args.len() == words(r.cmd@).len(),
        forall|i: int| 0 <= i < r.args.len() ==> (#[trigger] r.args@[i])@ == words(r.cmd@)[i],
{
    let replaced = cmd_replace_vars(cmd, vars);
    let full = cmd_replace_machine(replaced.as_str(), machine);
    let out_file = cmd_to_path(full.as_str());
    let err_file = err_path(out_file.as_str());
    let args = split_whitespace(full.as_str());
    PreparedCmd { cmd: full, out_file, err_file, args }
}

/// The results file named by an output line `RESULTS: <file>`, if it is
/// one.
pub open spec fn results_in_line(line: Seq<char>) -> Option<Seq<char>> {
    if starts_with(line, "RESULTS: "@) {
        Some(line.skip(9))
    } else {
        None
    }
}

/// The results file named by an output line, if any.
pub fn results_path_in(line: &str) -> (r: Option<String>)
    ensures
        r matches Some(p) ==> results_in_line(line@) == Some(p@),
        r is None ==> results_in_line(line@) is None,
{
    proof {
        reveal_strlit("RESULTS: ");
    }
    if str_starts_with(line, "RESULTS: ") {
        Some(suffix_from(line, 9))
    } else {
        None
    }
}

/// The results file named by the last line of the output that names one.
pub open spec fn last_results(lines: Seq<String>) -> Option<Seq<char>>
    decreases lines.len(),
{
    if lines.len() == 0 {
        None
    } else {
        match results_in_line(lines.last()@) {
            Some(p) => Some(p),
            None => last_results(lines.drop_last()),
        }
    }
}

/// The results file named in the output of a run; the last mention wins.
pub fn scan_results(lines: &Vec<String>) -> (r: Option<String>)
    ensures
        r matches Some(p) ==> last_results(lines@) == Some(p@),
        r is None ==> last_results(lines@) is None,
{
    let mut found: Option<String> = None;
    let mut i: usize = 0;
    while i < lines.len()
        invariant
            i <= lines@.len(),
            found matches Some(p) ==> last_results(lines@.take(i as int)) == Some(p@),
            found is None ==> last_results(lines@.take(i as int)) is None,
        decreases lines@.len() - i,
    {
        assert(lines@.take(i + 1).drop_last() =~= lines@.take(i as int));
        assert(lines@.take(i + 1).last() == lines@[i as int]);
        match results_path_in(lines[i].as_str()) {
            Some(p) => {
                found = Some(p);
            },
            None => {},
        }
        i = i + 1;
    }
    assert(lines@.take(i as int) =~= lines@);
    found
}

/// The outcome of a run whose process exited with `success` after its
/// output named `results` (`Job failed.` when the process failed).
pub fn run_outcome(results: Option<String>, success: bool) -> (r: Outcome)
    ensures
        success ==> match results {
            Some(p) => r == Outcome::Results(p),
            None => r is NoResults,
        },
        !success ==> (r matches Outcome::Failed(e) && e@ == "Job failed."@),
{
    if success {
        match results {
            Some(p) => Outcome::Results(p),
            None => Outcome::NoResults,
        }
    } else {
        Outcome::Failed(owned("Job failed."))
    }
}

// ---------------------------------------------------------------------------
// Copying results back.

/// The host part of a `HOSTNAME:PORT` machine name: everything before the
/// first colon.
pub open spec fn host_of(m: Seq<char>) -> Seq<char>
    decreases m.len(),
{
    if m.len() == 0 || m[0] == ':' {
        Seq::empty()
    } else {
        seq![m[0]] + host_of(m.skip(1))
    }
}

/// The host part of a machine name.
pub fn host_part(m: &str) -> (r: String)
    ensures
        r@ == host_of(m@),
{
    let v = crate::text::chars_of(m);
    let mut i: usize = 0;
    assert(m@.skip(0) =~= m@);
    assert(v@.take(0) + host_of(m@) =~= host_of(m@));
    while i < v.len() && v[i] != ':'
        invariant
            v@ == m@,
            i <= v@.len(),
            forall|k: int| 0 <= k < i ==> v@[k] != ':',
            host_of(m@) == v@.take(i as int) + host_of(m@.skip(i as int)),
        decreases v@.len() - i,
    {
        assert(m@.skip(i as int).skip(1) =~= m@.skip(i + 1));
        assert(v@.take(i + 1) =~= v@.take(i as int) + seq![v@[i as int]]);
        i = i + 1;
    }
    assert(host_of(m@.skip(i as int)) =~= Seq::<char>::empty());
    assert(v@.take(i as int) + Seq::<char>::empty() =~= v@.take(i as int));
    crate::text::string_of_prefix(v.as_slice(), i)
}

/// The `scp` source of the results `path` of a job run on `machine`: the
/// results directory of the machine's host.
pub open spec fn results_source(machine: Seq<char>, path: Seq<char>) -> Seq<char> {
    host_of(machine) + ":vm_shared/results/"@ + path
}

/// The `scp` source and destination for copying a job's results back,
/// if it produced results and a destination was given.
pub fn copy_plan(machine: &str, cp_results: &Option<String>, outcome: &Outcome) -> (r: Option<(String, String)>)
    ensures
        match (cp_results, outcome) {
            (Some(dest), Outcome::Results(p)) => r matches Some((src, d)) && src@ == results_source(machine@, p@) && d == dest,
            _ => r is None,
        },
{
    match (cp_results, outcome) {
        (Some(dest), Outcome::Results(p)) => {
            let mut src = host_part(machine);
            push_str(&mut src, ":vm_shared/results/");
            push_str(&mut src, p.as_str());
            Some((src, dest.clone()))
        },
        _ => None,
    }
}

} // verus!
