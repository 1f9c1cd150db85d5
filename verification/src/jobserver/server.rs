//! The job server's state and how each request changes it.
//!
//! The server keeps the available machines, the variables set by the
//! client, the jobs, the setup tasks that prepare machines, and the job
//! matrices. Every job, setup task and matrix gets an ID from one counter,
//! so IDs are never reused.

use vstd::prelude::*;
use crate::jobserver::proto::{
    clone_ids, clone_multi, clone_opt_string, clone_pairs, clone_strings, JobServerReq,
    JobServerResp, Status,
};
use crate::jobserver::template::{
    all_choices, cartesian_product, cmd_replace_vars, lists_view, product, replace_vars,
};

verus! {

/// Information about a single machine.
pub struct MachineStatus {
    /// The class of the machine.
    pub class: String,
    /// What job it is running, if any.
    pub running: Option<usize>,
}

/// Information about a single job.
pub struct Job {
    /// The job's ID.
    pub jid: usize,
    /// The command (without replacements).
    pub cmd: String,
    /// The class of the machines that can run this job.
    pub class: String,
    /// The location to copy results, if any.
    pub cp_results: Option<String>,
    /// The current status of the job.
    pub status: Status,
    /// The mapping of variables at the time the job was created.
    pub variables: Vec<(String, String)>,
}

/// Information about a single setup task: a list of commands run in order
/// on one machine, which is then optionally made available in a class.
pub struct SetupTask {
    /// The task's ID.
    pub jid: usize,
    /// The machine being set up.
    pub machine: String,
    /// The commands (without replacements).
    pub cmds: Vec<String>,
    /// The index of the command currently running.
    pub current_cmd: usize,
    /// The class to add the machine to after setup, if any.
    pub class: Option<String>,
    /// The current status of the task.
    pub status: Status,
    /// The mapping of variables at the time the task was created.
    pub variables: Vec<(String, String)>,
}

/// A collection of jobs that run over the Cartesian product of the values
/// of some variables.
pub struct Matrix {
    /// This matrix's ID.
    pub id: usize,
    /// The command template (without replacements).
    pub cmd: String,
    /// The class of the machines that can run the jobs.
    pub class: String,
    /// The location to copy results, if any.
    pub cp_results: Option<String>,
    /// The variables and their possible values.
    pub variables: Vec<(String, Vec<String>)>,
    /// The jobs of this matrix.
    pub jids: Vec<usize>,
}

/// The server's state.
pub struct Server {
    /// The available machines and their status, each address once.
    pub machines: Vec<(String, MachineStatus)>,
    /// The variables set by the client, each name once.
    pub variables: Vec<(String, String)>,
    /// The jobs, each ID once.
    pub jobs: Vec<Job>,
    /// The matrices, each ID once.
    pub matrices: Vec<Matrix>,
    /// The setup tasks, each ID once.
    pub setup_tasks: Vec<SetupTask>,
    /// The next ID to be assigned.
    pub next_jid: usize,
    /// The path to the runner. Never changes.
    pub runner: String,
}

// ---------------------------------------------------------------------------
// Lookup in the tables.

/// Whether machine `a` is in the list.
pub open spec fn has_machine(ms: Seq<(String, MachineStatus)>, a: Seq<char>) -> bool {
    exists|i: int| 0 <= i < ms.len() && (#[trigger] ms[i]).0@ == a
}

/// The position of machine `a` in the list (meaningful if it is there).
pub open spec fn machine_pos(ms: Seq<(String, MachineStatus)>, a: Seq<char>) -> int {
    choose|i: int| 0 <= i < ms.len() && (#[trigger] ms[i]).0@ == a
}

/// Whether variable `n` is in the list.
pub open spec fn has_var(vs: Seq<(String, String)>, n: Seq<char>) -> bool {
    exists|i: int| 0 <= i < vs.len() && (#[trigger] vs[i]).0@ == n
}

/// The position of variable `n` in the list (meaningful if it is there).
pub open spec fn var_pos(vs: Seq<(String, String)>, n: Seq<char>) -> int {
    choose|i: int| 0 <= i < vs.len() && (#[trigger] vs[i]).0@ == n
}

/// Whether job `jid` is in the list.
pub open spec fn has_job(js: Seq<Job>, jid: usize) -> bool {
    exists|i: int| 0 <= i < js.len() && (#[trigger] js[i]).jid == jid
}

/// The position of job `jid` in the list (meaningful if it is there).
pub open spec fn job_pos(js: Seq<Job>, jid: usize) -> int {
    choose|i: int| 0 <= i < js.len() && (#[trigger] js[i]).jid == jid
}

/// Whether setup task `jid` is in the list.
pub open spec fn has_task(ts: Seq<SetupTask>, jid: usize) -> bool {
    exists|i: int| 0 <= i < ts.len() && (#[trigger] ts[i]).jid == jid
}

/// The position of setup task `jid` in the list (meaningful if it is there).
pub open spec fn task_pos(ts: Seq<SetupTask>, jid: usize) -> int {
    choose|i: int| 0 <= i < ts.len() && (#[trigger] ts[i]).jid == jid
}

/// Whether matrix `id` is in the list.
pub open spec fn has_matrix(xs: Seq<Matrix>, id: usize) -> bool {
    exists|i: int| 0 <= i < xs.len() && (#[trigger] xs[i]).id == id
}

/// The position of matrix `id` in the list (meaningful if it is there).
pub open spec fn matrix_pos(xs: Seq<Matrix>, id: usize) -> int {
    choose|i: int| 0 <= i < xs.len() && (#[trigger] xs[i]).id == id
}

/// Each machine address occurs once.
pub open spec fn machines_unique(ms: Seq<(String, MachineStatus)>) -> bool {
    forall|i: int, j: int|
        0 <= i < ms.len() && 0 <= j < ms.len() && i != j ==> (#[trigger] ms[i]).0@ != (#[trigger] ms[j]).0@
}

/// Each variable name occurs once.
pub open spec fn vars_unique(vs: Seq<(String, String)>) -> bool {
    forall|i: int, j: int|
        0 <= i < vs.len() && 0 <= j < vs.len() && i != j ==> (#[trigger] vs[i]).0@ != (#[trigger] vs[j]).0@
}

/// Each job ID occurs once, and all are below `next`.
pub open spec fn jobs_ok(js: Seq<Job>, next: usize) -> bool {
    &&& forall|i: int, j: int|
        0 <= i < js.len() && 0 <= j < js.len() && i != j ==> (#[trigger] js[i]).jid != (#[trigger] js[j]).jid
    &&& forall|i: int| 0 <= i < js.len() ==> (#[trigger] js[i]).jid < next
}

/// Each setup task ID occurs once, all are below `next`, and each task's
/// current command is one of its commands (or 0 if it has none).
pub open spec fn tasks_ok(ts: Seq<SetupTask>, next: usize) -> bool {
    &&& forall|i: int, j: int|
        0 <= i < ts.len() && 0 <= j < ts.len() && i != j ==> (#[trigger] ts[i]).jid != (#[trigger] ts[j]).jid
    &&& forall|i: int| 0 <= i < ts.len() ==> (#[trigger] ts[i]).jid < next
    &&& forall|i: int|
        0 <= i < ts.len() ==> (#[trigger] ts[i]).current_cmd == 0 || ts[i].current_cmd < ts[i].cmds@.len()
}

/// Each matrix ID occurs once, and all are below `next`.
pub open spec fn matrices_ok(xs: Seq<Matrix>, next: usize) -> bool {
    &&& forall|i: int, j: int|
        0 <= i < xs.len() && 0 <= j < xs.len() && i != j ==> (#[trigger] xs[i]).id != (#[trigger] xs[j]).id
    &&& forall|i: int| 0 <= i < xs.len() ==> (#[trigger] xs[i]).id < next
}

/// Jobs, setup tasks and matrices share one counter: no ID names two of
/// them.
pub open spec fn ids_apart(js: Seq<Job>, ts: Seq<SetupTask>, xs: Seq<Matrix>) -> bool {
    &&& forall|i: int, j: int|
        0 <= i < js.len() && 0 <= j < ts.len() ==> (#[trigger] js[i]).jid != (#[trigger] ts[j]).jid
    &&& forall|i: int, j: int|
        0 <= i < js.len() && 0 <= j < xs.len() ==> (#[trigger] js[i]).jid != (#[trigger] xs[j]).id
    &&& forall|i: int, j: int|
        0 <= i < ts.len() && 0 <= j < xs.len() ==> (#[trigger] ts[i]).jid != (#[trigger] xs[j]).id
}

impl Server {
    /// The server's invariant: keys are unique in every table, no ID names
    /// two of the jobs, setup tasks and matrices, and every ID handed out
    /// so far is below the counter.
    pub open spec fn wf(&self) -> bool {
        &&& machines_unique(self.machines@)
        &&& vars_unique(self.variables@)
        &&& jobs_ok(self.jobs@, self.next_jid)
        &&& tasks_ok(self.setup_tasks@, self.next_jid)
        &&& matrices_ok(self.matrices@, self.next_jid)
        &&& ids_apart(self.jobs@, self.setup_tasks@, self.matrices@)
    }

    /// Creates a new server with no machines, variables, jobs or matrices.
    pub fn new(runner: String) -> (s: Self)
        ensures
            s.wf(),
            s.machines@.len() == 0,
            s.variables@.len() == 0,
            s.jobs@.len() == 0,
            s.matrices@.len() == 0,
            s.setup_tasks@.len() == 0,
            s.next_jid == 0,
            s.runner == runner,
    {
        Server {
            machines: Vec::new(),
            variables: Vec::new(),
            jobs: Vec::new(),
            matrices: Vec::new(),
            setup_tasks: Vec::new(),
            next_jid: 0,
            runner,
        }
    }

    /// The position of machine `addr`, if it is available.
    pub fn find_machine(&self, addr: &str) -> (r: Option<usize>)
        requires
            machines_unique(self.machines@),
        ensures
            r matches Some(i) ==> has_machine(self.machines@, addr@) && i == machine_pos(self.machines@, addr@),
            r is None ==> !has_machine(self.machines@, addr@),
    {
        let mut i: usize = 0;
        while i < self.machines.len()
            invariant
                machines_unique(self.machines@),
                i <= self.machines@.len(),
                forall|k: int| 0 <= k < i ==> (#[trigger] self.machines@[k]).0@ != addr@,
            decreases self.machines@.len() - i,
        {
            if crate::text::str_eq(self.machines[i].0.as_str(), addr) {
                assert(has_machine(self.machines@, addr@));
                let ghost p = machine_pos(self.machines@, addr@);
                assert(p == i);
                return Some(i);
            }
            i = i + 1;
        }
        None
    }

    /// The position of variable `name`, if it is set.
    pub fn find_var(&self, name: &str) -> (r: Option<usize>)
        requires
            vars_unique(self.variables@),
        ensures
            r matches Some(i) ==> has_var(self.variables@, name@) && i == var_pos(self.variables@, name@),
            r is None ==> !has_var(self.variables@, name@),
    {
        let mut i: usize = 0;
        while i < self.variables.len()
            invariant
                vars_unique(self.variables@),
                i <= self.variables@.len(),
                forall|k: int| 0 <= k < i ==> (#[trigger] self.variables@[k]).0@ != name@,
            decreases self.variables@.len() - i,
        {
            if crate::text::str_eq(self.variables[i].0.as_str(), name) {
                assert(has_var(self.variables@, name@));
                let ghost p = var_pos(self.variables@, name@);
                assert(p == i);
                return Some(i);
            }
            i = i + 1;
        }
        None
    }

    /// The position of job `jid`, if it exists.
    pub fn find_job(&self, jid: usize) -> (r: Option<usize>)
        requires
            jobs_ok(self.jobs@, self.next_jid),
        ensures
            r matches Some(i) ==> has_job(self.jobs@, jid) && i == job_pos(self.jobs@, jid),
            r is None ==> !has_job(self.jobs@, jid),
    {
        let mut i: usize = 0;
        while i < self.jobs.len()
            invariant
                jobs_ok(self.jobs@, self.next_jid),
                i <= self.jobs@.len(),
                forall|k: int| 0 <= k < i ==> (#[trigger] self.jobs@[k]).jid != jid,
            decreases self.jobs@.len() - i,
        {
            if self.jobs[i].jid == jid {
                assert(has_job(self.jobs@, jid));
                let ghost p = job_pos(self.jobs@, jid);
                assert(p == i);
                return Some(i);
            }
            i = i + 1;
        }
        None
    }

    /// The position of setup task `jid`, if it exists.
    pub fn find_task(&self, jid: usize) -> (r: Option<usize>)
        requires
            tasks_ok(self.setup_tasks@, self.next_jid),
        ensures
            r matches Some(i) ==> has_task(self.setup_tasks@, jid) && i == task_pos(self.setup_tasks@, jid),
            r is None ==> !has_task(self.setup_tasks@, jid),
    {
        let mut i: usize = 0;
        while i < self.setup_tasks.len()
            invariant
                tasks_ok(self.setup_tasks@, self.next_jid),
                i <= self.setup_tasks@.len(),
                forall|k: int| 0 <= k < i ==> (#[trigger] self.setup_tasks@[k]).jid != jid,
            decreases self.setup_tasks@.len() - i,
        {
            if self.setup_tasks[i].jid == jid {
                assert(has_task(self.setup_tasks@, jid));
                let ghost p = task_pos(self.setup_tasks@, jid);
                assert(p == i);
                return Some(i);
            }
            i = i + 1;
        }
        None
    }

    /// The position of matrix `id`, if it exists.
    pub fn find_matrix(&self, id: usize) -> (r: Option<usize>)
        requires
            matrices_ok(self.matrices@, self.next_jid),
        ensures
            r matches Some(i) ==> has_matrix(self.matrices@, id) && i == matrix_pos(self.matrices@, id),
            r is None ==> !has_matrix(self.matrices@, id),
    {
        let mut i: usize = 0;
        while i < self.matrices.len()
            invariant
                matrices_ok(self.matrices@, self.next_jid),
                i <= self.matrices@.len(),
                forall|k: int| 0 <= k < i ==> (#[trigger] self.matrices@[k]).id != id,
            decreases self.matrices@.len() - i,
        {
            if self.matrices[i].id == id {
                assert(has_matrix(self.matrices@, id));
                let ghost p = matrix_pos(self.matrices@, id);
                assert(p == i);
                return Some(i);
            }
            i = i + 1;
        }
        None
    }

    /// Marks job or setup task `jid` as cancelled; the scheduler removes it.
    pub fn cancel_job(&mut self, jid: usize) -> (resp: JobServerResp)
        requires
            old(self).wf(),
        ensures
            final(self).wf(),
            spec_cancel(*old(self), *final(self), jid, resp),
    {
        if let Some(p) = self.find_job(jid) {
            self.jobs[p].status = Status::Cancelled;
            JobServerResp::Success
        } else if let Some(p) = self.find_task(jid) {
            self.setup_tasks[p].status = Status::Cancelled;
            JobServerResp::Success
        } else {
            JobServerResp::NoSuchJob
        }
    }
}

/// `j` with its status replaced by `s`.
pub open spec fn job_with_status(j: Job, s: Status) -> Job {
    Job { jid: j.jid, cmd: j.cmd, class: j.class, cp_results: j.cp_results, status: s, variables: j.variables }
}

/// `t` with its status replaced by `s`.
pub open spec fn task_with_status(t: SetupTask, s: Status) -> SetupTask {
    SetupTask {
        jid: t.jid,
        machine: t.machine,
        cmds: t.cmds,
        current_cmd: t.current_cmd,
        class: t.class,
        status: s,
        variables: t.variables,
    }
}

/// The jobs and setup tasks after cancelling `jid`: a job with that ID is
/// marked cancelled; failing that, a setup task with that ID is; otherwise
/// nothing changes.
pub open spec fn cancel_effect(
    pre_jobs: Seq<Job>,
    pre_tasks: Seq<SetupTask>,
    post_jobs: Seq<Job>,
    post_tasks: Seq<SetupTask>,
    jid: usize,
) -> bool {
    if has_job(pre_jobs, jid) {
        &&& post_jobs == pre_jobs.update(
            job_pos(pre_jobs, jid),
            job_with_status(pre_jobs[job_pos(pre_jobs, jid)], Status::Cancelled),
        )
        &&& post_tasks == pre_tasks
    } else if has_task(pre_tasks, jid) {
        &&& post_jobs == pre_jobs
        &&& post_tasks == pre_tasks.update(
            task_pos(pre_tasks, jid),
            task_with_status(pre_tasks[task_pos(pre_tasks, jid)], Status::Cancelled),
        )
    } else {
        &&& post_jobs == pre_jobs
        &&& post_tasks == pre_tasks
    }
}

/// `CancelJob`: the job or setup task is marked cancelled and the answer is
/// `Success`; if there is neither, the answer is `NoSuchJob`.
pub open spec fn spec_cancel(pre: Server, post: Server, jid: usize, resp: JobServerResp) -> bool {
    &&& post.machines@ == pre.machines@
    &&& post.variables@ == pre.variables@
    &&& post.matrices@ == pre.matrices@
    &&& post.next_jid == pre.next_jid
    &&& post.runner == pre.runner
    &&& cancel_effect(pre.jobs@, pre.setup_tasks@, post.jobs@, post.setup_tasks@, jid)
    &&& if has_job(pre.jobs@, jid) || has_task(pre.setup_tasks@, jid) {
        resp is Success
    } else {
        resp is NoSuchJob
    }
}

} // verus!
