//! The server's answer to each request, and how the request changes the
//! server's state.

use vstd::prelude::*;
use crate::jobserver::proto::{
    clone_ids, clone_multi, clone_opt_string, clone_pairs, JobServerReq, JobServerResp, Status,
};
use crate::jobserver::template::{
    all_choices, cartesian_product, choices, cmd_replace_vars, lists_view, product, replace_vars,
};
use crate::jobserver::server::{
    has_job, has_machine, has_matrix, has_task, has_var, job_pos, machine_pos, matrix_pos, task_pos,
    var_pos, vars_unique, cancel_effect, spec_cancel, Job, MachineStatus, Matrix, Server, SetupTask,
};

verus! {

/// The tables of `post` equal those of `pre`, except the ones flagged as
/// changing; the runner never changes.
pub open spec fn keeps(
    pre: Server,
    post: Server,
    machines: bool,
    vars: bool,
    jobs: bool,
    matrices: bool,
    tasks: bool,
    next: bool,
) -> bool {
    &&& machines ==> post.machines@ == pre.machines@
    &&& vars ==> post.variables@ == pre.variables@
    &&& jobs ==> post.jobs@ == pre.jobs@
    &&& matrices ==> post.matrices@ == pre.matrices@
    &&& tasks ==> post.setup_tasks@ == pre.setup_tasks@
    &&& next ==> post.next_jid == pre.next_jid
    &&& post.runner == pre.runner
}

/// The machine list after `addr` is made available in `class`: an existing
/// entry keeps its address and running job and takes the new class; a new
/// machine is added at the end, running nothing.
pub open spec fn machines_with(
    ms: Seq<(String, MachineStatus)>,
    addr: String,
    class: String,
) -> Seq<(String, MachineStatus)> {
    if has_machine(ms, addr@) {
        let p = machine_pos(ms, addr@);
        ms.update(p, (ms[p].0, MachineStatus { class, running: ms[p].1.running }))
    } else {
        ms.push((addr, MachineStatus { class, running: None }))
    }
}

/// `MakeAvailable`: the machine joins (or moves to) the class.
pub open spec fn spec_make_available(
    pre: Server,
    post: Server,
    addr: String,
    class: String,
    resp: JobServerResp,
) -> bool {
    &&& resp is Success
    &&& post.machines@ == machines_with(pre.machines@, addr, class)
    &&& keeps(pre, post, false, true, true, true, true, true)
}

/// `RemoveAvailable`: the machine leaves the pool and the job it was
/// running, if any, is cancelled; an unknown machine is `NoSuchMachine`.
pub open spec fn spec_remove_available(pre: Server, post: Server, addr: String, resp: JobServerResp) -> bool {
    if has_machine(pre.machines@, addr@) {
        let p = machine_pos(pre.machines@, addr@);
        &&& resp is Success
        &&& post.machines@ == pre.machines@.remove(p)
        &&& keeps(pre, post, false, true, false, true, false, true)
        &&& match pre.machines@[p].1.running {
            Some(j) => cancel_effect(pre.jobs@, pre.setup_tasks@, post.jobs@, post.setup_tasks@, j),
            None => post.jobs@ == pre.jobs@ && post.setup_tasks@ == pre.setup_tasks@,
        }
    } else {
        &&& resp is NoSuchMachine
        &&& keeps(pre, post, true, true, true, true, true, true)
    }
}

/// `ListAvailable`: each machine with its class, in table order.
pub open spec fn spec_list_available(pre: Server, resp: JobServerResp) -> bool {
    &&& resp matches JobServerResp::Machines(v)
    &&& v@.len() == pre.machines@.len()
    &&& forall|i: int|
        0 <= i < v@.len() ==> (#[trigger] v@[i]).0 == pre.machines@[i].0 && v@[i].1 == pre.machines@[i].1.class
}

/// `SetUpMachine`: a waiting setup task with the next ID, the current
/// variables, and its first command current.
pub open spec fn spec_set_up_machine(
    pre: Server,
    post: Server,
    addr: String,
    class: Option<String>,
    cmds: Vec<String>,
    resp: JobServerResp,
) -> bool {
    &&& resp == JobServerResp::JobId(pre.next_jid)
    &&& post.next_jid == pre.next_jid + 1
    &&& post.setup_tasks@.len() == pre.setup_tasks@.len() + 1
    &&& post.setup_tasks@.take(pre.setup_tasks@.len() as int) == pre.setup_tasks@
    &&& post.setup_tasks@.last().jid == pre.next_jid
    &&& post.setup_tasks@.last().machine == addr
    &&& post.setup_tasks@.last().cmds == cmds
    &&& post.setup_tasks@.last().current_cmd == 0
    &&& post.setup_tasks@.last().class == class
    &&& post.setup_tasks@.last().status is Waiting
    &&& post.setup_tasks@.last().variables@ == pre.variables@
    &&& keeps(pre, post, true, true, true, true, false, false)
}

/// The variable list after setting `name` to `value`: an existing entry
/// keeps its place and takes the new value; a new one goes at the end.
pub open spec fn vars_with(vs: Seq<(String, String)>, name: String, value: String) -> Seq<(String, String)> {
    if has_var(vs, name@) {
        let p = var_pos(vs, name@);
        vs.update(p, (vs[p].0, value))
    } else {
        vs.push((name, value))
    }
}

/// `SetVar`.
pub open spec fn spec_set_var(pre: Server, post: Server, name: String, value: String, resp: JobServerResp) -> bool {
    &&& resp is Success
    &&& post.variables@ == vars_with(pre.variables@, name, value)
    &&& keeps(pre, post, true, false, true, true, true, true)
}

/// `AddJob`: a waiting job with the next ID and the current variables.
pub open spec fn spec_add_job(
    pre: Server,
    post: Server,
    class: String,
    cmd: String,
    cp_results: Option<String>,
    resp: JobServerResp,
) -> bool {
    &&& resp == JobServerResp::JobId(pre.next_jid)
    &&& post.next_jid == pre.next_jid + 1
    &&& post.jobs@.len() == pre.jobs@.len() + 1
    &&& post.jobs@.take(pre.jobs@.len() as int) == pre.jobs@
    &&& post.jobs@.last().jid == pre.next_jid
    &&& post.jobs@.last().cmd == cmd
    &&& post.jobs@.last().class == class
    &&& post.jobs@.last().cp_results == cp_results
    &&& post.jobs@.last().status is Waiting
    &&& post.jobs@.last().variables@ == pre.variables@
    &&& keeps(pre, post, true, true, false, true, true, false)
}

/// The IDs of a list of jobs.
pub open spec fn job_ids(js: Seq<Job>) -> Seq<usize> {
    js.map_values(|j: Job| j.jid)
}

/// The IDs of a list of setup tasks.
pub open spec fn task_ids(ts: Seq<SetupTask>) -> Seq<usize> {
    ts.map_values(|t: SetupTask| t.jid)
}

/// `ListJobs`: the IDs of the jobs, then those of the setup tasks.
pub open spec fn spec_list_jobs(pre: Server, resp: JobServerResp) -> bool {
    resp matches JobServerResp::Jobs(v) && v@ == job_ids(pre.jobs@) + task_ids(pre.setup_tasks@)
}

/// Whether asking for the status of `jid` is answered without a panic: a
/// setup task is reported by its current command, so it must have one.
pub open spec fn status_answerable(s: Server, jid: usize) -> bool {
    !has_job(s.jobs@, jid) && has_task(s.setup_tasks@, jid)
        ==> s.setup_tasks@[task_pos(s.setup_tasks@, jid)].cmds@.len() > 0
}

/// `JobStatus`: a job is reported by its own command and class; a setup
/// task by its current command and its class (empty if none); anything
/// else is `NoSuchJob`.
pub open spec fn spec_job_status(pre: Server, jid: usize, resp: JobServerResp) -> bool {
    if has_job(pre.jobs@, jid) {
        let j = pre.jobs@[job_pos(pre.jobs@, jid)];
        resp matches JobServerResp::JobStatus { class, cmd, jid: rj, status, variables }
            && class == j.class && cmd == j.cmd && rj == jid && status == j.status
            && variables@ == j.variables@
    } else if has_task(pre.setup_tasks@, jid) {
        let t = pre.setup_tasks@[task_pos(pre.setup_tasks@, jid)];
        resp matches JobServerResp::JobStatus { class, cmd, jid: rj, status, variables }
            && (match t.class {
                Some(c) => class == c,
                None => class@ == Seq::<char>::empty(),
            }) && cmd == t.cmds@[t.current_cmd as int] && rj == jid && status == t.status
            && variables@ == t.variables@
    } else {
        resp is NoSuchJob
    }
}

/// `CloneJob`: a waiting copy of job `jid` under the next ID; setup tasks
/// cannot be cloned.
pub open spec fn spec_clone_job(pre: Server, post: Server, jid: usize, resp: JobServerResp) -> bool {
    if has_job(pre.jobs@, jid) {
        let j = pre.jobs@[job_pos(pre.jobs@, jid)];
        &&& resp == JobServerResp::JobId(pre.next_jid)
        &&& post.next_jid == pre.next_jid + 1
        &&& post.jobs@.len() == pre.jobs@.len() + 1
        &&& post.jobs@.take(pre.jobs@.len() as int) == pre.jobs@
        &&& post.jobs@.last().jid == pre.next_jid
        &&& post.jobs@.last().cmd == j.cmd
        &&& post.jobs@.last().class == j.class
        &&& post.jobs@.last().cp_results == j.cp_results
        &&& post.jobs@.last().status is Waiting
        &&& post.jobs@.last().variables@ == j.variables@
        &&& keeps(pre, post, true, true, false, true, true, false)
    } else {
        &&& resp is NoSuchJob
        &&& keeps(pre, post, true, true, true, true, true, true)
    }
}

/// `StatMatrix`: the matrix's template, class, results location, jobs and
/// variables; an unknown ID is `NoSuchMatrix`.
pub open spec fn spec_stat_matrix(pre: Server, id: usize, resp: JobServerResp) -> bool {
    if has_matrix(pre.matrices@, id) {
        let m = pre.matrices@[matrix_pos(pre.matrices@, id)];
        resp matches JobServerResp::MatrixStatus { cmd, class, cp_results, id: rid, jobs, variables }
            && cmd == m.cmd && class == m.class && cp_results == m.cp_results && rid == id
            && jobs@ == m.jids@ && variables@.len() == m.variables@.len()
            && forall|i: int| 0 <= i < variables@.len()
                ==> (#[trigger] variables@[i]).0 == m.variables@[i].0 && variables@[i].1@ == m.variables@[i].1@
    } else {
        resp is NoSuchMatrix
    }
}


/// Whether a matrix variable named `n` is in the list.
pub open spec fn has_key(mvars: Seq<(String, Vec<String>)>, n: Seq<char>) -> bool {
    exists|i: int| 0 <= i < mvars.len() && (#[trigger] mvars[i]).0@ == n
}

/// The server variables that the matrix does not set itself, in order.
pub open spec fn missing_vars(svars: Seq<(String, String)>, mvars: Seq<(String, Vec<String>)>) -> Seq<(String, String)>
    decreases svars.len(),
{
    if svars.len() == 0 {
        Seq::empty()
    } else {
        missing_vars(svars.drop_last(), mvars) + if has_key(mvars, svars.last().0@) {
            Seq::empty()
        } else {
            seq![svars.last()]
        }
    }
}

/// The variables of a matrix: its own, each with its own list of values
/// (a matrix variable overrides a server variable of the same name), then
/// each server variable the matrix does not set, with the server's value as
/// the only choice.
pub open spec fn matrix_vars_ok(
    r: Seq<(String, Vec<String>)>,
    mvars: Seq<(String, Vec<String>)>,
    svars: Seq<(String, String)>,
) -> bool {
    let miss = missing_vars(svars, mvars);
    &&& r.len() == mvars.len() + miss.len()
    &&& forall|q: int| 0 <= q < mvars.len() ==> #[trigger] r[q] == mvars[q]
    &&& forall|k: int|
        0 <= k < miss.len() ==> (#[trigger] r[mvars.len() + k]).0 == miss[k].0 && r[mvars.len() + k].1@
            == seq![miss[k].1]
}

/// For each variable of a matrix, the assignments of it to each of its
/// values: the matrix's own variables with their own values, then the
/// server variables it does not set, each with the server's value alone.
pub open spec fn matrix_choices(mvars: Seq<(String, Vec<String>)>, svars: Seq<(String, String)>) -> Seq<Seq<(String, String)>> {
    all_choices(mvars) + missing_vars(svars, mvars).map_values(|p: (String, String)| seq![p])
}

/// The configurations of a matrix, one job each.
pub open spec fn matrix_configs(mvars: Seq<(String, Vec<String>)>, svars: Seq<(String, String)>) -> Seq<Seq<(String, String)>> {
    product(matrix_choices(mvars, svars))
}

/// `AddMatrix`: the matrix gets the next ID and each configuration of its
/// variables, in the order of their product, a waiting job with the
/// following IDs, running the template with the configuration's values
/// substituted.
pub open spec fn spec_add_matrix(
    pre: Server,
    post: Server,
    vars: Vec<(String, Vec<String>)>,
    cmd: String,
    class: String,
    cp_results: Option<String>,
    resp: JobServerResp,
) -> bool {
    let configs = matrix_configs(vars@, pre.variables@);
    let n = configs.len();
    let base = pre.jobs@.len();
    &&& resp == JobServerResp::MatrixId(pre.next_jid)
    &&& post.next_jid == pre.next_jid + 1 + n
    &&& post.jobs@.len() == base + n
    &&& post.jobs@.take(base as int) == pre.jobs@
    &&& forall|k: int|
        0 <= k < n ==> {
            let j = #[trigger] post.jobs@[base + k];
            &&& j.jid == pre.next_jid + 1 + k
            &&& j.cmd@ == replace_vars(cmd@, configs[k])
            &&& j.class == class
            &&& j.cp_results == cp_results
            &&& j.status is Waiting
            &&& j.variables@ == configs[k]
        }
    &&& post.matrices@.len() == pre.matrices@.len() + 1
    &&& post.matrices@.take(pre.matrices@.len() as int) == pre.matrices@
    &&& post.matrices@.last().id == pre.next_jid
    &&& post.matrices@.last().cmd == cmd
    &&& post.matrices@.last().class == class
    &&& post.matrices@.last().cp_results == cp_results
    &&& post.matrices@.last().jids@ == Seq::new(n, |k: int| (pre.next_jid + 1 + k) as usize)
    &&& matrix_vars_ok(post.matrices@.last().variables@, vars@, pre.variables@)
    &&& keeps(pre, post, true, true, false, false, true, false)
}


/// How many new IDs a request takes from the counter.
pub open spec fn ids_needed(s: Server, req: JobServerReq) -> nat {
    match req {
        JobServerReq::SetUpMachine { .. } => 1,
        JobServerReq::AddJob { .. } => 1,
        JobServerReq::CloneJob { .. } => 1,
        JobServerReq::AddMatrix { vars, .. } => 1 + matrix_configs(vars@, s.variables@).len(),
        _ => 0,
    }
}

/// Whether the server can answer `req`: the IDs it takes fit in the
/// counter, and a status request does not name a setup task without
/// commands (whose current command does not exist).
pub open spec fn request_ok(s: Server, req: JobServerReq) -> bool {
    &&& s.next_jid + ids_needed(s, req) <= usize::MAX
    &&& req matches JobServerReq::JobStatus { jid } ==> status_answerable(s, jid)
}

/// The answer to `req` and the server's state afterwards.
pub open spec fn spec_request(pre: Server, post: Server, req: JobServerReq, resp: JobServerResp) -> bool {
    let same = keeps(pre, post, true, true, true, true, true, true);
    match req {
        JobServerReq::Ping => resp is Success && same,
        JobServerReq::MakeAvailable { addr, class } => spec_make_available(pre, post, addr, class, resp),
        JobServerReq::RemoveAvailable { addr } => spec_remove_available(pre, post, addr, resp),
        JobServerReq::ListAvailable => spec_list_available(pre, resp) && same,
        JobServerReq::SetUpMachine { addr, class, cmds } => spec_set_up_machine(pre, post, addr, class, cmds, resp),
        JobServerReq::SetVar { name, value } => spec_set_var(pre, post, name, value, resp),
        JobServerReq::ListVars => (resp matches JobServerResp::Vars(v) && v@ == pre.variables@) && same,
        JobServerReq::AddJob { class, cmd, cp_results } => spec_add_job(pre, post, class, cmd, cp_results, resp),
        JobServerReq::ListJobs => spec_list_jobs(pre, resp) && same,
        JobServerReq::CancelJob { jid } => spec_cancel(pre, post, jid, resp),
        JobServerReq::JobStatus { jid } => spec_job_status(pre, jid, resp) && same,
        JobServerReq::CloneJob { jid } => spec_clone_job(pre, post, jid, resp),
        JobServerReq::AddMatrix { vars, cmd, class, cp_results } => spec_add_matrix(pre, post, vars, cmd, class, cp_results, resp),
        JobServerReq::StatMatrix { id } => spec_stat_matrix(pre, id, resp) && same,
    }
}

/// The variables of a matrix: its own `vars`, then each of the server's
/// variables `svars` that it does not set, with the server's value.
fn merge_matrix_vars(vars: Vec<(String, Vec<String>)>, svars: &Vec<(String, String)>) -> (r: Vec<(String, Vec<String>)>)
    ensures
        matrix_vars_ok(r@, vars@, svars@),
{
    let ghost mvars = vars@;
    let mut vars = vars;
    let mlen: usize = vars.len();
    let mut i: usize = 0;
    assert(svars@.take(0) =~= Seq::<(String, String)>::empty());
    while i < svars.len()
        invariant
            i <= svars@.len(),
            mlen == mvars.len(),
            matrix_vars_ok(vars@, mvars, svars@.take(i as int)),
        decreases svars@.len() - i,
    {
        let ghost before = vars@;
        let ghost pre_take = svars@.take(i as int);
        let ghost miss_before = missing_vars(pre_take, mvars);
        assert(svars@.take(i + 1).drop_last() =~= pre_take);
        assert(svars@.take(i + 1).last() == svars@[i as int]);
        let name = &svars[i].0;
        let mut present = false;
        let mut k: usize = 0;
        while k < mlen
            invariant
                k <= mlen,
                mlen == mvars.len(),
                vars@ == before,
                forall|q: int| 0 <= q < mlen ==> #[trigger] before[q] == mvars[q],
                before.len() >= mlen,
                present == exists|q: int| 0 <= q < k && (#[trigger] mvars[q]).0@ == name@,
            decreases mlen - k,
        {
            if crate::text::str_eq(vars[k].0.as_str(), name.as_str()) {
                assert(mvars[k as int].0@ == name@);
                present = true;
            }
            k = k + 1;
        }
        assert(present == has_key(mvars, name@));
        if !present {
            let mut one: Vec<String> = Vec::new();
            one.push(svars[i].1.clone());
            vars.push((name.clone(), one));
            assert(missing_vars(svars@.take(i + 1), mvars) =~= miss_before.push(svars@[i as int]));
        } else {
            assert(missing_vars(svars@.take(i + 1), mvars) =~= miss_before);
        }
        proof {
            let miss = missing_vars(svars@.take(i + 1), mvars);
            assert forall|q: int| 0 <= q < mvars.len() implies #[trigger] vars@[q] == mvars[q] by {
                assert(vars@[q] == before[q]);
            }
            assert forall|k2: int| 0 <= k2 < miss.len() implies (#[trigger] vars@[mvars.len() + k2]).0 == miss[k2].0
                && vars@[mvars.len() + k2].1@ == seq![miss[k2].1] by {
                if k2 < miss_before.len() {
                    assert(vars@[mvars.len() + k2] == before[mvars.len() + k2]);
                }
            }
        }
        i = i + 1;
    }
    assert(svars@.take(i as int) =~= svars@);
    vars
}

impl Server {
    /// Answers a request, updating the server's state.
    pub fn handle_request(&mut self, request: JobServerReq) -> (resp: JobServerResp)
        requires
            old(self).wf(),
            request_ok(*old(self), request),
        ensures
            final(self).wf(),
            spec_request(*old(self), *final(self), request, resp),
    {
        match request {
            JobServerReq::Ping => JobServerResp::Success,
            JobServerReq::MakeAvailable { addr, class } => self.make_available(addr, class),
            JobServerReq::RemoveAvailable { addr } => self.remove_available(addr),
            JobServerReq::ListAvailable => self.list_available(),
            JobServerReq::SetUpMachine { addr, class, cmds } => self.set_up_machine(addr, class, cmds),
            JobServerReq::SetVar { name, value } => self.set_var(name, value),
            JobServerReq::ListVars => self.list_vars(),
            JobServerReq::AddJob { class, cmd, cp_results } => self.add_job(class, cmd, cp_results),
            JobServerReq::ListJobs => self.list_jobs(),
            JobServerReq::CancelJob { jid } => self.cancel_job(jid),
            JobServerReq::JobStatus { jid } => self.job_status(jid),
            JobServerReq::CloneJob { jid } => self.clone_job(jid),
            JobServerReq::AddMatrix { vars, cmd, class, cp_results } => self.add_matrix(vars, cmd, class, cp_results),
            JobServerReq::StatMatrix { id } => self.stat_matrix(id),
        }
    }

    /// Makes machine `addr` available in `class`, keeping any job it runs.
    pub fn make_available(&mut self, addr: String, class: String) -> (resp: JobServerResp)
        requires
            old(self).wf(),
        ensures
            final(self).wf(),
            spec_make_available(*old(self), *final(self), addr, class, resp),
    {
        match self.find_machine(addr.as_str()) {
            Some(p) => {
                self.machines[p].1.class = class;
            },
            None => {
                self.machines.push((addr, MachineStatus { class, running: None }));
            },
        }
        JobServerResp::Success
    }

    /// Removes machine `addr` and cancels the job it was running.
    pub fn remove_available(&mut self, addr: String) -> (resp: JobServerResp)
        requires
            old(self).wf(),
        ensures
            final(self).wf(),
            spec_remove_available(*old(self), *final(self), addr, resp),
    {
        match self.find_machine(addr.as_str()) {
            Some(p) => {
                let (_, old_status) = self.machines.remove(p);
                let ghost mid = *self;
                if let Some(running) = old_status.running {
                    let r = self.cancel_job(running);
                    assert(spec_cancel(mid, *self, running, r));
                }
                JobServerResp::Success
            },
            None => JobServerResp::NoSuchMachine,
        }
    }

    /// The available machines and their classes.
    pub fn list_available(&self) -> (resp: JobServerResp)
        ensures
            spec_list_available(*self, resp),
    {
        let mut v: Vec<(String, String)> = Vec::new();
        let mut i: usize = 0;
        while i < self.machines.len()
            invariant
                i <= self.machines@.len(),
                v@.len() == i,
                forall|k: int|
                    0 <= k < i ==> (#[trigger] v@[k]).0 == self.machines@[k].0 && v@[k].1
                        == self.machines@[k].1.class,
            decreases self.machines@.len() - i,
        {
            v.push((self.machines[i].0.clone(), self.machines[i].1.class.clone()));
            i = i + 1;
        }
        JobServerResp::Machines(v)
    }

    /// The variables and their values.
    pub fn list_vars(&self) -> (resp: JobServerResp)
        ensures
            resp matches JobServerResp::Vars(v) && v@ == self.variables@,
    {
        JobServerResp::Vars(clone_pairs(&self.variables))
    }

    /// Creates a setup task for machine `addr`.
    pub fn set_up_machine(&mut self, addr: String, class: Option<String>, cmds: Vec<String>) -> (resp: JobServerResp)
        requires
            old(self).wf(),
            old(self).next_jid < usize::MAX,
        ensures
            final(self).wf(),
            spec_set_up_machine(*old(self), *final(self), addr, class, cmds, resp),
    {
        let jid = self.next_jid;
        self.next_jid = jid + 1;
        let variables = clone_pairs(&self.variables);
        self.setup_tasks.push(SetupTask {
            jid,
            machine: addr,
            cmds,
            current_cmd: 0,
            class,
            status: Status::Waiting,
            variables,
        });
        assert(self.setup_tasks@.take(old(self).setup_tasks@.len() as int) =~= old(self).setup_tasks@);
        JobServerResp::JobId(jid)
    }

    /// Sets variable `name` to `value`.
    pub fn set_var(&mut self, name: String, value: String) -> (resp: JobServerResp)
        requires
            old(self).wf(),
        ensures
            final(self).wf(),
            spec_set_var(*old(self), *final(self), name, value, resp),
    {
        match self.find_var(name.as_str()) {
            Some(p) => {
                self.variables[p].1 = value;
            },
            None => {
                self.variables.push((name, value));
            },
        }
        JobServerResp::Success
    }

    /// Adds a job for machines of `class`.
    pub fn add_job(&mut self, class: String, cmd: String, cp_results: Option<String>) -> (resp: JobServerResp)
        requires
            old(self).wf(),
            old(self).next_jid < usize::MAX,
        ensures
            final(self).wf(),
            spec_add_job(*old(self), *final(self), class, cmd, cp_results, resp),
    {
        let jid = self.next_jid;
        self.next_jid = jid + 1;
        let variables = clone_pairs(&self.variables);
        self.jobs.push(Job { jid, cmd, class, cp_results, status: Status::Waiting, variables });
        assert(self.jobs@.take(old(self).jobs@.len() as int) =~= old(self).jobs@);
        JobServerResp::JobId(jid)
    }

    /// The IDs of all jobs, then those of all setup tasks.
    pub fn list_jobs(&self) -> (resp: JobServerResp)
        ensures
            spec_list_jobs(*self, resp),
    {
        let mut v: Vec<usize> = Vec::new();
        let mut i: usize = 0;
        while i < self.jobs.len()
            invariant
                i <= self.jobs@.len(),
                v@ == job_ids(self.jobs@).take(i as int),
            decreases self.jobs@.len() - i,
        {
            v.push(self.jobs[i].jid);
            i = i + 1;
            assert(v@ =~= job_ids(self.jobs@).take(i as int));
        }
        assert(job_ids(self.jobs@).take(i as int) =~= job_ids(self.jobs@));
        let mut k: usize = 0;
        while k < self.setup_tasks.len()
            invariant
                k <= self.setup_tasks@.len(),
                v@ == job_ids(self.jobs@) + task_ids(self.setup_tasks@).take(k as int),
            decreases self.setup_tasks@.len() - k,
        {
            v.push(self.setup_tasks[k].jid);
            k = k + 1;
            assert(v@ =~= job_ids(self.jobs@) + task_ids(self.setup_tasks@).take(k as int));
        }
        assert(task_ids(self.setup_tasks@).take(k as int) =~= task_ids(self.setup_tasks@));
        JobServerResp::Jobs(v)
    }

    /// The status of job or setup task `jid`.
    pub fn job_status(&self, jid: usize) -> (resp: JobServerResp)
        requires
            self.wf(),
            status_answerable(*self, jid),
        ensures
            spec_job_status(*self, jid, resp),
    {
        if let Some(p) = self.find_job(jid) {
            let j = &self.jobs[p];
            JobServerResp::JobStatus {
                jid,
                class: j.class.clone(),
                cmd: j.cmd.clone(),
                status: j.status.copy(),
                variables: clone_pairs(&j.variables),
            }
        } else if let Some(p) = self.find_task(jid) {
            let t = &self.setup_tasks[p];
            let class = match &t.class {
                Some(c) => c.clone(),
                None => String::new(),
            };
            JobServerResp::JobStatus {
                jid,
                class,
                cmd: t.cmds[t.current_cmd].clone(),
                status: t.status.copy(),
                variables: clone_pairs(&t.variables),
            }
        } else {
            JobServerResp::NoSuchJob
        }
    }

    /// Clones job `jid` under a new ID.
    pub fn clone_job(&mut self, jid: usize) -> (resp: JobServerResp)
        requires
            old(self).wf(),
            old(self).next_jid < usize::MAX,
        ensures
            final(self).wf(),
            spec_clone_job(*old(self), *final(self), jid, resp),
    {
        match self.find_job(jid) {
            Some(p) => {
                let new_jid = self.next_jid;
                let job = Job {
                    jid: new_jid,
                    cmd: self.jobs[p].cmd.clone(),
                    class: self.jobs[p].class.clone(),
                    cp_results: clone_opt_string(&self.jobs[p].cp_results),
                    status: Status::Waiting,
                    variables: clone_pairs(&self.jobs[p].variables),
                };
                self.next_jid = new_jid + 1;
                self.jobs.push(job);
                assert(self.jobs@.take(old(self).jobs@.len() as int) =~= old(self).jobs@);
                JobServerResp::JobId(new_jid)
            },
            None => JobServerResp::NoSuchJob,
        }
    }


    /// Adds a matrix of jobs, one per configuration of its variables.
    pub fn add_matrix(
        &mut self,
        vars: Vec<(String, Vec<String>)>,
        cmd: String,
        class: String,
        cp_results: Option<String>,
    ) -> (resp: JobServerResp)
        requires
            old(self).wf(),
            old(self).next_jid + 1 + matrix_configs(vars@, old(self).variables@).len() <= usize::MAX,
        ensures
            final(self).wf(),
            spec_add_matrix(*old(self), *final(self), vars, cmd, class, cp_results, resp),
    {
        let id = self.next_jid;
        let ghost mvars = vars@;
        let ghost svars = self.variables@;
        let vars = merge_matrix_vars(vars, &self.variables);
        proof {
            let miss = missing_vars(svars, mvars);
            assert(all_choices(vars@).len() == matrix_choices(mvars, svars).len());
            assert forall|q: int| 0 <= q < all_choices(vars@).len() implies
                #[trigger] all_choices(vars@)[q] == matrix_choices(mvars, svars)[q] by {
                if q < mvars.len() {
                    assert(vars@[q] == mvars[q]);
                } else {
                    let k = q - mvars.len();
                    assert(vars@[mvars.len() + k].0 == miss[k].0);
                    assert(vars@[mvars.len() + k].1@ == seq![miss[k].1]);
                    assert(vars@[q] == vars@[mvars.len() + k]);
                    let cq = choices(vars@[q]);
                    assert(cq.len() == 1);
                    assert(cq[0] == (vars@[q].0, vars@[q].1@[0]));
                    assert(cq =~= seq![miss[k]]);
                    assert(matrix_choices(mvars, svars)[q] == seq![miss[k]]);
                }
            }
            assert(all_choices(vars@) =~= matrix_choices(mvars, svars));
        }
        let configs = cartesian_product(&vars);
        let ghost cfgs = matrix_configs(mvars, svars);
        assert(lists_view(configs@) == cfgs);
        assert(configs@.len() == cfgs.len());
        let ghost base = self.jobs@.len();
        let mut jids: Vec<usize> = Vec::new();
        let mut c: usize = 0;
        while c < configs.len()
            invariant
                old(self).wf(),
                c <= configs@.len(),
                configs@.len() == cfgs.len(),
                lists_view(configs@) == cfgs,
                id == old(self).next_jid,
                id + 1 + cfgs.len() <= usize::MAX,
                base == old(self).jobs@.len(),
                self.jobs@.len() == base + c,
                self.jobs@.take(base as int) == old(self).jobs@,
                jids@ == Seq::new(c as nat, |k: int| (id + 1 + k) as usize),
                forall|k: int|
                    0 <= k < c ==> {
                        let j = #[trigger] self.jobs@[base + k];
                        &&& j.jid == id + 1 + k
                        &&& j.cmd@ == replace_vars(cmd@, cfgs[k])
                        &&& j.class == class
                        &&& j.cp_results == cp_results
                        &&& j.status is Waiting
                        &&& j.variables@ == cfgs[k]
                    },
                self.machines@ == old(self).machines@,
                self.variables@ == old(self).variables@,
                self.matrices@ == old(self).matrices@,
                self.setup_tasks@ == old(self).setup_tasks@,
                self.runner == old(self).runner,
                self.next_jid == id,
            decreases configs@.len() - c,
        {
            assert(configs@[c as int]@ == cfgs[c as int]);
            let jid = id + 1 + c;
            let jcmd = cmd_replace_vars(cmd.as_str(), &configs[c]);
            let job = Job {
                jid,
                cmd: jcmd,
                class: class.clone(),
                cp_results: clone_opt_string(&cp_results),
                status: Status::Waiting,
                variables: clone_pairs(&configs[c]),
            };
            let ghost before = self.jobs@;
            self.jobs.push(job);
            jids.push(jid);
            assert(self.jobs@.take(base as int) =~= before.take(base as int));
            assert forall|k: int| 0 <= k < c + 1 implies {
                let j = #[trigger] self.jobs@[base + k];
                &&& j.jid == id + 1 + k
                &&& j.cmd@ == replace_vars(cmd@, cfgs[k])
                &&& j.class == class
                &&& j.cp_results == cp_results
                &&& j.status is Waiting
                &&& j.variables@ == cfgs[k]
            } by {
                if k < c {
                    assert(self.jobs@[base + k] == before[base + k]);
                }
            }
            c = c + 1;
            assert(jids@ =~= Seq::new(c as nat, |k: int| (id + 1 + k) as usize));
        }
        self.next_jid = id + 1 + c;
        let ghost mvars_final = vars@;
        self.matrices.push(Matrix { id, cmd, class, cp_results, variables: vars, jids });
        assert(self.matrices@.take(old(self).matrices@.len() as int) =~= old(self).matrices@);
        proof {
            assert forall|i: int, j: int|
                0 <= i < self.jobs@.len() && 0 <= j < self.jobs@.len() && i != j implies
                (#[trigger] self.jobs@[i]).jid != (#[trigger] self.jobs@[j]).jid by {
                if i < base {
                    assert(self.jobs@[i] == old(self).jobs@[i]);
                } else {
                    assert(self.jobs@[base + (i - base)].jid == id + 1 + (i - base));
                }
                if j < base {
                    assert(self.jobs@[j] == old(self).jobs@[j]);
                } else {
                    assert(self.jobs@[base + (j - base)].jid == id + 1 + (j - base));
                }
            }
            assert forall|i: int| 0 <= i < self.jobs@.len() implies (#[trigger] self.jobs@[i]).jid < self.next_jid by {
                if i < base {
                    assert(self.jobs@[i] == old(self).jobs@[i]);
                } else {
                    assert(self.jobs@[base + (i - base)].jid == id + 1 + (i - base));
                }
            }
            assert forall|i: int, j: int| 0 <= i < self.jobs@.len() && 0 <= j < self.setup_tasks@.len() implies
                (#[trigger] self.jobs@[i]).jid != (#[trigger] self.setup_tasks@[j]).jid by {
                if i < base {
                    assert(self.jobs@[i] == old(self).jobs@[i]);
                } else {
                    assert(self.jobs@[base + (i - base)].jid == id + 1 + (i - base));
                }
            }
            assert forall|i: int, j: int| 0 <= i < self.jobs@.len() && 0 <= j < self.matrices@.len() implies
                (#[trigger] self.jobs@[i]).jid != (#[trigger] self.matrices@[j]).id by {
                if j < old(self).matrices@.len() {
                    assert(self.matrices@[j] == old(self).matrices@[j]);
                }
                if i < base {
                    assert(self.jobs@[i] == old(self).jobs@[i]);
                } else {
                    assert(self.jobs@[base + (i - base)].jid == id + 1 + (i - base));
                }
            }
            assert forall|i: int, j: int| 0 <= i < self.setup_tasks@.len() && 0 <= j < self.matrices@.len() implies
                (#[trigger] self.setup_tasks@[i]).jid != (#[trigger] self.matrices@[j]).id by {
                if j < old(self).matrices@.len() {
                    assert(self.matrices@[j] == old(self).matrices@[j]);
                }
            }
        }
        JobServerResp::MatrixId(id)
    }

    /// The description of matrix `id`.
    pub fn stat_matrix(&self, id: usize) -> (resp: JobServerResp)
        requires
            self.wf(),
        ensures
            spec_stat_matrix(*self, id, resp),
    {
        match self.find_matrix(id) {
            Some(p) => {
                let m = &self.matrices[p];
                JobServerResp::MatrixStatus {
                    id,
                    class: m.class.clone(),
                    cp_results: clone_opt_string(&m.cp_results),
                    cmd: m.cmd.clone(),
                    jobs: clone_ids(&m.jids),
                    variables: clone_multi(&m.variables),
                }
            },
            None => JobServerResp::NoSuchMatrix,
        }
    }
}

} // verus!
