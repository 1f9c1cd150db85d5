//! The decisions of the server's background work: which job runs on which
//! machine, which setup tasks start, which cancelled entries are dropped,
//! and how the outcome of a job or setup task is recorded.
//!
//! The threads, channels and processes that carry these decisions out live
//! with the caller; each function here is one decision on the server state.

use vstd::prelude::*;
use crate::jobserver::proto::{clone_opt_string, clone_pairs, clone_strings, Status};
use crate::jobserver::server::{
    has_job, has_task, ids_apart, job_pos, job_with_status, jobs_ok, machines_unique, matrices_ok,
    task_pos, task_with_status, tasks_ok, vars_unique, Job, MachineStatus, Matrix, Server, SetupTask,
};
use crate::jobserver::requests::keeps;

verus! {

/// Whether some machine of `class` is idle.
pub open spec fn has_idle(ms: Seq<(String, MachineStatus)>, class: Seq<char>) -> bool {
    exists|q: int| 0 <= q < ms.len() && (#[trigger] ms[q]).1.running is None && ms[q].1.class@ == class
}

/// Whether job `j` is waiting and some idle machine can run it.
pub open spec fn runnable(j: Job, ms: Seq<(String, MachineStatus)>) -> bool {
    j.status is Waiting && has_idle(ms, j.class@)
}

/// Whether `p` is the first runnable job.
pub open spec fn is_first_runnable(js: Seq<Job>, ms: Seq<(String, MachineStatus)>, p: int) -> bool {
    &&& 0 <= p < js.len()
    &&& runnable(js[p], ms)
    &&& forall|k: int| 0 <= k < p ==> !runnable(#[trigger] js[k], ms)
}

/// Whether `q` is the first idle machine of `class`.
pub open spec fn is_first_idle(ms: Seq<(String, MachineStatus)>, class: Seq<char>, q: int) -> bool {
    &&& 0 <= q < ms.len()
    &&& ms[q].1.running is None
    &&& ms[q].1.class@ == class
    &&& forall|k: int| 0 <= k < q ==> !((#[trigger] ms[k]).1.running is None && ms[k].1.class@ == class)
}

/// Whether `c` is the first cancelled job.
pub open spec fn is_first_cancelled_job(js: Seq<Job>, c: int) -> bool {
    &&& 0 <= c < js.len()
    &&& js[c].status is Cancelled
    &&& forall|k: int| 0 <= k < c ==> !((#[trigger] js[k]).status is Cancelled)
}

/// Whether `c` is the first cancelled setup task.
pub open spec fn is_first_cancelled_task(ts: Seq<SetupTask>, c: int) -> bool {
    &&& 0 <= c < ts.len()
    &&& ts[c].status is Cancelled
    &&& forall|k: int| 0 <= k < c ==> !((#[trigger] ts[k]).status is Cancelled)
}

/// The setup tasks after starting every waiting one on its machine.
pub open spec fn start_tasks(ts: Seq<SetupTask>) -> Seq<SetupTask> {
    ts.map_values(
        |t: SetupTask|
            if t.status is Waiting {
                task_with_status(t, Status::Running { machine: t.machine })
            } else {
                t
            },
    )
}

/// The IDs of the waiting setup tasks, in order.
pub open spec fn waiting_ids(ts: Seq<SetupTask>) -> Seq<usize>
    decreases ts.len(),
{
    if ts.len() == 0 {
        Seq::empty()
    } else {
        waiting_ids(ts.drop_last()) + if ts.last().status is Waiting {
            seq![ts.last().jid]
        } else {
            Seq::empty()
        }
    }
}

/// What one round of scheduling decided.
pub struct ScheduleStep {
    /// The job started, with the machine it runs on.
    pub started_job: Option<(usize, String)>,
    /// The setup tasks started.
    pub started_tasks: Vec<usize>,
    /// The cancelled job removed from the table, whose runner is to be told.
    pub removed_job: Option<usize>,
    /// The cancelled setup task removed from the table, whose runner is to
    /// be told.
    pub removed_task: Option<usize>,
}

/// Whether some waiting job can start.
pub open spec fn can_start(js: Seq<Job>, ms: Seq<(String, MachineStatus)>) -> bool {
    exists|p: int| is_first_runnable(js, ms, p)
}

/// The position of the job that starts (meaningful if one can).
pub open spec fn start_pos(js: Seq<Job>, ms: Seq<(String, MachineStatus)>) -> int {
    choose|p: int| is_first_runnable(js, ms, p)
}

/// The position of the machine it starts on (meaningful if one can).
pub open spec fn start_machine(js: Seq<Job>, ms: Seq<(String, MachineStatus)>) -> int {
    choose|q: int| is_first_idle(ms, js[start_pos(js, ms)].class@, q)
}

/// The jobs after the start.
pub open spec fn jobs_after_start(js: Seq<Job>, ms: Seq<(String, MachineStatus)>) -> Seq<Job> {
    if can_start(js, ms) {
        let p = start_pos(js, ms);
        js.update(p, job_with_status(js[p], Status::Running { machine: ms[start_machine(js, ms)].0 }))
    } else {
        js
    }
}

/// The machines after the start.
pub open spec fn machines_after_start(js: Seq<Job>, ms: Seq<(String, MachineStatus)>) -> Seq<(String, MachineStatus)> {
    if can_start(js, ms) {
        let q = start_machine(js, ms);
        ms.update(q, (ms[q].0, MachineStatus { class: ms[q].1.class, running: Some(js[start_pos(js, ms)].jid) }))
    } else {
        ms
    }
}

/// The job started and its machine, if any.
pub open spec fn started_pair(js: Seq<Job>, ms: Seq<(String, MachineStatus)>) -> Option<(usize, String)> {
    if can_start(js, ms) {
        Some((js[start_pos(js, ms)].jid, ms[start_machine(js, ms)].0))
    } else {
        None
    }
}

/// The jobs after dropping the first cancelled one, and its ID.
pub open spec fn drop_cancelled_job(js: Seq<Job>, post: Seq<Job>, removed: Option<usize>) -> bool {
    if exists|c: int| is_first_cancelled_job(js, c) {
        let c = choose|c: int| is_first_cancelled_job(js, c);
        post == js.remove(c) && removed == Some(js[c].jid)
    } else {
        post == js && removed is None
    }
}

/// The setup tasks after dropping the first cancelled one, and its ID.
pub open spec fn drop_cancelled_task(ts: Seq<SetupTask>, post: Seq<SetupTask>, removed: Option<usize>) -> bool {
    if exists|c: int| is_first_cancelled_task(ts, c) {
        let c = choose|c: int| is_first_cancelled_task(ts, c);
        post == ts.remove(c) && removed == Some(ts[c].jid)
    } else {
        post == ts && removed is None
    }
}

/// One round of scheduling: the first waiting job that an idle machine of
/// its class can run starts on the first such machine; every waiting setup
/// task starts on its machine; then the first cancelled job and the first
/// cancelled setup task are removed.
pub open spec fn spec_schedule(pre: Server, post: Server, step: ScheduleStep) -> bool {
    let js = pre.jobs@;
    let ms = pre.machines@;
    &&& post.machines@ == machines_after_start(js, ms)
    &&& step.started_job == started_pair(js, ms)
    &&& step.started_tasks@ == waiting_ids(pre.setup_tasks@)
    &&& drop_cancelled_job(jobs_after_start(js, ms), post.jobs@, step.removed_job)
    &&& drop_cancelled_task(start_tasks(pre.setup_tasks@), post.setup_tasks@, step.removed_task)
    &&& keeps(pre, post, false, true, false, true, false, true)
}

impl Server {
    /// The first idle machine of `class`.
    fn first_idle(&self, class: &str) -> (r: Option<usize>)
        ensures
            r matches Some(q) ==> is_first_idle(self.machines@, class@, q as int),
            r is None ==> !has_idle(self.machines@, class@),
    {
        let mut q: usize = 0;
        while q < self.machines.len()
            invariant
                q <= self.machines@.len(),
                forall|k: int|
                    0 <= k < q ==> !((#[trigger] self.machines@[k]).1.running is None
                        && self.machines@[k].1.class@ == class@),
            decreases self.machines@.len() - q,
        {
            if self.machines[q].1.running.is_none()
                && crate::text::str_eq(self.machines[q].1.class.as_str(), class) {
                return Some(q);
            }
            q = q + 1;
        }
        None
    }

    /// Runs one round of scheduling.
    pub fn schedule(&mut self) -> (step: ScheduleStep)
        requires
            old(self).wf(),
        ensures
            final(self).wf(),
            spec_schedule(*old(self), *final(self), step),
    {
        let ghost js = self.jobs@;
        let ghost ms = self.machines@;
        // Find the first waiting job that can run on an idle machine.
        let mut p: usize = 0;
        let mut found: Option<usize> = None;
        while p < self.jobs.len() && found.is_none()
            invariant
                self.jobs@ == js,
                self.machines@ == ms,
                p <= js.len(),
                found is None ==> forall|k: int| 0 <= k < p ==> !runnable(#[trigger] js[k], ms),
                found matches Some(q) ==> p > 0 && is_first_runnable(js, ms, (p - 1) as int)
                    && is_first_idle(ms, js[p - 1].class@, q as int),
            decreases js.len() - p, if found is None { 1int } else { 0int },
        {
            let waiting = match self.jobs[p].status {
                Status::Waiting => true,
                _ => false,
            };
            if waiting {
                let r = self.first_idle(self.jobs[p].class.as_str());
                if let Some(q) = r {
                    found = Some(q);
                }
            }
            p = p + 1;
        }
        let ghost started = can_start(js, ms);
        let started_job = match found {
            Some(q) => {
                let p = p - 1;
                assert(started);
                let ghost pc = start_pos(js, ms);
                assert(pc == p) by {
                    if pc < p {
                        assert(!runnable(js[pc], ms));
                    } else if pc > p {
                        assert(!runnable(js[p as int], ms));
                    }
                }
                let ghost qc = start_machine(js, ms);
                assert(qc == q) by {
                    if qc < q {
                        assert(!(ms[qc].1.running is None && ms[qc].1.class@ == js[p as int].class@));
                    } else if qc > q {
                        assert(!(ms[q as int].1.running is None && ms[q as int].1.class@ == js[p as int].class@));
                    }
                }
                let jid = self.jobs[p].jid;
                let addr = self.machines[q].0.clone();
                self.machines[q].1.running = Some(jid);
                self.jobs[p].status = Status::Running { machine: self.machines[q].0.clone() };
                Some((jid, addr))
            },
            None => {
                assert(!started) by {
                    if started {
                        let pc = start_pos(js, ms);
                        assert(!runnable(js[pc], ms));
                    }
                }
                None
            },
        };
        let ghost js1 = self.jobs@;
        let ghost ms1 = self.machines@;
        assert(js1 == jobs_after_start(js, ms));
        assert(ms1 == machines_after_start(js, ms));
        assert(started_job == started_pair(js, ms));
        assert(jobs_ok(js1, self.next_jid)) by {
            assert forall|k: int| 0 <= k < js1.len() implies (#[trigger] js1[k]).jid == js[k].jid by {}
        }
        assert(machines_unique(ms1)) by {
            assert forall|k: int| 0 <= k < ms1.len() implies (#[trigger] ms1[k]).0 == ms[k].0 by {}
        }
        // Start every waiting setup task.
        let ghost ts = self.setup_tasks@;
        let mut started_tasks: Vec<usize> = Vec::new();
        let mut i: usize = 0;
        while i < self.setup_tasks.len()
            invariant
                self.jobs@ == js1,
                self.machines@ == ms1,
                self.variables@ == old(self).variables@,
                self.matrices@ == old(self).matrices@,
                self.next_jid == old(self).next_jid,
                self.runner == old(self).runner,
                self.setup_tasks@.len() == ts.len(),
                i <= ts.len(),
                forall|k: int| 0 <= k < i ==> #[trigger] self.setup_tasks@[k] == start_tasks(ts)[k],
                forall|k: int| i <= k < ts.len() ==> #[trigger] self.setup_tasks@[k] == ts[k],
                started_tasks@ == waiting_ids(ts.take(i as int)),
            decreases ts.len() - i,
        {
            assert(ts.take(i + 1).drop_last() =~= ts.take(i as int));
            let waiting = match self.setup_tasks[i].status {
                Status::Waiting => true,
                _ => false,
            };
            if waiting {
                let m = self.setup_tasks[i].machine.clone();
                self.setup_tasks[i].status = Status::Running { machine: m };
                started_tasks.push(self.setup_tasks[i].jid);
            }
            i = i + 1;
        }
        assert(self.setup_tasks@ =~= start_tasks(ts));
        assert(ts.take(i as int) =~= ts);
        let ghost ts1 = self.setup_tasks@;
        assert(tasks_ok(ts1, self.next_jid)) by {
            assert forall|k: int| 0 <= k < ts1.len() implies (#[trigger] ts1[k]).jid == ts[k].jid
                && ts1[k].cmds == ts[k].cmds && ts1[k].current_cmd == ts[k].current_cmd by {
                assert(ts1[k] == start_tasks(ts)[k]);
            }
        }
        // Drop the first cancelled job.
        let mut c: usize = 0;
        let mut removed_job: Option<usize> = None;
        while c < self.jobs.len() && removed_job.is_none()
            invariant
                self.jobs@ == js1,
                self.setup_tasks@ == ts1,
                c <= js1.len(),
                removed_job is None ==> forall|k: int| 0 <= k < c ==> !((#[trigger] js1[k]).status is Cancelled),
                removed_job matches Some(j) ==> c > 0 && is_first_cancelled_job(js1, (c - 1) as int) && j == js1[c - 1].jid,
            decreases js1.len() - c, if removed_job is None { 1int } else { 0int },
        {
            let cancelled = match self.jobs[c].status {
                Status::Cancelled => true,
                _ => false,
            };
            if cancelled {
                removed_job = Some(self.jobs[c].jid);
            }
            c = c + 1;
        }
        if removed_job.is_some() {
            let ghost cc = choose|x: int| is_first_cancelled_job(js1, x);
            assert(cc == c - 1) by {
                if cc < c - 1 {
                    assert(!(js1[cc].status is Cancelled));
                } else if cc > c - 1 {
                    assert(!(js1[c - 1].status is Cancelled));
                }
            }
            self.jobs.remove(c - 1);
        } else {
            assert(!exists|x: int| is_first_cancelled_job(js1, x));
        }
        let ghost old_jobs2 = self.jobs@;
        // Drop the first cancelled setup task.
        let mut d: usize = 0;
        let mut removed_task: Option<usize> = None;
        while d < self.setup_tasks.len() && removed_task.is_none()
            invariant
                self.setup_tasks@ == ts1,
                d <= ts1.len(),
                self.jobs@ == old_jobs2,
                removed_task is None ==> forall|k: int| 0 <= k < d ==> !((#[trigger] ts1[k]).status is Cancelled),
                removed_task matches Some(j) ==> d > 0 && is_first_cancelled_task(ts1, (d - 1) as int) && j == ts1[d - 1].jid,
            decreases ts1.len() - d, if removed_task is None { 1int } else { 0int },
        {
            let cancelled = match self.setup_tasks[d].status {
                Status::Cancelled => true,
                _ => false,
            };
            if cancelled {
                removed_task = Some(self.setup_tasks[d].jid);
            }
            d = d + 1;
        }
        if removed_task.is_some() {
            let ghost cc = choose|x: int| is_first_cancelled_task(ts1, x);
            assert(cc == d - 1) by {
                if cc < d - 1 {
                    assert(!(ts1[cc].status is Cancelled));
                } else if cc > d - 1 {
                    assert(!(ts1[d - 1].status is Cancelled));
                }
            }
            self.setup_tasks.remove(d - 1);
        } else {
            assert(!exists|x: int| is_first_cancelled_task(ts1, x));
        }
        proof {
            lemma_remove_keeps_jobs_ok(js1, self.jobs@, self.next_jid);
            lemma_remove_keeps_tasks_ok(ts1, self.setup_tasks@, self.next_jid);
            assert forall|k: int| 0 <= k < js1.len() implies (#[trigger] js1[k]).jid == js[k].jid by {}
            assert forall|k: int| 0 <= k < ts1.len() implies (#[trigger] ts1[k]).jid == ts[k].jid by {
                assert(ts1[k] == start_tasks(ts)[k]);
            }
            lemma_keeps_ids_apart(js, ts, old(self).matrices@, js1, ts1, self.jobs@, self.setup_tasks@);
        }
        ScheduleStep { started_job, started_tasks, removed_job, removed_task }
    }
}

/// Keeping the IDs of jobs and setup tasks, then removing at most one of
/// each, keeps them apart from each other and from the matrices.
proof fn lemma_keeps_ids_apart(
    js: Seq<Job>,
    ts: Seq<SetupTask>,
    xs: Seq<Matrix>,
    js1: Seq<Job>,
    ts1: Seq<SetupTask>,
    js2: Seq<Job>,
    ts2: Seq<SetupTask>,
)
    requires
        ids_apart(js, ts, xs),
        js1.len() == js.len(),
        ts1.len() == ts.len(),
        forall|k: int| 0 <= k < js1.len() ==> (#[trigger] js1[k]).jid == js[k].jid,
        forall|k: int| 0 <= k < ts1.len() ==> (#[trigger] ts1[k]).jid == ts[k].jid,
        js2 == js1 || exists|c: int| 0 <= c < js1.len() && js2 == js1.remove(c),
        ts2 == ts1 || exists|c: int| 0 <= c < ts1.len() && ts2 == ts1.remove(c),
    ensures
        ids_apart(js2, ts2, xs),
{
    let cj: int = if js2 == js1 { js1.len() as int } else { choose|c: int| 0 <= c < js1.len() && js2 == js1.remove(c) };
    let ct: int = if ts2 == ts1 { ts1.len() as int } else { choose|c: int| 0 <= c < ts1.len() && ts2 == ts1.remove(c) };
    assert forall|i: int| 0 <= i < js2.len() implies (#[trigger] js2[i]).jid == js[if i < cj { i } else { i + 1 }].jid by {
        let ii = if i < cj { i } else { i + 1 };
        assert(js2[i] == js1[ii]);
    }
    assert forall|i: int| 0 <= i < ts2.len() implies (#[trigger] ts2[i]).jid == ts[if i < ct { i } else { i + 1 }].jid by {
        let ii = if i < ct { i } else { i + 1 };
        assert(ts2[i] == ts1[ii]);
    }
    assert forall|i: int, j: int| 0 <= i < js2.len() && 0 <= j < ts2.len() implies
        (#[trigger] js2[i]).jid != (#[trigger] ts2[j]).jid by {
        let ii = if i < cj { i } else { i + 1 };
        let jj = if j < ct { j } else { j + 1 };
        assert(js[ii].jid != ts[jj].jid);
    }
    assert forall|i: int, j: int| 0 <= i < js2.len() && 0 <= j < xs.len() implies
        (#[trigger] js2[i]).jid != (#[trigger] xs[j]).id by {
        let ii = if i < cj { i } else { i + 1 };
        assert(js[ii].jid != xs[j].id);
    }
    assert forall|i: int, j: int| 0 <= i < ts2.len() && 0 <= j < xs.len() implies
        (#[trigger] ts2[i]).jid != (#[trigger] xs[j]).id by {
        let ii = if i < ct { i } else { i + 1 };
        assert(ts[ii].jid != xs[j].id);
    }
}

proof fn lemma_remove_keeps_jobs_ok(a: Seq<Job>, b: Seq<Job>, next: usize)
    requires
        jobs_ok(a, next),
        b == a || exists|c: int| 0 <= c < a.len() && b == a.remove(c),
    ensures
        jobs_ok(b, next),
{
    if b != a {
        let c = choose|c: int| 0 <= c < a.len() && b == a.remove(c);
        assert forall|i: int, j: int| 0 <= i < b.len() && 0 <= j < b.len() && i != j implies
            (#[trigger] b[i]).jid != (#[trigger] b[j]).jid by {
            let ii = if i < c { i } else { i + 1 };
            let jj = if j < c { j } else { j + 1 };
            assert(b[i] == a[ii] && b[j] == a[jj]);
        }
        assert forall|i: int| 0 <= i < b.len() implies (#[trigger] b[i]).jid < next by {
            let ii = if i < c { i } else { i + 1 };
            assert(b[i] == a[ii]);
        }
    }
}

proof fn lemma_remove_keeps_tasks_ok(a: Seq<SetupTask>, b: Seq<SetupTask>, next: usize)
    requires
        tasks_ok(a, next),
        b == a || exists|c: int| 0 <= c < a.len() && b == a.remove(c),
    ensures
        tasks_ok(b, next),
{
    if b != a {
        let c = choose|c: int| 0 <= c < a.len() && b == a.remove(c);
        assert forall|i: int, j: int| 0 <= i < b.len() && 0 <= j < b.len() && i != j implies
            (#[trigger] b[i]).jid != (#[trigger] b[j]).jid by {
            let ii = if i < c { i } else { i + 1 };
            let jj = if j < c { j } else { j + 1 };
            assert(b[i] == a[ii] && b[j] == a[jj]);
        }
        assert forall|i: int| 0 <= i < b.len() implies (#[trigger] b[i]).jid < next by {
            let ii = if i < c { i } else { i + 1 };
            assert(b[i] == a[ii]);
        }
        assert forall|i: int| 0 <= i < b.len() implies (#[trigger] b[i]).current_cmd == 0 || b[i].current_cmd < b[i].cmds@.len() by {
            let ii = if i < c { i } else { i + 1 };
            assert(b[i] == a[ii]);
        }
    }
}

} // verus!
