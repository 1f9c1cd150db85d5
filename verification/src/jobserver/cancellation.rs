//! Cancelled jobs and setup tasks leave the server: each round of
//! scheduling removes the first cancelled job and the first cancelled setup
//! task, and neither starting jobs and tasks nor a request that cancels
//! nothing cancels or revives one, so after as many rounds as there were
//! cancelled entries none is left.

use vstd::prelude::*;
use crate::jobserver::proto::{JobServerReq, JobServerResp, Status};
use crate::jobserver::requests::spec_request;
use crate::jobserver::scheduler::{
    can_start, drop_cancelled_job, drop_cancelled_task, is_first_cancelled_job, is_first_cancelled_task,
    is_first_runnable, jobs_after_start, spec_schedule, start_machine, start_pos, start_tasks, ScheduleStep,
};
use crate::jobserver::server::{has_job, has_task, job_pos, task_pos, Job, Server, SetupTask};

verus! {

/// How many of the statuses are `Cancelled`.
pub open spec fn cancelled_count(ss: Seq<Status>) -> nat
    decreases ss.len(),
{
    if ss.len() == 0 {
        0
    } else {
        cancelled_count(ss.drop_last()) + if ss.last() is Cancelled { 1nat } else { 0nat }
    }
}

/// The statuses of the jobs, in order.
pub open spec fn job_statuses(js: Seq<Job>) -> Seq<Status> {
    js.map_values(|j: Job| j.status)
}

/// The statuses of the setup tasks, in order.
pub open spec fn task_statuses(ts: Seq<SetupTask>) -> Seq<Status> {
    ts.map_values(|t: SetupTask| t.status)
}

proof fn lemma_count_same(a: Seq<Status>, b: Seq<Status>)
    requires
        a.len() == b.len(),
        forall|i: int| 0 <= i < a.len() ==> ((#[trigger] a[i]) is Cancelled <==> b[i] is Cancelled),
    ensures
        cancelled_count(a) == cancelled_count(b),
    decreases a.len(),
{
    if a.len() > 0 {
        lemma_count_same(a.drop_last(), b.drop_last());
        assert(a.last() == a[a.len() - 1]);
    }
}

proof fn lemma_count_remove(a: Seq<Status>, c: int)
    requires
        0 <= c < a.len(),
        a[c] is Cancelled,
    ensures
        cancelled_count(a.remove(c)) + 1 == cancelled_count(a),
    decreases a.len(),
{
    if c == a.len() - 1 {
        assert(a.remove(c) =~= a.drop_last());
    } else {
        lemma_count_remove(a.drop_last(), c);
        assert(a.remove(c).drop_last() =~= a.drop_last().remove(c));
        assert(a.remove(c).last() == a.last());
    }
}

proof fn lemma_count_zero(a: Seq<Status>)
    ensures
        cancelled_count(a) == 0 <==> forall|i: int| 0 <= i < a.len() ==> !((#[trigger] a[i]) is Cancelled),
    decreases a.len(),
{
    if a.len() > 0 {
        lemma_count_zero(a.drop_last());
        if cancelled_count(a) == 0 {
            assert forall|i: int| 0 <= i < a.len() implies !((#[trigger] a[i]) is Cancelled) by {
                if i < a.len() - 1 {
                    assert(a.drop_last()[i] == a[i]);
                }
            }
        }
        if forall|i: int| 0 <= i < a.len() ==> !((#[trigger] a[i]) is Cancelled) {
            assert forall|i: int| 0 <= i < a.len() - 1 implies !((#[trigger] a.drop_last()[i]) is Cancelled) by {
                assert(a.drop_last()[i] == a[i]);
            }
            assert(!(a[a.len() - 1] is Cancelled));
        }
    }
}

/// Starting the first runnable job changes no cancelled status.
proof fn lemma_start_keeps_cancelled(pre: Server)
    ensures
        jobs_after_start(pre.jobs@, pre.machines@).len() == pre.jobs@.len(),
        forall|i: int|
            0 <= i < pre.jobs@.len() ==> (#[trigger] jobs_after_start(pre.jobs@, pre.machines@)[i]).jid
                == pre.jobs@[i].jid && (jobs_after_start(pre.jobs@, pre.machines@)[i].status is Cancelled
                <==> pre.jobs@[i].status is Cancelled),
{
    let js = pre.jobs@;
    let ms = pre.machines@;
    if can_start(js, ms) {
        let p = start_pos(js, ms);
        assert(is_first_runnable(js, ms, p));
        assert(js[p].status is Waiting);
    }
}

/// Starting the waiting setup tasks changes no cancelled status.
proof fn lemma_start_tasks_keeps_cancelled(ts: Seq<SetupTask>)
    ensures
        start_tasks(ts).len() == ts.len(),
        forall|i: int|
            0 <= i < ts.len() ==> (#[trigger] start_tasks(ts)[i]).jid == ts[i].jid && (start_tasks(ts)[i].status
                is Cancelled <==> ts[i].status is Cancelled),
{
}

/// Some cancelled entry is the first one.
proof fn lemma_first_cancelled_job(js: Seq<Job>, i: int)
    requires
        0 <= i < js.len(),
        js[i].status is Cancelled,
    ensures
        exists|c: int| is_first_cancelled_job(js, c),
    decreases i,
{
    if exists|k: int| 0 <= k < i && (#[trigger] js[k]).status is Cancelled {
        let k = choose|k: int| 0 <= k < i && (#[trigger] js[k]).status is Cancelled;
        lemma_first_cancelled_job(js, k);
    } else {
        assert(is_first_cancelled_job(js, i));
    }
}

proof fn lemma_first_cancelled_task(ts: Seq<SetupTask>, i: int)
    requires
        0 <= i < ts.len(),
        ts[i].status is Cancelled,
    ensures
        exists|c: int| is_first_cancelled_task(ts, c),
    decreases i,
{
    if exists|k: int| 0 <= k < i && (#[trigger] ts[k]).status is Cancelled {
        let k = choose|k: int| 0 <= k < i && (#[trigger] ts[k]).status is Cancelled;
        lemma_first_cancelled_task(ts, k);
    } else {
        assert(is_first_cancelled_task(ts, i));
    }
}

/// The number of cancelled entries after dropping at most the first one.
proof fn lemma_drop_job_count(js: Seq<Job>, post: Seq<Job>, removed: Option<usize>)
    requires
        drop_cancelled_job(js, post, removed),
    ensures
        cancelled_count(job_statuses(post)) == if cancelled_count(job_statuses(js)) > 0 {
            cancelled_count(job_statuses(js)) - 1
        } else {
            0
        },
        post == js || exists|c: int| 0 <= c < js.len() && js[c].status is Cancelled && post == js.remove(c),
{
    let a = job_statuses(js);
    if exists|c: int| is_first_cancelled_job(js, c) {
        let c = choose|c: int| is_first_cancelled_job(js, c);
        assert(job_statuses(js.remove(c)) =~= a.remove(c));
        assert(a[c] is Cancelled);
        lemma_count_remove(a, c);
    } else {
        lemma_count_zero(a);
        if cancelled_count(a) != 0 {
            let i = choose|i: int| 0 <= i < a.len() && (#[trigger] a[i]) is Cancelled;
            lemma_first_cancelled_job(js, i);
        }
    }
}

proof fn lemma_drop_task_count(ts: Seq<SetupTask>, post: Seq<SetupTask>, removed: Option<usize>)
    requires
        drop_cancelled_task(ts, post, removed),
    ensures
        cancelled_count(task_statuses(post)) == if cancelled_count(task_statuses(ts)) > 0 {
            cancelled_count(task_statuses(ts)) - 1
        } else {
            0
        },
        post == ts || exists|c: int| 0 <= c < ts.len() && ts[c].status is Cancelled && post == ts.remove(c),
{
    let a = task_statuses(ts);
    if exists|c: int| is_first_cancelled_task(ts, c) {
        let c = choose|c: int| is_first_cancelled_task(ts, c);
        assert(task_statuses(ts.remove(c)) =~= a.remove(c));
        assert(a[c] is Cancelled);
        lemma_count_remove(a, c);
    } else {
        lemma_count_zero(a);
        if cancelled_count(a) != 0 {
            let i = choose|i: int| 0 <= i < a.len() && (#[trigger] a[i]) is Cancelled;
            lemma_first_cancelled_task(ts, i);
        }
    }
}

/// Each round of scheduling removes one cancelled job and one cancelled
/// setup task, if there are any, and leaves the other cancelled ones
/// cancelled: an entry of `post` that was cancelled in `pre` still is.
pub proof fn law_round_removes_one_cancelled(pre: Server, post: Server, step: ScheduleStep)
    requires
        pre.wf(),
        post.wf(),
        spec_schedule(pre, post, step),
    ensures
        cancelled_count(job_statuses(post.jobs@)) == if cancelled_count(job_statuses(pre.jobs@)) > 0 {
            cancelled_count(job_statuses(pre.jobs@)) - 1
        } else {
            0
        },
        cancelled_count(task_statuses(post.setup_tasks@)) == if cancelled_count(task_statuses(pre.setup_tasks@)) > 0 {
            cancelled_count(task_statuses(pre.setup_tasks@)) - 1
        } else {
            0
        },
        forall|jid: usize|
            has_job(post.jobs@, jid) && has_job(pre.jobs@, jid) && (#[trigger] pre.jobs@[job_pos(pre.jobs@, jid)]).status
                is Cancelled ==> post.jobs@[job_pos(post.jobs@, jid)].status is Cancelled,
        forall|jid: usize|
            has_task(post.setup_tasks@, jid) && has_task(pre.setup_tasks@, jid) && (#[trigger] pre.setup_tasks@[task_pos(
                pre.setup_tasks@,
                jid,
            )]).status is Cancelled ==> post.setup_tasks@[task_pos(post.setup_tasks@, jid)].status is Cancelled,
        forall|jid: usize| #[trigger] has_job(post.jobs@, jid) ==> has_job(pre.jobs@, jid),
        forall|jid: usize| #[trigger] has_task(post.setup_tasks@, jid) ==> has_task(pre.setup_tasks@, jid),
{
    let js = pre.jobs@;
    let js1 = jobs_after_start(js, pre.machines@);
    let ts = pre.setup_tasks@;
    let ts1 = start_tasks(ts);
    lemma_start_keeps_cancelled(pre);
    lemma_start_tasks_keeps_cancelled(ts);
    lemma_count_same(job_statuses(js1), job_statuses(js));
    lemma_count_same(task_statuses(ts1), task_statuses(ts));
    lemma_drop_job_count(js1, post.jobs@, step.removed_job);
    lemma_drop_task_count(ts1, post.setup_tasks@, step.removed_task);
    let cj: int = if post.jobs@ == js1 { js1.len() as int } else {
        choose|c: int| 0 <= c < js1.len() && js1[c].status is Cancelled && post.jobs@ == js1.remove(c)
    };
    let ct: int = if post.setup_tasks@ == ts1 { ts1.len() as int } else {
        choose|c: int| 0 <= c < ts1.len() && ts1[c].status is Cancelled && post.setup_tasks@ == ts1.remove(c)
    };
    assert forall|jid: usize| #[trigger] has_job(post.jobs@, jid) implies has_job(js, jid) && {
        let i = job_pos(post.jobs@, jid);
        let ii = if i < cj { i } else { i + 1 };
        job_pos(js, jid) == ii && post.jobs@[i] == js1[ii]
    } by {
        let i = job_pos(post.jobs@, jid);
        let ii = if i < cj { i } else { i + 1 };
        assert(post.jobs@[i] == js1[ii]);
        assert(js[ii].jid == jid);
        let k = job_pos(js, jid);
        assert(k == ii) by {
            if k != ii {
                assert(js[k].jid == js[ii].jid);
            }
        }
    }
    assert forall|jid: usize| #[trigger] has_task(post.setup_tasks@, jid) implies has_task(ts, jid) && {
        let i = task_pos(post.setup_tasks@, jid);
        let ii = if i < ct { i } else { i + 1 };
        task_pos(ts, jid) == ii && post.setup_tasks@[i] == ts1[ii]
    } by {
        let i = task_pos(post.setup_tasks@, jid);
        let ii = if i < ct { i } else { i + 1 };
        assert(post.setup_tasks@[i] == ts1[ii]);
        assert(ts[ii].jid == jid);
        let k = task_pos(ts, jid);
        assert(k == ii) by {
            if k != ii {
                assert(ts[k].jid == ts[ii].jid);
            }
        }
    }
}

/// Whether a request cancels nothing: it neither cancels a job or setup
/// task nor removes a machine (which cancels the job it runs).
pub open spec fn cancels_nothing(req: JobServerReq) -> bool {
    !(req is CancelJob) && !(req is RemoveAvailable)
}

/// `post` is `pre` with entries added at the end, each waiting and with an
/// ID not below `next`.
pub open spec fn jobs_grow(pre: Seq<Job>, post: Seq<Job>, next: usize) -> bool {
    &&& pre.len() <= post.len()
    &&& post.take(pre.len() as int) == pre
    &&& forall|i: int| pre.len() <= i < post.len() ==> (#[trigger] post[i]).status is Waiting && post[i].jid >= next
}

/// The same for setup tasks.
pub open spec fn tasks_grow(pre: Seq<SetupTask>, post: Seq<SetupTask>, next: usize) -> bool {
    &&& pre.len() <= post.len()
    &&& post.take(pre.len() as int) == pre
    &&& forall|i: int| pre.len() <= i < post.len() ==> (#[trigger] post[i]).status is Waiting && post[i].jid >= next
}

/// A request that cancels nothing only adds waiting jobs and setup tasks
/// with new IDs, and moves the counter forward.
proof fn lemma_quiet_request(pre: Server, post: Server, req: JobServerReq, resp: JobServerResp)
    requires
        cancels_nothing(req),
        spec_request(pre, post, req, resp),
    ensures
        jobs_grow(pre.jobs@, post.jobs@, pre.next_jid),
        tasks_grow(pre.setup_tasks@, post.setup_tasks@, pre.next_jid),
        pre.next_jid <= post.next_jid,
{
    let pj = pre.jobs@;
    let pt = pre.setup_tasks@;
    match req {
        JobServerReq::AddMatrix { vars, cmd, class, cp_results } => {
            let base = pj.len() as int;
            assert forall|i: int| base <= i < post.jobs@.len() implies (#[trigger] post.jobs@[i]).status is Waiting
                && post.jobs@[i].jid >= pre.next_jid by {
                assert(post.jobs@[base + (i - base)].jid == pre.next_jid + 1 + (i - base));
            }
            assert(post.setup_tasks@.take(pt.len() as int) =~= pt);
        },
        _ => {
            if post.jobs@ == pj {
                assert(post.jobs@.take(pj.len() as int) =~= pj);
            }
            if post.setup_tasks@ == pt {
                assert(post.setup_tasks@.take(pt.len() as int) =~= pt);
            }
        },
    }
}

proof fn lemma_count_grow(a: Seq<Status>, b: Seq<Status>)
    requires
        a.len() <= b.len(),
        b.take(a.len() as int) == a,
        forall|i: int| a.len() <= i < b.len() ==> !((#[trigger] b[i]) is Cancelled),
    ensures
        cancelled_count(b) == cancelled_count(a),
    decreases b.len(),
{
    if b.len() == a.len() {
        assert(b =~= b.take(a.len() as int));
    } else {
        assert(b.drop_last().take(a.len() as int) =~= b.take(a.len() as int));
        lemma_count_grow(a, b.drop_last());
        assert(!(b[b.len() - 1] is Cancelled));
    }
}

/// A request that cancels nothing changes the number of cancelled entries
/// not at all, and an entry with an ID below the counter that is there
/// after it was there before, with the same status.
proof fn lemma_quiet_request_counts(pre: Server, post: Server, req: JobServerReq, resp: JobServerResp)
    requires
        pre.wf(),
        post.wf(),
        cancels_nothing(req),
        spec_request(pre, post, req, resp),
    ensures
        cancelled_count(job_statuses(post.jobs@)) == cancelled_count(job_statuses(pre.jobs@)),
        cancelled_count(task_statuses(post.setup_tasks@)) == cancelled_count(task_statuses(pre.setup_tasks@)),
        pre.next_jid <= post.next_jid,
        forall|jid: usize|
            #[trigger] has_job(post.jobs@, jid) && jid < pre.next_jid ==> has_job(pre.jobs@, jid)
                && post.jobs@[job_pos(post.jobs@, jid)].status == pre.jobs@[job_pos(pre.jobs@, jid)].status,
        forall|jid: usize|
            #[trigger] has_task(post.setup_tasks@, jid) && jid < pre.next_jid ==> has_task(pre.setup_tasks@, jid)
                && post.setup_tasks@[task_pos(post.setup_tasks@, jid)].status == pre.setup_tasks@[task_pos(
                pre.setup_tasks@,
                jid,
            )].status,
{
    lemma_quiet_request(pre, post, req, resp);
    let pj = pre.jobs@;
    let qj = post.jobs@;
    let pt = pre.setup_tasks@;
    let qt = post.setup_tasks@;
    assert(job_statuses(qj).take(pj.len() as int) =~= job_statuses(pj)) by {
        assert forall|i: int| 0 <= i < pj.len() implies job_statuses(qj)[i] == job_statuses(pj)[i] by {
            assert(qj.take(pj.len() as int)[i] == qj[i]);
        }
    }
    assert forall|i: int| pj.len() <= i < qj.len() implies !((#[trigger] job_statuses(qj)[i]) is Cancelled) by {
        assert(qj[i].status is Waiting);
    }
    lemma_count_grow(job_statuses(pj), job_statuses(qj));
    assert(task_statuses(qt).take(pt.len() as int) =~= task_statuses(pt)) by {
        assert forall|i: int| 0 <= i < pt.len() implies task_statuses(qt)[i] == task_statuses(pt)[i] by {
            assert(qt.take(pt.len() as int)[i] == qt[i]);
        }
    }
    assert forall|i: int| pt.len() <= i < qt.len() implies !((#[trigger] task_statuses(qt)[i]) is Cancelled) by {
        assert(qt[i].status is Waiting);
    }
    lemma_count_grow(task_statuses(pt), task_statuses(qt));
    assert forall|jid: usize| #[trigger] has_job(qj, jid) && jid < pre.next_jid implies has_job(pj, jid)
        && qj[job_pos(qj, jid)].status == pj[job_pos(pj, jid)].status by {
        let i = job_pos(qj, jid);
        if i >= pj.len() {
            assert(qj[i].jid >= pre.next_jid);
        }
        assert(qj.take(pj.len() as int)[i] == qj[i]);
        assert(pj[i].jid == jid);
        let k = job_pos(pj, jid);
        assert(k == i) by {
            if k != i {
                assert(pj[k].jid == pj[i].jid);
            }
        }
    }
    assert forall|jid: usize| #[trigger] has_task(qt, jid) && jid < pre.next_jid implies has_task(pt, jid)
        && qt[task_pos(qt, jid)].status == pt[task_pos(pt, jid)].status by {
        let i = task_pos(qt, jid);
        if i >= pt.len() {
            assert(qt[i].jid >= pre.next_jid);
        }
        assert(qt.take(pt.len() as int)[i] == qt[i]);
        assert(pt[i].jid == jid);
        let k = task_pos(pt, jid);
        assert(k == i) by {
            if k != i {
                assert(pt[k].jid == pt[i].jid);
            }
        }
    }
}

/// How many of the steps are rounds of scheduling.
pub open spec fn rounds_in(rounds: Seq<bool>) -> nat
    decreases rounds.len(),
{
    if rounds.len() == 0 {
        0
    } else {
        rounds_in(rounds.drop_last()) + if rounds.last() { 1nat } else { 0nat }
    }
}

/// A run of the server in which each step is a round of scheduling (where
/// `rounds` says so, with its decisions in `steps`) or a request that
/// cancels nothing, answered with its response.
pub open spec fn is_quiet_run(
    ss: Seq<Server>,
    rounds: Seq<bool>,
    steps: Seq<ScheduleStep>,
    reqs: Seq<JobServerReq>,
    resps: Seq<JobServerResp>,
) -> bool {
    &&& ss.len() == rounds.len() + 1
    &&& steps.len() == rounds.len()
    &&& reqs.len() == rounds.len()
    &&& resps.len() == rounds.len()
    &&& forall|k: int| 0 <= k < ss.len() ==> (#[trigger] ss[k]).wf()
    &&& forall|k: int|
        #![trigger rounds[k]]
        0 <= k < rounds.len() ==> if rounds[k] {
            spec_schedule(ss[k], ss[k + 1], steps[k])
        } else {
            cancels_nothing(reqs[k]) && spec_request(ss[k], ss[k + 1], reqs[k], resps[k])
        }
}

/// The facts that hold after the first `k` steps of a run.
proof fn lemma_quiet_run(
    ss: Seq<Server>,
    rounds: Seq<bool>,
    steps: Seq<ScheduleStep>,
    reqs: Seq<JobServerReq>,
    resps: Seq<JobServerResp>,
    k: int,
    jid: usize,
)
    requires
        is_quiet_run(ss, rounds, steps, reqs, resps),
        0 <= k < ss.len(),
    ensures
        ss[0].next_jid <= ss[k].next_jid,
        cancelled_count(job_statuses(ss[k].jobs@)) <= if cancelled_count(job_statuses(ss[0].jobs@)) >= rounds_in(
            rounds.take(k),
        ) {
            cancelled_count(job_statuses(ss[0].jobs@)) - rounds_in(rounds.take(k))
        } else {
            0
        },
        cancelled_count(task_statuses(ss[k].setup_tasks@)) <= if cancelled_count(task_statuses(ss[0].setup_tasks@))
            >= rounds_in(rounds.take(k)) {
            cancelled_count(task_statuses(ss[0].setup_tasks@)) - rounds_in(rounds.take(k))
        } else {
            0
        },
        has_job(ss[0].jobs@, jid) && ss[0].jobs@[job_pos(ss[0].jobs@, jid)].status is Cancelled && has_job(
            ss[k].jobs@,
            jid,
        ) ==> ss[k].jobs@[job_pos(ss[k].jobs@, jid)].status is Cancelled,
        has_task(ss[0].setup_tasks@, jid) && ss[0].setup_tasks@[task_pos(ss[0].setup_tasks@, jid)].status
            is Cancelled && has_task(ss[k].setup_tasks@, jid) ==> ss[k].setup_tasks@[task_pos(
            ss[k].setup_tasks@,
            jid,
        )].status is Cancelled,
    decreases k,
{
    if k > 0 {
        let i = k - 1;
        lemma_quiet_run(ss, rounds, steps, reqs, resps, i, jid);
        assert(rounds.take(k).drop_last() =~= rounds.take(i));
        assert(rounds.take(k).last() == rounds[i]);
        let pre = ss[i];
        let post = ss[k];
        assert(ss[i + 1] == post);
        if has_job(ss[0].jobs@, jid) {
            let p0 = job_pos(ss[0].jobs@, jid);
            assert(ss[0].jobs@[p0].jid == jid);
        }
        if has_task(ss[0].setup_tasks@, jid) {
            let p0 = task_pos(ss[0].setup_tasks@, jid);
            assert(ss[0].setup_tasks@[p0].jid == jid);
        }
        if rounds[i] {
            assert(spec_schedule(pre, post, steps[i]));
            law_round_removes_one_cancelled(pre, post, steps[i]);
        } else {
            assert(spec_request(pre, post, reqs[i], resps[i]));
            lemma_quiet_request_counts(pre, post, reqs[i], resps[i]);
        }
    }
}

/// Cancelled jobs and setup tasks are removed within finitely many rounds
/// of scheduling. In a run where every step is a round of scheduling or a
/// request that cancels nothing, once there have been as many rounds as
/// there were cancelled jobs (or setup tasks) at the start, none is left,
/// and one that was cancelled at the start is gone.
pub proof fn law_cancelled_removed(
    ss: Seq<Server>,
    rounds: Seq<bool>,
    steps: Seq<ScheduleStep>,
    reqs: Seq<JobServerReq>,
    resps: Seq<JobServerResp>,
    jid: usize,
)
    requires
        is_quiet_run(ss, rounds, steps, reqs, resps),
    ensures
        rounds_in(rounds) >= cancelled_count(job_statuses(ss[0].jobs@)) ==> {
            &&& forall|i: int| 0 <= i < ss.last().jobs@.len() ==> !((#[trigger] ss.last().jobs@[i]).status is Cancelled)
            &&& has_job(ss[0].jobs@, jid) && ss[0].jobs@[job_pos(ss[0].jobs@, jid)].status is Cancelled
                ==> !has_job(ss.last().jobs@, jid)
        },
        rounds_in(rounds) >= cancelled_count(task_statuses(ss[0].setup_tasks@)) ==> {
            &&& forall|i: int|
                0 <= i < ss.last().setup_tasks@.len() ==> !((#[trigger] ss.last().setup_tasks@[i]).status is Cancelled)
            &&& has_task(ss[0].setup_tasks@, jid) && ss[0].setup_tasks@[task_pos(ss[0].setup_tasks@, jid)].status
                is Cancelled ==> !has_task(ss.last().setup_tasks@, jid)
        },
{
    let n = rounds.len() as int;
    let last = ss[n];
    assert(ss.last() == last);
    assert(rounds.take(n) =~= rounds);
    lemma_quiet_run(ss, rounds, steps, reqs, resps, n, jid);
    if rounds_in(rounds) >= cancelled_count(job_statuses(ss[0].jobs@)) {
        let a = job_statuses(last.jobs@);
        lemma_count_zero(a);
        assert forall|i: int| 0 <= i < last.jobs@.len() implies !((#[trigger] last.jobs@[i]).status is Cancelled) by {
            assert(a[i] == last.jobs@[i].status);
        }
        if has_job(ss[0].jobs@, jid) && ss[0].jobs@[job_pos(ss[0].jobs@, jid)].status is Cancelled && has_job(
            last.jobs@,
            jid,
        ) {
            assert(0 <= job_pos(last.jobs@, jid) < last.jobs@.len());
        }
    }
    if rounds_in(rounds) >= cancelled_count(task_statuses(ss[0].setup_tasks@)) {
        let a = task_statuses(last.setup_tasks@);
        lemma_count_zero(a);
        assert forall|i: int|
            0 <= i < last.setup_tasks@.len() implies !((#[trigger] last.setup_tasks@[i]).status is Cancelled) by {
            assert(a[i] == last.setup_tasks@[i].status);
        }
        if has_task(ss[0].setup_tasks@, jid) && ss[0].setup_tasks@[task_pos(ss[0].setup_tasks@, jid)].status
            is Cancelled && has_task(last.setup_tasks@, jid) {
            assert(0 <= task_pos(last.setup_tasks@, jid) < last.setup_tasks@.len());
        }
    }
}

} // verus!
