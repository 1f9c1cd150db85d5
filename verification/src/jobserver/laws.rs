//! Properties of the job server that span requests: what a later request
//! reports of an earlier one, and what every round of scheduling keeps.

use vstd::prelude::*;
use crate::jobserver::proto::{JobServerReq, JobServerResp, Status};
use crate::jobserver::server::{
    has_job, has_machine, has_matrix, has_task, has_var, job_pos, job_with_status, machine_pos, var_pos,
    spec_cancel, task_pos, MachineStatus, Server,
};
use crate::jobserver::client::{job_log, status_machine};
use crate::jobserver::runs::{expand, spec_finish_task, spec_setup_step, Outcome, SetupNext};
use crate::jobserver::requests::{
    ids_needed, job_ids, task_ids, matrix_choices, matrix_configs, spec_add_job, spec_list_jobs, spec_job_status, spec_list_available,
    spec_make_available, spec_remove_available, spec_request, spec_set_var, machines_with, vars_with,
};
use crate::jobserver::scheduler::{
    can_start, is_first_idle, is_first_runnable, runnable, spec_schedule, start_machine, start_pos,
    drop_cancelled_job, jobs_after_start, is_first_cancelled_job,
};
use crate::jobserver::template::{all_choices, log_path, product, replace_vars, placeholder};
use crate::text::{replace_all, lemma_replace_absent};

verus! {

/// After `SetVar`, the variable has the new value and every other variable
/// keeps its value.
pub proof fn law_set_var_read(pre: Server, post: Server, name: String, value: String, resp: JobServerResp)
    requires
        pre.wf(),
        post.wf(),
        spec_set_var(pre, post, name, value, resp),
    ensures
        has_var(post.variables@, name@),
        post.variables@[var_pos(post.variables@, name@)].1 == value,
        forall|n: Seq<char>| n != name@ ==> (has_var(post.variables@, n) == has_var(pre.variables@, n)),
        forall|n: Seq<char>|
            n != name@ && has_var(pre.variables@, n) ==> post.variables@[var_pos(post.variables@, n)].1
                == pre.variables@[var_pos(pre.variables@, n)].1,
{
    let vs = pre.variables@;
    let ws = post.variables@;
    if has_var(vs, name@) {
        let p = var_pos(vs, name@);
        assert(ws[p].0@ == name@);
    } else {
        assert(ws[vs.len() as int].0@ == name@);
    }
    let q = var_pos(ws, name@);
    assert(ws[q].0@ == name@);
    assert forall|n: Seq<char>| n != name@ implies (has_var(ws, n) == has_var(vs, n)) by {
        if has_var(vs, n) {
            let i = choose|i: int| 0 <= i < vs.len() && (#[trigger] vs[i]).0@ == n;
            assert(ws[i].0@ == n);
        }
        if has_var(ws, n) {
            let i = choose|i: int| 0 <= i < ws.len() && (#[trigger] ws[i]).0@ == n;
            assert(i < vs.len() && vs[i].0@ == n);
        }
    }
    assert forall|n: Seq<char>| n != name@ && has_var(vs, n) implies ws[var_pos(ws, n)].1 == vs[var_pos(vs, n)].1 by {
        let i = var_pos(vs, n);
        let j = var_pos(ws, n);
        assert(ws[i].0@ == n);
        assert(ws[i] == vs[i]);
    }
}

/// After `AddJob`, asking for the status of the returned ID reports a
/// waiting job with the given command and class.
pub proof fn law_add_job_status(
    pre: Server,
    post: Server,
    class: String,
    cmd: String,
    cp_results: Option<String>,
    resp: JobServerResp,
    status: JobServerResp,
)
    requires
        pre.wf(),
        post.wf(),
        spec_add_job(pre, post, class, cmd, cp_results, resp),
        spec_job_status(post, pre.next_jid, status),
    ensures
        resp == JobServerResp::JobId(pre.next_jid),
        status matches JobServerResp::JobStatus { class: c, cmd: m, jid, status: st, .. } && c == class
            && m == cmd && jid == pre.next_jid && st is Waiting,
{
    let j = pre.next_jid;
    let n = pre.jobs@.len() as int;
    assert(post.jobs@[n].jid == j);
    assert(has_job(post.jobs@, j));
    let p = job_pos(post.jobs@, j);
    assert(p == n) by {
        if p < n {
            assert(post.jobs@[p] == pre.jobs@[p]);
        }
    }
}

/// After cancelling an existing job, its status is reported as cancelled;
/// cancelling an unknown ID is refused with `NoSuchJob` and changes
/// nothing.
pub proof fn law_cancel_status(pre: Server, post: Server, jid: usize, resp: JobServerResp, status: JobServerResp)
    requires
        pre.wf(),
        post.wf(),
        spec_cancel(pre, post, jid, resp),
        spec_job_status(post, jid, status),
    ensures
        has_job(pre.jobs@, jid) ==> resp is Success && (status matches JobServerResp::JobStatus {
            status: st,
            ..
        } && st is Cancelled),
        !has_job(pre.jobs@, jid) && !has_task(pre.setup_tasks@, jid) ==> resp is NoSuchJob
            && post.jobs@ == pre.jobs@ && post.setup_tasks@ == pre.setup_tasks@
            && status is NoSuchJob,
{
    if has_job(pre.jobs@, jid) {
        let p = job_pos(pre.jobs@, jid);
        assert(post.jobs@[p].jid == jid);
        assert(has_job(post.jobs@, jid));
        let q = job_pos(post.jobs@, jid);
        assert(q == p) by {
            if q != p {
                assert(post.jobs@[q].jid == post.jobs@[p].jid);
            }
        }
    }
}

/// Every ID a request hands out is new: no job, setup task or matrix had
/// it before, and the counter moves past it.
pub proof fn law_fresh_ids(pre: Server, post: Server, req: JobServerReq, resp: JobServerResp)
    requires
        pre.wf(),
        spec_request(pre, post, req, resp),
    ensures
        resp matches JobServerResp::JobId(j) ==> !has_job(pre.jobs@, j) && !has_task(pre.setup_tasks@, j)
            && !has_matrix(pre.matrices@, j) && j < post.next_jid,
        resp matches JobServerResp::MatrixId(j) ==> !has_job(pre.jobs@, j) && !has_task(pre.setup_tasks@, j)
            && !has_matrix(pre.matrices@, j) && j < post.next_jid,
{
    match resp {
        JobServerResp::JobId(j) => {
            assert(j == pre.next_jid);
        },
        JobServerResp::MatrixId(j) => {
            assert(j == pre.next_jid);
        },
        _ => {},
    }
}

/// The ID a response hands out, if any: a job or setup task ID, or a
/// matrix ID.
pub open spec fn issued_id(resp: JobServerResp) -> Option<usize> {
    match resp {
        JobServerResp::JobId(j) => Some(j),
        JobServerResp::MatrixId(j) => Some(j),
        _ => None,
    }
}

/// IDs are issued in order: a request that hands out an ID hands out the
/// counter's value and moves the counter past every ID it takes (one, or
/// one per matrix job more for a matrix); any other request leaves the
/// counter alone.
pub proof fn law_ids_in_order(pre: Server, post: Server, req: JobServerReq, resp: JobServerResp)
    requires
        spec_request(pre, post, req, resp),
    ensures
        post.next_jid == pre.next_jid + if issued_id(resp) is Some { ids_needed(pre, req) } else { 0 },
        issued_id(resp) matches Some(j) ==> j == pre.next_jid && j < post.next_jid,
{
}

/// A run of requests: each state is the one before after its request,
/// and the request was answered with its response.
pub open spec fn is_run(ss: Seq<Server>, reqs: Seq<JobServerReq>, resps: Seq<JobServerResp>) -> bool {
    &&& ss.len() == reqs.len() + 1
    &&& resps.len() == reqs.len()
    &&& forall|k: int| 0 <= k < reqs.len() ==> #[trigger] spec_request(ss[k], ss[k + 1], reqs[k], resps[k])
}

proof fn lemma_run_counter(ss: Seq<Server>, reqs: Seq<JobServerReq>, resps: Seq<JobServerResp>, a: int, b: int)
    requires
        is_run(ss, reqs, resps),
        0 <= a <= b <= reqs.len(),
    ensures
        ss[a].next_jid <= ss[b].next_jid,
    decreases b - a,
{
    if a < b {
        lemma_run_counter(ss, reqs, resps, a + 1, b);
        assert(spec_request(ss[a], ss[a + 1], reqs[a], resps[a]));
        law_ids_in_order(ss[a], ss[a + 1], reqs[a], resps[a]);
    }
}

/// Over any run of requests, each ID handed out is the counter's value at
/// that request, and a later request hands out a larger ID than an earlier
/// one: no two requests hand out the same ID. From a new server (counter
/// 0) the IDs are 0, 1, 2, ... in the order they are taken.
pub proof fn law_run_ids_increase(ss: Seq<Server>, reqs: Seq<JobServerReq>, resps: Seq<JobServerResp>)
    requires
        is_run(ss, reqs, resps),
    ensures
        forall|k: int|
            0 <= k < reqs.len() ==> (#[trigger] issued_id(resps[k]) matches Some(j) ==> j == ss[k].next_jid),
        forall|k1: int, k2: int|
            0 <= k1 < k2 < reqs.len() && (#[trigger] issued_id(resps[k1])) is Some && (#[trigger] issued_id(
                resps[k2],
            )) is Some ==> issued_id(resps[k1])->0 < issued_id(resps[k2])->0,
{
    assert forall|k: int| 0 <= k < reqs.len() implies (#[trigger] issued_id(resps[k]) matches Some(j) ==> j
        == ss[k].next_jid) by {
        assert(spec_request(ss[k], ss[k + 1], reqs[k], resps[k]));
        law_ids_in_order(ss[k], ss[k + 1], reqs[k], resps[k]);
    }
    assert forall|k1: int, k2: int|
        0 <= k1 < k2 < reqs.len() && (#[trigger] issued_id(resps[k1])) is Some && (#[trigger] issued_id(
            resps[k2],
        )) is Some implies issued_id(resps[k1])->0 < issued_id(resps[k2])->0 by {
        assert(spec_request(ss[k1], ss[k1 + 1], reqs[k1], resps[k1]));
        assert(spec_request(ss[k2], ss[k2 + 1], reqs[k2], resps[k2]));
        law_ids_in_order(ss[k1], ss[k1 + 1], reqs[k1], resps[k1]);
        law_ids_in_order(ss[k2], ss[k2 + 1], reqs[k2], resps[k2]);
        lemma_run_counter(ss, reqs, resps, k1 + 1, k2);
    }
}

/// `ListJobs` lists each job and setup task once: no ID twice, and the
/// listed IDs are exactly those of the jobs and setup tasks (matrices are
/// not listed).
pub proof fn law_list_jobs_distinct(s: Server, resp: JobServerResp)
    requires
        s.wf(),
        spec_list_jobs(s, resp),
    ensures
        resp matches JobServerResp::Jobs(v) && v@.no_duplicates() && v@.to_set() == Set::new(
            |id: usize| has_job(s.jobs@, id) || has_task(s.setup_tasks@, id),
        ),
{
    let v = resp->Jobs_0@;
    let js = s.jobs@;
    let ts = s.setup_tasks@;
    let nj = js.len() as int;
    assert(v =~= job_ids(js) + task_ids(ts));
    assert forall|a: int, b: int| 0 <= a < v.len() && 0 <= b < v.len() && a != b implies v[a] != v[b] by {
        if a < nj && b < nj {
            assert(v[a] == js[a].jid && v[b] == js[b].jid);
        } else if a < nj {
            assert(v[a] == js[a].jid && v[b] == ts[b - nj].jid);
        } else if b < nj {
            assert(v[a] == ts[a - nj].jid && v[b] == js[b].jid);
        } else {
            assert(v[a] == ts[a - nj].jid && v[b] == ts[b - nj].jid);
        }
    }
    assert(v.to_set() =~= Set::new(|id: usize| has_job(js, id) || has_task(ts, id))) by {
        assert forall|id: usize| v.to_set().contains(id) implies has_job(js, id) || has_task(ts, id) by {
            let a = choose|a: int| 0 <= a < v.len() && v[a] == id;
            if a < nj {
                assert(js[a].jid == id);
            } else {
                assert(ts[a - nj].jid == id);
            }
        }
        assert forall|id: usize| has_job(js, id) || has_task(ts, id) implies v.to_set().contains(id) by {
            if has_job(js, id) {
                let i = choose|i: int| 0 <= i < js.len() && (#[trigger] js[i]).jid == id;
                assert(v[i] == id);
            } else {
                let i = choose|i: int| 0 <= i < ts.len() && (#[trigger] ts[i]).jid == id;
                assert(v[nj + i] == id);
            }
        }
    }
}

/// `SetVar` then `AddJob`: the new job carries the variables as they are
/// after the `SetVar`, while the jobs that existed before keep theirs
/// (each job keeps the variables of the time it was added).
pub proof fn law_set_var_then_add_job(
    pre: Server,
    mid: Server,
    post: Server,
    set: JobServerReq,
    add: JobServerReq,
    r1: JobServerResp,
    r2: JobServerResp,
)
    requires
        set is SetVar,
        add is AddJob,
        spec_request(pre, mid, set, r1),
        spec_request(mid, post, add, r2),
    ensures
        r1 is Success,
        mid.variables@ == vars_with(pre.variables@, set->SetVar_name, set->SetVar_value),
        post.jobs@.len() == pre.jobs@.len() + 1,
        post.jobs@.take(pre.jobs@.len() as int) == pre.jobs@,
        post.jobs@.last().variables@ == vars_with(pre.variables@, set->SetVar_name, set->SetVar_value),
        r2 == JobServerResp::JobId(post.jobs@.last().jid),
{
}

/// The log file the client names for a job is the file the server sends
/// the job's output to. From the status answer for a job that ran or runs
/// on machine `m`, `job_log` gives the output file of the job's own
/// command and variables prepared for `m` (`prepare_cmd`'s `out_file`,
/// which a run of the job uses); a job that never had a machine gets
/// `/dev/null`.
pub proof fn law_client_log_is_server_log(s: Server, jid: usize, resp: JobServerResp)
    requires
        has_job(s.jobs@, jid),
        spec_job_status(s, jid, resp),
    ensures
        resp matches JobServerResp::JobStatus { cmd, status, variables, .. } && {
            let j = s.jobs@[job_pos(s.jobs@, jid)];
            &&& status_machine(j.status) matches Some(m) ==> job_log(cmd@, status, variables@)
                == log_path(expand(j.cmd@, j.variables@, m@))
            &&& status_machine(j.status) is None ==> job_log(cmd@, status, variables@) == "/dev/null"@
        },
{
}

/// After `MakeAvailable`, the machine is listed with its new class.
pub proof fn law_make_available_listed(
    pre: Server,
    post: Server,
    addr: String,
    class: String,
    resp: JobServerResp,
    list: JobServerResp,
)
    requires
        pre.wf(),
        spec_make_available(pre, post, addr, class, resp),
        spec_list_available(post, list),
    ensures
        list matches JobServerResp::Machines(v) && exists|i: int|
            0 <= i < v@.len() && (#[trigger] v@[i]).0@ == addr@ && v@[i].1 == class,
{
    let ms = pre.machines@;
    let v = list->Machines_0;
    if has_machine(ms, addr@) {
        let p = machine_pos(ms, addr@);
        assert(v@[p].0@ == addr@ && v@[p].1 == class);
    } else {
        let p = ms.len() as int;
        assert(v@[p].0@ == addr@ && v@[p].1 == class);
    }
}

/// After `RemoveAvailable` succeeds, the machine is no longer available;
/// removing an unknown machine is refused with `NoSuchMachine`.
pub proof fn law_remove_available(pre: Server, post: Server, addr: String, resp: JobServerResp)
    requires
        pre.wf(),
        spec_remove_available(pre, post, addr, resp),
    ensures
        !has_machine(post.machines@, addr@),
        resp is NoSuchMachine <==> !has_machine(pre.machines@, addr@),
{
    let ms = pre.machines@;
    if has_machine(ms, addr@) {
        let p = machine_pos(ms, addr@);
        if has_machine(post.machines@, addr@) {
            let i = choose|i: int| 0 <= i < post.machines@.len() && (#[trigger] post.machines@[i]).0@ == addr@;
            let k = if i < p { i } else { i + 1 };
            assert(post.machines@[i] == ms[k]);
        }
    }
}

/// Removing a machine that was just added undoes the addition: the
/// machines, jobs and setup tasks are as before.
pub proof fn law_add_then_remove_machine(
    pre: Server,
    mid: Server,
    post: Server,
    addr: String,
    class: String,
    r1: JobServerResp,
    r2: JobServerResp,
)
    requires
        pre.wf(),
        !has_machine(pre.machines@, addr@),
        spec_make_available(pre, mid, addr, class, r1),
        spec_remove_available(mid, post, addr, r2),
    ensures
        r2 is Success,
        post.machines@ == pre.machines@,
        post.jobs@ == pre.jobs@,
        post.setup_tasks@ == pre.setup_tasks@,
{
    let ms = pre.machines@;
    let mm = mid.machines@;
    let n = ms.len() as int;
    assert(mm == ms.push((addr, MachineStatus { class, running: None })));
    assert(mm[n].0@ == addr@);
    assert(has_machine(mm, addr@));
    let p = machine_pos(mm, addr@);
    assert(p == n) by {
        if p < n {
            assert(mm[p] == ms[p]);
            assert(has_machine(ms, addr@));
        }
    }
    assert(mm.remove(p) =~= ms);
}

/// Scheduling starts a job only if it was waiting, and only on a machine
/// of its class that was idle; afterwards the machine runs the job and the
/// job is marked running there.
pub proof fn law_schedule_sound(pre: Server, post: Server, step: crate::jobserver::scheduler::ScheduleStep)
    requires
        pre.wf(),
        spec_schedule(pre, post, step),
    ensures
        step.started_job matches Some((j, m)) ==> {
            &&& has_job(pre.jobs@, j)
            &&& pre.jobs@[job_pos(pre.jobs@, j)].status is Waiting
            &&& has_machine(pre.machines@, m@)
            &&& pre.machines@[machine_pos(pre.machines@, m@)].1.running is None
            &&& pre.machines@[machine_pos(pre.machines@, m@)].1.class@ == pre.jobs@[job_pos(pre.jobs@, j)].class@
            &&& has_machine(post.machines@, m@)
            &&& post.machines@[machine_pos(post.machines@, m@)].1.running == Some(j)
        },
{
    let js = pre.jobs@;
    let ms = pre.machines@;
    if can_start(js, ms) {
        let p = start_pos(js, ms);
        let q = start_machine(js, ms);
        let j = js[p].jid;
        assert(has_job(js, j));
        let pp = job_pos(js, j);
        assert(pp == p) by {
            if pp != p {
                assert(js[pp].jid == js[p].jid);
            }
        }
        assert(runnable(js[p], ms));
        lemma_first_idle_exists(ms, js[p].class@, ms.len() as int);
        assert(has_idle_witness(ms, js[p].class@));
        assert(is_first_idle(ms, js[p].class@, q));
        assert(has_machine(ms, ms[q].0@));
        let qq = machine_pos(ms, ms[q].0@);
        assert(qq == q) by {
            if qq != q {
                assert(ms[qq].0@ == ms[q].0@);
            }
        }
        assert(post.machines@[q].0 == ms[q].0);
        assert(has_machine(post.machines@, ms[q].0@));
        let pq = machine_pos(post.machines@, ms[q].0@);
        assert(pq == q) by {
            if pq != q {
                assert(post.machines@[pq].0@ == ms[pq].0@);
                assert(ms[pq].0@ == ms[q].0@);
            }
        }
    }
}

spec fn has_idle_witness(ms: Seq<(String, crate::jobserver::server::MachineStatus)>, class: Seq<char>) -> bool {
    exists|q: int| is_first_idle(ms, class, q)
}

spec fn idle_below(ms: Seq<(String, crate::jobserver::server::MachineStatus)>, class: Seq<char>, n: int) -> bool {
    exists|q: int| 0 <= q < n && (#[trigger] ms[q]).1.running is None && ms[q].1.class@ == class
}

proof fn lemma_first_idle_exists(ms: Seq<(String, crate::jobserver::server::MachineStatus)>, class: Seq<char>, n: int)
    requires
        n <= ms.len(),
        idle_below(ms, class, n),
    ensures
        has_idle_witness(ms, class),
    decreases n,
{
    let q = choose|q: int| 0 <= q < n && (#[trigger] ms[q]).1.running is None && ms[q].1.class@ == class;
    if idle_below(ms, class, q) {
        lemma_first_idle_exists(ms, class, q);
    } else {
        assert(is_first_idle(ms, class, q));
    }
}

/// The number of configurations of a product: the product of the numbers
/// of values.
pub open spec fn count_product<T>(lists: Seq<Seq<T>>) -> nat
    decreases lists.len(),
{
    if lists.len() == 0 {
        1
    } else {
        lists[0].len() * count_product(lists.drop_first())
    }
}

proof fn lemma_flatten_uniform<T>(s: Seq<Seq<T>>, l: nat)
    requires
        forall|i: int| 0 <= i < s.len() ==> (#[trigger] s[i]).len() == l,
    ensures
        s.flatten().len() == s.len() * l,
    decreases s.len(),
{
    if s.len() > 0 {
        lemma_flatten_uniform(s.drop_first(), l);
        assert(s.flatten() == s.first() + s.drop_first().flatten());
        assert((s.len() - 1) * l + l == s.len() * l) by (nonlinear_arith);
    }
}

/// A product has as many tuples as the product of the lengths of its
/// lists.
pub proof fn law_product_len<T>(lists: Seq<Seq<T>>)
    ensures
        product(lists).len() == count_product(lists),
    decreases lists.len(),
{
    if lists.len() > 0 {
        let rest = product(lists.drop_first());
        law_product_len(lists.drop_first());
        let f = |x: T| rest.map_values(|r: Seq<T>| seq![x] + r);
        let parts = lists[0].map_values(f);
        lemma_flatten_uniform(parts, rest.len());
        assert(product(lists) == parts.flatten());
    }
}

/// A matrix with `k` variables whose values number `n1, ..., nk` creates
/// `n1 * ... * nk` jobs (the server variables it does not set add one
/// value each).
pub proof fn law_matrix_job_count(
    pre: Server,
    post: Server,
    req: JobServerReq,
    resp: JobServerResp,
)
    requires
        req is AddMatrix,
        spec_request(pre, post, req, resp),
    ensures
        post.jobs@.len() == pre.jobs@.len() + count_product(matrix_choices(req->vars@, pre.variables@)),
        post.next_jid == pre.next_jid + 1 + count_product(matrix_choices(req->vars@, pre.variables@)),
{
    law_product_len(matrix_choices(req->vars@, pre.variables@));
}

/// A setup task with a class that completes leaves its machine listed in
/// that class.
pub proof fn law_setup_task_adds_machine(
    pre: Server,
    post: Server,
    jid: usize,
    found: bool,
    list: JobServerResp,
)
    requires
        pre.wf(),
        spec_finish_task(pre, post, jid, found),
        spec_list_available(post, list),
        has_task(pre.setup_tasks@, jid),
        pre.setup_tasks@[task_pos(pre.setup_tasks@, jid)].class is Some,
    ensures
        list matches JobServerResp::Machines(v) && exists|i: int|
            0 <= i < v@.len() && (#[trigger] v@[i]).0@ == pre.setup_tasks@[task_pos(pre.setup_tasks@, jid)].machine@
                && v@[i].1 == pre.setup_tasks@[task_pos(pre.setup_tasks@, jid)].class->0,
{
    let t = pre.setup_tasks@[task_pos(pre.setup_tasks@, jid)];
    let ms = pre.machines@;
    let v = list->Machines_0;
    if has_machine(ms, t.machine@) {
        let p = machine_pos(ms, t.machine@);
        assert(v@[p].0 == post.machines@[p].0);
        assert(v@[p].0@ == t.machine@ && v@[p].1 == t.class->0);
    } else {
        let p = ms.len() as int;
        assert(v@[p].0 == t.machine && v@[p].1 == t.class->0);
    }
}

/// Substituting variables leaves a command without `{` unchanged.
pub proof fn law_replace_vars_plain(cmd: Seq<char>, vars: Seq<(String, String)>)
    requires
        !cmd.contains('{'),
    ensures
        replace_vars(cmd, vars) == cmd,
    decreases vars.len(),
{
    if vars.len() > 0 {
        law_replace_vars_plain(cmd, vars.drop_last());
        lemma_replace_absent(cmd, placeholder(vars.last().0@), vars.last().1@);
    }
}

/// The number of commands of setup task `jid`.
pub open spec fn task_cmd_count(s: Server, jid: usize) -> nat {
    s.setup_tasks@[task_pos(s.setup_tasks@, jid)].cmds@.len()
}

/// A setup task's machine joins its class only after every one of its
/// commands succeeded, in order. Take the decisions of the task's thread
/// on their own: call `k` asks for command `k` after the outcome of
/// command `k - 1`, and the thread goes on only after it was told to run
/// command `k`. Before the last call the machines are untouched; if the
/// last call completes the task, the thread ran exactly the task's
/// commands, none of them failed, and the machines are those
/// `spec_finish_task` gives; otherwise the machines are as they were.
pub proof fn law_setup_joins_after_all_succeed(
    ss: Seq<Server>,
    nexts: Seq<usize>,
    outs: Seq<Option<Outcome>>,
    rs: Seq<SetupNext>,
    jid: usize,
)
    requires
        rs.len() > 0,
        ss.len() == rs.len() + 1,
        nexts.len() == rs.len(),
        outs.len() == rs.len(),
        forall|k: int| 0 <= k < ss.len() ==> (#[trigger] ss[k]).wf(),
        forall|k: int| 0 <= k < rs.len() ==> #[trigger] nexts[k] == k,
        forall|k: int|
            #![trigger rs[k]]
            0 <= k < rs.len() ==> spec_setup_step(ss[k], ss[k + 1], jid, nexts[k], outs[k], rs[k]),
        forall|k: int| 0 <= k < rs.len() - 1 ==> #[trigger] rs[k] == SetupNext::Run(nexts[k]),
    ensures
        forall|k: int| 0 <= k < rs.len() - 1 ==> (#[trigger] ss[k + 1]).machines@ == ss[0].machines@,
        rs.last() is Finish ==> {
            &&& has_task(ss[0].setup_tasks@, jid)
            &&& rs.len() - 1 == task_cmd_count(ss[0], jid)
            &&& forall|k: int| 1 <= k < rs.len() ==> !(#[trigger] outs[k] matches Some(Outcome::Failed(_)))
            &&& spec_finish_task(ss[rs.len() - 1], ss.last(), jid, true)
            &&& ss[rs.len() - 1].machines@ == ss[0].machines@
        },
        !(rs.last() is Finish) ==> ss.last().machines@ == ss[0].machines@,
{
    let n = rs.len() - 1;
    // Up to the last call, the task stays, with the same commands, and the
    // machines do not change.
    assert forall|k: int| 0 <= k <= n implies {
        &&& (k > 0 ==> has_task((#[trigger] ss[k]).setup_tasks@, jid))
        &&& (k > 0 ==> task_cmd_count(ss[k], jid) == task_cmd_count(ss[0], jid) && k <= task_cmd_count(ss[0], jid))
        &&& (k > 0 ==> has_task(ss[0].setup_tasks@, jid))
        &&& ss[k].machines@ == ss[0].machines@
        &&& forall|j: int| 1 <= j < k ==> !(#[trigger] outs[j] matches Some(Outcome::Failed(_)))
    } by {
        lemma_setup_prefix(ss, nexts, outs, rs, jid, k);
    }
    assert(rs[n] == rs.last());
    assert(spec_setup_step(ss[n], ss[n + 1], jid, nexts[n], outs[n], rs[n]));
    if rs.last() is Finish {
        if n > 0 {
            assert(has_task(ss[n].setup_tasks@, jid));
        } else {
            assert(has_task(ss[0].setup_tasks@, jid));
        }
        assert(!(outs[n] matches Some(Outcome::Failed(_))));
        assert(ss.last() == ss[n + 1]);
    } else {
        assert(ss.last() == ss[n + 1]);
        assert(ss[n + 1].machines@ == ss[n].machines@);
    }
}

proof fn lemma_setup_prefix(
    ss: Seq<Server>,
    nexts: Seq<usize>,
    outs: Seq<Option<Outcome>>,
    rs: Seq<SetupNext>,
    jid: usize,
    k: int,
)
    requires
        rs.len() > 0,
        ss.len() == rs.len() + 1,
        nexts.len() == rs.len(),
        outs.len() == rs.len(),
        forall|k: int| 0 <= k < ss.len() ==> (#[trigger] ss[k]).wf(),
        forall|k: int| 0 <= k < rs.len() ==> #[trigger] nexts[k] == k,
        forall|k: int|
            #![trigger rs[k]]
            0 <= k < rs.len() ==> spec_setup_step(ss[k], ss[k + 1], jid, nexts[k], outs[k], rs[k]),
        forall|k: int| 0 <= k < rs.len() - 1 ==> #[trigger] rs[k] == SetupNext::Run(nexts[k]),
        0 <= k < rs.len(),
    ensures
        k > 0 ==> has_task(ss[k].setup_tasks@, jid),
        k > 0 ==> task_cmd_count(ss[k], jid) == task_cmd_count(ss[0], jid) && k <= task_cmd_count(ss[0], jid),
        k > 0 ==> has_task(ss[0].setup_tasks@, jid),
        ss[k].machines@ == ss[0].machines@,
        forall|j: int| 1 <= j < k ==> !(#[trigger] outs[j] matches Some(Outcome::Failed(_))),
    decreases k,
{
    if k > 0 {
        let i = k - 1;
        lemma_setup_prefix(ss, nexts, outs, rs, jid, i);
        assert(rs[i] == SetupNext::Run(nexts[i]));
        assert(spec_setup_step(ss[i], ss[i + 1], jid, nexts[i], outs[i], rs[i]));
        let pre = ss[i];
        let post = ss[k];
        assert(has_task(pre.setup_tasks@, jid));
        let p = task_pos(pre.setup_tasks@, jid);
        assert(post.setup_tasks@[p].jid == jid);
        assert(has_task(post.setup_tasks@, jid));
        let q = task_pos(post.setup_tasks@, jid);
        assert(q == p) by {
            if q != p {
                assert(post.setup_tasks@[q].jid == post.setup_tasks@[p].jid);
            }
        }
        assert(!(outs[i] matches Some(Outcome::Failed(_))));
    }
}

} // verus!
