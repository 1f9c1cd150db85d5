//! The client's side: reading the server's answers into job and machine
//! listings, ordering them, and laying them out as table rows; the
//! arguments the client accepts.

use vstd::prelude::*;
use crate::jobserver::proto::{JobServerResp, Status};
use crate::jobserver::runs::expand;
use crate::jobserver::template::{cmd_replace_machine, cmd_replace_vars, cmd_to_path, log_path, log_path_cuttable};
use crate::text::{
    byte_len, chars_of, on_boundary, owned, parse_usize, parse_usize_spec, prefix_bytes, push_char,
    str_le, str_le_exec, string_of, truncate_bytes, usize_to_string, decimal,
};

verus! {

broadcast use vstd::seq_lib::group_to_multiset_ensures;

/// A job as the client lists it.
pub struct JobInfo {
    pub class: String,
    pub cmd: String,
    pub jid: usize,
    pub status: Status,
    pub variables: Vec<(String, String)>,
}

/// A machine as the client lists it, with the job it runs.
pub struct MachineInfo {
    pub addr: String,
    pub class: String,
    pub running: Option<usize>,
}

/// The job described by a status answer, if it is one.
pub fn job_info(resp: JobServerResp) -> (r: Option<JobInfo>)
    ensures
        match resp {
            JobServerResp::JobStatus { class, cmd, jid, status, variables } => r matches Some(info)
                && info.class == class && info.cmd == cmd && info.jid == jid && info.status == status
                && info.variables == variables,
            _ => r is None,
        },
{
    match resp {
        JobServerResp::JobStatus { class, cmd, jid, status, variables } => Some(
            JobInfo { class, cmd, jid, status, variables },
        ),
        _ => None,
    }
}

// ---------------------------------------------------------------------------
// Ordering job IDs.

/// Whether the IDs are in increasing order.
pub open spec fn ascending(s: Seq<usize>) -> bool {
    forall|i: int, j: int| 0 <= i < j < s.len() ==> #[trigger] s[i] <= #[trigger] s[j]
}

/// Sorts job IDs in increasing order.
pub fn sort_jids(jids: &mut Vec<usize>)
    ensures
        ascending(final(jids)@),
        final(jids)@.to_multiset() == old(jids)@.to_multiset(),
{
    let input = jids.clone();
    let mut out: Vec<usize> = Vec::new();
    let mut i: usize = 0;
    while i < input.len()
        invariant
            i <= input@.len(),
            input@ == old(jids)@,
            ascending(out@),
            out@.to_multiset() == input@.take(i as int).to_multiset(),
        decreases input@.len() - i,
    {
        let x = input[i];
        let mut k: usize = 0;
        while k < out.len() && out[k] <= x
            invariant
                k <= out@.len(),
                forall|m: int| 0 <= m < k ==> out@[m] <= x,
            decreases out@.len() - k,
        {
            k = k + 1;
        }
        let ghost before = out@;
        out.insert(k, x);
        assert(out@ == before.insert(k as int, x));
        assert(input@.take(i + 1) =~= input@.take(i as int).push(x));
        assert(ascending(out@)) by {
            assert forall|a: int, b: int| 0 <= a < b < out@.len() implies out@[a] <= out@[b] by {
                if b < k {
                    assert(out@[a] == before[a] && out@[b] == before[b]);
                } else if b == k {
                    assert(out@[a] == before[a]);
                } else if a > k {
                    assert(out@[a] == before[a - 1] && out@[b] == before[b - 1]);
                } else if a == k {
                    assert(out@[b] == before[b - 1]);
                    assert(before[k as int] > x);
                } else {
                    assert(out@[a] == before[a] && out@[b] == before[b - 1]);
                }
            }
        }
        i = i + 1;
    }
    assert(input@.take(i as int) =~= input@);
    *jids = out;
}

/// The IDs of the jobs the server listed, in increasing order: the jobs
/// whose status the client asks for next.
pub fn list_jobs(resp: JobServerResp) -> (r: Vec<usize>)
    requires
        resp is Jobs,
    ensures
        ascending(r@),
        r@.to_multiset() == resp->Jobs_0@.to_multiset(),
{
    match resp {
        JobServerResp::Jobs(ids) => {
            let mut ids = ids;
            sort_jids(&mut ids);
            ids
        },
        _ => Vec::new(),
    }
}

/// The jobs described by the status answers in `answers`, in order; an
/// answer of another kind describes no job.
pub open spec fn described_jobs(answers: Seq<JobServerResp>) -> Seq<JobInfo>
    decreases answers.len(),
{
    if answers.len() == 0 {
        Seq::empty()
    } else {
        let rest = described_jobs(answers.drop_last());
        match answers.last() {
            JobServerResp::JobStatus { class, cmd, jid, status, variables } => rest.push(
                JobInfo { class, cmd, jid, status, variables },
            ),
            _ => rest,
        }
    }
}

/// The jobs described by the server's answers to the status requests.
pub fn stat_jobs(answers: Vec<JobServerResp>) -> (r: Vec<JobInfo>)
    ensures
        r@ == described_jobs(answers@),
{
    let ghost all = answers@;
    let mut rest = answers;
    let mut r: Vec<JobInfo> = Vec::new();
    let ghost mut k: int = 0;
    while rest.len() > 0
        invariant
            0 <= k <= all.len(),
            rest@ == all.skip(k),
            r@ == described_jobs(all.take(k)),
        decreases rest@.len(),
    {
        let a = rest.remove(0);
        proof {
            assert(a == all[k]);
            assert(all.take(k + 1).drop_last() =~= all.take(k));
            assert(all.take(k + 1).last() == a);
            assert(rest@ =~= all.skip(k + 1));
            k = k + 1;
        }
        match a {
            JobServerResp::JobStatus { class, cmd, jid, status, variables } => {
                r.push(JobInfo { class, cmd, jid, status, variables });
            },
            _ => {},
        }
    }
    assert(all.take(k) =~= all);
    r
}

// ---------------------------------------------------------------------------
// Machines.

/// Whether job `j` is running on machine `m`.
pub open spec fn runs_on(j: JobInfo, m: Seq<char>) -> bool {
    j.status matches Status::Running { machine } && machine@ == m
}

/// The job running on machine `m`, according to the job list.
pub open spec fn running_on(jobs: Seq<JobInfo>, m: Seq<char>) -> Option<usize> {
    if exists|i: int| 0 <= i < jobs.len() && runs_on(#[trigger] jobs[i], m) {
        Some(jobs[choose|i: int| 0 <= i < jobs.len() && runs_on(#[trigger] jobs[i], m)].jid)
    } else {
        None
    }
}

/// No two jobs of the list run on the same machine.
pub open spec fn one_job_per_machine(jobs: Seq<JobInfo>) -> bool {
    forall|i: int, j: int|
        0 <= i < jobs.len() && 0 <= j < jobs.len() && i != j && (#[trigger] jobs[i]).status is Running
            && (#[trigger] jobs[j]).status is Running ==> jobs[i].status->Running_machine@
            != jobs[j].status->Running_machine@
}

/// Each machine address occurs once.
pub open spec fn addrs_unique(ms: Seq<(String, String)>) -> bool {
    forall|i: int, j: int| 0 <= i < ms.len() && 0 <= j < ms.len() && i != j ==> (#[trigger] ms[i]).0@ != (#[trigger] ms[j]).0@
}

/// The order of the machine listing: by class, then by address.
pub open spec fn machine_le(a: MachineInfo, b: MachineInfo) -> bool {
    ||| str_le(a.class@, b.class@) && a.class@ != b.class@
    ||| a.class@ == b.class@ && str_le(a.addr@, b.addr@)
}

proof fn lemma_machine_le_total(a: MachineInfo, b: MachineInfo)
    ensures
        machine_le(a, b) || machine_le(b, a),
{
    crate::text::lemma_str_le_total(a.class@, b.class@);
    crate::text::lemma_str_le_total(a.addr@, b.addr@);
}

proof fn lemma_machine_le_trans(a: MachineInfo, b: MachineInfo, c: MachineInfo)
    requires
        machine_le(a, b),
        machine_le(b, c),
    ensures
        machine_le(a, c),
{
    crate::text::lemma_str_le_refl(a.class@);
    crate::text::lemma_str_le_refl(b.class@);
    crate::text::lemma_str_le_trans(a.class@, b.class@, c.class@);
    if a.class@ == c.class@ {
        crate::text::lemma_str_le_antisym(a.class@, b.class@);
        crate::text::lemma_str_le_trans(a.addr@, b.addr@, c.addr@);
    }
}

/// Whether the listing is in order.
pub open spec fn machines_sorted(s: Seq<MachineInfo>) -> bool {
    forall|i: int, j: int| 0 <= i < j < s.len() ==> machine_le(#[trigger] s[i], #[trigger] s[j])
}

/// The listing entry of machine `m` of class `c`.
pub open spec fn machine_entry(m: (String, String), jobs: Seq<JobInfo>) -> MachineInfo {
    MachineInfo { addr: m.0, class: m.1, running: running_on(jobs, m.0@) }
}

/// The available machines with the jobs they run, ordered by class and
/// then address.
pub fn list_avail(avail: JobServerResp, jobs: Vec<JobInfo>) -> (r: Vec<MachineInfo>)
    requires
        avail is Machines,
        addrs_unique(avail->Machines_0@),
        one_job_per_machine(jobs@),
    ensures
        machines_sorted(r@),
        r@.to_multiset() == avail->Machines_0@.map_values(|m: (String, String)| machine_entry(m, jobs@)).to_multiset(),
{
    let machines = match avail {
        JobServerResp::Machines(ms) => ms,
        _ => Vec::new(),
    };
    let ghost entries = machines@.map_values(|m: (String, String)| machine_entry(m, jobs@));
    let mut out: Vec<MachineInfo> = Vec::new();
    let mut i: usize = 0;
    while i < machines.len()
        invariant
            i <= machines@.len(),
            entries == machines@.map_values(|m: (String, String)| machine_entry(m, jobs@)),
            one_job_per_machine(jobs@),
            machines_sorted(out@),
            out@.to_multiset() == entries.take(i as int).to_multiset(),
        decreases machines@.len() - i,
    {
        let running = job_on(&jobs, machines[i].0.as_str());
        let x = MachineInfo { addr: machines[i].0.clone(), class: machines[i].1.clone(), running };
        assert(x == entries[i as int]);
        let mut k: usize = 0;
        while k < out.len() && machine_le_exec(&out[k], &x)
            invariant
                k <= out@.len(),
                forall|m: int| 0 <= m < k ==> machine_le(out@[m], x),
            decreases out@.len() - k,
        {
            k = k + 1;
        }
        let ghost before = out@;
        out.insert(k, x);
        assert(entries.take(i + 1) =~= entries.take(i as int).push(entries[i as int]));
        assert(machines_sorted(out@)) by {
            assert forall|a: int, b: int| 0 <= a < b < out@.len() implies machine_le(#[trigger] out@[a], #[trigger] out@[b]) by {
                if b < k {
                    assert(out@[a] == before[a] && out@[b] == before[b]);
                } else if b == k {
                    assert(out@[a] == before[a]);
                } else if a > k {
                    assert(out@[a] == before[a - 1] && out@[b] == before[b - 1]);
                } else if a == k {
                    assert(out@[b] == before[b - 1]);
                    lemma_machine_le_total(before[k as int], entries[i as int]);
                    if b - 1 > k {
                        lemma_machine_le_trans(entries[i as int], before[k as int], before[b - 1]);
                    }
                } else {
                    assert(out@[a] == before[a] && out@[b] == before[b - 1]);
                    assert(machine_le(before[a], entries[i as int]));
                    lemma_machine_le_total(before[k as int], entries[i as int]);
                    if b - 1 > k {
                        lemma_machine_le_trans(before[a], entries[i as int], before[k as int]);
                    }
                }
            }
        }
        i = i + 1;
    }
    assert(entries.take(i as int) =~= entries);
    out
}

/// Whether `a` comes no later than `b` in the machine listing.
fn machine_le_exec(a: &MachineInfo, b: &MachineInfo) -> (r: bool)
    ensures
        r == machine_le(*a, *b),
{
    let same_class = crate::text::str_eq(a.class.as_str(), b.class.as_str());
    if same_class {
        str_le_exec(a.addr.as_str(), b.addr.as_str())
    } else {
        str_le_exec(a.class.as_str(), b.class.as_str())
    }
}

/// The job that the list shows running on machine `m`, if any.
fn job_on(jobs: &Vec<JobInfo>, m: &str) -> (r: Option<usize>)
    requires
        one_job_per_machine(jobs@),
    ensures
        r == running_on(jobs@, m@),
{
    let mut i: usize = 0;
    while i < jobs.len()
        invariant
            i <= jobs@.len(),
            one_job_per_machine(jobs@),
            forall|k: int| 0 <= k < i ==> !runs_on(#[trigger] jobs@[k], m@),
        decreases jobs@.len() - i,
    {
        let here = match &jobs[i].status {
            Status::Running { machine } => crate::text::str_eq(machine.as_str(), m),
            _ => false,
        };
        if here {
            assert(runs_on(jobs@[i as int], m@));
            let ghost c = choose|c: int| 0 <= c < jobs@.len() && runs_on(#[trigger] jobs@[c], m@);
            assert(c == i) by {
                if c != i {
                    assert(jobs@[c].status is Running && jobs@[i as int].status is Running);
                }
            }
            return Some(jobs[i].jid);
        }
        i = i + 1;
    }
    None
}

// ---------------------------------------------------------------------------
// Table rows.

/// The kind of a row of the job table, which decides its label and style.
pub enum RowKind {
    Cancelled,
    Waiting,
    Done,
    DoneWithOutput,
    Failed,
    Running,
}

/// One row of the job table.
pub struct JobRow {
    pub jid: usize,
    pub kind: RowKind,
    pub class: String,
    pub cmd: String,
    pub machine: String,
    pub output: String,
}

/// The longest command shown in the short listing, in bytes.
pub const TRUNC: usize = 30;

/// The command as the listing shows it: cut to 30 bytes unless long.
pub open spec fn shown_cmd(cmd: Seq<char>, is_long: bool) -> Seq<char> {
    if is_long {
        cmd
    } else {
        prefix_bytes(cmd, TRUNC as nat)
    }
}

/// Whether the command can be cut for the short listing
/// (`String::truncate` panics inside a character).
pub open spec fn cmd_cuttable(cmd: Seq<char>, is_long: bool) -> bool {
    is_long || byte_len(cmd) <= TRUNC || on_boundary(cmd, TRUNC as nat)
}

/// The row that lists `job`.
pub open spec fn row_of(job: JobInfo, is_long: bool, row: JobRow) -> bool {
    &&& row.jid == job.jid
    &&& row.class == job.class
    &&& row.cmd@ == shown_cmd(job.cmd@, is_long)
    &&& match job.status {
        Status::Cancelled => row.kind is Cancelled && row.machine@.len() == 0 && row.output@.len() == 0,
        Status::Waiting => row.kind is Waiting && row.machine@.len() == 0 && row.output@.len() == 0,
        Status::Done { machine, output: None } => row.kind is Done && row.machine == machine
            && row.output@.len() == 0,
        Status::Done { machine, output: Some(path) } => row.kind is DoneWithOutput && row.machine
            == machine && (if is_long { row.output == path } else { row.output@ == "Ready"@ }),
        Status::Failed { error, machine } => row.kind is Failed && (match machine {
            Some(m) => row.machine == m,
            None => row.machine@.len() == 0,
        }) && row.output == error,
        Status::Running { machine } => row.kind is Running && row.machine == machine
            && row.output@.len() == 0,
    }
}

/// The row of the job table for `job`.
pub fn job_row(job: JobInfo, is_long: bool) -> (row: JobRow)
    requires
        cmd_cuttable(job.cmd@, is_long),
    ensures
        row_of(job, is_long, row),
{
    let cmd = if is_long { job.cmd } else { truncate_bytes(job.cmd.as_str(), TRUNC) };
    let jid = job.jid;
    let class = job.class;
    match job.status {
        Status::Cancelled => JobRow { jid, kind: RowKind::Cancelled, class, cmd, machine: String::new(), output: String::new() },
        Status::Waiting => JobRow { jid, kind: RowKind::Waiting, class, cmd, machine: String::new(), output: String::new() },
        Status::Done { machine, output: None } => JobRow { jid, kind: RowKind::Done, class, cmd, machine, output: String::new() },
        Status::Done { machine, output: Some(path) } => {
            let output = if is_long { path } else { owned("Ready") };
            JobRow { jid, kind: RowKind::DoneWithOutput, class, cmd, machine, output }
        },
        Status::Failed { error, machine } => {
            let machine = match machine {
                Some(m) => m,
                None => String::new(),
            };
            JobRow { jid, kind: RowKind::Failed, class, cmd, machine, output: error }
        },
        Status::Running { machine } => JobRow { jid, kind: RowKind::Running, class, cmd, machine, output: String::new() },
    }
}

/// The text of the "Running" column for a machine: the job it runs, if any.
pub fn running_cell(m: &MachineInfo) -> (r: String)
    ensures
        match m.running {
            Some(j) => r@ == decimal(j as nat),
            None => r@.len() == 0,
        },
{
    match m.running {
        Some(j) => usize_to_string(j),
        None => String::new(),
    }
}

// ---------------------------------------------------------------------------
// Log paths.

/// The log file of a job with `cmd`, `status` and `variables`: that of its
/// expanded command on the machine it ran or runs on, or `/dev/null` if it
/// never had a machine.
pub open spec fn job_log(cmd: Seq<char>, status: Status, variables: Seq<(String, String)>) -> Seq<char> {
    match status {
        Status::Done { machine, .. } => log_path(expand(cmd, variables, machine@)),
        Status::Failed { machine: Some(machine), .. } => log_path(expand(cmd, variables, machine@)),
        Status::Running { machine } => log_path(expand(cmd, variables, machine@)),
        _ => "/dev/null"@,
    }
}

/// The machine on which a job with `status` ran or runs.
pub open spec fn status_machine(status: Status) -> Option<String> {
    match status {
        Status::Done { machine, .. } => Some(machine),
        Status::Failed { machine: Some(machine), .. } => Some(machine),
        Status::Running { machine } => Some(machine),
        _ => None,
    }
}

/// What the columns of a job's row show: its ID and class; in the machine
/// column the machine the job ran or runs on (the one its log file is named
/// for), or nothing if it never had one; for a failed job, its error in
/// the output column; and a kind that names the status.
pub proof fn law_row_columns(job: JobInfo, is_long: bool, row: JobRow)
    requires
        row_of(job, is_long, row),
    ensures
        row.jid == job.jid,
        row.class == job.class,
        status_machine(job.status) is Some ==> row.machine == status_machine(job.status)->0,
        status_machine(job.status) is None ==> row.machine@ =~= Seq::<char>::empty(),
        job.status is Failed ==> row.output == job.status->Failed_error && row.kind is Failed,
        job.status is Running ==> row.kind is Running,
        job.status is Waiting ==> row.kind is Waiting,
        job.status is Cancelled ==> row.kind is Cancelled,
        job.status is Done ==> (row.kind is Done || row.kind is DoneWithOutput),
{
}

/// The path of the log file of a job.
pub fn job_log_path(cmd: &str, status: &Status, variables: &Vec<(String, String)>) -> (r: String)
    requires
        status_machine(*status) matches Some(m) ==> log_path_cuttable(expand(cmd@, variables@, m@)),
    ensures
        r@ == job_log(cmd@, *status, variables@),
{
    let machine = match status {
        Status::Done { machine, .. } => Some(machine),
        Status::Failed { machine: Some(machine), .. } => Some(machine),
        Status::Running { machine } => Some(machine),
        _ => None,
    };
    match machine {
        Some(m) => {
            let c = cmd_replace_machine(cmd_replace_vars(cmd, variables).as_str(), m.as_str());
            cmd_to_path(c.as_str())
        },
        None => owned("/dev/null"),
    }
}

// ---------------------------------------------------------------------------
// Arguments.

/// The pieces of `s` between the occurrences of `sep`, read from the left:
/// the pieces completed so far and the piece in progress.
pub open spec fn split_acc(s: Seq<char>, sep: char) -> (Seq<Seq<char>>, Seq<char>)
    decreases s.len(),
{
    if s.len() == 0 {
        (Seq::empty(), Seq::empty())
    } else {
        let (ps, cur) = split_acc(s.drop_last(), sep);
        if s.last() == sep {
            (ps.push(cur), Seq::empty())
        } else {
            (ps, cur.push(s.last()))
        }
    }
}

/// The pieces of `s` between the occurrences of `sep`, empty ones included
/// (`str::split`).
pub open spec fn split_on(s: Seq<char>, sep: char) -> Seq<Seq<char>> {
    split_acc(s, sep).0.push(split_acc(s, sep).1)
}

/// The position of the first `=` in `s`.
pub open spec fn first_eq(s: Seq<char>) -> int {
    choose|i: int| 0 <= i < s.len() && s[i] == '=' && forall|k: int| 0 <= k < i ==> s[k] != '='
}

/// A matrix variable argument `KEY=VALUE1,VALUE2,...`: the key before the
/// first `=` and the comma-separated values after it.
pub fn parse_matrix_var(val: &str) -> (r: (String, Vec<String>))
    requires
        val@.contains('='),
    ensures
        r.0@ == val@.take(first_eq(val@)),
        r.1.len() == split_on(val@.skip(first_eq(val@) + 1), ',').len(),
        forall|i: int| 0 <= i < r.1.len() ==> (#[trigger] r.1@[i])@ == split_on(val@.skip(first_eq(val@) + 1), ',')[i],
{
    let v = chars_of(val);
    let mut e: usize = 0;
    while e < v.len() && v[e] != '='
        invariant
            v@ == val@,
            e <= v@.len(),
            val@.contains('='),
            forall|k: int| 0 <= k < e ==> v@[k] != '=',
        decreases v@.len() - e,
    {
        e = e + 1;
    }
    assert(e < v@.len() && v@[e as int] == '=');
    let ghost fe = first_eq(val@);
    assert(fe == e) by {
        if fe < e {
            assert(v@[fe] != '=');
        } else if fe > e {
            assert(val@[e as int] != '=');
        }
    }
    let key = crate::text::string_of_prefix(v.as_slice(), e);
    let ghost rest = val@.skip(e + 1);
    let mut done: Vec<String> = Vec::new();
    let mut cur: Vec<char> = Vec::new();
    let mut i: usize = e + 1;
    while i < v.len()
        invariant
            v@ == val@,
            e < i <= v@.len(),
            rest == val@.skip(e + 1),
            done.len() == split_acc(rest.take(i - e - 1), ',').0.len(),
            forall|k: int| 0 <= k < done.len() ==> (#[trigger] done@[k])@ == split_acc(rest.take(i - e - 1), ',').0[k],
            cur@ == split_acc(rest.take(i - e - 1), ',').1,
        decreases v@.len() - i,
    {
        assert(rest.take(i - e).drop_last() =~= rest.take(i - e - 1));
        assert(rest.take(i - e).last() == v@[i as int]);
        if v[i] == ',' {
            let w = string_of(&cur);
            done.push(w);
            cur = Vec::new();
        } else {
            cur.push(v[i]);
        }
        i = i + 1;
    }
    assert(rest.take(i - e - 1) =~= rest);
    let w = string_of(&cur);
    done.push(w);
    (key, done)
}

/// What `s.parse::<usize>()` reports when it fails, formatted with `{:?}`.
pub uninterp spec fn usize_parse_error_debug(s: Seq<char>) -> Seq<char>;

/// The `Debug` rendering of the error of `s.parse::<usize>()`, which fails
/// on `s` (`<usize as FromStr>::from_str`). Nothing is said of the text
/// but that it is determined by `s`.
#[verifier::external_body]
fn parse_error_text(s: &str) -> (r: String)
    requires
        parse_usize_spec(s@) is None,
    ensures
        r@ == usize_parse_error_debug(s@),
{
    match s.parse::<usize>() {
        Ok(_) => String::new(),
        Err(e) => format!("{:?}", e),
    }
}

/// Checks that an argument is an unsigned integer, with the parser's error
/// message otherwise.
pub fn is_usize(s: String) -> (r: Result<(), String>)
    ensures
        r is Ok <==> parse_usize_spec(s@) is Some,
        r matches Err(msg) ==> msg@ == usize_parse_error_debug(s@),
{
    match parse_usize(s.as_str()) {
        Some(_) => Ok(()),
        None => Err(parse_error_text(s.as_str())),
    }
}

} // verus!
