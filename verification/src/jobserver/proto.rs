//! Requests to the job server and its responses.
//!
//! Maps of the wire format are association lists here: a list of
//! `(key, value)` pairs in which each key occurs once.

use vstd::prelude::*;

verus! {

/// The address where the server listens.
pub const SERVER_ADDR: &'static str = "127.0.0.1:3030";

/// The status of a job.
#[allow(inconsistent_fields)]
pub enum Status {
    /// The job is waiting to run.
    Waiting,
    /// The job is currently running on `machine`.
    Running { machine: String },
    /// The job finished running on `machine`, with the name of its output
    /// files, if any.
    Done { machine: String, output: Option<String> },
    /// The job was cancelled.
    Cancelled,
    /// The job produced an error, on `machine` if it had one.
    Failed { machine: Option<String>, error: String },
}

/// A request to the job server.
#[allow(inconsistent_fields)]
pub enum JobServerReq {
    /// Used for debugging.
    Ping,
    /// Add the machine `addr` (IP:PORT) to the available machines, in `class`.
    MakeAvailable { addr: String, class: String },
    /// Remove the machine `addr` from the available machines.
    RemoveAvailable { addr: String },
    /// List the available machines known to the server.
    ListAvailable,
    /// Set up machine `addr` by running `cmds` in order, then make it
    /// available in `class` if one is given.
    SetUpMachine { addr: String, class: Option<String>, cmds: Vec<String> },
    /// Set the value of a variable.
    SetVar { name: String, value: String },
    /// List all set variables and their values.
    ListVars,
    /// Add a job running `cmd` on a machine of `class`, copying results to
    /// `cp_results` if given.
    AddJob { class: String, cmd: String, cp_results: Option<String> },
    /// Get a list of job IDs.
    ListJobs,
    /// Cancel a running or scheduled job.
    CancelJob { jid: usize },
    /// Get information on the status of a job.
    JobStatus { jid: usize },
    /// Create a new job with the same properties as job `jid`.
    CloneJob { jid: usize },
    /// Start a matrix: one job per element of the Cartesian product of the
    /// values of `vars`, each running the template `cmd`.
    AddMatrix {
        vars: Vec<(String, Vec<String>)>,
        cmd: String,
        class: String,
        cp_results: Option<String>,
    },
    /// Get information on the matrix `id`.
    StatMatrix { id: usize },
}

/// A response to the client.
#[allow(inconsistent_fields)]
pub enum JobServerResp {
    /// Succeeded. No return value.
    Success,
    /// Succeeded. The available machines and their classes.
    Machines(Vec<(String, String)>),
    /// A list of job IDs.
    Jobs(Vec<usize>),
    /// The variables and their values.
    Vars(Vec<(String, String)>),
    /// Succeeded. The job ID of a created job.
    JobId(usize),
    /// Succeeded. The matrix ID of a created matrix.
    MatrixId(usize),
    /// Succeeded. The status of a job.
    JobStatus {
        class: String,
        cmd: String,
        jid: usize,
        status: Status,
        variables: Vec<(String, String)>,
    },
    /// Succeeded. The status of a matrix.
    MatrixStatus {
        cmd: String,
        class: String,
        cp_results: Option<String>,
        id: usize,
        jobs: Vec<usize>,
        variables: Vec<(String, Vec<String>)>,
    },
    /// Error. The requested machine does not exist.
    NoSuchMachine,
    /// Error. No such job.
    NoSuchJob,
    /// Error. No such matrix.
    NoSuchMatrix,
}

// ---------------------------------------------------------------------------
// Copies whose contents are stated.

/// A copy of an optional string.
pub fn clone_opt_string(s: &Option<String>) -> (r: Option<String>)
    ensures
        r == *s,
{
    match s {
        Some(x) => Some(x.clone()),
        None => None,
    }
}

/// A copy of a list of strings.
pub fn clone_strings(v: &Vec<String>) -> (r: Vec<String>)
    ensures
        r@ == v@,
{
    let mut r: Vec<String> = Vec::new();
    let mut i: usize = 0;
    while i < v.len()
        invariant
            i <= v@.len(),
            r@ == v@.take(i as int),
        decreases v@.len() - i,
    {
        r.push(v[i].clone());
        i = i + 1;
        assert(r@ =~= v@.take(i as int));
    }
    assert(v@.take(v@.len() as int) =~= v@);
    r
}

/// A copy of a list of string pairs.
pub fn clone_pairs(v: &Vec<(String, String)>) -> (r: Vec<(String, String)>)
    ensures
        r@ == v@,
{
    let mut r: Vec<(String, String)> = Vec::new();
    let mut i: usize = 0;
    while i < v.len()
        invariant
            i <= v@.len(),
            r@ == v@.take(i as int),
        decreases v@.len() - i,
    {
        let (a, b) = (v[i].0.clone(), v[i].1.clone());
        r.push((a, b));
        i = i + 1;
        assert(r@ =~= v@.take(i as int));
    }
    assert(v@.take(v@.len() as int) =~= v@);
    r
}

/// A copy of a list of keys with their lists of values.
pub fn clone_multi(v: &Vec<(String, Vec<String>)>) -> (r: Vec<(String, Vec<String>)>)
    ensures
        r.len() == v.len(),
        forall|i: int| 0 <= i < v.len() ==> (#[trigger] r@[i]).0 == v@[i].0 && r@[i].1@ == v@[i].1@,
{
    let mut r: Vec<(String, Vec<String>)> = Vec::new();
    let mut i: usize = 0;
    while i < v.len()
        invariant
            i <= v@.len(),
            r.len() == i,
            forall|j: int| 0 <= j < i ==> (#[trigger] r@[j]).0 == v@[j].0 && r@[j].1@ == v@[j].1@,
        decreases v@.len() - i,
    {
        let k = v[i].0.clone();
        let vs = clone_strings(&v[i].1);
        r.push((k, vs));
        i = i + 1;
    }
    r
}

/// A copy of a list of IDs.
pub fn clone_ids(v: &Vec<usize>) -> (r: Vec<usize>)
    ensures
        r@ == v@,
{
    let mut r: Vec<usize> = Vec::new();
    let mut i: usize = 0;
    while i < v.len()
        invariant
            i <= v@.len(),
            r@ == v@.take(i as int),
        decreases v@.len() - i,
    {
        r.push(v[i]);
        i = i + 1;
        assert(r@ =~= v@.take(i as int));
    }
    assert(v@.take(v@.len() as int) =~= v@);
    r
}

impl Status {
    /// A copy of this status.
    pub fn copy(&self) -> (r: Status)
        ensures
            r == *self,
    {
        match self {
            Status::Waiting => Status::Waiting,
            Status::Running { machine } => Status::Running { machine: machine.clone() },
            Status::Done { machine, output } => Status::Done {
                machine: machine.clone(),
                output: clone_opt_string(output),
            },
            Status::Cancelled => Status::Cancelled,
            Status::Failed { machine, error } => Status::Failed {
                machine: clone_opt_string(machine),
                error: error.clone(),
            },
        }
    }
}

} // verus!
