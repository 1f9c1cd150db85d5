//! Running a list of experiments on a pool of machines: which machine takes
//! the next experiment, the command line each experiment becomes, where its
//! output is logged, and the line that reports its results.
//!
//! Each experiment waits for a free machine, runs the runner there, copies
//! the results file the runner names back to this host and frees the
//! machine again; the waiting, running and copying happen outside.

use vstd::prelude::*;
use crate::jobserver::runs::{host_of, host_part, last_results, scan_results};
use crate::text::{
    chars_of, owned, push_str, push_usize, decimal, replace_all, replace_str, split_whitespace,
    string_of, string_of_prefix, words,
};

verus! {

/// The directory of the runner on every machine.
pub const RUNNER: &'static str = "/nobackup/research-workspace/runner/";

/// The directory on this host that results files are copied to.
pub const RESULTS_DIR: &'static str = "/u/m/a/markm/private/large_mem/results/scratch/";

// ---------------------------------------------------------------------------
// Input files.

/// `l` without the carriage return that ends it, if any.
pub open spec fn strip_cr(l: Seq<char>) -> Seq<char> {
    if l.len() > 0 && l.last() == '\r' {
        l.drop_last()
    } else {
        l
    }
}

/// The lines of `s` completed so far and the line in progress, after
/// reading `s` from the left.
pub open spec fn lines_acc(s: Seq<char>) -> (Seq<Seq<char>>, Seq<char>)
    decreases s.len(),
{
    if s.len() == 0 {
        (Seq::empty(), Seq::empty())
    } else {
        let (ls, cur) = lines_acc(s.drop_last());
        if s.last() == '\n' {
            (ls.push(strip_cr(cur)), Seq::empty())
        } else {
            (ls, cur.push(s.last()))
        }
    }
}

/// The lines of `s` (`str::lines`): the pieces ended by a line feed, each
/// without a carriage return before it, and the unended rest if it is not
/// empty.
pub open spec fn text_lines(s: Seq<char>) -> Seq<Seq<char>> {
    let (ls, cur) = lines_acc(s);
    if cur.len() > 0 {
        ls.push(cur)
    } else {
        ls
    }
}

fn line_of(cur: &Vec<char>) -> (r: String)
    ensures
        r@ == strip_cr(cur@),
{
    if cur.len() > 0 && cur[cur.len() - 1] == '\r' {
        let r = string_of_prefix(cur.as_slice(), cur.len() - 1);
        assert(cur@.take(cur@.len() - 1) =~= cur@.drop_last());
        r
    } else {
        string_of(cur)
    }
}

/// The lines of a file of machines or of experiments, one per line.
pub fn lines(text: &str) -> (r: Vec<String>)
    ensures
        r.len() == text_lines(text@).len(),
        forall|i: int| 0 <= i < r.len() ==> (#[trigger] r@[i])@ == text_lines(text@)[i],
{
    let v = chars_of(text);
    let mut done: Vec<String> = Vec::new();
    let mut cur: Vec<char> = Vec::new();
    let mut i: usize = 0;
    while i < v.len()
        invariant
            v@ == text@,
            i <= v@.len(),
            done.len() == lines_acc(text@.take(i as int)).0.len(),
            forall|k: int| 0 <= k < done.len() ==> (#[trigger] done@[k])@ == lines_acc(text@.take(i as int)).0[k],
            cur@ == lines_acc(text@.take(i as int)).1,
        decreases v@.len() - i,
    {
        assert(text@.take(i + 1).drop_last() =~= text@.take(i as int));
        assert(text@.take(i + 1).last() == v@[i as int]);
        if v[i] == '\n' {
            let l = line_of(&cur);
            done.push(l);
            cur = Vec::new();
        } else {
            cur.push(v[i]);
        }
        i = i + 1;
    }
    assert(text@.take(i as int) =~= text@);
    if cur.len() > 0 {
        let l = string_of(&cur);
        done.push(l);
    }
    done
}

// ---------------------------------------------------------------------------
// The pool of free machines.

/// The machines that are free, used as a stack: the machine freed last is
/// taken first.
pub struct MachinePool {
    /// The free machines, the next one to be taken last.
    pub free: Vec<String>,
}

/// The machine that the pool `p` hands out next, if it has one.
pub open spec fn next_machine(p: Seq<Seq<char>>) -> Option<Seq<char>> {
    if p.len() == 0 {
        None
    } else {
        Some(p.last())
    }
}

/// The pool `p` after it has handed out a machine.
pub open spec fn after_acquire(p: Seq<Seq<char>>) -> Seq<Seq<char>> {
    if p.len() == 0 {
        p
    } else {
        p.drop_last()
    }
}

/// The pool `p` after the machine `m` has been freed.
pub open spec fn after_release(p: Seq<Seq<char>>, m: Seq<char>) -> Seq<Seq<char>> {
    p.push(m)
}

impl View for MachinePool {
    type V = Seq<Seq<char>>;

    open spec fn view(&self) -> Seq<Seq<char>> {
        self.free@.map_values(|m: String| m@)
    }
}

impl MachinePool {
    /// A pool in which all of `machines` are free.
    pub fn new(machines: Vec<String>) -> (r: MachinePool)
        ensures
            r@ == machines@.map_values(|m: String| m@),
    {
        MachinePool { free: machines }
    }

    /// The number of free machines.
    pub fn len(&self) -> (r: usize)
        ensures
            r == self@.len(),
    {
        self.free.len()
    }

    /// Takes a free machine, if there is one.
    pub fn acquire(&mut self) -> (r: Option<String>)
        ensures
            match r {
                Some(m) => next_machine(old(self)@) == Some(m@),
                None => next_machine(old(self)@) is None,
            },
            final(self)@ == after_acquire(old(self)@),
    {
        let r = self.free.pop();
        assert(self@ =~= after_acquire(old(self)@));
        r
    }

    /// Frees the machine `m`.
    pub fn release(&mut self, m: String)
        ensures
            final(self)@ == after_release(old(self)@, m@),
    {
        self.free.push(m);
        assert(self@ =~= after_release(old(self)@, m@));
    }
}

/// A machine freed into the pool is the next one it hands out, and handing
/// it out leaves the pool as it was.
pub proof fn law_release_then_acquire(p: Seq<Seq<char>>, m: Seq<char>)
    ensures
        next_machine(after_release(p, m)) == Some(m),
        after_acquire(after_release(p, m)) == p,
{
    assert(p.push(m).drop_last() =~= p);
}

/// Freeing the machine a pool handed out gives back the pool it was: no
/// machine is lost or doubled by an experiment.
pub proof fn law_acquire_then_release(p: Seq<Seq<char>>)
    requires
        next_machine(p) is Some,
    ensures
        after_release(after_acquire(p), next_machine(p)->0) == p,
{
    assert(p.drop_last().push(p.last()) =~= p);
}

// ---------------------------------------------------------------------------
// Running an experiment.

/// The runner subcommand of an experiment on `machine`: the template with
/// each `{MACHINE}` replaced by the machine.
pub fn experiment_cmd(template: &str, machine: &str) -> (r: String)
    ensures
        r@ == replace_all(template@, "{MACHINE}"@, machine@),
{
    proof {
        reveal_strlit("{MACHINE}");
    }
    replace_str(template, "{MACHINE}", machine)
}

/// A template that mentions no `{` is the same on every machine.
pub proof fn law_plain_template(template: Seq<char>, machine: Seq<char>)
    requires
        !template.contains('{'),
    ensures
        replace_all(template, "{MACHINE}"@, machine) == template,
{
    reveal_strlit("{MACHINE}");
    crate::text::lemma_replace_absent(template, "{MACHINE}"@, machine);
}

/// The file the output of the command `cmd` is logged to: `/tmp/` and the
/// command with its spaces and braces made underscores.
pub open spec fn output_log(cmd: Seq<char>) -> Seq<char> {
    "/tmp/"@ + replace_all(replace_all(replace_all(cmd, " "@, "_"@), "{"@, "_"@), "}"@, "_"@)
}

/// The file the output of the command `cmd` is logged to.
pub fn output_log_path(cmd: &str) -> (r: String)
    ensures
        r@ == output_log(cmd@),
{
    proof {
        reveal_strlit(" ");
        reveal_strlit("{");
        reveal_strlit("}");
    }
    let a = replace_str(cmd, " ", "_");
    let b = replace_str(a.as_str(), "{", "_");
    let c = replace_str(b.as_str(), "}", "_");
    let mut r = owned("/tmp/");
    push_str(&mut r, c.as_str());
    r
}

/// The arguments of `cargo` that run the runner with the subcommand `cmd`
/// and have it print the path of its results.
pub fn runner_args(cmd: &str) -> (r: Vec<String>)
    ensures
        r.len() == 3 + words(cmd@).len(),
        r@[0]@ == "run"@,
        r@[1]@ == "--"@,
        r@[2]@ == "--print_results_path"@,
        forall|i: int| 0 <= i < words(cmd@).len() ==> (#[trigger] r@[i + 3])@ == words(cmd@)[i],
{
    let mut r: Vec<String> = Vec::new();
    r.push(owned("run"));
    r.push(owned("--"));
    r.push(owned("--print_results_path"));
    let ws = split_whitespace(cmd);
    let mut i: usize = 0;
    while i < ws.len()
        invariant
            i <= ws@.len(),
            ws.len() == words(cmd@).len(),
            forall|k: int| 0 <= k < ws.len() ==> (#[trigger] ws@[k])@ == words(cmd@)[k],
            r.len() == 3 + i,
            r@[0]@ == "run"@,
            r@[1]@ == "--"@,
            r@[2]@ == "--print_results_path"@,
            forall|k: int| 0 <= k < i ==> (#[trigger] r@[k + 3])@ == words(cmd@)[k],
        decreases ws@.len() - i,
    {
        r.push(ws[i].clone());
        assert(r@[i + 3]@ == words(cmd@)[i as int]);
        i = i + 1;
    }
    r
}

/// The results file that the runner's output names: the last line of the
/// form `RESULTS: <file>`.
pub fn results_path(output: &Vec<String>) -> (r: Option<String>)
    ensures
        r matches Some(p) ==> last_results(output@) == Some(p@),
        r is None ==> last_results(output@) is None,
{
    scan_results(output)
}

/// The `scp` source of the results file `path` on `machine`, a
/// `HOSTNAME:PORT` name: the host, a colon and the path.
pub fn results_source(machine: &str, path: &str) -> (r: String)
    ensures
        r@ == host_of(machine@) + ":"@ + path@,
{
    let mut r = host_part(machine);
    push_str(&mut r, ":");
    push_str(&mut r, path);
    r
}

/// How the run of an experiment ended.
pub enum RunResult {
    /// The runner named a results file, which was copied back.
    Results(String),
    /// The runner named no results file.
    NoOutput,
    /// The runner could not be run.
    Failed,
}

/// What the summary reports for a run that ended with `r`.
pub open spec fn result_label(r: RunResult) -> Seq<char> {
    match r {
        RunResult::Results(p) => p@,
        RunResult::NoOutput => "NONE"@,
        RunResult::Failed => "FAILED"@,
    }
}

/// The line of the summary for the experiment `cmd`: the command and the
/// results file, `NONE` or `FAILED`.
pub fn summary_line(cmd: &str, result: &RunResult) -> (r: String)
    ensures
        r@ == cmd@ + " "@ + result_label(*result),
{
    let mut r = owned(cmd);
    push_str(&mut r, " ");
    match result {
        RunResult::Results(p) => push_str(&mut r, p.as_str()),
        RunResult::NoOutput => push_str(&mut r, "NONE"),
        RunResult::Failed => push_str(&mut r, "FAILED"),
    }
    r
}

/// The progress prefix of the `i`-th of `n` experiments, counted from
/// zero: `[i+1/n]`.
pub fn progress_prefix(i: usize, n: usize) -> (r: String)
    requires
        i < n,
    ensures
        r@ == "["@ + decimal((i + 1) as nat) + "/"@ + decimal(n as nat) + "]"@,
{
    let mut r = owned("[");
    push_usize(&mut r, i + 1);
    push_str(&mut r, "/");
    push_usize(&mut r, n);
    push_str(&mut r, "]");
    r
}

} // verus!
