//! Routines common to all experiments: logins, repositories, version
//! names, timing reports, kernel builds and services.

use vstd::prelude::*;
use crate::runner::cmd::{cmd, Cmd};
use crate::text::{
    chars_of, decimal, owned, parse_usize, parse_usize_spec, push_char, push_str, push_decimal,
    push_usize, replace_all, replace_str, string_of_prefix, trim, trim_spec,
};

verus! {

/// A user name on a remote machine.
pub struct Username<'u>(pub &'u str);

impl<'u> Username<'u> {
    /// The name.
    pub fn as_str(&self) -> (r: &str)
        ensures
            r@ == self.0@,
    {
        self.0
    }
}

/// A GitHub repository and how to reach it.
pub enum GitHubRepo {
    /// Over SSH, by its git URL (e.g. `git@github.com:mark-i-m/spurs`).
    Ssh { repo: String },
    /// Over HTTPS, by its URL without scheme (e.g. `github.com/mark-i-m/spurs`)
    /// and the (user name, token) to authenticate with, if needed.
    Https { repo: String, token: Option<(String, String)> },
}

/// The address git uses for a repository.
pub open spec fn repo_url(r: GitHubRepo) -> Seq<char> {
    match r {
        GitHubRepo::Ssh { repo } => repo@,
        GitHubRepo::Https { repo, token: Some((user, token)) } => "https://"@ + user@ + ":"@ + token@ + "@"@ + repo@,
        GitHubRepo::Https { repo, token: None } => "https://"@ + repo@,
    }
}

impl GitHubRepo {
    /// The address git uses for the repository (how it is displayed).
    pub fn to_string(&self) -> (r: String)
        ensures
            r@ == repo_url(*self),
    {
        match self {
            GitHubRepo::Ssh { repo } => repo.clone(),
            GitHubRepo::Https { repo, token: Some((user, token)) } => {
                let mut s = owned("https://");
                push_str(&mut s, user.as_str());
                push_str(&mut s, ":");
                push_str(&mut s, token.as_str());
                push_str(&mut s, "@");
                push_str(&mut s, repo.as_str());
                s
            },
            GitHubRepo::Https { repo, token: None } => {
                let mut s = owned("https://");
                push_str(&mut s, repo.as_str());
                s
            },
        }
    }
}

/// The username to clone the research workspace with.
pub const GITHUB_CLONE_USERNAME: &'static str = "robo-mark-i-m";

/// The github repo URL for the research workspace.
pub const RESEARCH_WORKSPACE_REPO: &'static str = "github.com/mark-i-m/research-workspace";

/// The path at which the research workspace is cloned.
pub const RESEARCH_WORKSPACE_PATH: &'static str = "research-workspace";

/// Path to the 0sim submodule.
pub const ZEROSIM_KERNEL_SUBMODULE: &'static str = "0sim";

/// Path to the 0sim-experiments submodule.
pub const ZEROSIM_EXPERIMENTS_SUBMODULE: &'static str = "0sim-experiments";

/// Path to the 0sim-trace submodule.
pub const ZEROSIM_TRACE_SUBMODULE: &'static str = "0sim-trace";

/// Path to the HiBench submodule.
pub const ZEROSIM_HIBENCH_SUBMODULE: &'static str = "bmks/zerosim-hadoop/HiBench";

/// Path to the memhog (numactl) submodule.
pub const ZEROSIM_MEMHOG_SUBMODULE: &'static str = "bmks/numactl";

/// Path to the metis submodule.
pub const ZEROSIM_METIS_SUBMODULE: &'static str = "bmks/Metis";

/// Path to the memcached submodule.
pub const ZEROSIM_MEMCACHED_SUBMODULE: &'static str = "bmks/memcached";

/// Path the to nullfs submodule.
pub const ZEROSIM_NULLFS_SUBMODULE: &'static str = "bmks/nullfs";

/// Path to redis.conf.
pub const REDIS_CONF: &'static str = "bmks/redis.conf";

/// Path to benchmarks directory.
pub const ZEROSIM_BENCHMARKS_DIR: &'static str = "bmks";

/// Path to Hadoop benchmark stuff within the benchmarks dir.
pub const ZEROSIM_HADOOP_PATH: &'static str = "zerosim-hadoop";

/// Path to Swapnil's scripts within the benchmarks dir.
pub const ZEROSIM_SWAPNIL_PATH: &'static str = "swapnil_scripts";

/// Path to the `vagrant` subdirectory where the Vagrantfile is generated.
pub const VAGRANT_SUBDIRECTORY: &'static str = "vagrant";

/// The shared directory on the host.
pub const HOSTNAME_SHARED_DIR: &'static str = "vm_shared/";

/// The shared directory for results on the host.
pub const HOSTNAME_SHARED_RESULTS_DIR: &'static str = "vm_shared/results/";

/// The shared directory on the guest.
pub const VAGRANT_SHARED_DIR: &'static str = "/vagrant/vm_shared/";

/// The shared directory for results on the guest.
pub const VAGRANT_RESULTS_DIR: &'static str = "/vagrant/vm_shared/results/";

/// The guest swapfile.
pub const VAGRANT_GUEST_SWAPFILE: &'static str = "/home/vagrant/swap";

// ---------------------------------------------------------------------------
// Version names and timing reports.

/// The first `min(len, 15)` characters of `s`.
pub open spec fn first15(s: Seq<char>) -> Seq<char> {
    if s.len() <= 15 {
        s
    } else {
        s.take(15)
    }
}

/// A local version name from a git branch and hash: each cut to 15
/// characters, underscores in the branch turned into dashes, joined by a
/// dash.
pub open spec fn local_version(branch: Seq<char>, hash: Seq<char>) -> Seq<char> {
    replace_all(first15(branch), "_"@, "-"@) + "-"@ + first15(hash)
}

/// The first 15 characters of `s`, or all of it if it is shorter.
fn first15_chars(s: &str) -> (r: String)
    ensures
        r@ == first15(s@),
{
    let cs = chars_of(s);
    let n: usize = if cs.len() <= 15 {
        cs.len()
    } else {
        15
    };
    let r = string_of_prefix(cs.as_slice(), n);
    assert(cs@.take(cs@.len() as int) =~= cs@);
    r
}

/// Generates a local version name from the git branch and hash.
pub fn gen_local_version(branch: &str, hash: &str) -> (r: String)
    ensures
        r@ == local_version(branch@, hash@),
{
    proof {
        reveal_strlit("_");
    }
    let b = first15_chars(branch);
    let h = first15_chars(hash);
    let mut r = replace_str(b.as_str(), "_", "-");
    push_str(&mut r, "-");
    push_str(&mut r, h.as_str());
    r
}

/// The `Debug` text of the duration of `secs` seconds and `nanos`
/// nanoseconds.
pub uninterp spec fn duration_debug_text(secs: u64, nanos: u32) -> Seq<char>;

/// The `Debug` rendering of `Duration::new(secs, nanos)` (`<Duration as
/// Debug>::fmt`, e.g. `1.5s`). The text is named, not stated: it is a
/// function of the duration alone.
#[verifier::external_body]
fn duration_debug(secs: u64, nanos: u32) -> (r: String)
    requires
        nanos < 1_000_000_000,
    ensures
        r@ == duration_debug_text(secs, nanos),
{
    format!("{:?}", std::time::Duration::new(secs, nanos))
}

/// One line of a timing report.
pub open spec fn timing_line(label: Seq<char>, secs: u64, nanos: u32) -> Seq<char> {
    label + ": "@ + duration_debug_text(secs, nanos) + "\n"@
}

/// A timing report: one line per labelled duration.
pub open spec fn timings_text(timings: Seq<(String, u64, u32)>) -> Seq<char>
    decreases timings.len(),
{
    if timings.len() == 0 {
        Seq::empty()
    } else {
        timings_text(timings.drop_last()) + timing_line(
            timings.last().0@,
            timings.last().1,
            timings.last().2,
        )
    }
}

/// The report of two lists of timings, one after the other, is the report
/// of the first followed by the report of the second.
pub proof fn law_timings_concat(a: Seq<(String, u64, u32)>, b: Seq<(String, u64, u32)>)
    ensures
        timings_text(a + b) == timings_text(a) + timings_text(b),
    decreases b.len(),
{
    if b.len() == 0 {
        assert(a + b =~= a);
        assert(timings_text(a) + timings_text(b) =~= timings_text(a));
    } else {
        law_timings_concat(a, b.drop_last());
        assert((a + b).drop_last() =~= a + b.drop_last());
        assert((a + b).last() == b.last());
        let l = timing_line(b.last().0@, b.last().1, b.last().2);
        assert(timings_text(a) + timings_text(b.drop_last()) + l =~= timings_text(a) + (timings_text(b.drop_last()) + l));
    }
}

/// The line of a timing report for `label`, whose duration renders as
/// `duration`.
pub fn timing_report_line(label: &str, duration: &str) -> (r: String)
    ensures
        r@ == label@ + ": "@ + duration@ + "\n"@,
{
    let mut r = owned(label);
    push_str(&mut r, ": ");
    push_str(&mut r, duration);
    push_str(&mut r, "\n");
    r
}

/// A human-readable report of labelled durations, each given as seconds
/// and nanoseconds.
pub fn timings_str(timings: &Vec<(String, u64, u32)>) -> (r: String)
    requires
        forall|i: int| 0 <= i < timings@.len() ==> (#[trigger] timings@[i]).2 < 1_000_000_000,
    ensures
        r@ == timings_text(timings@),
{
    let mut s = String::new();
    let mut i: usize = 0;
    while i < timings.len()
        invariant
            i <= timings@.len(),
            forall|k: int| 0 <= k < timings@.len() ==> (#[trigger] timings@[k]).2 < 1_000_000_000,
            s@ == timings_text(timings@.take(i as int)),
        decreases timings@.len() - i,
    {
        assert(timings@.take(i + 1).drop_last() =~= timings@.take(i as int));
        assert(timings@.take(i + 1).last() == timings@[i as int]);
        let d = duration_debug(timings[i].1, timings[i].2);
        let line = timing_report_line(timings[i].0.as_str(), d.as_str());
        push_str(&mut s, line.as_str());
        i = i + 1;
    }
    assert(timings@.take(i as int) =~= timings@);
    s
}

// ---------------------------------------------------------------------------
// Repositories and machine settings.

/// The version of the local research workspace: `dirty` where it has
/// uncommitted changes, else the hash `git rev-parse HEAD` printed
/// (`rev_parse_out`), trimmed.
pub fn local_workspace_version(dirty: bool, rev_parse_out: &str) -> (r: String)
    ensures
        r@ == (if dirty { "dirty"@ } else { trim_spec(rev_parse_out@) }),
{
    if dirty {
        owned("dirty")
    } else {
        trim(rev_parse_out)
    }
}

/// The command that clones the research workspace, authenticating with the
/// GitHub personal access token `token`.
pub fn clone_workspace_cmd(token: &str) -> (r: Cmd)
    ensures
        r.cmd@ == "git clone https://"@ + GITHUB_CLONE_USERNAME@ + ":"@ + token@ + "@"@ + RESEARCH_WORKSPACE_REPO@,
        r.cwd is None && !r.use_bash && !r.allow_error,
{
    let mut c = owned("git clone https://");
    push_str(&mut c, GITHUB_CLONE_USERNAME);
    push_str(&mut c, ":");
    push_str(&mut c, token);
    push_str(&mut c, "@");
    push_str(&mut c, RESEARCH_WORKSPACE_REPO);
    Cmd::new(c)
}

/// The command that checks out a submodule of the research workspace.
pub fn submodule_cmd(submodule: &str) -> (r: Cmd)
    ensures
        r.cmd@ == "git submodule update --init --recursive -- "@ + submodule@,
        r.cwd matches Some(d) && d@ == RESEARCH_WORKSPACE_PATH@,
        !r.use_bash && !r.allow_error,
{
    let mut c = owned("git submodule update --init --recursive -- ");
    push_str(&mut c, submodule);
    Cmd::new(c).cwd(RESEARCH_WORKSPACE_PATH)
}

/// The command that prints the git hash of the remote research workspace.
pub fn workspace_hash_cmd() -> (r: Cmd)
    ensures
        r.cmd@ == "git rev-parse HEAD"@,
        r.cwd matches Some(d) && d@ == RESEARCH_WORKSPACE_PATH@,
        !r.use_bash && !r.allow_error,
{
    cmd("git rev-parse HEAD").cwd(RESEARCH_WORKSPACE_PATH)
}

/// The command that stores the research settings `json` on the machine.
pub fn write_settings_cmd(json: &str) -> (r: Cmd)
    ensures
        r.cmd@ == "echo '"@ + json@ + "' > research-settings.json"@,
        r.cwd is None && !r.use_bash && !r.allow_error,
{
    let mut c = owned("echo '");
    push_str(&mut c, json);
    push_str(&mut c, "' > research-settings.json");
    Cmd::new(c)
}

/// The number printed by a command such as `getconf _NPROCESSORS_ONLN`,
/// after trimming whitespace; `None` if it is not a number.
pub fn parse_count(stdout: &str) -> (r: Option<usize>)
    ensures
        r matches Some(n) ==> parse_usize_spec(trim_spec(stdout@)) == Some(n as nat),
        r is None ==> parse_usize_spec(trim_spec(stdout@)) is None,
{
    let t = trim(stdout);
    parse_usize(t.as_str())
}

/// The CPU frequency in MHz: the maximum frequency `lscpu` reports if it
/// reports one, the current frequency otherwise.
pub open spec fn cpu_freq_choice(max_out: Seq<char>, cur_out: Seq<char>) -> Seq<char> {
    if trim_spec(max_out).len() == 0 {
        trim_spec(cur_out)
    } else {
        trim_spec(max_out)
    }
}

/// The CPU frequency from the outputs of the two `lscpu` queries; the
/// chosen output must be a number (the frequency is unwrapped).
pub fn cpu_freq_of(max_out: &str, cur_out: &str) -> (r: usize)
    requires
        parse_usize_spec(cpu_freq_choice(max_out@, cur_out@)) is Some,
    ensures
        parse_usize_spec(cpu_freq_choice(max_out@, cur_out@)) == Some(r as nat),
{
    let m = trim(max_out);
    let chosen = if m.as_str().is_empty() { trim(cur_out) } else { m };
    match parse_usize(chosen.as_str()) {
        Some(n) => n,
        None => 0,
    }
}

/// The commands that configure transparent huge pages; they need `sudo`.
pub fn thp_cmds(enabled: &str, defrag: &str, khugepaged_defrag: usize, alloc_sleep_ms: usize, scan_sleep_ms: usize) -> (r: Vec<Cmd>)
    ensures
        r.len() == 5,
        forall|i: int| 0 <= i < 5 ==> (#[trigger] r@[i]).use_bash && r@[i].cwd is None && !r@[i].allow_error,
        r@[0].cmd@ == "echo "@ + enabled@ + " | sudo tee /sys/kernel/mm/transparent_hugepage/enabled"@,
        r@[1].cmd@ == "echo "@ + defrag@ + " | sudo tee /sys/kernel/mm/transparent_hugepage/defrag"@,
        r@[2].cmd@ == "echo "@ + decimal(khugepaged_defrag as nat) + " | sudo tee /sys/kernel/mm/transparent_hugepage/khugepaged/defrag"@,
        r@[3].cmd@ == "echo "@ + decimal(alloc_sleep_ms as nat) + " | sudo tee /sys/kernel/mm/transparent_hugepage/khugepaged/alloc_sleep_millisecs"@,
        r@[4].cmd@ == "echo "@ + decimal(scan_sleep_ms as nat) + " | sudo tee /sys/kernel/mm/transparent_hugepage/khugepaged/scan_sleep_millisecs"@,
{
    let mut r: Vec<Cmd> = Vec::new();
    let mut c = owned("echo ");
    push_str(&mut c, enabled);
    push_str(&mut c, " | sudo tee /sys/kernel/mm/transparent_hugepage/enabled");
    r.push(Cmd::new(c).use_bash());
    let mut c = owned("echo ");
    push_str(&mut c, defrag);
    push_str(&mut c, " | sudo tee /sys/kernel/mm/transparent_hugepage/defrag");
    r.push(Cmd::new(c).use_bash());
    let mut c = owned("echo ");
    push_usize(&mut c, khugepaged_defrag);
    push_str(&mut c, " | sudo tee /sys/kernel/mm/transparent_hugepage/khugepaged/defrag");
    r.push(Cmd::new(c).use_bash());
    let mut c = owned("echo ");
    push_usize(&mut c, alloc_sleep_ms);
    push_str(&mut c, " | sudo tee /sys/kernel/mm/transparent_hugepage/khugepaged/alloc_sleep_millisecs");
    r.push(Cmd::new(c).use_bash());
    let mut c = owned("echo ");
    push_usize(&mut c, scan_sleep_ms);
    push_str(&mut c, " | sudo tee /sys/kernel/mm/transparent_hugepage/khugepaged/scan_sleep_millisecs");
    r.push(Cmd::new(c).use_bash());
    r
}

// ---------------------------------------------------------------------------
// Services.

/// Something that may be done to a service.
pub enum ServiceAction {
    Start,
    Stop,
    Restart,
    Disable,
    Enable,
}

/// The command that performs `action` on `service`.
pub open spec fn service_text(service: Seq<char>, action: ServiceAction) -> Seq<char> {
    match action {
        ServiceAction::Restart => "sudo service "@ + service + " restart"@,
        ServiceAction::Start => "sudo service "@ + service + " start"@,
        ServiceAction::Stop => "sudo service "@ + service + " stop"@,
        ServiceAction::Enable => "sudo systemctl enable "@ + service,
        ServiceAction::Disable => "sudo systemctl disable "@ + service,
    }
}

/// The command that starts, stops, enables, disables or restarts a service.
pub fn service(name: &str, action: ServiceAction) -> (r: Cmd)
    ensures
        r.cmd@ == service_text(name@, action),
        r.cwd is None && !r.use_bash && !r.allow_error,
{
    let c = match action {
        ServiceAction::Restart => {
            let mut c = owned("sudo service ");
            push_str(&mut c, name);
            push_str(&mut c, " restart");
            c
        },
        ServiceAction::Start => {
            let mut c = owned("sudo service ");
            push_str(&mut c, name);
            push_str(&mut c, " start");
            c
        },
        ServiceAction::Stop => {
            let mut c = owned("sudo service ");
            push_str(&mut c, name);
            push_str(&mut c, " stop");
            c
        },
        ServiceAction::Enable => {
            let mut c = owned("sudo systemctl enable ");
            push_str(&mut c, name);
            c
        },
        ServiceAction::Disable => {
            let mut c = owned("sudo systemctl disable ");
            push_str(&mut c, name);
            c
        },
    };
    Cmd::new(c)
}

/// The command whose success tells that `service` is running.
pub fn service_is_running(service: &str) -> (r: Cmd)
    ensures
        r.cmd@ == "systemctl status "@ + service@,
        r.cwd is None && !r.use_bash && !r.allow_error,
{
    let mut c = owned("systemctl status ");
    push_str(&mut c, service);
    Cmd::new(c)
}

} // verus!
