//! The commands that run the common workloads on a remote machine.
//!
//! Each function returns the commands to run in order; a command that runs
//! in the background (in a spawned shell) is returned apart.

use vstd::prelude::*;
use crate::runner::cmd::{cmd, Cmd};
use crate::runner::common::{RESEARCH_WORKSPACE_PATH, ZEROSIM_BENCHMARKS_DIR, ZEROSIM_SWAPNIL_PATH};
use crate::text::{decimal, owned, push_decimal, push_str, push_usize};

verus! {

/// Keeps track of which guest vCPUs have been assigned.
pub struct TasksetCtx {
    /// The total number of vCPUs.
    pub ncores: usize,
    /// The number of assignments so far.
    pub next: usize,
}

impl TasksetCtx {
    /// A context with the given total number of cores (at least one).
    pub fn new(ncores: usize) -> (r: TasksetCtx)
        requires
            ncores > 0,
        ensures
            r.ncores == ncores,
            r.next == 0,
    {
        TasksetCtx { ncores, next: 0 }
    }

    /// The next core, wrapping around to 0 once all have been assigned.
    pub fn next(&mut self) -> (c: usize)
        requires
            old(self).ncores > 0,
            old(self).next < usize::MAX,
        ensures
            c == old(self).next % old(self).ncores,
            final(self).next == old(self).next + 1,
            final(self).ncores == old(self).ncores,
    {
        let c = self.next % self.ncores;
        self.next = self.next + 1;
        c
    }
}

/// Cores are handed out in a cycle: each is below the number of cores, and
/// the one after core `c` is `c + 1`, or 0 after the last.
pub proof fn law_taskset_cycle(ncores: usize, next: usize)
    requires
        ncores > 0,
    ensures
        next % ncores < ncores,
        (next + 1) % (ncores as int) == if next % ncores + 1 == ncores { 0 } else { next % ncores + 1 },
{
    let n = ncores as int;
    let k = next as int;
    vstd::arithmetic::div_mod::lemma_fundamental_div_mod(k, n);
    let q = k / n;
    let r = k % n;
    vstd::arithmetic::div_mod::lemma_mod_pos_bound(k, n);
    if r + 1 < n {
        assert(k + 1 == q * n + (r + 1)) by (nonlinear_arith)
            requires
                k == n * q + r,
        ;
        vstd::arithmetic::div_mod::lemma_fundamental_div_mod_converse(k + 1, n, q, r + 1);
    } else {
        assert(k + 1 == (q + 1) * n + 0) by (nonlinear_arith)
            requires
                k == n * q + r,
                r + 1 == n,
        ;
        vstd::arithmetic::div_mod::lemma_fundamental_div_mod_converse(k + 1, n, q + 1, 0);
    }
}

/// The directory of the apriori paging scripts in the guest.
pub open spec fn swapnil_dir() -> Seq<char> {
    "/home/vagrant"@ + "/"@ + RESEARCH_WORKSPACE_PATH@ + "/"@ + ZEROSIM_BENCHMARKS_DIR@ + "/"@ + ZEROSIM_SWAPNIL_PATH@
}

/// The command that makes `prog` eagerly paged (apriori paging); it needs
/// `sudo` and is only meaningful in the VM.
pub fn apriori_cmd(prog: &str) -> (r: Cmd)
    ensures
        r.cmd@ == swapnil_dir() + "/apriori_paging_set_process "@ + prog@,
        r.cwd is None && !r.use_bash && !r.allow_error,
{
    let mut c = owned("/home/vagrant");
    push_str(&mut c, "/");
    push_str(&mut c, RESEARCH_WORKSPACE_PATH);
    push_str(&mut c, "/");
    push_str(&mut c, ZEROSIM_BENCHMARKS_DIR);
    push_str(&mut c, "/");
    push_str(&mut c, ZEROSIM_SWAPNIL_PATH);
    push_str(&mut c, "/apriori_paging_set_process ");
    push_str(&mut c, prog);
    Cmd::new(c)
}

fn eager_prefix(eager: bool, prog: &str) -> (r: Vec<Cmd>)
    ensures
        eager ==> r.len() == 1 && r@[0].cmd@ == swapnil_dir() + "/apriori_paging_set_process "@ + prog@
            && r@[0].cwd is None && !r@[0].use_bash && !r@[0].allow_error,
        !eager ==> r.len() == 0,
{
    let mut r: Vec<Cmd> = Vec::new();
    if eager {
        r.push(apriori_cmd(prog));
    }
    r
}

/// The text of `--flag value` for an optional value, or nothing.
pub open spec fn opt_flag(flag: Seq<char>, v: Option<u64>) -> Seq<char> {
    match v {
        Some(x) => flag + " "@ + decimal(x as nat),
        None => Seq::empty(),
    }
}

fn push_opt_flag(s: &mut String, flag: &str, v: Option<u64>)
    ensures
        final(s)@ == old(s)@ + opt_flag(flag@, v),
{
    match v {
        Some(x) => {
            push_str(s, flag);
            push_str(s, " ");
            push_decimal(s, x);
        },
        None => {
            assert(old(s)@ + Seq::<char>::empty() =~= old(s)@);
        },
    }
}

/// `path` if given, `/dev/null` otherwise.
pub open spec fn or_null(path: Option<&str>) -> Seq<char> {
    match path {
        Some(p) => p@,
        None => "/dev/null"@,
    }
}

fn push_or_null(s: &mut String, path: Option<&str>)
    ensures
        final(s)@ == old(s)@ + or_null(path),
{
    match path {
        Some(p) => push_str(s, p),
        None => push_str(s, "/dev/null"),
    }
}

/// Appends `t` to `s` if `b`.
fn push_if(s: &mut String, b: bool, t: &str)
    ensures
        final(s)@ == old(s)@ + (if b { t@ } else { Seq::empty() }),
{
    if b {
        push_str(s, t);
    } else {
        assert(old(s)@ + Seq::<char>::empty() =~= old(s)@);
    }
}

/// The pattern the `time_mmap_touch` workload writes to the pages.
#[derive(Debug, Copy, Clone, PartialEq, Eq, Structural)]
pub enum TimeMmapTouchPattern {
    Zeros,
    Counter,
}

/// Settings for a run of the `time_mmap_touch` workload.
pub struct TimeMmapTouchConfig<'s> {
    /// The path of the `0sim-experiments` submodule on the remote.
    pub exp_dir: &'s str,
    /// The number of pages to touch.
    pub pages: usize,
    /// The pattern to write to the pages.
    pub pattern: TimeMmapTouchPattern,
    /// The file for the workload's output (`/dev/null` if none).
    pub output_file: Option<&'s str>,
    /// The core to pin the workload to in the guest.
    pub pin_core: usize,
    /// Whether to prefault memory.
    pub prefault: bool,
    /// The page fault time, if TSC offsetting is to account for it.
    pub pf_time: Option<u64>,
    /// Whether the workload runs with eager paging (only in the VM).
    pub eager: bool,
}

/// The command line of `time_mmap_touch`.
pub open spec fn time_mmap_touch_text(cfg: TimeMmapTouchConfig) -> Seq<char> {
    "sudo taskset -c "@ + decimal(cfg.pin_core as nat) + " ./target/release/time_mmap_touch "@
        + decimal(cfg.pages as nat) + " "@ + (match cfg.pattern {
        TimeMmapTouchPattern::Counter => "-c"@,
        TimeMmapTouchPattern::Zeros => "-z"@,
    }) + " "@ + (if cfg.prefault { "-p"@ } else { Seq::empty() }) + " "@ + opt_flag("--pftime"@, cfg.pf_time)
        + " > "@ + or_null(cfg.output_file)
}

/// The commands that run `time_mmap_touch`; they need `sudo`.
pub fn time_mmap_touch_cmds(cfg: &TimeMmapTouchConfig) -> (r: Vec<Cmd>)
    ensures
        r.len() == (if cfg.eager { 2int } else { 1int }),
        r@.last().cmd@ == time_mmap_touch_text(*cfg),
        r@.last().cwd matches Some(d) && d@ == cfg.exp_dir@,
        r@.last().use_bash && !r@.last().allow_error,
        cfg.eager ==> r@[0].cmd@ == swapnil_dir() + "/apriori_paging_set_process "@ + "time_mmap_touch"@
            && r@[0].cwd is None && !r@[0].use_bash && !r@[0].allow_error,
{
    let mut r = eager_prefix(cfg.eager, "time_mmap_touch");
    let mut c = owned("sudo taskset -c ");
    push_usize(&mut c, cfg.pin_core);
    push_str(&mut c, " ./target/release/time_mmap_touch ");
    push_usize(&mut c, cfg.pages);
    push_str(&mut c, " ");
    match cfg.pattern {
        TimeMmapTouchPattern::Counter => push_str(&mut c, "-c"),
        TimeMmapTouchPattern::Zeros => push_str(&mut c, "-z"),
    }
    push_str(&mut c, " ");
    push_if(&mut c, cfg.prefault, "-p");
    push_str(&mut c, " ");
    push_opt_flag(&mut c, "--pftime", cfg.pf_time);
    push_str(&mut c, " > ");
    push_or_null(&mut c, cfg.output_file);
    r.push(Cmd::new(c).cwd(cfg.exp_dir).use_bash());
    r
}

/// The configuration of a memcached workload.
pub struct MemcachedWorkloadConfig<'s> {
    /// The path of the `0sim-experiments` submodule on the remote.
    pub exp_dir: &'s str,
    /// The directory that holds the memcached binary.
    pub memcached: &'s str,
    /// The user to run the memcached server as.
    pub user: &'s str,
    /// The size of the memcached server in MB.
    pub server_size_mb: usize,
    /// Whether the memcached server may run out of memory.
    pub allow_oom: bool,
    /// The core the server is pinned to, if any.
    pub server_pin_core: Option<usize>,
    /// The core the workload client is pinned to.
    pub client_pin_core: usize,
    /// The size of the workload in GB.
    pub wk_size_gb: usize,
    /// The file for the workload's output (`/dev/null` if none).
    pub output_file: Option<&'s str>,
    /// The CPU frequency; if given, the workload times with rdtsc.
    pub freq: Option<usize>,
    /// The page fault time, if TSC offsetting is to account for it.
    pub pf_time: Option<u64>,
    /// Whether the workload runs with eager paging.
    pub eager: bool,
}

/// The command line that starts the memcached server as a daemon.
pub open spec fn memcached_server_text(cfg: MemcachedWorkloadConfig) -> Seq<char> {
    (match cfg.server_pin_core {
        Some(c) => "taskset -c "@ + decimal(c as nat) + " "@,
        None => Seq::empty(),
    }) + cfg.memcached@ + "/memcached "@ + (if cfg.allow_oom { "-M"@ } else { Seq::empty() }) + " -m "@
        + decimal(cfg.server_size_mb as nat) + " -d -u "@ + cfg.user@ + " -f 1.11"@
}

/// The commands that start a memcached server: apriori paging if eager,
/// raising the VMA limit, and the server itself.
pub fn start_memcached_cmds(cfg: &MemcachedWorkloadConfig) -> (r: Vec<Cmd>)
    ensures
        r.len() == (if cfg.eager { 3int } else { 2int }),
        cfg.eager ==> r@[0].cmd@ == swapnil_dir() + "/apriori_paging_set_process "@ + "memcached"@,
        r@[r.len() - 2].cmd@ == "sudo sysctl -w vm.max_map_count="@ + decimal(1_000_000_000),
        r@[r.len() - 1].cmd@ == memcached_server_text(*cfg),
        forall|i: int| 0 <= i < r.len() ==> (#[trigger] r@[i]).cwd is None && !r@[i].use_bash && !r@[i].allow_error,
{
    let mut r = eager_prefix(cfg.eager, "memcached");
    let mut c = owned("sudo sysctl -w vm.max_map_count=");
    push_usize(&mut c, 1_000_000_000);
    r.push(Cmd::new(c));
    let mut s = String::new();
    match cfg.server_pin_core {
        Some(core) => {
            push_str(&mut s, "taskset -c ");
            push_usize(&mut s, core);
            push_str(&mut s, " ");
        },
        None => {},
    }
    push_str(&mut s, cfg.memcached);
    push_str(&mut s, "/memcached ");
    push_if(&mut s, cfg.allow_oom, "-M");
    push_str(&mut s, " -m ");
    push_usize(&mut s, cfg.server_size_mb);
    push_str(&mut s, " -d -u ");
    push_str(&mut s, cfg.user);
    push_str(&mut s, " -f 1.11");
    proof {
        let pre = match cfg.server_pin_core {
            Some(core) => "taskset -c "@ + decimal(core as nat) + " "@,
            None => Seq::<char>::empty(),
        };
        assert(s@ =~= memcached_server_text(*cfg));
    }
    r.push(Cmd::new(s));
    r
}

/// The text of `--freq value` for an optional frequency, or nothing.
pub open spec fn freq_flag(v: Option<usize>) -> Seq<char> {
    match v {
        Some(x) => "--freq "@ + decimal(x as nat),
        None => Seq::empty(),
    }
}

fn push_freq(s: &mut String, v: Option<usize>)
    ensures
        final(s)@ == old(s)@ + freq_flag(v),
{
    match v {
        Some(x) => {
            push_str(s, "--freq ");
            push_usize(s, x);
        },
        None => {
            assert(old(s)@ + Seq::<char>::empty() =~= old(s)@);
        },
    }
}

/// The command line of the `memcached_gen_data` client (one GB less than
/// the workload size, to avoid running out of memory).
pub open spec fn memcached_gen_data_text(cfg: MemcachedWorkloadConfig) -> Seq<char> {
    "taskset -c "@ + decimal(cfg.client_pin_core as nat) + " ./target/release/memcached_gen_data localhost:11211 "@
        + decimal((cfg.wk_size_gb - 1) as nat) + " "@ + freq_flag(cfg.freq) + " "@ + opt_flag("--pftime"@, cfg.pf_time)
        + " | tee "@ + or_null(cfg.output_file)
}

/// The client command of the `memcached_gen_data` workload, run after
/// starting the server; its failure is tolerated if the server may run out
/// of memory.
pub fn memcached_gen_data_cmd(cfg: &MemcachedWorkloadConfig) -> (r: Cmd)
    requires
        cfg.wk_size_gb >= 1,
    ensures
        r.cmd@ == memcached_gen_data_text(*cfg),
        r.cwd matches Some(d) && d@ == cfg.exp_dir@,
        !r.use_bash,
        r.allow_error == cfg.allow_oom,
{
    let mut c = owned("taskset -c ");
    push_usize(&mut c, cfg.client_pin_core);
    push_str(&mut c, " ./target/release/memcached_gen_data localhost:11211 ");
    push_usize(&mut c, cfg.wk_size_gb - 1);
    push_str(&mut c, " ");
    push_freq(&mut c, cfg.freq);
    push_str(&mut c, " ");
    push_opt_flag(&mut c, "--pftime", cfg.pf_time);
    push_str(&mut c, " | tee ");
    push_or_null(&mut c, cfg.output_file);
    let r = Cmd::new(c).cwd(cfg.exp_dir);
    if cfg.allow_oom {
        r.allow_error()
    } else {
        r
    }
}

/// The command that turns spurious compaction failures on (with `mode`) or
/// off.
pub fn compaction_cmd(mode: Option<usize>) -> (r: Cmd)
    ensures
        r.cmd@ == "echo "@ + (match mode {
            Some(m) => decimal(m as nat),
            None => "0"@,
        }) + " | sudo tee /proc/compact_spurious_fail"@,
        r.cwd is None && !r.use_bash && !r.allow_error,
{
    let mut c = owned("echo ");
    match mode {
        Some(m) => push_usize(&mut c, m),
        None => push_str(&mut c, "0"),
    }
    push_str(&mut c, " | sudo tee /proc/compact_spurious_fail");
    Cmd::new(c)
}

/// The command line of the `memcached_and_capture_thp` client.
pub open spec fn capture_thp_text(cfg: MemcachedWorkloadConfig, interval: usize, continual: bool, output_file: Seq<char>) -> Seq<char> {
    "taskset -c "@ + decimal(cfg.client_pin_core as nat) + " ./target/release/memcached_and_capture_thp localhost:11211 "@
        + decimal(cfg.wk_size_gb as nat) + " "@ + decimal(interval as nat) + " "@ + or_null(cfg.output_file) + " "@
        + (if continual { "--continual_compaction"@ } else { Seq::empty() }) + " | tee "@ + output_file
}

/// The client command of the `memcached_and_capture_thp` workload, run
/// after starting the server and setting compaction failures.
pub fn capture_thp_cmd(cfg: &MemcachedWorkloadConfig, interval: usize, continual_compaction: Option<usize>, output_file: &str) -> (r: Cmd)
    ensures
        r.cmd@ == capture_thp_text(*cfg, interval, continual_compaction is Some, output_file@),
        r.cwd matches Some(d) && d@ == cfg.exp_dir@,
        r.use_bash,
        r.allow_error == cfg.allow_oom,
{
    let mut c = owned("taskset -c ");
    push_usize(&mut c, cfg.client_pin_core);
    push_str(&mut c, " ./target/release/memcached_and_capture_thp localhost:11211 ");
    push_usize(&mut c, cfg.wk_size_gb);
    push_str(&mut c, " ");
    push_usize(&mut c, interval);
    push_str(&mut c, " ");
    push_or_null(&mut c, cfg.output_file);
    push_str(&mut c, " ");
    push_if(&mut c, continual_compaction.is_some(), "--continual_compaction");
    push_str(&mut c, " | tee ");
    push_str(&mut c, output_file);
    let r = Cmd::new(c).cwd(cfg.exp_dir).use_bash();
    if cfg.allow_oom {
        r.allow_error()
    } else {
        r
    }
}

/// NAS Parallel Benchmark workload size classes.
pub enum NasClass {
    E,
}

/// The command that runs NAS CG of class E on core `core` (spawned; it
/// takes a long time).
pub fn nas_cg_cmd(zerosim_bmk_path: &str, class: NasClass, output_file: Option<&str>, tctx: &mut TasksetCtx) -> (r: Cmd)
    requires
        old(tctx).ncores > 0,
        old(tctx).next < usize::MAX,
    ensures
        r.cmd@ == "taskset -c "@ + decimal((old(tctx).next % old(tctx).ncores) as nat) + " ./bin/cg."@ + "E"@ + ".x > "@
            + or_null(output_file),
        r.cwd matches Some(d) && d@ == zerosim_bmk_path@ + "/NPB3.4/NPB3.4-OMP"@,
        !r.use_bash && !r.allow_error,
        final(tctx).next == old(tctx).next + 1 && final(tctx).ncores == old(tctx).ncores,
{
    let class_name = match class {
        NasClass::E => "E",
    };
    let core = tctx.next();
    let mut c = owned("taskset -c ");
    push_usize(&mut c, core);
    push_str(&mut c, " ./bin/cg.");
    push_str(&mut c, class_name);
    push_str(&mut c, ".x > ");
    push_or_null(&mut c, output_file);
    let mut dir = owned(zerosim_bmk_path);
    push_str(&mut dir, "/NPB3.4/NPB3.4-OMP");
    Cmd::new(c).cwd(dir.as_str())
}

/// Options of the `memhog` workload, as bits.
pub struct MemhogOptions {
    pub bits: u32,
}

/// Use pinned memory.
pub const MEMHOG_PIN: u32 = 1;

/// Data-oblivious mode.
pub const MEMHOG_DATA_OBLIV: u32 = 2;

impl MemhogOptions {
    /// Whether every option of `other` is set.
    pub fn contains(&self, other: u32) -> (r: bool)
        ensures
            r == (self.bits & other == other),
    {
        self.bits & other == other
    }
}

/// The command that runs `memhog` `r` times (forever if `None`), each time
/// touching `size_kb` kilobytes (spawned).
pub open spec fn memhog_text(exp_dir: Seq<char>, r: Option<usize>, core: usize, size_kb: usize, pin: bool, obliv: bool) -> Seq<char> {
    (match r {
        Some(n) => "for i in `seq "@ + decimal(n as nat) + "`"@,
        None => "while [ 1 ]"@,
    }) + " ; do LD_LIBRARY_PATH="@ + exp_dir + " taskset -c "@ + decimal(core as nat) + " "@ + exp_dir + "/memhog -r1 "@
        + decimal(size_kb as nat) + "k "@ + (if pin { "-p"@ } else { Seq::empty() }) + " "@
        + (if obliv { "-o"@ } else { Seq::empty() }) + " > /dev/null ; done; echo memhog done ;"@
}

/// Whether `a` is `b` with `ins` inserted at some position.
pub open spec fn inserted_in(a: Seq<char>, b: Seq<char>, ins: Seq<char>) -> bool {
    exists|k: int| 0 <= k <= b.len() && a == #[trigger] b.take(k) + ins + b.skip(k)
}

/// What the options of `memhog` do to its command: with pinning the
/// command is the one without it plus the flag `-p`, and with
/// data-oblivious values it is the one without them plus the flag `-o`;
/// nothing else changes.
pub proof fn law_memhog_flags(exp_dir: Seq<char>, r: Option<usize>, core: usize, size_kb: usize, pin: bool, obliv: bool)
    ensures
        inserted_in(memhog_text(exp_dir, r, core, size_kb, true, obliv), memhog_text(exp_dir, r, core, size_kb, false, obliv), "-p"@),
        inserted_in(memhog_text(exp_dir, r, core, size_kb, pin, true), memhog_text(exp_dir, r, core, size_kb, pin, false), "-o"@),
{
    let head = (match r {
        Some(n) => "for i in `seq "@ + decimal(n as nat) + "`"@,
        None => "while [ 1 ]"@,
    }) + " ; do LD_LIBRARY_PATH="@ + exp_dir + " taskset -c "@ + decimal(core as nat) + " "@ + exp_dir + "/memhog -r1 "@
        + decimal(size_kb as nat) + "k "@;
    let tail = " > /dev/null ; done; echo memhog done ;"@;
    let o = if obliv { "-o"@ } else { Seq::<char>::empty() };
    let p = if pin { "-p"@ } else { Seq::<char>::empty() };
    let with_p = memhog_text(exp_dir, r, core, size_kb, true, obliv);
    let without_p = memhog_text(exp_dir, r, core, size_kb, false, obliv);
    let rest = " "@ + o + tail;
    assert(with_p =~= head + "-p"@ + rest);
    assert(without_p =~= head + rest);
    let k = head.len() as int;
    assert(without_p.take(k) =~= head);
    assert(without_p.skip(k) =~= rest);
    assert(with_p == without_p.take(k) + "-p"@ + without_p.skip(k));
    let with_o = memhog_text(exp_dir, r, core, size_kb, pin, true);
    let without_o = memhog_text(exp_dir, r, core, size_kb, pin, false);
    let head2 = head + p + " "@;
    assert(with_o =~= head2 + "-o"@ + tail);
    assert(without_o =~= head2 + tail);
    let k2 = head2.len() as int;
    assert(without_o.take(k2) =~= head2);
    assert(without_o.skip(k2) =~= tail);
    assert(with_o == without_o.take(k2) + "-o"@ + without_o.skip(k2));
}

/// The command that runs `memhog` (spawned).
pub fn memhog_cmd(exp_dir: &str, r: Option<usize>, size_kb: usize, opts: MemhogOptions, tctx: &mut TasksetCtx) -> (c: Cmd)
    requires
        old(tctx).ncores > 0,
        old(tctx).next < usize::MAX,
    ensures
        c.cmd@ == memhog_text(exp_dir@, r, old(tctx).next % old(tctx).ncores, size_kb,
            opts.bits & MEMHOG_PIN == MEMHOG_PIN, opts.bits & MEMHOG_DATA_OBLIV == MEMHOG_DATA_OBLIV),
        c.cwd is None && !c.use_bash && !c.allow_error,
        final(tctx).next == old(tctx).next + 1 && final(tctx).ncores == old(tctx).ncores,
{
    let mut s = String::new();
    match r {
        Some(n) => {
            push_str(&mut s, "for i in `seq ");
            push_usize(&mut s, n);
            push_str(&mut s, "`");
        },
        None => push_str(&mut s, "while [ 1 ]"),
    }
    push_str(&mut s, " ; do LD_LIBRARY_PATH=");
    push_str(&mut s, exp_dir);
    push_str(&mut s, " taskset -c ");
    let core = tctx.next();
    push_usize(&mut s, core);
    push_str(&mut s, " ");
    push_str(&mut s, exp_dir);
    push_str(&mut s, "/memhog -r1 ");
    push_usize(&mut s, size_kb);
    push_str(&mut s, "k ");
    push_if(&mut s, opts.contains(MEMHOG_PIN), "-p");
    push_str(&mut s, " ");
    push_if(&mut s, opts.contains(MEMHOG_DATA_OBLIV), "-o");
    push_str(&mut s, " > /dev/null ; done; echo memhog done ;");
    Cmd::new(s)
}

/// The command that runs the `time_loop` microbenchmark `n` times; it
/// needs `sudo`.
pub fn time_loop_cmd(exp_dir: &str, n: usize, output_file: &str, tctx: &mut TasksetCtx) -> (r: Cmd)
    requires
        old(tctx).ncores > 0,
        old(tctx).next < usize::MAX,
    ensures
        r.cmd@ == "sudo taskset -c "@ + decimal((old(tctx).next % old(tctx).ncores) as nat) + " ./target/release/time_loop "@
            + decimal(n as nat) + " > "@ + output_file@,
        r.cwd matches Some(d) && d@ == exp_dir@,
        r.use_bash && !r.allow_error,
        final(tctx).next == old(tctx).next + 1 && final(tctx).ncores == old(tctx).ncores,
{
    let core = tctx.next();
    let mut c = owned("sudo taskset -c ");
    push_usize(&mut c, core);
    push_str(&mut c, " ./target/release/time_loop ");
    push_usize(&mut c, n);
    push_str(&mut c, " > ");
    push_str(&mut c, output_file);
    Cmd::new(c).cwd(exp_dir).use_bash()
}

/// The access pattern of the `locality_mem_access` workload.
#[derive(Debug, Copy, Clone, PartialEq, Eq, Structural)]
pub enum LocalityMemAccessMode {
    /// Local accesses: good cache and TLB behavior.
    Local,
    /// Non-local accesses: poor cache and TLB behavior.
    Random,
}

/// Settings for one run of the `locality_mem_access` workload.
pub struct LocalityMemAccessConfig<'s> {
    /// The path of the 0sim-experiments submodule.
    pub exp_dir: &'s str,
    /// The access pattern.
    pub locality: LocalityMemAccessMode,
    /// The number of accesses.
    pub n: usize,
    /// The number of worker threads, if multithreaded.
    pub threads: Option<usize>,
    /// The file for the workload's output.
    pub output_file: &'s str,
    /// Whether the workload runs with eager paging.
    pub eager: bool,
}

/// The command line of `locality_mem_access`.
pub open spec fn locality_text(cfg: LocalityMemAccessConfig) -> Seq<char> {
    "time sudo ./target/release/locality_mem_access "@ + (match cfg.locality {
        LocalityMemAccessMode::Local => "-l"@,
        LocalityMemAccessMode::Random => "-n"@,
    }) + " "@ + decimal(cfg.n as nat) + " "@ + (match cfg.threads {
        Some(t) => "-t "@ + decimal(t as nat),
        None => Seq::empty(),
    }) + " > "@ + cfg.output_file@
}

/// The commands that run `locality_mem_access`.
pub fn locality_cmds(cfg: &LocalityMemAccessConfig) -> (r: Vec<Cmd>)
    ensures
        r.len() == (if cfg.eager { 2int } else { 1int }),
        cfg.eager ==> r@[0].cmd@ == swapnil_dir() + "/apriori_paging_set_process "@ + "locality_mem_access"@
            && r@[0].cwd is None && !r@[0].use_bash && !r@[0].allow_error,
        r@.last().cmd@ == locality_text(*cfg),
        r@.last().cwd matches Some(d) && d@ == cfg.exp_dir@,
        r@.last().use_bash && !r@.last().allow_error,
{
    let mut r = eager_prefix(cfg.eager, "locality_mem_access");
    let mut c = owned("time sudo ./target/release/locality_mem_access ");
    match cfg.locality {
        LocalityMemAccessMode::Local => push_str(&mut c, "-l"),
        LocalityMemAccessMode::Random => push_str(&mut c, "-n"),
    }
    push_str(&mut c, " ");
    push_usize(&mut c, cfg.n);
    push_str(&mut c, " ");
    match cfg.threads {
        Some(t) => {
            push_str(&mut c, "-t ");
            push_usize(&mut c, t);
        },
        None => {},
    }
    push_str(&mut c, " > ");
    push_str(&mut c, cfg.output_file);
    proof {
        let t = match cfg.threads {
            Some(t) => "-t "@ + decimal(t as nat),
            None => Seq::<char>::empty(),
        };
        assert(c@ =~= locality_text(*cfg));
    }
    r.push(Cmd::new(c).cwd(cfg.exp_dir).use_bash());
    r
}

/// Every setting of the redis workload.
pub struct RedisWorkloadConfig<'s> {
    /// The path of the `0sim-experiments` submodule on the remote.
    pub exp_dir: &'s str,
    /// The path to the nullfs submodule on the remote.
    pub nullfs: &'s str,
    /// The path of the `redis.conf` file on the remote.
    pub redis_conf: &'s str,
    /// The size of the redis server in MB.
    pub server_size_mb: usize,
    /// The size of the workload in GB.
    pub wk_size_gb: usize,
    /// The file for the workload's output (`/dev/null` if none).
    pub output_file: Option<&'s str>,
    /// The core the server is pinned to, if any.
    pub server_pin_core: Option<usize>,
    /// The core the workload client is pinned to.
    pub client_pin_core: usize,
    /// The CPU frequency; if given, the workload times with rdtsc.
    pub freq: Option<usize>,
    /// The page fault time, if TSC offsetting is to account for it.
    pub pf_time: Option<u64>,
    /// Whether the workload runs with eager paging.
    pub eager: bool,
}

/// The commands before starting a redis server: allow overcommit, apriori
/// paging if eager, remove any old database, and mount a nullfs.
pub fn redis_prepare_cmds(cfg: &RedisWorkloadConfig) -> (r: Vec<Cmd>)
    ensures
        r.len() == (if cfg.eager { 4int } else { 3int }),
        r@[0].cmd@ == "echo 1 | sudo tee /proc/sys/vm/overcommit_memory"@,
        cfg.eager ==> r@[1].cmd@ == swapnil_dir() + "/apriori_paging_set_process "@ + "redis-server"@,
        r@[r.len() - 2].cmd@ == "rm -f /tmp/dump.rdb"@,
        r@[r.len() - 1].cmd@ == "sudo "@ + cfg.nullfs@ + "/nullfs /mnt/nullfs"@,
        forall|i: int| 0 <= i < r.len() ==> (#[trigger] r@[i]).cwd is None && !r@[i].use_bash && !r@[i].allow_error,
{
    let mut r: Vec<Cmd> = Vec::new();
    r.push(cmd("echo 1 | sudo tee /proc/sys/vm/overcommit_memory"));
    if cfg.eager {
        r.push(apriori_cmd("redis-server"));
    }
    r.push(cmd("rm -f /tmp/dump.rdb"));
    let mut c = owned("sudo ");
    push_str(&mut c, cfg.nullfs);
    push_str(&mut c, "/nullfs /mnt/nullfs");
    r.push(Cmd::new(c));
    r
}

/// The command that runs the redis server (spawned).
pub fn redis_server_cmd(cfg: &RedisWorkloadConfig) -> (r: Cmd)
    ensures
        r.cmd@ == (match cfg.server_pin_core {
            Some(c) => "taskset -c "@ + decimal(c as nat) + " "@,
            None => Seq::empty(),
        }) + "redis-server "@ + cfg.redis_conf@,
        r.cwd is None && !r.use_bash && !r.allow_error,
{
    let mut c = String::new();
    match cfg.server_pin_core {
        Some(core) => {
            push_str(&mut c, "taskset -c ");
            push_usize(&mut c, core);
            push_str(&mut c, " ");
        },
        None => {},
    }
    push_str(&mut c, "redis-server ");
    push_str(&mut c, cfg.redis_conf);
    proof {
        let pre = match cfg.server_pin_core {
            Some(core) => "taskset -c "@ + decimal(core as nat) + " "@,
            None => Seq::<char>::empty(),
        };
        assert(c@ =~= pre + "redis-server "@ + cfg.redis_conf@);
    }
    Cmd::new(c)
}

/// The command whose success tells that the redis server is up.
pub fn redis_probe_cmd() -> (r: Cmd)
    ensures
        r.cmd@ == "redis-cli -s /tmp/redis.sock INFO"@,
        r.cwd is None && !r.use_bash && !r.allow_error,
{
    cmd("redis-cli -s /tmp/redis.sock INFO")
}

/// How often redis saves a snapshot, in seconds.
pub const REDIS_SNAPSHOT_FREQ_SECS: usize = 300;

/// How often the redis server of the mix workload saves a snapshot, in
/// seconds: every minute.
pub const MIX_REDIS_SNAPSHOT_FREQ_SECS: usize = 60;

/// The commands that configure the running redis server: evict random keys
/// when full, the memory limit, and a snapshot every `snapshot_secs`
/// seconds if a key changed (`REDIS_SNAPSHOT_FREQ_SECS` in general,
/// `MIX_REDIS_SNAPSHOT_FREQ_SECS` in the mix workload).
pub fn redis_config_cmds(cfg: &RedisWorkloadConfig, snapshot_secs: usize) -> (r: Vec<Cmd>)
    ensures
        r.len() == 3,
        r@[0].cmd@ == "redis-cli -s /tmp/redis.sock CONFIG SET maxmemory-policy allkeys-random"@,
        r@[1].cmd@ == "redis-cli -s /tmp/redis.sock CONFIG SET maxmemory "@ + decimal(cfg.server_size_mb as nat) + "mb"@,
        r@[2].cmd@ == "redis-cli -s /tmp/redis.sock CONFIG SET save \""@ + decimal(snapshot_secs as nat) + " 1\""@,
        forall|i: int| 0 <= i < 3 ==> (#[trigger] r@[i]).cwd is None && !r@[i].use_bash && !r@[i].allow_error,
{
    let mut r: Vec<Cmd> = Vec::new();
    r.push(cmd("redis-cli -s /tmp/redis.sock CONFIG SET maxmemory-policy allkeys-random"));
    let mut c = owned("redis-cli -s /tmp/redis.sock CONFIG SET maxmemory ");
    push_usize(&mut c, cfg.server_size_mb);
    push_str(&mut c, "mb");
    r.push(Cmd::new(c));
    let mut c = owned("redis-cli -s /tmp/redis.sock CONFIG SET save \"");
    push_usize(&mut c, snapshot_secs);
    push_str(&mut c, " 1\"");
    r.push(Cmd::new(c));
    r
}

/// The command line of the `redis_gen_data` client.
pub open spec fn redis_gen_data_text(cfg: RedisWorkloadConfig) -> Seq<char> {
    "taskset -c "@ + decimal(cfg.client_pin_core as nat) + " ./target/release/redis_gen_data unix:/tmp/redis.sock "@
        + decimal(cfg.wk_size_gb as nat) + " "@ + freq_flag(cfg.freq) + " "@ + opt_flag("--pftime"@, cfg.pf_time)
        + " | tee "@ + or_null(cfg.output_file) + " ; echo redis_gen_data done"@
}

/// The client command of the `redis_gen_data` workload (spawned).
pub fn redis_gen_data_cmd(cfg: &RedisWorkloadConfig) -> (r: Cmd)
    ensures
        r.cmd@ == redis_gen_data_text(*cfg),
        r.cwd matches Some(d) && d@ == cfg.exp_dir@,
        !r.use_bash && !r.allow_error,
{
    let mut c = owned("taskset -c ");
    push_usize(&mut c, cfg.client_pin_core);
    push_str(&mut c, " ./target/release/redis_gen_data unix:/tmp/redis.sock ");
    push_usize(&mut c, cfg.wk_size_gb);
    push_str(&mut c, " ");
    push_freq(&mut c, cfg.freq);
    push_str(&mut c, " ");
    push_opt_flag(&mut c, "--pftime", cfg.pf_time);
    push_str(&mut c, " | tee ");
    push_or_null(&mut c, cfg.output_file);
    push_str(&mut c, " ; echo redis_gen_data done");
    Cmd::new(c).cwd(cfg.exp_dir)
}

/// The command that runs the metis matrix multiplication of a `dim` by
/// `dim` matrix (spawned).
pub fn metis_cmd(bmk_dir: &str, dim: usize, tctx: &mut TasksetCtx) -> (r: Cmd)
    requires
        old(tctx).ncores > 0,
        old(tctx).next < usize::MAX,
    ensures
        r.cmd@ == "taskset -c "@ + decimal((old(tctx).next % old(tctx).ncores) as nat) + " ./obj/matrix_mult2 -q -o -l "@
            + decimal(dim as nat) + " ; echo matrix_mult2 done ;"@,
        r.cwd matches Some(d) && d@ == bmk_dir@,
        !r.use_bash && !r.allow_error,
        final(tctx).next == old(tctx).next + 1 && final(tctx).ncores == old(tctx).ncores,
{
    let core = tctx.next();
    let mut c = owned("taskset -c ");
    push_usize(&mut c, core);
    push_str(&mut c, " ./obj/matrix_mult2 -q -o -l ");
    push_usize(&mut c, dim);
    push_str(&mut c, " ; echo matrix_mult2 done ;");
    Cmd::new(c).cwd(bmk_dir)
}

/// The sizes of the parts of the mix workload of `size_gb` GB: the redis
/// server size in MB, the redis workload size in GB, and the memhog size
/// in KB; each gets a third (the shifts drop bits that overflow).
pub fn mix_sizes(size_gb: usize) -> (r: (usize, usize, usize))
    ensures
        r.0 == ((size_gb as int * 1024) % (usize::MAX as int + 1)) / 3,
        r.1 == size_gb / 3,
        r.2 == ((size_gb as int * 1048576) % (usize::MAX as int + 1)) / 3,
{
    let mb = size_gb.wrapping_mul(1024) / 3;
    let kb = size_gb.wrapping_mul(1048576) / 3;
    (mb, size_gb / 3, kb)
}


/// The parts of the mix workload: a redis server and client pair (always
/// eagerly paged, snapshotting every minute), a metis matrix
/// multiplication and a memhog that pins its memory and writes
/// data-oblivious values, each taking a third of the memory. The redis
/// commands are built from these values with the redis functions; metis and
/// memhog are spawned with the commands given.
pub struct MixPlan {
    /// The size of the redis server in MB.
    pub redis_server_size_mb: usize,
    /// The size of the redis workload in GB.
    pub redis_wk_size_gb: usize,
    /// The core of the redis client.
    pub redis_client_core: usize,
    /// Whether redis runs with eager paging.
    pub redis_eager: bool,
    /// How often the redis server saves a snapshot, in seconds.
    pub redis_snapshot_secs: usize,
    /// The commands that start metis, in order (the last is spawned).
    pub metis: Vec<Cmd>,
    /// The commands that start memhog, in order (the last is spawned).
    pub memhog: Vec<Cmd>,
}

/// The mix workload of `size_gb` GB over the cores handed out by `tctx`:
/// the redis client takes the next core, then metis (multiplying matrices
/// of side `dim`), then memhog; metis and memhog are eagerly paged if
/// `eager`, redis always.
pub fn mix_plan(numactl_dir: &str, metis_dir: &str, size_gb: usize, dim: usize, eager: bool, tctx: &mut TasksetCtx) -> (r: MixPlan)
    requires
        old(tctx).ncores > 0,
        old(tctx).next + 3 <= usize::MAX,
    ensures
        r.redis_server_size_mb == ((size_gb as int * 1024) % (usize::MAX as int + 1)) / 3,
        r.redis_wk_size_gb == size_gb / 3,
        r.redis_client_core == old(tctx).next % old(tctx).ncores,
        r.redis_eager,
        r.redis_snapshot_secs == MIX_REDIS_SNAPSHOT_FREQ_SECS,
        r.metis.len() == if eager { 2int } else { 1int },
        eager ==> r.metis@[0].cmd@ == swapnil_dir() + "/apriori_paging_set_process "@ + "matrix_mult2"@,
        r.metis@.last().cmd@ == "taskset -c "@ + decimal(((old(tctx).next + 1) % (old(tctx).ncores as int)) as nat)
            + " ./obj/matrix_mult2 -q -o -l "@ + decimal(dim as nat) + " ; echo matrix_mult2 done ;"@,
        r.metis@.last().cwd matches Some(d) && d@ == metis_dir@,
        r.memhog.len() == if eager { 2int } else { 1int },
        eager ==> r.memhog@[0].cmd@ == swapnil_dir() + "/apriori_paging_set_process "@ + "memhog"@,
        r.memhog@.last().cmd@ == memhog_text(
            numactl_dir@,
            None,
            ((old(tctx).next + 2) % (old(tctx).ncores as int)) as usize,
            ((size_gb as int * 1048576) % (usize::MAX as int + 1)) as usize / 3,
            true,
            true,
        ),
        final(tctx).next == old(tctx).next + 3,
        final(tctx).ncores == old(tctx).ncores,
{
    let (mb, gb, kb) = mix_sizes(size_gb);
    let client = tctx.next();
    let mut metis = eager_prefix(eager, "matrix_mult2");
    metis.push(metis_cmd(metis_dir, dim, tctx));
    let mut memhog = eager_prefix(eager, "memhog");
    let bits: u32 = MEMHOG_PIN | MEMHOG_DATA_OBLIV;
    assert(bits & MEMHOG_PIN == MEMHOG_PIN && bits & MEMHOG_DATA_OBLIV == MEMHOG_DATA_OBLIV) by (bit_vector)
        requires
            bits == 1u32 | 2u32,
    ;
    memhog.push(memhog_cmd(numactl_dir, None, kb, MemhogOptions { bits }, tctx));
    MixPlan {
        redis_server_size_mb: mb,
        redis_wk_size_gb: gb,
        redis_client_core: client,
        redis_eager: true,
        redis_snapshot_secs: MIX_REDIS_SNAPSHOT_FREQ_SECS,
        metis,
        memhog,
    }
}

} // verus!
