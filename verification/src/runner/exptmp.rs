//! The temporary experiment: its workloads and their names in the results
//! file and back (two workloads share a name and differ by the pattern
//! they write), the steps of a run, and the line that names its results.

use vstd::prelude::*;
use crate::jobserver::runs::last_results;
use crate::runner::cmd::Cmd;
use crate::runner::common::{
    HOSTNAME_SHARED_RESULTS_DIR, RESEARCH_WORKSPACE_PATH, ZEROSIM_BENCHMARKS_DIR, ZEROSIM_HADOOP_PATH,
    ZEROSIM_TRACE_SUBMODULE,
};
use crate::runner::workloads::{LocalityMemAccessMode, TimeMmapTouchPattern};
use crate::text::{decimal, owned, push_decimal, push_str, push_usize};

verus! {

/// The workload an experiment run measures.
#[derive(Debug, Copy, Clone, PartialEq, Eq, Structural)]
pub enum Workload {
    Memcached,
    Zeros,
    Counter,
    Locality,
    HiBenchWordcount,
}

impl Workload {
    /// The name the workload is recorded under.
    pub open spec fn name(self) -> Seq<char> {
        match self {
            Workload::Memcached => "memcached_gen_data"@,
            Workload::Zeros | Workload::Counter => "time_mmap_touch"@,
            Workload::Locality => "locality_mem_access"@,
            Workload::HiBenchWordcount => "hibench_wordcount"@,
        }
    }

    /// The pattern the workload writes, for those that take one.
    pub open spec fn pattern(self) -> Option<TimeMmapTouchPattern> {
        match self {
            Workload::Zeros => Some(TimeMmapTouchPattern::Zeros),
            Workload::Counter => Some(TimeMmapTouchPattern::Counter),
            _ => None,
        }
    }

    /// Whether the name `s` with the pattern `pat` describes a workload.
    pub open spec fn known(s: Seq<char>, pat: Option<TimeMmapTouchPattern>) -> bool {
        if s == "time_mmap_touch"@ {
            pat is Some
        } else {
            pat is None && (s == "memcached_gen_data"@ || s == "locality_mem_access"@ || s == "hibench_wordcount"@)
        }
    }

    /// The name the workload is recorded under.
    pub fn to_str(&self) -> (r: &'static str)
        ensures
            r@ == self.name(),
    {
        match self {
            Workload::Memcached => "memcached_gen_data",
            Workload::Zeros | Workload::Counter => "time_mmap_touch",
            Workload::Locality => "locality_mem_access",
            Workload::HiBenchWordcount => "hibench_wordcount",
        }
    }

    /// The workload recorded under the name `s`, writing the pattern `pat`.
    pub fn from_str(s: &str, pat: Option<TimeMmapTouchPattern>) -> (w: Workload)
        requires
            Workload::known(s@, pat),
        ensures
            w.name() == s@,
            w.pattern() == pat,
    {
        proof {
            reveal_strlit("memcached_gen_data");
            reveal_strlit("time_mmap_touch");
            reveal_strlit("locality_mem_access");
            reveal_strlit("hibench_wordcount");
        }
        if crate::text::str_eq(s, "time_mmap_touch") {
            match pat {
                Some(TimeMmapTouchPattern::Zeros) => Workload::Zeros,
                _ => Workload::Counter,
            }
        } else if crate::text::str_eq(s, "memcached_gen_data") {
            Workload::Memcached
        } else if crate::text::str_eq(s, "locality_mem_access") {
            Workload::Locality
        } else {
            Workload::HiBenchWordcount
        }
    }
}

/// Every workload is described by its name and pattern, and by no other
/// workload's: reading them back gives that workload.
pub proof fn law_name_round_trip(w: Workload, v: Workload)
    ensures
        Workload::known(w.name(), w.pattern()),
        w.name() == v.name() && w.pattern() == v.pattern() ==> w == v,
{
    reveal_strlit("memcached_gen_data");
    reveal_strlit("time_mmap_touch");
    reveal_strlit("locality_mem_access");
    reveal_strlit("hibench_wordcount");
    assert("memcached_gen_data"@.len() == 18);
    assert("time_mmap_touch"@.len() == 15);
    assert("locality_mem_access"@.len() == 19);
    assert("hibench_wordcount"@.len() == 17);
}

/// The number of iterations of the `locality_mem_access` workload.
pub const LOCALITY_N: usize = 10000;

/// The settings of a run of the temporary experiment.
pub struct ExptmpConfig {
    /// The workload to measure.
    pub workload: Workload,
    /// The size of the workload in GB.
    pub size: usize,
    /// The memory of the VM in GB.
    pub vm_size: usize,
    /// The number of cores of the VM.
    pub cores: usize,
    /// Whether to warm up the VM before the workload.
    pub warmup: bool,
    /// Whether to calibrate the guest's clock first.
    pub calibrate: bool,
    /// The largest share of memory, in percent, that zswap may use.
    pub zswap_max_pool_percent: usize,
    /// The page fault time for the workload, if set.
    pub pf_time: Option<u64>,
    /// Whether to print the line that names the results files at the end.
    pub print_results_path: bool,
}

/// One step of a run of the temporary experiment. The files a step writes
/// are named from the run's settings when it is carried out.
#[derive(Debug, Copy, Clone, PartialEq, Eq, Structural)]
pub enum Step {
    /// Reboot the host.
    Reboot,
    /// Connect to the host and prepare it.
    ConnectHost,
    /// Turn on swapping to the SSD.
    SsdSwapOn,
    /// Start the VM with `vm_size` GB and `cores` cores (timed as "Start VM").
    StartVm { vm_size: usize, cores: usize },
    /// Turn on zswap.
    ZswapOn,
    /// Let zswap use at most `percent` percent of memory.
    ZswapMaxPool { percent: usize },
    /// Calibrate the guest's clock (timed as "Calibrate").
    Calibrate,
    /// Write the run's settings to the parameters file.
    WriteParams,
    /// Touch `pages` pages with zeros on core `pin_core`, with no output
    /// (timed as "Warmup").
    Warmup { pages: usize, pin_core: usize },
    /// Read the host's CPU frequency.
    ReadCpuFreq,
    /// Touch `pages` pages with `pattern` on core `pin_core`, output to the
    /// output file (timed as "Workload").
    TouchPages { pages: usize, pattern: TimeMmapTouchPattern, pf_time: Option<u64>, pin_core: usize },
    /// Start memcached with `server_size_mb` MB and fill it with
    /// `wk_size_gb` GB from core `client_pin_core`, output to the output
    /// file (timed as "Start and Workload").
    Memcached { server_size_mb: usize, wk_size_gb: usize, pf_time: Option<u64>, client_pin_core: usize },
    /// Start tracing on the host to the local (or non-local) trace file.
    StartTrace { nonlocal: bool, page_fault_time: u64 },
    /// Run `locality_mem_access` in `mode` for `n` iterations, output to the
    /// local (or non-local) output file (timed as "Workload 1", or
    /// "Workload 2" for the random mode).
    Locality { mode: LocalityMemAccessMode, n: usize },
    /// Wait for the trace to end.
    JoinTrace,
    /// Run the HiBench wordcount script at position `k` of `hibench_cmds`.
    Hadoop { k: usize },
    /// Run `date` on the host.
    Date,
    /// Write the timings to the time file.
    WriteTimes,
    /// Collect the simulation's output.
    SimOutput,
    /// Print the line that names the results files.
    PrintResults,
}

/// The number of 4 KB pages in `size` GB, computed as the experiment does,
/// with `usize` shifts.
pub open spec fn pages_of(size: usize) -> usize {
    (size << 30usize) >> 12usize
}

/// The core the workload is pinned to: cores are handed out in turn from
/// 0, and the warmup, if any, takes the first.
pub open spec fn workload_core(cfg: ExptmpConfig) -> usize {
    if cfg.warmup {
        (1int % (cfg.cores as int)) as usize
    } else {
        0
    }
}

/// The steps that run the workload itself.
#[verifier::opaque]
pub open spec fn workload_steps(cfg: ExptmpConfig) -> Seq<Step> {
    let pages = pages_of(cfg.size);
    let core = workload_core(cfg);
    match cfg.workload {
        Workload::Zeros => seq![
            Step::TouchPages { pages, pattern: TimeMmapTouchPattern::Zeros, pf_time: cfg.pf_time, pin_core: core },
        ],
        Workload::Counter => seq![
            Step::TouchPages { pages, pattern: TimeMmapTouchPattern::Counter, pf_time: cfg.pf_time, pin_core: core },
        ],
        Workload::Memcached => seq![
            Step::Memcached {
                server_size_mb: cfg.size << 10usize,
                wk_size_gb: cfg.size,
                pf_time: cfg.pf_time,
                client_pin_core: core,
            },
        ],
        Workload::Locality => {
            let t = cfg.pf_time->0;
            seq![
                Step::StartTrace { nonlocal: false, page_fault_time: t },
                Step::Locality { mode: LocalityMemAccessMode::Local, n: LOCALITY_N },
                Step::JoinTrace,
                Step::StartTrace { nonlocal: true, page_fault_time: t },
                Step::Locality { mode: LocalityMemAccessMode::Random, n: LOCALITY_N },
                Step::JoinTrace,
            ]
        },
        Workload::HiBenchWordcount => seq![
            Step::Hadoop { k: 0 },
            Step::Hadoop { k: 1 },
            Step::Hadoop { k: 2 },
            Step::Hadoop { k: 3 },
        ],
    }
}

/// The steps of a run, in order: reboot and prepare the host, start the
/// VM, set up zswap, calibrate if asked, record the settings, warm up if
/// asked, read the CPU frequency, run the workload, then record the time
/// and the timings, collect the simulation's output and, if asked, print
/// the results line.
pub open spec fn exptmp_steps(cfg: ExptmpConfig) -> Seq<Step> {
    seq![
        Step::Reboot,
        Step::ConnectHost,
        Step::SsdSwapOn,
        Step::StartVm { vm_size: cfg.vm_size, cores: cfg.cores },
        Step::ZswapOn,
        Step::ZswapMaxPool { percent: cfg.zswap_max_pool_percent },
    ] + (if cfg.calibrate { seq![Step::Calibrate] } else { Seq::empty() }) + seq![Step::WriteParams] + (if cfg.warmup {
        seq![Step::Warmup { pages: pages_of(cfg.size), pin_core: 0 }]
    } else {
        Seq::empty()
    }) + seq![Step::ReadCpuFreq] + workload_steps(cfg) + seq![Step::Date, Step::WriteTimes, Step::SimOutput]
        + (if cfg.print_results_path { seq![Step::PrintResults] } else { Seq::empty() })
}

/// The steps that run the workload, given its page count and core.
fn workload_plan(cfg: &ExptmpConfig, pages: usize, core: usize) -> (r: Vec<Step>)
    requires
        pages == pages_of(cfg.size),
        core == workload_core(*cfg),
        cfg.workload is Locality ==> cfg.pf_time is Some,
    ensures
        r@ == workload_steps(*cfg),
{
    reveal(workload_steps);
    let mut r: Vec<Step> = Vec::new();
    match cfg.workload {
        Workload::Zeros => {
            r.push(Step::TouchPages { pages, pattern: TimeMmapTouchPattern::Zeros, pf_time: cfg.pf_time, pin_core: core });
        },
        Workload::Counter => {
            r.push(Step::TouchPages { pages, pattern: TimeMmapTouchPattern::Counter, pf_time: cfg.pf_time, pin_core: core });
        },
        Workload::Memcached => {
            r.push(Step::Memcached {
                server_size_mb: cfg.size << 10,
                wk_size_gb: cfg.size,
                pf_time: cfg.pf_time,
                client_pin_core: core,
            });
        },
        Workload::Locality => {
            let t = match cfg.pf_time {
                Some(t) => t,
                None => 0,
            };
            r.push(Step::StartTrace { nonlocal: false, page_fault_time: t });
            r.push(Step::Locality { mode: LocalityMemAccessMode::Local, n: LOCALITY_N });
            r.push(Step::JoinTrace);
            r.push(Step::StartTrace { nonlocal: true, page_fault_time: t });
            r.push(Step::Locality { mode: LocalityMemAccessMode::Random, n: LOCALITY_N });
            r.push(Step::JoinTrace);
        },
        Workload::HiBenchWordcount => {
            r.push(Step::Hadoop { k: 0 });
            r.push(Step::Hadoop { k: 1 });
            r.push(Step::Hadoop { k: 2 });
            r.push(Step::Hadoop { k: 3 });
        },
    }
    assert(r@ =~= workload_steps(*cfg));
    r
}

/// Whether no step of `s` touches pages.
spec fn no_touch(s: Seq<Step>) -> bool {
    forall|i: int| 0 <= i < s.len() ==> !((#[trigger] s[i]) is TouchPages)
}

/// The pages a run touches are touched with its workload's own pattern: a
/// run of the zeros or counter workload has a step that touches pages, and
/// every such step of any run writes the pattern of the run's workload
/// (`Workload::pattern`, the one its name is recorded with) with the run's
/// page fault time, over all the 4 KB pages of its size in GB (stated for
/// sizes below 4 GB, whose bytes fit in a `usize` on every target); the
/// other workloads touch no pages.
pub proof fn law_touch_pages_pattern(cfg: ExptmpConfig)
    ensures
        forall|i: int|
            0 <= i < exptmp_steps(cfg).len() && (#[trigger] exptmp_steps(cfg)[i]) is TouchPages ==> cfg.workload.pattern()
                == Some(exptmp_steps(cfg)[i]->TouchPages_pattern) && exptmp_steps(cfg)[i]->TouchPages_pf_time
                == cfg.pf_time && (cfg.size < 4 ==> exptmp_steps(cfg)[i]->TouchPages_pages
                == cfg.size * 262144),
        (cfg.workload is Zeros || cfg.workload is Counter) ==> exists|i: int|
            0 <= i < exptmp_steps(cfg).len() && (#[trigger] exptmp_steps(cfg)[i]) is TouchPages,
{
    reveal(workload_steps);
    let w = workload_steps(cfg);
    let a = seq![
        Step::Reboot,
        Step::ConnectHost,
        Step::SsdSwapOn,
        Step::StartVm { vm_size: cfg.vm_size, cores: cfg.cores },
        Step::ZswapOn,
        Step::ZswapMaxPool { percent: cfg.zswap_max_pool_percent },
    ] + (if cfg.calibrate { seq![Step::Calibrate] } else { Seq::empty() }) + seq![Step::WriteParams] + (if cfg.warmup {
        seq![Step::Warmup { pages: pages_of(cfg.size), pin_core: 0 }]
    } else {
        Seq::empty()
    }) + seq![Step::ReadCpuFreq];
    let b = seq![Step::Date, Step::WriteTimes, Step::SimOutput] + (if cfg.print_results_path {
        seq![Step::PrintResults]
    } else {
        Seq::empty()
    });
    let steps = exptmp_steps(cfg);
    assert(steps =~= a + w + b);
    assert(no_touch(a));
    assert(no_touch(b));
    let size = cfg.size;
    if size < 4 {
        assert((size << 30usize) >> 12usize == size * 262144) by (bit_vector)
            requires
                size < 4,
        ;
    }
    assert forall|i: int| 0 <= i < steps.len() && (#[trigger] steps[i]) is TouchPages implies cfg.workload.pattern()
        == Some(steps[i]->TouchPages_pattern) && steps[i]->TouchPages_pf_time == cfg.pf_time && (cfg.size
        < 4 ==> steps[i]->TouchPages_pages == cfg.size * 262144) by {
        if i < a.len() {
            assert(steps[i] == a[i]);
        } else if i < a.len() + w.len() {
            assert(steps[i] == w[i - a.len()]);
        } else {
            assert(steps[i] == b[i - a.len() - w.len()]);
        }
    }
    if cfg.workload is Zeros || cfg.workload is Counter {
        assert(steps[a.len() as int] == w[0]);
        assert(steps[a.len() as int] is TouchPages);
    }
}

/// The steps of a run of the temporary experiment. The experiment hands out
/// guest cores from a count of `cores`, so it needs at least one; the
/// locality workload traces with the page fault time, so it needs one.
#[verifier::rlimit(30)]
pub fn exptmp_plan(cfg: &ExptmpConfig) -> (r: Vec<Step>)
    requires
        cfg.cores > 0,
        cfg.workload is Locality ==> cfg.pf_time is Some,
    ensures
        r@ == exptmp_steps(*cfg),
{
    let mut r: Vec<Step> = Vec::new();
    r.push(Step::Reboot);
    r.push(Step::ConnectHost);
    r.push(Step::SsdSwapOn);
    r.push(Step::StartVm { vm_size: cfg.vm_size, cores: cfg.cores });
    r.push(Step::ZswapOn);
    r.push(Step::ZswapMaxPool { percent: cfg.zswap_max_pool_percent });
    let ghost head = r@;
    if cfg.calibrate {
        r.push(Step::Calibrate);
    }
    r.push(Step::WriteParams);
    let ghost calib = if cfg.calibrate { seq![Step::Calibrate] } else { Seq::<Step>::empty() };
    assert(r@ =~= head + calib + seq![Step::WriteParams]);
    let ghost mid = r@;
    let pages = (cfg.size << 30) >> 12;
    let mut next_core: usize = 0;
    if cfg.warmup {
        r.push(Step::Warmup { pages, pin_core: 0 });
        next_core = 1;
    }
    r.push(Step::ReadCpuFreq);
    let ghost warm = if cfg.warmup {
        seq![Step::Warmup { pages: pages_of(cfg.size), pin_core: 0 }]
    } else {
        Seq::<Step>::empty()
    };
    assert(r@ =~= mid + warm + seq![Step::ReadCpuFreq]);
    let ghost mid2 = r@;
    let core = next_core % cfg.cores;
    let mut w = workload_plan(cfg, pages, core);
    r.append(&mut w);
    r.push(Step::Date);
    r.push(Step::WriteTimes);
    r.push(Step::SimOutput);
    assert(r@ =~= mid2 + workload_steps(*cfg) + seq![Step::Date, Step::WriteTimes, Step::SimOutput]);
    let ghost mid3 = r@;
    if cfg.print_results_path {
        r.push(Step::PrintResults);
    }
    let ghost tail = if cfg.print_results_path { seq![Step::PrintResults] } else { Seq::<Step>::empty() };
    assert(r@ =~= mid3 + tail);
    assert(r@ =~= exptmp_steps(*cfg));
    r
}

/// The label a step's duration is recorded under in the timings, if it is
/// timed.
pub open spec fn step_label(step: Step) -> Option<Seq<char>> {
    match step {
        Step::StartVm { .. } => Some("Start VM"@),
        Step::Calibrate => Some("Calibrate"@),
        Step::Warmup { .. } => Some("Warmup"@),
        Step::TouchPages { .. } => Some("Workload"@),
        Step::Memcached { .. } => Some("Start and Workload"@),
        Step::Locality { mode: LocalityMemAccessMode::Local, .. } => Some("Workload 1"@),
        Step::Locality { mode: LocalityMemAccessMode::Random, .. } => Some("Workload 2"@),
        _ => None,
    }
}

/// The label a step's duration is recorded under, if it is timed.
pub fn timer_label(step: &Step) -> (r: Option<&'static str>)
    ensures
        match r {
            Some(l) => step_label(*step) == Some(l@),
            None => step_label(*step) is None,
        },
{
    match step {
        Step::StartVm { .. } => Some("Start VM"),
        Step::Calibrate => Some("Calibrate"),
        Step::Warmup { .. } => Some("Warmup"),
        Step::TouchPages { .. } => Some("Workload"),
        Step::Memcached { .. } => Some("Start and Workload"),
        Step::Locality { mode: LocalityMemAccessMode::Local, .. } => Some("Workload 1"),
        Step::Locality { mode: LocalityMemAccessMode::Random, .. } => Some("Workload 2"),
        _ => None,
    }
}

/// The command that lets zswap use at most `percent` percent of memory.
pub fn zswap_max_pool_cmd(percent: usize) -> (r: Cmd)
    ensures
        r.cmd@ == "echo "@ + decimal(percent as nat) + " | sudo tee /sys/module/zswap/parameters/max_pool_percent"@,
        r.cwd is None && r.use_bash && !r.allow_error,
{
    let mut c = owned("echo ");
    push_usize(&mut c, percent);
    push_str(&mut c, " | sudo tee /sys/module/zswap/parameters/max_pool_percent");
    Cmd::new(c).use_bash()
}

/// The command that traces the host's memory activity to `trace_file` in
/// the shared results directory, with the page fault time `pf_time`.
pub fn trace_cmd(trace_file: &str, pf_time: u64) -> (r: Cmd)
    ensures
        r.cmd@ == "sudo taskset -c 3 "@ + RESEARCH_WORKSPACE_PATH@ + "/"@ + ZEROSIM_TRACE_SUBMODULE@
            + "/target/release/zerosim-trace trace 500 100000 "@ + HOSTNAME_SHARED_RESULTS_DIR@ + "/"@ + trace_file@
            + " -t "@ + decimal(pf_time as nat),
        r.cwd is None && !r.use_bash && !r.allow_error,
{
    let mut c = owned("sudo taskset -c 3 ");
    push_str(&mut c, RESEARCH_WORKSPACE_PATH);
    push_str(&mut c, "/");
    push_str(&mut c, ZEROSIM_TRACE_SUBMODULE);
    push_str(&mut c, "/target/release/zerosim-trace trace 500 100000 ");
    push_str(&mut c, HOSTNAME_SHARED_RESULTS_DIR);
    push_str(&mut c, "/");
    push_str(&mut c, trace_file);
    push_str(&mut c, " -t ");
    push_decimal(&mut c, pf_time);
    Cmd::new(c)
}

/// The directory of the Hadoop benchmark scripts on the guest.
pub open spec fn hadoop_dir() -> Seq<char> {
    RESEARCH_WORKSPACE_PATH@ + "/"@ + ZEROSIM_BENCHMARKS_DIR@ + "/"@ + ZEROSIM_HADOOP_PATH@
}

/// The commands of the HiBench wordcount workload, in order: start Hadoop,
/// prepare the input, run the workload, and run the start script once more
/// at the end.
pub fn hibench_cmds() -> (r: Vec<Cmd>)
    ensures
        r.len() == 4,
        r@[0].cmd@ == "./start-all-standalone.sh"@ && (r@[0].cwd matches Some(d) && d@ == hadoop_dir()),
        r@[1].cmd@ == "./bin/workloads/micro/wordcount/prepare/prepare.sh"@ && (r@[1].cwd matches Some(d) && d@
            == hadoop_dir() + "/HiBench"@),
        r@[2].cmd@ == "./bin/workloads/micro/wordcount/hadoop/run.sh"@ && (r@[2].cwd matches Some(d) && d@
            == hadoop_dir() + "/HiBench"@),
        r@[3].cmd@ == "./start-all-standalone.sh"@ && (r@[3].cwd matches Some(d) && d@ == hadoop_dir()),
        forall|i: int| 0 <= i < 4 ==> !(#[trigger] r@[i]).use_bash && !r@[i].allow_error,
{
    let mut hadoop = owned(RESEARCH_WORKSPACE_PATH);
    push_str(&mut hadoop, "/");
    push_str(&mut hadoop, ZEROSIM_BENCHMARKS_DIR);
    push_str(&mut hadoop, "/");
    push_str(&mut hadoop, ZEROSIM_HADOOP_PATH);
    let mut hibench = owned(hadoop.as_str());
    push_str(&mut hibench, "/HiBench");
    let mut r: Vec<Cmd> = Vec::new();
    r.push(Cmd::new(owned("./start-all-standalone.sh")).cwd(hadoop.as_str()));
    r.push(Cmd::new(owned("./bin/workloads/micro/wordcount/prepare/prepare.sh")).cwd(hibench.as_str()));
    r.push(Cmd::new(owned("./bin/workloads/micro/wordcount/hadoop/run.sh")).cwd(hibench.as_str()));
    r.push(Cmd::new(owned("./start-all-standalone.sh")).cwd(hadoop.as_str()));
    r
}

/// The line that names the results files of a run, matched by `glob`.
pub fn results_line(glob: &str) -> (r: String)
    ensures
        r@ == "RESULTS: "@ + glob@,
{
    let mut r = owned("RESULTS: ");
    push_str(&mut r, glob);
    r
}

/// The results line of a run is read back as the run's results: whatever
/// the run printed before it, the output whose last line is
/// `results_line(glob)` names `glob`.
pub proof fn law_results_line_read_back(before: Seq<String>, line: String, glob: Seq<char>)
    requires
        line@ == "RESULTS: "@ + glob,
    ensures
        last_results(before.push(line)) == Some(glob),
{
    reveal_strlit("RESULTS: ");
    let lines = before.push(line);
    assert(lines.last() == line);
    assert(line@.take(9) =~= "RESULTS: "@);
    assert(line@.skip(9) =~= glob);
}

} // verus!
