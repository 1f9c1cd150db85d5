//! The setup of a test machine for running a VM: which steps the options
//! ask for and in what order, and the options and commands those steps use
//! that depend on the options.

use vstd::prelude::*;
use crate::runner::cmd::{Cmd, cmd};
use crate::text::{owned, push_str};

verus! {

/// The options of a setup run.
pub struct SetupConfig {
    /// Do the AWS-specific things.
    pub aws: bool,
    /// Set up the guest to work behind this proxy.
    pub setup_proxy: Option<String>,
    /// Install the host's dependencies and rename `poweroff`.
    pub host_dep: bool,
    /// The device to format and use as the home directory.
    pub home_device: Option<String>,
    /// The device to use as a thinly provisioned swap space.
    pub mapper_device: Option<String>,
    /// The devices to use for swap (all unpartitioned ones if none).
    pub swap_devs: Vec<String>,
    /// The token to clone the research workspace with.
    pub clone_wkspc: Option<String>,
    /// The branch to build the host kernel from.
    pub git_branch: Option<String>,
    /// Build the host benchmarks.
    pub host_bmks: bool,
    /// Prepare the host for a VM (once; reboots the host).
    pub host_prep: bool,
    /// Disable Intel EPT on the host.
    pub disable_ept: bool,
    /// Destroy any existing VM.
    pub destroy_existing_vm: bool,
    /// Create and initialize a new VM.
    pub create_vm: bool,
    /// Build and install a kernel on the guest.
    pub guest_kernel: bool,
    /// Set up Hadoop on the guest.
    pub setup_hadoop: bool,
}

/// A step of the setup.
#[derive(Debug, Copy, Clone, PartialEq, Eq, Structural)]
pub enum SetupStep {
    RenamePoweroff,
    InstallHostDependencies,
    SetUpHostDevices,
    CloneResearchWorkspace,
    InstallHostKernel,
    InstallRust,
    BuildHostBenchmarks,
    PrepareHostAndReboot,
    DestroyVm,
    /// Create the VM and connect to it.
    InitVm,
    /// Start the VM that exists and connect to it.
    StartVagrant,
    InstallGuestDependencies,
    InstallGuestKernel,
    InstallGuestBenchmarks,
    /// Mark the TSC a reliable clock source in the guest.
    TscReliableBootParam,
    /// Sync both machines and power the guest off.
    SyncAndPoweroff,
}

/// `s` followed by `x` where `b` holds.
pub open spec fn push_if(s: Seq<SetupStep>, b: bool, x: SetupStep) -> Seq<SetupStep> {
    if b {
        s.push(x)
    } else {
        s
    }
}

/// The steps on the host, in order.
pub open spec fn host_plan(cfg: SetupConfig) -> Seq<SetupStep> {
    let s = push_if(Seq::empty(), cfg.host_dep, SetupStep::RenamePoweroff);
    let s = push_if(s, cfg.host_dep, SetupStep::InstallHostDependencies);
    let s = s.push(SetupStep::SetUpHostDevices);
    let s = push_if(s, cfg.clone_wkspc is Some, SetupStep::CloneResearchWorkspace);
    let s = push_if(s, cfg.git_branch is Some, SetupStep::InstallHostKernel);
    let s = push_if(s, cfg.host_dep, SetupStep::InstallRust);
    let s = push_if(s, cfg.host_bmks, SetupStep::BuildHostBenchmarks);
    let s = push_if(s, cfg.host_prep, SetupStep::PrepareHostAndReboot);
    push_if(s, cfg.destroy_existing_vm, SetupStep::DestroyVm)
}

/// All the steps of the setup, in order: the host's, then, where a VM is
/// created or one is needed for the guest kernel or Hadoop, the guest's.
pub open spec fn setup_plan(cfg: SetupConfig) -> Seq<SetupStep> {
    let h = host_plan(cfg);
    if !cfg.create_vm && !cfg.guest_kernel && !cfg.setup_hadoop {
        h
    } else {
        let s = h.push(if cfg.create_vm { SetupStep::InitVm } else { SetupStep::StartVagrant });
        let s = s.push(SetupStep::InstallGuestDependencies);
        let s = push_if(s, cfg.guest_kernel, SetupStep::InstallGuestKernel);
        s.push(SetupStep::InstallGuestBenchmarks).push(SetupStep::TscReliableBootParam).push(SetupStep::SyncAndPoweroff)
    }
}

fn push_step_if(s: &mut Vec<SetupStep>, b: bool, x: SetupStep)
    ensures
        final(s)@ == push_if(old(s)@, b, x),
{
    if b {
        s.push(x);
    }
}

/// The steps the options ask for, in order.
pub fn setup_steps(cfg: &SetupConfig) -> (r: Vec<SetupStep>)
    ensures
        r@ == setup_plan(*cfg),
{
    let mut s: Vec<SetupStep> = Vec::new();
    push_step_if(&mut s, cfg.host_dep, SetupStep::RenamePoweroff);
    push_step_if(&mut s, cfg.host_dep, SetupStep::InstallHostDependencies);
    s.push(SetupStep::SetUpHostDevices);
    push_step_if(&mut s, cfg.clone_wkspc.is_some(), SetupStep::CloneResearchWorkspace);
    push_step_if(&mut s, cfg.git_branch.is_some(), SetupStep::InstallHostKernel);
    push_step_if(&mut s, cfg.host_dep, SetupStep::InstallRust);
    push_step_if(&mut s, cfg.host_bmks, SetupStep::BuildHostBenchmarks);
    push_step_if(&mut s, cfg.host_prep, SetupStep::PrepareHostAndReboot);
    push_step_if(&mut s, cfg.destroy_existing_vm, SetupStep::DestroyVm);
    assert(s@ == host_plan(*cfg));
    if !cfg.create_vm && !cfg.guest_kernel && !cfg.setup_hadoop {
        return s;
    }
    if cfg.create_vm {
        s.push(SetupStep::InitVm);
    } else {
        s.push(SetupStep::StartVagrant);
    }
    s.push(SetupStep::InstallGuestDependencies);
    push_step_if(&mut s, cfg.guest_kernel, SetupStep::InstallGuestKernel);
    s.push(SetupStep::InstallGuestBenchmarks);
    s.push(SetupStep::TscReliableBootParam);
    s.push(SetupStep::SyncAndPoweroff);
    s
}

/// Whether the options agree with each other: a thin swap device and
/// explicit swap devices exclude each other.
pub fn validate_options(cfg: &SetupConfig) -> (r: bool)
    ensures
        r == (cfg.mapper_device is None || cfg.swap_devs@.len() == 0),
{
    cfg.mapper_device.is_none() || cfg.swap_devs.len() == 0
}

/// The kernel options the host kernel is built with: those of 0sim on,
/// the Spectre and Meltdown mitigations off, frame pointers on, and on AWS
/// the signing keys off.
pub open spec fn host_kernel_options_spec(aws: bool) -> Seq<(Seq<char>, bool)> {
    let base = seq![
        ("CONFIG_ZSWAP"@, true),
        ("CONFIG_ZPOOL"@, true),
        ("CONFIG_ZBUD"@, true),
        ("CONFIG_ZTIER"@, true),
        ("CONFIG_SBALLOC"@, true),
        ("CONFIG_ZSMALLOC"@, true),
        ("CONFIG_X86_TSC_OFFSET_HOST_ELAPSED"@, true),
        ("CONFIG_SSDSWAP"@, true),
        ("CONFIG_PAGE_TABLE_ISOLATION"@, false),
        ("CONFIG_RETPOLINE"@, false),
        ("CONFIG_FRAME_POINTER"@, true),
    ];
    if aws {
        base.push(("CONFIG_SYSTEM_TRUSTED_KEYS"@, false)).push(("CONFIG_MODULE_SIG_KEY"@, false))
    } else {
        base
    }
}

/// The kernel options the host kernel is built with.
pub fn host_kernel_options(aws: bool) -> (r: Vec<(&'static str, bool)>)
    ensures
        r@.map_values(|o: (&'static str, bool)| (o.0@, o.1)) == host_kernel_options_spec(aws),
{
    let mut r: Vec<(&'static str, bool)> = Vec::new();
    r.push(("CONFIG_ZSWAP", true));
    r.push(("CONFIG_ZPOOL", true));
    r.push(("CONFIG_ZBUD", true));
    r.push(("CONFIG_ZTIER", true));
    r.push(("CONFIG_SBALLOC", true));
    r.push(("CONFIG_ZSMALLOC", true));
    r.push(("CONFIG_X86_TSC_OFFSET_HOST_ELAPSED", true));
    r.push(("CONFIG_SSDSWAP", true));
    r.push(("CONFIG_PAGE_TABLE_ISOLATION", false));
    r.push(("CONFIG_RETPOLINE", false));
    r.push(("CONFIG_FRAME_POINTER", true));
    if aws {
        r.push(("CONFIG_SYSTEM_TRUSTED_KEYS", false));
        r.push(("CONFIG_MODULE_SIG_KEY", false));
    }
    assert(r@.map_values(|o: (&'static str, bool)| (o.0@, o.1)) =~= host_kernel_options_spec(aws));
    r
}

/// The kernel options the guest kernel is built with.
pub fn guest_kernel_options() -> (r: Vec<(&'static str, bool)>)
    ensures
        r@.map_values(|o: (&'static str, bool)| (o.0@, o.1)) == seq![
            ("CONFIG_PAGE_TABLE_ISOLATION"@, false),
            ("CONFIG_RETPOLINE"@, false),
            ("CONFIG_FRAME_POINTER"@, true),
        ],
{
    let mut r: Vec<(&'static str, bool)> = Vec::new();
    r.push(("CONFIG_PAGE_TABLE_ISOLATION", false));
    r.push(("CONFIG_RETPOLINE", false));
    r.push(("CONFIG_FRAME_POINTER", true));
    assert(r@.map_values(|o: (&'static str, bool)| (o.0@, o.1)) =~= seq![
        ("CONFIG_PAGE_TABLE_ISOLATION"@, false),
        ("CONFIG_RETPOLINE"@, false),
        ("CONFIG_FRAME_POINTER"@, true),
    ]);
    r
}

/// The devices made swap space when no thin swap device is used: those
/// given, or else all unpartitioned ones (`unpartitioned`).
pub open spec fn swap_targets(swap_devs: Seq<String>, unpartitioned: Seq<String>) -> Seq<String> {
    if swap_devs.len() == 0 {
        unpartitioned
    } else {
        swap_devs
    }
}

/// The commands that make each of `devs` a swap device.
pub fn mkswap_cmds(devs: &Vec<String>) -> (r: Vec<Cmd>)
    ensures
        r.len() == devs.len(),
        forall|i: int| 0 <= i < r.len() ==> (#[trigger] r@[i]).cmd@ == "sudo mkswap /dev/"@ + devs@[i]@
            && r@[i].cwd is None && !r@[i].use_bash && !r@[i].allow_error,
{
    let mut r: Vec<Cmd> = Vec::new();
    let mut i: usize = 0;
    while i < devs.len()
        invariant
            i <= devs@.len(),
            r.len() == i,
            forall|k: int| 0 <= k < i ==> (#[trigger] r@[k]).cmd@ == "sudo mkswap /dev/"@ + devs@[k]@
                && r@[k].cwd is None && !r@[k].use_bash && !r@[k].allow_error,
        decreases devs@.len() - i,
    {
        let mut c = owned("sudo mkswap /dev/");
        push_str(&mut c, devs[i].as_str());
        r.push(Cmd::new(c));
        i = i + 1;
    }
    r
}

/// The swap devices of a setup without a thin swap device, and whether
/// they are recorded in the research settings (only when given).
pub fn swap_plan(swap_devs: &Vec<String>, unpartitioned: &Vec<String>) -> (r: (Vec<Cmd>, bool))
    ensures
        r.0.len() == swap_targets(swap_devs@, unpartitioned@).len(),
        forall|i: int| 0 <= i < r.0.len() ==> (#[trigger] r.0@[i]).cmd@
            == "sudo mkswap /dev/"@ + swap_targets(swap_devs@, unpartitioned@)[i]@,
        r.1 == (swap_devs@.len() > 0),
{
    if swap_devs.len() == 0 {
        (mkswap_cmds(unpartitioned), false)
    } else {
        (mkswap_cmds(swap_devs), true)
    }
}

/// The line appended to `.bashrc` that exports the proxy variable `var`.
pub open spec fn proxy_export(var: Seq<char>, proxy: Seq<char>) -> Seq<char> {
    "echo export "@ + var + "='"@ + proxy + "' | tee --append .bashrc"@
}

fn export_cmd(var: &str, proxy: &str) -> (r: Cmd)
    ensures
        r.cmd@ == proxy_export(var@, proxy@),
        r.use_bash && r.cwd is None && !r.allow_error,
{
    let mut c = owned("echo export ");
    push_str(&mut c, var);
    push_str(&mut c, "='");
    push_str(&mut c, proxy);
    push_str(&mut c, "' | tee --append .bashrc");
    Cmd::new(c).use_bash()
}

/// The commands that set up a guest shell to use `proxy`: the four proxy
/// variables exported from `.bashrc`.
pub fn proxy_cmds(proxy: &str) -> (r: Vec<Cmd>)
    ensures
        r.len() == 4,
        r@[0].cmd@ == proxy_export("http_proxy"@, proxy@),
        r@[1].cmd@ == proxy_export("https_proxy"@, proxy@),
        r@[2].cmd@ == proxy_export("HTTP_PROXY"@, proxy@),
        r@[3].cmd@ == proxy_export("HTTPS_PROXY"@, proxy@),
        forall|i: int| 0 <= i < 4 ==> (#[trigger] r@[i]).use_bash && r@[i].cwd is None && !r@[i].allow_error,
{
    let mut r: Vec<Cmd> = Vec::new();
    r.push(export_cmd("http_proxy", proxy));
    r.push(export_cmd("https_proxy", proxy));
    r.push(export_cmd("HTTP_PROXY", proxy));
    r.push(export_cmd("HTTPS_PROXY", proxy));
    r
}

/// The command that makes the guest's package manager use `proxy`.
pub fn yum_proxy_cmd(proxy: &str) -> (r: Cmd)
    ensures
        r.cmd@ == "echo proxy=https://"@ + proxy@ + " | tee --append /etc/yum.conf"@,
        r.use_bash && r.cwd is None && !r.allow_error,
{
    let mut c = owned("echo proxy=https://");
    push_str(&mut c, proxy);
    push_str(&mut c, " | tee --append /etc/yum.conf");
    Cmd::new(c).use_bash()
}

/// The command that finds where `poweroff` is installed.
pub fn find_poweroff_cmd() -> (r: Cmd)
    ensures
        r.cmd@ == "PATH='/usr/local/bin:/usr/bin:/usr/local/sbin:/usr/sbin':$PATH type poweroff"@,
        r.use_bash && r.cwd is None && !r.allow_error,
{
    cmd("PATH='/usr/local/bin:/usr/bin:/usr/local/sbin:/usr/sbin':$PATH type poweroff").use_bash()
}

/// The command that renames the `poweroff` that `type` reported (its
/// trimmed answer `found`) so that it cannot be run by accident.
pub fn rename_poweroff_cmd(found: &str) -> (r: Cmd)
    ensures
        r.cmd@ == "sudo mv $(echo '"@ + found@ + "' | awk '{print $3}') /usr/sbin/poweroff-actually"@,
        r.use_bash && r.cwd is None && !r.allow_error,
{
    let mut c = owned("sudo mv $(echo '");
    push_str(&mut c, found);
    push_str(&mut c, "' | awk '{print $3}') /usr/sbin/poweroff-actually");
    Cmd::new(c).use_bash()
}

} // verus!
