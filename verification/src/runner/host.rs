//! Commands that prepare the host of a simulation and report on it: system
//! information, logging and frequency settings, zswap, the services that
//! run around the VM, and the standard simulation report.

use vstd::prelude::*;
use crate::runner::cmd::{cmd, Cmd};
use crate::runner::common::{
    HOSTNAME_SHARED_RESULTS_DIR, RESEARCH_WORKSPACE_PATH, VAGRANT_RESULTS_DIR, ZEROSIM_KERNEL_SUBMODULE,
};
use crate::text::{decimal, owned, push_str, push_usize};

verus! {

/// The commands that print the system's kernel, block devices and memory.
pub fn sys_info_cmds() -> (r: Vec<Cmd>)
    ensures
        r.len() == 3,
        r@[0].cmd@ == "uname -a"@,
        r@[1].cmd@ == "lsblk"@,
        r@[2].cmd@ == "free -h"@,
        forall|i: int| 0 <= i < 3 ==> (#[trigger] r@[i]).cwd is None && !r@[i].use_bash && !r@[i].allow_error,
{
    let mut r: Vec<Cmd> = Vec::new();
    r.push(cmd("uname -a"));
    r.push(cmd("lsblk"));
    r.push(cmd("free -h"));
    r
}

/// The command that sets the kernel's console log level (at most 7).
pub fn printk_level_cmd(level: usize) -> (r: Cmd)
    requires
        level <= 7,
    ensures
        r.cmd@ == "echo "@ + decimal(level as nat) + " | sudo tee /proc/sys/kernel/printk"@,
        r.use_bash && r.cwd is None && !r.allow_error,
{
    let mut c = owned("echo ");
    push_usize(&mut c, level);
    push_str(&mut c, " | sudo tee /proc/sys/kernel/printk");
    Cmd::new(c).use_bash()
}

/// The command that sets the CPU frequency governor to `performance` with
/// the `cpupower` built in the 0sim kernel under `user_home`.
pub fn perf_governor_cmd(user_home: &str) -> (r: Cmd)
    ensures
        r.cmd@ == "sudo "@ + user_home@ + "/"@ + RESEARCH_WORKSPACE_PATH@ + "/"@ + ZEROSIM_KERNEL_SUBMODULE@
            + "/tools/power/cpupower/cpupower frequency-set -g performance"@,
        r.cwd is None && !r.use_bash && !r.allow_error,
{
    let mut c = owned("sudo ");
    push_str(&mut c, user_home);
    push_str(&mut c, "/");
    push_str(&mut c, RESEARCH_WORKSPACE_PATH);
    push_str(&mut c, "/");
    push_str(&mut c, ZEROSIM_KERNEL_SUBMODULE);
    push_str(&mut c, "/tools/power/cpupower/cpupower frequency-set -g performance");
    Cmd::new(c)
}

/// The commands that disable kernel same-page merging, for each of its two
/// services that is running.
pub fn ksm_disable_cmds(ksm_running: bool, ksmtuned_running: bool) -> (r: Vec<Cmd>)
    ensures
        r.len() == (if ksm_running { 1int } else { 0int }) + (if ksmtuned_running { 1int } else { 0int }),
        ksm_running ==> r@[0].cmd@ == "sudo systemctl disable ksm"@,
        ksmtuned_running ==> r@[r.len() - 1].cmd@ == "sudo systemctl disable ksmtuned"@,
        forall|i: int| 0 <= i < r.len() ==> (#[trigger] r@[i]).cwd is None && !r@[i].use_bash && !r@[i].allow_error,
{
    let mut r: Vec<Cmd> = Vec::new();
    if ksm_running {
        r.push(cmd("sudo systemctl disable ksm"));
    }
    if ksmtuned_running {
        r.push(cmd("sudo systemctl disable ksmtuned"));
    }
    r
}

/// The commands that prepare zswap, before same-page merging is disabled:
/// make its parameters writable and turn off transparent huge pages.
pub fn zswap_prepare_cmds() -> (r: Vec<Cmd>)
    ensures
        r.len() == 2,
        r@[0].cmd@ == "sudo chmod +w /sys/module/zswap/parameters/*"@,
        r@[1].cmd@ == "echo never | sudo tee /sys/kernel/mm/transparent_hugepage/enabled"@,
        forall|i: int| 0 <= i < 2 ==> (#[trigger] r@[i]).use_bash && r@[i].cwd is None && !r@[i].allow_error,
{
    let mut r: Vec<Cmd> = Vec::new();
    r.push(cmd("sudo chmod +w /sys/module/zswap/parameters/*").use_bash());
    r.push(cmd("echo never | sudo tee /sys/kernel/mm/transparent_hugepage/enabled").use_bash());
    r
}

/// The commands that turn zswap on with the `ztier` pool, after same-page
/// merging is disabled, and show its parameters.
pub fn zswap_enable_cmds() -> (r: Vec<Cmd>)
    ensures
        r.len() == 3,
        r@[0].cmd@ == "echo ztier | sudo tee /sys/module/zswap/parameters/zpool"@,
        r@[1].cmd@ == "echo y | sudo tee /sys/module/zswap/parameters/enabled"@,
        r@[2].cmd@ == "sudo tail /sys/module/zswap/parameters/*"@,
        forall|i: int| 0 <= i < 3 ==> (#[trigger] r@[i]).use_bash && r@[i].cwd is None && !r@[i].allow_error,
{
    let mut r: Vec<Cmd> = Vec::new();
    r.push(cmd("echo ztier | sudo tee /sys/module/zswap/parameters/zpool").use_bash());
    r.push(cmd("echo y | sudo tee /sys/module/zswap/parameters/enabled").use_bash());
    r.push(cmd("sudo tail /sys/module/zswap/parameters/*").use_bash());
    r
}

/// The commands that restart the services the VM needs before it starts.
pub fn vm_services_cmds() -> (r: Vec<Cmd>)
    ensures
        r.len() == 4,
        r@[0].cmd@ == "sudo systemctl stop firewalld"@,
        r@[1].cmd@ == "sudo systemctl stop nfs-idmap.service"@,
        r@[2].cmd@ == "sudo systemctl start nfs-idmap.service"@,
        r@[3].cmd@ == "sudo service libvirtd restart"@,
        forall|i: int| 0 <= i < 4 ==> (#[trigger] r@[i]).cwd is None && !r@[i].use_bash && !r@[i].allow_error,
{
    let mut r: Vec<Cmd> = Vec::new();
    r.push(cmd("sudo systemctl stop firewalld"));
    r.push(cmd("sudo systemctl stop nfs-idmap.service"));
    r.push(cmd("sudo systemctl start nfs-idmap.service"));
    r.push(cmd("sudo service libvirtd restart"));
    r
}

/// The command that turns TSC offsetting of KVM on or off.
pub fn tsc_offsetting_cmd(on: bool) -> (r: Cmd)
    ensures
        r.cmd@ == (if on { "echo 1"@ } else { "echo 0"@ }) + " | sudo tee /sys/module/kvm_intel/parameters/enable_tsc_offsetting"@,
        r.use_bash && r.cwd is None && !r.allow_error,
{
    let mut c = if on { owned("echo 1") } else { owned("echo 0") };
    push_str(&mut c, " | sudo tee /sys/module/kvm_intel/parameters/enable_tsc_offsetting");
    Cmd::new(c).use_bash()
}

/// Where a command of the simulation report runs.
#[derive(Debug, Copy, Clone, PartialEq, Eq, Structural)]
pub enum Side {
    Host,
    Guest,
}

/// The report file `sim_file` as the host names it.
pub open spec fn host_sim_path(sim_file: Seq<char>) -> Seq<char> {
    HOSTNAME_SHARED_RESULTS_DIR@ + "/"@ + sim_file
}

/// The report file `sim_file` as the guest names it.
pub open spec fn guest_sim_path(sim_file: Seq<char>) -> Seq<char> {
    VAGRANT_RESULTS_DIR@ + "/"@ + sim_file
}

fn side_cmd(side: Side, pre: &str, path: &str) -> (r: (Side, Cmd))
    ensures
        r.0 == side,
        r.1.cmd@ == pre@ + path@,
        r.1.cwd is None && !r.1.use_bash && !r.1.allow_error,
{
    let mut c = owned(pre);
    push_str(&mut c, path);
    (side, Cmd::new(c))
}

/// The commands that write the standard report of a simulation to
/// `sim_file` in the shared results directory, each with the side it runs
/// on: the host's configuration and memory statistics, then the guest's.
pub fn sim_output_cmds(sim_file: &str) -> (r: Vec<(Side, Cmd)>)
    ensures
        r.len() == 11,
        r@[0].0 == Side::Host && r@[0].1.cmd@ == "echo -e 'Host Config\n=====' > "@ + host_sim_path(sim_file@),
        r@[1].0 == Side::Host && r@[1].1.cmd@ == "cat /proc/cpuinfo >> "@ + host_sim_path(sim_file@),
        r@[2].0 == Side::Host && r@[2].1.cmd@ == "lsblk >> "@ + host_sim_path(sim_file@),
        r@[3].0 == Side::Host && r@[3].1.cmd@ == "echo -e '\nSimulation Stats (Host)\n=====' >> "@ + host_sim_path(sim_file@),
        r@[4].0 == Side::Host && r@[4].1.cmd@ == "cat /proc/meminfo >> "@ + host_sim_path(sim_file@),
        r@[5].0 == Side::Host && r@[5].1.cmd@ == "sudo bash -c 'tail /sys/kernel/debug/zswap/*' >> "@ + host_sim_path(sim_file@),
        r@[6].0 == Side::Host && r@[6].1.cmd@ == "sync"@,
        r@[7].0 == Side::Host && r@[7].1.cmd@ == "echo -e '\nSimulation Stats (Guest)\n=====' >> "@ + host_sim_path(sim_file@),
        r@[8].0 == Side::Guest && r@[8].1.cmd@ == "cat /proc/meminfo >> "@ + guest_sim_path(sim_file@),
        r@[9].0 == Side::Guest && r@[9].1.cmd@ == "sync"@,
        r@[10].0 == Side::Host && r@[10].1.cmd@ == "sync"@,
        forall|i: int| 0 <= i < 11 ==> (#[trigger] r@[i]).1.cwd is None && !r@[i].1.use_bash && !r@[i].1.allow_error,
{
    let mut host = owned(HOSTNAME_SHARED_RESULTS_DIR);
    push_str(&mut host, "/");
    push_str(&mut host, sim_file);
    let mut guest = owned(VAGRANT_RESULTS_DIR);
    push_str(&mut guest, "/");
    push_str(&mut guest, sim_file);
    let h = host.as_str();
    let mut r: Vec<(Side, Cmd)> = Vec::new();
    r.push(side_cmd(Side::Host, "echo -e 'Host Config\n=====' > ", h));
    r.push(side_cmd(Side::Host, "cat /proc/cpuinfo >> ", h));
    r.push(side_cmd(Side::Host, "lsblk >> ", h));
    r.push(side_cmd(Side::Host, "echo -e '\nSimulation Stats (Host)\n=====' >> ", h));
    r.push(side_cmd(Side::Host, "cat /proc/meminfo >> ", h));
    r.push(side_cmd(Side::Host, "sudo bash -c 'tail /sys/kernel/debug/zswap/*' >> ", h));
    r.push((Side::Host, cmd("sync")));
    r.push(side_cmd(Side::Host, "echo -e '\nSimulation Stats (Guest)\n=====' >> ", h));
    r.push(side_cmd(Side::Guest, "cat /proc/meminfo >> ", guest.as_str()));
    r.push((Side::Guest, cmd("sync")));
    r.push((Side::Host, cmd("sync")));
    r
}

} // verus!
