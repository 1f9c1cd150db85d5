//! The setup of a CloudLab node for vagrant via libvirt, with a kernel
//! built from the user's `linux-dev` repository: the commands of each step.
//! The packages, group, home device, swap devices, the push of the branch
//! from this machine and the reboot are carried out by the caller; every
//! shell command it runs on the node is built here.

use vstd::prelude::*;
use crate::runner::cmd::{cmd, Cmd};
use crate::runner::rpm::{kbuild, linux_dev, linux_dev_dir};
use crate::text::{owned, push_str};

verus! {

/// The vagrant package installed when it is missing.
pub const VAGRANT_RPM_URL: &'static str = "https://releases.hashicorp.com/vagrant/2.1.5/vagrant_2.1.5_x86_64.rpm";

/// The kernel branch built when none is given.
pub const DEFAULT_GIT_BRANCH: &'static str = "markm_ztier";

/// Whether `c` runs `text` with default options, outside any directory.
pub open spec fn plain(c: Cmd, text: Seq<char>) -> bool {
    c.cmd@ == text && c.cwd is None && !c.use_bash && !c.allow_error && !c.no_pty
}

/// Whether `c` runs `text` in `dir`, with the given shell and error
/// options.
pub open spec fn runs(c: Cmd, text: Seq<char>, dir: Seq<char>, bash: bool, tolerate: bool) -> bool {
    c.cmd@ == text && (c.cwd matches Some(d) && d@ == dir) && c.use_bash == bash && c.allow_error == tolerate
        && !c.no_pty
}

/// The packages libvirt and vagrant need.
pub fn libvirt_packages() -> (r: Vec<&'static str>)
    ensures
        r@.len() == 5,
        r@[0]@ == "libvirt"@,
        r@[1]@ == "libvirt-devel"@,
        r@[2]@ == "qemu-kvm"@,
        r@[3]@ == "virt-manager"@,
        r@[4]@ == "pciutils-devel"@,
{
    let mut r: Vec<&'static str> = Vec::new();
    r.push("libvirt");
    r.push("libvirt-devel");
    r.push("qemu-kvm");
    r.push("virt-manager");
    r.push("pciutils-devel");
    r
}

/// The branch to build: the one given, else `DEFAULT_GIT_BRANCH`.
pub fn kernel_branch(git_branch: Option<&str>) -> (r: &str)
    ensures
        r@ == match git_branch {
            Some(b) => b@,
            None => DEFAULT_GIT_BRANCH@,
        },
{
    match git_branch {
        Some(b) => b,
        None => DEFAULT_GIT_BRANCH,
    }
}

/// The command that succeeds if vagrant is installed.
pub fn vagrant_installed_cmd() -> (r: Cmd)
    ensures
        plain(r, "yum list installed vagrant | grep -q vagrant"@),
{
    cmd("yum list installed vagrant | grep -q vagrant")
}

/// The commands that install vagrant (when it is missing) and its libvirt
/// plugin.
pub fn vagrant_install_cmds(installed: bool) -> (r: Vec<Cmd>)
    ensures
        r.len() == if installed { 1int } else { 2int },
        !installed ==> plain(r@[0], "sudo yum -y install "@ + VAGRANT_RPM_URL@),
        plain(r@.last(), "vagrant plugin install vagrant-libvirt"@),
{
    let mut r: Vec<Cmd> = Vec::new();
    if !installed {
        let mut c = owned("sudo yum -y install ");
        push_str(&mut c, VAGRANT_RPM_URL);
        r.push(Cmd::new(c));
    }
    r.push(cmd("vagrant plugin install vagrant-libvirt"));
    r
}

/// The partition of `device` that becomes the home directory, and that
/// directory.
pub fn home_partition(device: &str, user: &str) -> (r: (String, String))
    ensures
        r.0@ == device@ + "1"@,
        r.1@ == "/users/"@ + user@,
{
    let mut part = owned(device);
    push_str(&mut part, "1");
    let mut home = owned("/users/");
    push_str(&mut home, user);
    (part, home)
}

/// The command that makes the unpartitioned device `dev` a swap device.
pub fn mkswap_cmd(dev: &str) -> (r: Cmd)
    ensures
        plain(r, "sudo mkswap /dev/"@ + dev@),
{
    let mut c = owned("sudo mkswap /dev/");
    push_str(&mut c, dev);
    Cmd::new(c)
}

/// The arguments of the two `git` runs on this machine (in
/// `rpm::LOCAL_LINUX_DEV`) that check out `branch` and push it to the node's
/// repository.
pub fn push_branch_args(node: &str, user: &str, branch: &str) -> (r: Vec<Vec<String>>)
    ensures
        r.len() == 2,
        r@[0].len() == 2 && r@[0]@[0]@ == "checkout"@ && r@[0]@[1]@ == branch@,
        r@[1].len() == 4 && r@[1]@[0]@ == "push"@ && r@[1]@[1]@ == "-u"@ && r@[1]@[2]@ == "ssh://"@ + node@
            + linux_dev(user@) && r@[1]@[3]@ == branch@,
{
    let mut checkout: Vec<String> = Vec::new();
    checkout.push(owned("checkout"));
    checkout.push(owned(branch));
    let mut url = owned("ssh://");
    push_str(&mut url, node);
    let dir = linux_dev_dir(user);
    push_str(&mut url, dir.as_str());
    let mut push: Vec<String> = Vec::new();
    push.push(owned("push"));
    push.push(owned("-u"));
    push.push(url);
    push.push(owned(branch));
    let mut r: Vec<Vec<String>> = Vec::new();
    r.push(checkout);
    r.push(push);
    r
}

/// The command that checks out `branch` in the node's repository.
pub fn linux_dev_checkout_cmd(user: &str, branch: &str) -> (r: Cmd)
    ensures
        runs(r, "git checkout "@ + branch@, linux_dev(user@), false, false),
{
    let dir = linux_dev_dir(user);
    let mut c = owned("git checkout ");
    push_str(&mut c, branch);
    Cmd::new(c).cwd(dir.as_str())
}

/// The commands that prepare the build directory with the default
/// configuration.
pub fn kbuild_prep_cmds(user: &str) -> (r: Vec<Cmd>)
    ensures
        r.len() == 2,
        plain(r@[0], "mkdir -p "@ + kbuild(user@)),
        runs(r@[1], "make O="@ + kbuild(user@) + " defconfig"@, linux_dev(user@), false, false),
{
    let dir = linux_dev_dir(user);
    let mut kbuild = owned(dir.as_str());
    push_str(&mut kbuild, "/kbuild");
    let mut mk = owned("mkdir -p ");
    push_str(&mut mk, kbuild.as_str());
    let mut def = owned("make O=");
    push_str(&mut def, kbuild.as_str());
    push_str(&mut def, " defconfig");
    let mut r: Vec<Cmd> = Vec::new();
    r.push(Cmd::new(mk));
    r.push(Cmd::new(def).cwd(dir.as_str()));
    r
}

/// The command that prints the configuration of an installed kernel.
pub fn boot_config_query() -> (r: Cmd)
    ensures
        r.cmd@ == "ls -1 /boot/config-* | head -n1"@,
        r.cwd is None && r.use_bash && !r.allow_error && !r.no_pty,
{
    cmd("ls -1 /boot/config-* | head -n1").use_bash()
}

/// The options the kernel must have set.
pub open spec fn ztier_option_names() -> Seq<Seq<char>> {
    seq!["CONFIG_ZSWAP"@, "CONFIG_ZPOOL"@, "CONFIG_ZBUD"@, "CONFIG_ZTIER"@, "CONFIG_SBALLOC"@, "CONFIG_ZSMALLOC"@]
}

/// The options the kernel must have set, for `rpm::rpm_config_cmds`.
pub fn ztier_options() -> (r: Vec<String>)
    ensures
        r.len() == 6,
        forall|i: int| 0 <= i < 6 ==> (#[trigger] r@[i])@ == ztier_option_names()[i],
{
    let mut r: Vec<String> = Vec::new();
    r.push(owned("CONFIG_ZSWAP"));
    r.push(owned("CONFIG_ZPOOL"));
    r.push(owned("CONFIG_ZBUD"));
    r.push(owned("CONFIG_ZTIER"));
    r.push(owned("CONFIG_SBALLOC"));
    r.push(owned("CONFIG_ZSMALLOC"));
    r
}

/// The local version suffix of the kernel package.
pub const ZTIER_LOCAL_VERSION: &'static str = "ztier";

/// The commands that follow the build of the kernel package: install the
/// two newest packages, make the new kernel the default and create the
/// directory for VM images.
pub fn kernel_install_cmds(user: &str) -> (r: Vec<Cmd>)
    ensures
        r.len() == 3,
        runs(r@[0], "sudo yum -y install `ls -t1 | head -n2 | sort`"@, "/users/"@ + user@ + "/rpmbuild/RPMS/x86_64/"@, true, false),
        plain(r@[1], "sudo grub2-set-default 0"@),
        plain(r@[2], "mkdir images"@),
{
    let mut rpms = owned("/users/");
    push_str(&mut rpms, user);
    push_str(&mut rpms, "/rpmbuild/RPMS/x86_64/");
    let mut r: Vec<Cmd> = Vec::new();
    r.push(cmd("sudo yum -y install `ls -t1 | head -n2 | sort`").use_bash().cwd(rpms.as_str()));
    r.push(cmd("sudo grub2-set-default 0"));
    r.push(cmd("mkdir images"));
    r
}

} // verus!
