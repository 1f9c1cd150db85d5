//! Building a kernel RPM on a CloudLab node: the branch is pushed from a
//! local checkout to a fresh repository in the user's home on the remote,
//! configured from the running kernel's config with some options turned
//! on, and built with all processors.

use vstd::prelude::*;
use crate::runner::cmd::{cmd, runs_in, Cmd};
use crate::text::{owned, push_str};

verus! {

/// The local checkout of the kernel that branches are pushed from.
pub const LOCAL_LINUX_DEV: &'static str = "/u/m/a/markm/private/large_mem/software/linux-dev";

/// The kernel repository in the home of `user` on the remote.
pub open spec fn linux_dev(user: Seq<char>) -> Seq<char> {
    "/users/"@ + user + "/linux-dev"@
}

/// The build directory of that repository.
pub open spec fn kbuild(user: Seq<char>) -> Seq<char> {
    linux_dev(user) + "/kbuild"@
}

pub(crate) fn linux_dev_dir(user: &str) -> (r: String)
    ensures
        r@ == linux_dev(user@),
{
    let mut r = owned("/users/");
    push_str(&mut r, user);
    push_str(&mut r, "/linux-dev");
    r
}

fn kbuild_dir(user: &str) -> (r: String)
    ensures
        r@ == kbuild(user@),
{
    let mut r = linux_dev_dir(user);
    push_str(&mut r, "/kbuild");
    r
}

/// The commands that create the repository on the remote and a side branch
/// to push onto (which may exist already).
pub fn rpm_repo_cmds(user: &str) -> (r: Vec<Cmd>)
    ensures
        r.len() == 3,
        r@[0].cmd@ == "mkdir -p linux-dev"@ && r@[0].cwd is None && !r@[0].allow_error,
        r@[1].cmd@ == "git init"@ && runs_in(r@[1], linux_dev(user@)) && !r@[1].allow_error,
        r@[2].cmd@ == "git checkout -b side"@ && runs_in(r@[2], linux_dev(user@)) && r@[2].allow_error,
        forall|i: int| 0 <= i < 3 ==> !(#[trigger] r@[i]).use_bash,
{
    let dir = linux_dev_dir(user);
    let mut r: Vec<Cmd> = Vec::new();
    r.push(cmd("mkdir -p linux-dev"));
    r.push(cmd("git init").cwd(dir.as_str()));
    r.push(cmd("git checkout -b side").cwd(dir.as_str()).allow_error());
    r
}

/// The arguments of the local `git` commands, run in `LOCAL_LINUX_DEV`,
/// that push `branch` to the remote `host` of `user`: none on a dry run.
pub fn local_push_args(dry_run: bool, host: &str, user: &str, branch: &str) -> (r: Vec<Vec<String>>)
    ensures
        dry_run ==> r.len() == 0,
        !dry_run ==> {
            &&& r.len() == 3
            &&& r@[0]@.map_values(|a: String| a@) == seq!["checkout"@, branch@]
            &&& r@[1]@.map_values(|a: String| a@) == seq!["push"@, "-u"@, "ssh://"@ + host@ + linux_dev(user@), branch@]
            &&& r@[2]@.map_values(|a: String| a@) == seq!["checkout"@, "side"@]
        },
{
    let mut r: Vec<Vec<String>> = Vec::new();
    if dry_run {
        return r;
    }
    let mut a: Vec<String> = Vec::new();
    a.push(owned("checkout"));
    a.push(owned(branch));
    assert(a@.map_values(|x: String| x@) =~= seq!["checkout"@, branch@]);
    let mut url = owned("ssh://");
    push_str(&mut url, host);
    let dir = linux_dev_dir(user);
    push_str(&mut url, dir.as_str());
    let mut b: Vec<String> = Vec::new();
    b.push(owned("push"));
    b.push(owned("-u"));
    b.push(url);
    b.push(owned(branch));
    assert(b@.map_values(|x: String| x@) =~= seq!["push"@, "-u"@, "ssh://"@ + host@ + linux_dev(user@), branch@]);
    let mut c: Vec<String> = Vec::new();
    c.push(owned("checkout"));
    c.push(owned("side"));
    assert(c@.map_values(|x: String| x@) =~= seq!["checkout"@, "side"@]);
    r.push(a);
    r.push(b);
    r.push(c);
    r
}

/// The commands that check out `branch` on the remote, make the build
/// directory, save its old config (if any), make the default config, and
/// finally ask for the path of the running kernel's config.
pub fn rpm_base_config_cmds(user: &str, branch: &str) -> (r: Vec<Cmd>)
    ensures
        r.len() == 5,
        r@[0].cmd@ == "git checkout "@ + branch@ && runs_in(r@[0], linux_dev(user@))
            && !r@[0].allow_error && !r@[0].use_bash,
        r@[1].cmd@ == "mkdir -p "@ + kbuild(user@) && r@[1].cwd is None && !r@[1].allow_error && !r@[1].use_bash,
        r@[2].cmd@ == "cp .config config.bak"@ && runs_in(r@[2], kbuild(user@))
            && r@[2].allow_error && !r@[2].use_bash,
        r@[3].cmd@ == "make O="@ + kbuild(user@) + " defconfig"@ && runs_in(r@[3], linux_dev(user@))
            && !r@[3].allow_error && !r@[3].use_bash,
        r@[4].cmd@ == "ls -1 /boot/config-* | head -n1"@ && r@[4].cwd is None && !r@[4].allow_error && r@[4].use_bash,
{
    let dir = linux_dev_dir(user);
    let kb = kbuild_dir(user);
    let mut r: Vec<Cmd> = Vec::new();
    let mut c0 = owned("git checkout ");
    push_str(&mut c0, branch);
    r.push(Cmd::new(c0).cwd(dir.as_str()));
    let mut c1 = owned("mkdir -p ");
    push_str(&mut c1, kb.as_str());
    r.push(Cmd::new(c1));
    r.push(cmd("cp .config config.bak").cwd(kb.as_str()).allow_error());
    let mut c3 = owned("make O=");
    push_str(&mut c3, kb.as_str());
    push_str(&mut c3, " defconfig");
    r.push(Cmd::new(c3).cwd(dir.as_str()));
    r.push(cmd("ls -1 /boot/config-* | head -n1").use_bash());
    r
}

/// The command that turns on the option `opt` in the build's config.
pub open spec fn enable_option_text(user: Seq<char>, opt: Seq<char>) -> Seq<char> {
    "sed -i 's/# "@ + opt + " is not set/"@ + opt + "=y/' "@ + kbuild(user) + "/.config"@
}

/// The commands that install the running kernel's config `config` in the
/// build directory, bring it up to date, turn on each of `options`, and
/// finally ask for the number of processors.
pub fn rpm_config_cmds(user: &str, config: &str, options: &Vec<String>) -> (r: Vec<Cmd>)
    ensures
        r.len() == options.len() + 3,
        r@[0].cmd@ == "cp "@ + config@ + " "@ + kbuild(user@) + "/.config"@ && r@[0].cwd is None && !r@[0].use_bash,
        r@[1].cmd@ == "yes '' | make oldconfig"@ && runs_in(r@[1], kbuild(user@)) && r@[1].use_bash,
        forall|i: int| 0 <= i < options.len() ==> (#[trigger] r@[i + 2]).cmd@ == enable_option_text(user@, options@[i]@)
            && r@[i + 2].cwd is None && !r@[i + 2].use_bash,
        r@[options.len() + 2].cmd@ == "getconf _NPROCESSORS_ONLN"@ && r@[options.len() + 2].cwd is None
            && !r@[options.len() + 2].use_bash,
        forall|i: int| 0 <= i < r.len() ==> !(#[trigger] r@[i]).allow_error,
{
    let kb = kbuild_dir(user);
    let mut r: Vec<Cmd> = Vec::new();
    let mut c0 = owned("cp ");
    push_str(&mut c0, config);
    push_str(&mut c0, " ");
    push_str(&mut c0, kb.as_str());
    push_str(&mut c0, "/.config");
    r.push(Cmd::new(c0));
    r.push(cmd("yes '' | make oldconfig").use_bash().cwd(kb.as_str()));
    let mut i: usize = 0;
    while i < options.len()
        invariant
            i <= options@.len(),
            kb@ == kbuild(user@),
            r.len() == i + 2,
            r@[0].cmd@ == "cp "@ + config@ + " "@ + kbuild(user@) + "/.config"@ && r@[0].cwd is None && !r@[0].use_bash,
            r@[1].cmd@ == "yes '' | make oldconfig"@ && runs_in(r@[1], kbuild(user@)) && r@[1].use_bash,
            forall|k: int| 0 <= k < i ==> (#[trigger] r@[k + 2]).cmd@ == enable_option_text(user@, options@[k]@)
                && r@[k + 2].cwd is None && !r@[k + 2].use_bash,
            forall|k: int| 0 <= k < r.len() ==> !(#[trigger] r@[k]).allow_error,
        decreases options@.len() - i,
    {
        let opt = options[i].as_str();
        let mut c = owned("sed -i 's/# ");
        push_str(&mut c, opt);
        push_str(&mut c, " is not set/");
        push_str(&mut c, opt);
        push_str(&mut c, "=y/' ");
        push_str(&mut c, kb.as_str());
        push_str(&mut c, "/.config");
        r.push(Cmd::new(c));
        assert(r@[i + 2].cmd@ == enable_option_text(user@, options@[i as int]@));
        i = i + 1;
    }
    r.push(cmd("getconf _NPROCESSORS_ONLN"));
    r
}

/// The build of the RPM with `nprocess` jobs and the local version suffix
/// `-local_version`: a first attempt whose failure is tolerated, then the
/// attempt that must succeed.
pub fn rpm_make_cmds(user: &str, nprocess: &str, local_version: &str) -> (r: Vec<Cmd>)
    ensures
        r.len() == 2,
        forall|i: int| 0 <= i < 2 ==> (#[trigger] r@[i]).cmd@ == "make -j "@ + nprocess@ + " binrpm-pkg LOCALVERSION=-"@
            + local_version@ && runs_in(r@[i], kbuild(user@)) && !r@[i].use_bash,
        r@[0].allow_error,
        !r@[1].allow_error,
{
    let kb = kbuild_dir(user);
    let mut c = owned("make -j ");
    push_str(&mut c, nprocess);
    push_str(&mut c, " binrpm-pkg LOCALVERSION=-");
    push_str(&mut c, local_version);
    let first = Cmd::new(c.clone()).cwd(kb.as_str()).allow_error();
    let second = Cmd::new(c).cwd(kb.as_str());
    let mut r: Vec<Cmd> = Vec::new();
    r.push(first);
    r.push(second);
    r
}

} // verus!
