//! Building a Linux kernel package on a remote machine: the commands for
//! each step, given what the earlier steps reported.

use vstd::prelude::*;
use crate::runner::cmd::{cmd, Cmd};
use crate::text::{chars_of, decimal, owned, push_str, push_usize, string_of_prefix, trim, trim_spec};

verus! {

/// What type of package to produce from the kernel build.
pub enum KernelPkgType {
    /// `bindeb-pkg`
    Deb,
    /// `binrpm-pkg`
    Rpm,
}

/// Where to build the kernel from.
pub enum KernelSrc {
    /// The given git repo, already cloned at `repo_path`, and branch, which
    /// is checked out.
    Git { repo_path: String, git_branch: String },
    /// The given tarball, which is unpacked and built as is; the source
    /// directory is the tarball's name without its `.tar.gz`, `.tar.xz` or
    /// `.tgz` extension.
    Tar { tarball_path: String },
}

/// Where to get the base config to which changes are applied.
pub enum KernelBaseConfigSource {
    /// Use `make defconfig`.
    Defconfig,
    /// Use the config of the running kernel.
    Current,
    /// Use the config at the given path.
    Path(String),
}

/// How to configure the kernel build: a base config, and options to set
/// (`true`, to `y`) or unset.
pub struct KernelConfig<'a> {
    pub base_config: KernelBaseConfigSource,
    pub extra_options: &'a [(&'a str, bool)],
}

/// The command that checks out or unpacks the source.
pub open spec fn source_text(src: KernelSrc) -> Seq<char> {
    match src {
        KernelSrc::Git { git_branch, .. } => "git checkout "@ + git_branch@,
        KernelSrc::Tar { tarball_path } => "tar xvf "@ + tarball_path@,
    }
}

/// The command that checks out (in the repository) or unpacks the source.
pub fn source_cmd(src: &KernelSrc) -> (r: Cmd)
    ensures
        r.cmd@ == source_text(*src),
        match *src {
            KernelSrc::Git { repo_path, .. } => r.cwd matches Some(d) && d@ == repo_path@,
            KernelSrc::Tar { .. } => r.cwd is None,
        },
        !r.use_bash && !r.allow_error,
{
    match src {
        KernelSrc::Git { repo_path, git_branch } => {
            let mut c = owned("git checkout ");
            push_str(&mut c, git_branch.as_str());
            Cmd::new(c).cwd(repo_path.as_str())
        },
        KernelSrc::Tar { tarball_path } => {
            let mut c = owned("tar xvf ");
            push_str(&mut c, tarball_path.as_str());
            Cmd::new(c)
        },
    }
}

/// `s` without any number of trailing copies of `p` (`str::trim_end_matches`).
pub open spec fn strip_suffixes(s: Seq<char>, p: Seq<char>) -> Seq<char>
    decreases s.len(),
{
    if p.len() > 0 && p.len() <= s.len() && s.skip(s.len() - p.len()) == p {
        strip_suffixes(s.take(s.len() - p.len()), p)
    } else {
        s
    }
}

fn strip_suffixes_exec(s: &str, p: &str) -> (r: String)
    ensures
        r@ == strip_suffixes(s@, p@),
{
    let v = chars_of(s);
    let pv = chars_of(p);
    let mut n: usize = v.len();
    assert(s@.take(n as int) =~= s@);
    while pv.len() > 0 && pv.len() <= n && ends_with_at(&v, n, &pv)
        invariant
            v@ == s@,
            pv@ == p@,
            n <= v@.len(),
            strip_suffixes(s@, p@) == strip_suffixes(s@.take(n as int), p@),
        decreases n,
    {
        let ghost t = s@.take(n as int);
        assert(t.take(t.len() - p@.len()) =~= s@.take(n - p@.len()));
        n = n - pv.len();
    }
    proof {
        let t = s@.take(n as int);
        if p@.len() > 0 && p@.len() <= n {
            assert(t.skip(t.len() - p@.len()) != p@);
        }
    }
    assert(s@.take(v@.len() as int) =~= s@);
    string_of_prefix(v.as_slice(), n)
}

/// Whether `p` ends the first `n` characters of `v`.
fn ends_with_at(v: &Vec<char>, n: usize, p: &Vec<char>) -> (r: bool)
    requires
        p@.len() <= n <= v@.len(),
    ensures
        r == (v@.take(n as int).skip(n - p@.len()) == p@),
{
    let start = n - p.len();
    let mut k: usize = 0;
    while k < p.len()
        invariant
            p@.len() <= n <= v@.len(),
            start == n - p@.len(),
            k <= p@.len(),
            forall|j: int| 0 <= j < k ==> v@[start + j] == p@[j],
        decreases p@.len() - k,
    {
        if v[start + k] != p[k] {
            assert(v@.take(n as int).skip(n - p@.len())[k as int] != p@[k as int]);
            return false;
        }
        k = k + 1;
    }
    assert(v@.take(n as int).skip(n - p@.len()) =~= p@);
    true
}

/// The directory of the unpacked or checked-out source, relative to where
/// it was unpacked.
pub open spec fn source_dir_text(src: KernelSrc) -> Seq<char> {
    match src {
        KernelSrc::Git { repo_path, .. } => repo_path@,
        KernelSrc::Tar { tarball_path } => strip_suffixes(
            strip_suffixes(strip_suffixes(tarball_path@, ".tar.gz"@), ".tar.xz"@),
            ".tgz"@,
        ),
    }
}

/// The directory of the source.
pub fn source_dir(src: &KernelSrc) -> (r: String)
    ensures
        r@ == source_dir_text(*src),
{
    match src {
        KernelSrc::Git { repo_path, .. } => repo_path.clone(),
        KernelSrc::Tar { tarball_path } => {
            let a = strip_suffixes_exec(tarball_path.as_str(), ".tar.gz");
            let b = strip_suffixes_exec(a.as_str(), ".tar.xz");
            strip_suffixes_exec(b.as_str(), ".tgz")
        },
    }
}

/// The command that prints the absolute path of `path`.
pub fn absolute_path_cmd(path: &str) -> (r: Cmd)
    ensures
        r.cmd@ == "pwd"@,
        r.cwd matches Some(d) && d@ == path@,
        !r.use_bash && !r.allow_error,
{
    cmd("pwd").cwd(path)
}

/// The path a command printed, without surrounding whitespace.
pub fn printed_path(stdout: &str) -> (r: String)
    ensures
        r@ == trim_spec(stdout@),
{
    trim(stdout)
}

/// The build directory inside the source directory.
pub fn kbuild_path(source_path: &str) -> (r: String)
    ensures
        r@ == source_path@ + "/kbuild"@,
{
    let mut r = owned(source_path);
    push_str(&mut r, "/kbuild");
    r
}

/// The commands that prepare the build directory and a default config:
/// create it, save any old config, and run `make defconfig`.
pub fn prepare_cmds(kbuild: &str, source_path: &str) -> (r: Vec<Cmd>)
    ensures
        r.len() == 3,
        r@[0].cmd@ == "mkdir -p "@ + kbuild@ && r@[0].cwd is None && !r@[0].allow_error,
        r@[1].cmd@ == "cp .config config.bak"@ && (r@[1].cwd matches Some(d) && d@ == kbuild@) && r@[1].allow_error,
        r@[2].cmd@ == "make O="@ + kbuild@ + " defconfig"@ && (r@[2].cwd matches Some(d) && d@ == source_path@)
            && !r@[2].allow_error,
        forall|i: int| 0 <= i < 3 ==> !(#[trigger] r@[i]).use_bash,
{
    let mut r: Vec<Cmd> = Vec::new();
    let mut c = owned("mkdir -p ");
    push_str(&mut c, kbuild);
    r.push(Cmd::new(c));
    r.push(cmd("cp .config config.bak").cwd(kbuild).allow_error());
    let mut c = owned("make O=");
    push_str(&mut c, kbuild);
    push_str(&mut c, " defconfig");
    r.push(Cmd::new(c).cwd(source_path));
    r
}

/// The command that finds the config of the running kernel.
pub fn current_config_query() -> (r: Cmd)
    ensures
        r.cmd@ == "ls -1 /boot/config-* | head -n1"@,
        r.use_bash && r.cwd is None && !r.allow_error,
{
    cmd("ls -1 /boot/config-* | head -n1").use_bash()
}

/// The commands that take the config at `config` as the base: copy it into
/// the build directory and bring it up to date.
pub fn base_config_cmds(config: &str, kbuild: &str) -> (r: Vec<Cmd>)
    ensures
        r.len() == 2,
        r@[0].cmd@ == "cp "@ + config@ + " "@ + kbuild@ + "/.config"@ && r@[0].cwd is None && !r@[0].use_bash,
        r@[1].cmd@ == "yes '' | make oldconfig"@ && r@[1].use_bash && (r@[1].cwd matches Some(d) && d@ == kbuild@),
        !r@[0].allow_error && !r@[1].allow_error,
{
    let mut r: Vec<Cmd> = Vec::new();
    let mut c = owned("cp ");
    push_str(&mut c, config);
    push_str(&mut c, " ");
    push_str(&mut c, kbuild);
    push_str(&mut c, "/.config");
    r.push(Cmd::new(c));
    r.push(cmd("yes '' | make oldconfig").use_bash().cwd(kbuild));
    r
}

/// The command that sets (to `y`) or unsets a config option.
pub open spec fn option_text(opt: Seq<char>, set: bool, kbuild: Seq<char>) -> Seq<char> {
    if set {
        "sed -i 's/# "@ + opt + " is not set/"@ + opt + "=y/' "@ + kbuild + "/.config"@
    } else {
        "sed -i '/"@ + opt + "=/s/"@ + opt + "=.*$/# "@ + opt + " is not set/' "@ + kbuild + "/.config"@
    }
}

/// The command that sets or unsets a config option.
pub fn option_cmd(opt: &str, set: bool, kbuild: &str) -> (r: Cmd)
    ensures
        r.cmd@ == option_text(opt@, set, kbuild@),
        r.cwd is None && !r.use_bash && !r.allow_error,
{
    let mut c = owned("sed -i '");
    if set {
        push_str(&mut c, "s/# ");
        push_str(&mut c, opt);
        push_str(&mut c, " is not set/");
        push_str(&mut c, opt);
        push_str(&mut c, "=y/' ");
    } else {
        push_str(&mut c, "/");
        push_str(&mut c, opt);
        push_str(&mut c, "=/s/");
        push_str(&mut c, opt);
        push_str(&mut c, "=.*$/# ");
        push_str(&mut c, opt);
        push_str(&mut c, " is not set/' ");
    }
    push_str(&mut c, kbuild);
    push_str(&mut c, "/.config");
    proof {
        reveal_strlit("sed -i '");
        reveal_strlit("s/# ");
        reveal_strlit("sed -i 's/# ");
        reveal_strlit("/");
        reveal_strlit("sed -i '/");
    }
    assert(c@ =~= option_text(opt@, set, kbuild@));
    Cmd::new(c)
}

/// The `make` target of a package type.
pub open spec fn make_target(pkg: KernelPkgType) -> Seq<char> {
    match pkg {
        KernelPkgType::Deb => "bindeb-pkg"@,
        KernelPkgType::Rpm => "binrpm-pkg"@,
    }
}

/// The `LOCALVERSION` argument, if a local version is given.
pub open spec fn local_version_arg(v: Option<Seq<char>>) -> Seq<char> {
    match v {
        Some(v) => "LOCALVERSION=-"@ + v,
        None => Seq::empty(),
    }
}

/// The `make` invocation that builds the package with `n` jobs.
pub open spec fn make_text(n: usize, pkg: KernelPkgType, v: Option<Seq<char>>) -> Seq<char> {
    "make -j "@ + decimal(n as nat) + " "@ + make_target(pkg) + " "@ + local_version_arg(v)
}

/// The package a build makes: `make -j n binrpm-pkg` for an RPM and
/// `make -j n bindeb-pkg` for a Debian package, followed by the local
/// version argument if any.
pub proof fn law_make_target(n: usize, v: Option<Seq<char>>)
    ensures
        make_text(n, KernelPkgType::Rpm, v) == "make -j "@ + decimal(n as nat) + " "@ + "binrpm-pkg"@ + " "@
            + local_version_arg(v),
        make_text(n, KernelPkgType::Deb, v) == "make -j "@ + decimal(n as nat) + " "@ + "bindeb-pkg"@ + " "@
            + local_version_arg(v),
        make_text(n, KernelPkgType::Rpm, v) != make_text(n, KernelPkgType::Deb, v),
{
    reveal_strlit("binrpm-pkg");
    reveal_strlit("bindeb-pkg");
    let pre = "make -j "@ + decimal(n as nat) + " "@;
    let a = make_text(n, KernelPkgType::Rpm, v);
    let b = make_text(n, KernelPkgType::Deb, v);
    assert(a[pre.len() + 3int] == 'r');
    assert(b[pre.len() + 3int] == 'd');
}

/// The two build commands: a first attempt that answers every question
/// with the default and may fail, then the build proper.
pub fn make_cmds(nprocess: usize, pkg: KernelPkgType, local_version: Option<&str>, kbuild: &str) -> (r: Vec<Cmd>)
    ensures
        r.len() == 2,
        r@[0].cmd@ == "yes '' | "@ + make_text(nprocess, pkg, match local_version {
            Some(v) => Some(v@),
            None => None,
        }),
        r@[1].cmd@ == make_text(nprocess, pkg, match local_version {
            Some(v) => Some(v@),
            None => None,
        }),
        r@[0].allow_error && !r@[1].allow_error,
        forall|i: int| 0 <= i < 2 ==> ((#[trigger] r@[i]).cwd matches Some(d) && d@ == kbuild@),
        forall|i: int| 0 <= i < 2 ==> !(#[trigger] r@[i]).use_bash,
{
    let target = match pkg {
        KernelPkgType::Deb => "bindeb-pkg",
        KernelPkgType::Rpm => "binrpm-pkg",
    };
    let mut m = owned("make -j ");
    push_usize(&mut m, nprocess);
    push_str(&mut m, " ");
    push_str(&mut m, target);
    push_str(&mut m, " ");
    match local_version {
        Some(v) => {
            push_str(&mut m, "LOCALVERSION=-");
            push_str(&mut m, v);
        },
        None => {},
    }
    let mut first = owned("yes '' | ");
    push_str(&mut first, m.as_str());
    let mut r: Vec<Cmd> = Vec::new();
    r.push(Cmd::new(first).cwd(kbuild).allow_error());
    r.push(Cmd::new(m).cwd(kbuild));
    r
}

} // verus!
