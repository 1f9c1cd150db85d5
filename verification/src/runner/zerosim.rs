//! Decisions of the 0sim experiments on what the remote machine reports:
//! which devices to swap to, how to pin the VM's vCPUs, how to rewrite the
//! Vagrantfile and the kernel command line.

use vstd::prelude::*;
use crate::runner::cmd::{cmd, Cmd};
use crate::runner::common::{HOSTNAME_SHARED_DIR, RESEARCH_WORKSPACE_PATH, VAGRANT_SUBDIRECTORY};
use crate::text::{
    decimal, owned, push_str, push_usize, replace_all, replace_str, split_whitespace, starts_with,
    str_eq, str_starts_with, trim, trim_spec, words,
};

verus! {

/// The port that vagrant VMs forward from.
pub const VAGRANT_PORT: u16 = 5555;

/// The default amount of memory of the VM.
pub const VAGRANT_MEM: usize = 1024;

/// The default number of cores of the VM.
pub const VAGRANT_CORES: usize = 1;

// ---------------------------------------------------------------------------
// Swap devices.

/// Whether a device of this size is one of the SSDs used for swap.
pub open spec fn is_ssd_size(size: Seq<char>) -> bool {
    size == "447.1G"@
}

/// Whether a device of this size is one of the HDDs used for swap.
pub open spec fn is_hdd_size(size: Seq<char>) -> bool {
    size == "1.1T"@ || size == "1.8T"@ || size == "2.7T"@ || size == "3.7T"@ || size == "931.5G"@
}

/// The devices among the first `n` whose size satisfies `pick`, in order.
pub open spec fn pick_devs(devs: Seq<String>, sizes: Seq<String>, n: int, ssd: bool) -> Seq<String>
    decreases n,
{
    if n <= 0 {
        Seq::empty()
    } else {
        pick_devs(devs, sizes, n - 1, ssd) + if (ssd && is_ssd_size(sizes[n - 1]@)) || (!ssd && is_hdd_size(
            sizes[n - 1]@,
        )) {
            seq![devs[n - 1]]
        } else {
            Seq::empty()
        }
    }
}

/// The swap devices among unpartitioned devices of the given sizes: the
/// SSDs first, then the HDDs, each in order (devices and sizes are paired
/// up to the shorter list).
pub open spec fn swap_devs(devs: Seq<String>, sizes: Seq<String>) -> Seq<String> {
    let n = if devs.len() <= sizes.len() { devs.len() as int } else { sizes.len() as int };
    pick_devs(devs, sizes, n, true) + pick_devs(devs, sizes, n, false)
}

fn is_ssd_exec(size: &str) -> (r: bool)
    ensures
        r == is_ssd_size(size@),
{
    str_eq(size, "447.1G")
}

fn is_hdd_exec(size: &str) -> (r: bool)
    ensures
        r == is_hdd_size(size@),
{
    str_eq(size, "1.1T") || str_eq(size, "1.8T") || str_eq(size, "2.7T") || str_eq(size, "3.7T") || str_eq(size, "931.5G")
}

/// Lists the swap devices, SSDs first, from the unpartitioned devices and
/// their sizes.
pub fn select_swapdevs(devs: &Vec<String>, sizes: &Vec<String>) -> (r: Vec<String>)
    ensures
        r@ == swap_devs(devs@, sizes@),
{
    let n: usize = if devs.len() <= sizes.len() { devs.len() } else { sizes.len() };
    let mut r: Vec<String> = Vec::new();
    let mut i: usize = 0;
    while i < n
        invariant
            n <= devs@.len(),
            n <= sizes@.len(),
            i <= n,
            r@ == pick_devs(devs@, sizes@, i as int, true),
        decreases n - i,
    {
        if is_ssd_exec(sizes[i].as_str()) {
            r.push(devs[i].clone());
        }
        i = i + 1;
        assert(r@ =~= pick_devs(devs@, sizes@, i as int, true));
    }
    let ghost ssds = r@;
    let mut j: usize = 0;
    while j < n
        invariant
            n <= devs@.len(),
            n <= sizes@.len(),
            j <= n,
            r@ == ssds + pick_devs(devs@, sizes@, j as int, false),
        decreases n - j,
    {
        if is_hdd_exec(sizes[j].as_str()) {
            r.push(devs[j].clone());
        }
        j = j + 1;
        assert(r@ =~= ssds + pick_devs(devs@, sizes@, j as int, false));
    }
    r
}

/// Whether `pick_devs` picks a device of this size.
spec fn picked_size(size: Seq<char>, ssd: bool) -> bool {
    (ssd && is_ssd_size(size)) || (!ssd && is_hdd_size(size))
}

proof fn lemma_pick_devs(devs: Seq<String>, sizes: Seq<String>, m: int, ssd: bool)
    requires
        0 <= m <= devs.len(),
        m <= sizes.len(),
    ensures
        forall|i: int|
            #![trigger sizes[i]]
            0 <= i < m && picked_size(sizes[i]@, ssd) ==> pick_devs(devs, sizes, m, ssd).contains(devs[i]),
    decreases m,
{
    if m > 0 {
        lemma_pick_devs(devs, sizes, m - 1, ssd);
        let prev = pick_devs(devs, sizes, m - 1, ssd);
        let cur = pick_devs(devs, sizes, m, ssd);
        assert(cur.take(prev.len() as int) =~= prev);
        assert forall|i: int|
            #![trigger sizes[i]]
            0 <= i < m && picked_size(sizes[i]@, ssd) implies cur.contains(devs[i]) by {
            if i < m - 1 {
                let j = choose|j: int| 0 <= j < prev.len() && prev[j] == devs[i];
                assert(cur[j] == prev[j]);
            } else {
                assert(cur[prev.len() as int] == devs[i]);
            }
        }
    }
}

/// The position among `devs` of the `j`-th device `pick_devs` picks.
spec fn pick_source(devs: Seq<String>, sizes: Seq<String>, m: int, ssd: bool, j: int) -> int
    decreases m,
{
    if m <= 0 {
        0
    } else if j < pick_devs(devs, sizes, m - 1, ssd).len() {
        pick_source(devs, sizes, m - 1, ssd, j)
    } else {
        m - 1
    }
}

proof fn lemma_pick_source(devs: Seq<String>, sizes: Seq<String>, m: int, ssd: bool, j: int)
    requires
        0 <= m <= devs.len(),
        m <= sizes.len(),
        0 <= j < pick_devs(devs, sizes, m, ssd).len(),
    ensures
        0 <= pick_source(devs, sizes, m, ssd, j) < m,
        devs[pick_source(devs, sizes, m, ssd, j)] == pick_devs(devs, sizes, m, ssd)[j],
        picked_size(sizes[pick_source(devs, sizes, m, ssd, j)]@, ssd),
    decreases m,
{
    let prev = pick_devs(devs, sizes, m - 1, ssd);
    let cur = pick_devs(devs, sizes, m, ssd);
    if j < prev.len() {
        lemma_pick_source(devs, sizes, m - 1, ssd, j);
        assert(cur[j] == prev[j]);
    } else {
        assert(cur[j] == devs[m - 1]);
    }
}

/// The size of the SSDs used for swap, as `lsblk` prints it.
pub open spec fn swap_ssd(size: Seq<char>) -> bool {
    size == "447.1G"@
}

/// The sizes of the HDDs used for swap, as `lsblk` prints them: 1.1T,
/// 1.8T, 2.7T, 3.7T and 931.5G.
pub open spec fn swap_hdd(size: Seq<char>) -> bool {
    ||| size == "931.5G"@
    ||| size == "1.1T"@
    ||| size == "1.8T"@
    ||| size == "2.7T"@
    ||| size == "3.7T"@
}

/// Whether `x` is one of `devs` whose size is the SSDs' (`ssd`) or one of
/// the HDDs'.
pub open spec fn listed_with(devs: Seq<String>, sizes: Seq<String>, x: String, ssd: bool) -> bool {
    exists|i: int|
        #![trigger devs[i]]
        0 <= i < devs.len() && i < sizes.len() && devs[i] == x && (if ssd {
            swap_ssd(sizes[i]@)
        } else {
            swap_hdd(sizes[i]@)
        })
}

/// Whether `r` is, up to position `k`, exactly the devices of size 447.1G
/// (the SSDs) and, from `k` on, exactly the devices of size 1.1T, 1.8T,
/// 2.7T, 3.7T or 931.5G (the HDDs): every such device is in its part, and
/// every device in a part has one of its sizes.
pub open spec fn ssds_then_hdds(r: Seq<String>, devs: Seq<String>, sizes: Seq<String>, k: int) -> bool {
    &&& 0 <= k <= r.len()
    &&& forall|i: int|
        #![trigger sizes[i]]
        0 <= i < devs.len() && i < sizes.len() && swap_ssd(sizes[i]@) ==> r.take(k).contains(devs[i])
    &&& forall|i: int|
        #![trigger sizes[i]]
        0 <= i < devs.len() && i < sizes.len() && swap_hdd(sizes[i]@) ==> r.skip(k).contains(devs[i])
    &&& forall|j: int| 0 <= j < k ==> #[trigger] listed_with(devs, sizes, r[j], true)
    &&& forall|j: int| k <= j < r.len() ==> #[trigger] listed_with(devs, sizes, r[j], false)
}

/// Which devices become swap devices: the 447.1G SSDs, then the HDDs of
/// sizes 1.1T, 1.8T, 2.7T, 3.7T and 931.5G. Every device of one of those
/// sizes is selected, in its part, and every selected device has one of
/// them; devices of any other size are left out.
pub proof fn law_swap_devs_selection(devs: Seq<String>, sizes: Seq<String>)
    ensures
        exists|k: int| #[trigger] ssds_then_hdds(swap_devs(devs, sizes), devs, sizes, k),
{
    let n = if devs.len() <= sizes.len() { devs.len() as int } else { sizes.len() as int };
    lemma_pick_devs(devs, sizes, n, true);
    lemma_pick_devs(devs, sizes, n, false);
    let a = pick_devs(devs, sizes, n, true);
    let b = pick_devs(devs, sizes, n, false);
    let r = swap_devs(devs, sizes);
    let k = a.len() as int;
    assert(r.take(k) =~= a);
    assert(r.skip(k) =~= b);
    assert forall|i: int|
        #![trigger sizes[i]]
        0 <= i < devs.len() && i < sizes.len() && swap_ssd(sizes[i]@) implies r.take(k).contains(devs[i]) by {
        assert(picked_size(sizes[i]@, true));
    }
    assert forall|i: int|
        #![trigger sizes[i]]
        0 <= i < devs.len() && i < sizes.len() && swap_hdd(sizes[i]@) implies r.skip(k).contains(devs[i]) by {
        assert(picked_size(sizes[i]@, false));
    }
    assert forall|j: int| 0 <= j < k implies #[trigger] listed_with(devs, sizes, r[j], true) by {
        assert(r[j] == a[j]);
        lemma_pick_source(devs, sizes, n, true, j);
        let i = pick_source(devs, sizes, n, true, j);
        assert(devs[i] == r[j]);
    }
    assert forall|j: int| k <= j < r.len() implies #[trigger] listed_with(devs, sizes, r[j], false) by {
        assert(r[j] == b[j - k]);
        lemma_pick_source(devs, sizes, n, false, j - k);
        let i = pick_source(devs, sizes, n, false, j - k);
        assert(devs[i] == r[j]);
    }
    assert(ssds_then_hdds(r, devs, sizes, k));
}

/// The command lines that turn off, in order, each device of `mounts`
/// (pairs of device name and mount point) that is mounted as swap.
pub open spec fn swapoff_lines(mounts: Seq<(String, String)>) -> Seq<Seq<char>>
    decreases mounts.len(),
{
    if mounts.len() == 0 {
        Seq::empty()
    } else {
        let rest = swapoff_lines(mounts.drop_last());
        if mounts.last().1@ == "[SWAP]"@ {
            rest.push("sudo swapoff /dev/"@ + mounts.last().0@)
        } else {
            rest
        }
    }
}

/// The commands that turn off every device mounted as swap.
pub fn swapoff_cmds(mounts: &Vec<(String, String)>) -> (r: Vec<Cmd>)
    ensures
        r.len() == swapoff_lines(mounts@).len(),
        forall|i: int| 0 <= i < r.len() ==> (#[trigger] r@[i]).cmd@ == swapoff_lines(mounts@)[i]
            && r@[i].cwd is None && !r@[i].use_bash && !r@[i].allow_error,
{
    let mut r: Vec<Cmd> = Vec::new();
    let mut i: usize = 0;
    while i < mounts.len()
        invariant
            i <= mounts@.len(),
            r.len() == swapoff_lines(mounts@.take(i as int)).len(),
            forall|j: int| 0 <= j < r.len() ==> (#[trigger] r@[j]).cmd@ == swapoff_lines(mounts@.take(i as int))[j]
                && r@[j].cwd is None && !r@[j].use_bash && !r@[j].allow_error,
        decreases mounts@.len() - i,
    {
        assert(mounts@.take(i + 1).drop_last() =~= mounts@.take(i as int));
        assert(mounts@.take(i + 1).last() == mounts@[i as int]);
        if str_eq(mounts[i].1.as_str(), "[SWAP]") {
            let mut c = owned("sudo swapoff /dev/");
            push_str(&mut c, mounts[i].0.as_str());
            r.push(Cmd::new(c));
        }
        i = i + 1;
    }
    assert(mounts@.take(i as int) =~= mounts@);
    r
}

/// The command that turns on swap device `dev`.
pub fn swapon_cmd(dev: &str) -> (r: Cmd)
    ensures
        r.cmd@ == "sudo swapon -d /dev/"@ + dev@,
        r.cwd is None && !r.use_bash && !r.allow_error,
{
    let mut c = owned("sudo swapon -d /dev/");
    push_str(&mut c, dev);
    Cmd::new(c)
}

/// The devices given to SSDSWAP when a thin swap space backs the machine:
/// the data device (without `/dev/`), the thin volume and its pool.
pub fn thin_ssdswap_devs(dm_data: &str) -> (r: Vec<String>)
    ensures
        r.len() == 3,
        r@[0]@ == replace_all(dm_data@, "/dev/"@, Seq::empty()),
        r@[1]@ == "mapper/mythin"@,
        r@[2]@ == "mapper/mypool"@,
{
    proof {
        reveal_strlit("/dev/");
        reveal_strlit("");
    }
    assert(""@ =~= Seq::<char>::empty());
    let mut r: Vec<String> = Vec::new();
    r.push(replace_str(dm_data, "/dev/", ""));
    r.push(owned("mapper/mythin"));
    r.push(owned("mapper/mypool"));
    r
}

/// The command that makes `dev` an SSDSWAP device.
pub fn ssdswap_cmd(dev: &str) -> (r: Cmd)
    ensures
        r.cmd@ == "echo /dev/"@ + dev@ + " | sudo tee /sys/module/ssdswap/parameters/device"@,
        r.use_bash && r.cwd is None && !r.allow_error,
{
    let mut c = owned("echo /dev/");
    push_str(&mut c, dev);
    push_str(&mut c, " | sudo tee /sys/module/ssdswap/parameters/device");
    Cmd::new(c).use_bash()
}

// ---------------------------------------------------------------------------
// Thin swap spaces.

/// Whether the device-mapper listing already shows the thin volume.
pub fn thin_volume_exists(dmsetup_ls: &str) -> (r: bool)
    ensures
        r == exists|i: int| 0 <= i <= dmsetup_ls@.len() - 6 && #[trigger] dmsetup_ls@.subrange(i, i + 6) == "mythin"@,
{
    let v = crate::text::chars_of(dmsetup_ls);
    let pat = crate::text::chars_of("mythin");
    proof {
        reveal_strlit("mythin");
    }
    if v.len() < 6 {
        return false;
    }
    let mut i: usize = 0;
    while i <= v.len() - 6
        invariant
            v@ == dmsetup_ls@,
            pat@ == "mythin"@,
            pat@.len() == 6,
            v@.len() >= 6,
            i <= v@.len() - 5,
            forall|k: int| 0 <= k < i ==> #[trigger] dmsetup_ls@.subrange(k, k + 6) != "mythin"@,
        decreases v@.len() - i,
    {
        let mut k: usize = 0;
        let mut same = true;
        while k < 6 && same
            invariant
                v@ == dmsetup_ls@,
                pat@ == "mythin"@,
                pat@.len() == 6,
                i + 6 <= v.len(),
                k <= 6,
                same ==> forall|j: int| 0 <= j < k ==> v@[i + j] == pat@[j],
                !same ==> k > 0 && v@[i + k - 1] != pat@[k - 1],
            decreases 6 - k, if same { 1int } else { 0int },
        {
            if v[i + k] != pat[k] {
                same = false;
            }
            k = k + 1;
        }
        if same {
            assert(dmsetup_ls@.subrange(i as int, i + 6) =~= "mythin"@);
            return true;
        }
        assert(dmsetup_ls@.subrange(i as int, i + 6)[k - 1] != "mythin"@[k - 1]);
        i = i + 1;
    }
    false
}

/// The loopback device named by `losetup -j`: the text before the first
/// colon of its trimmed output.
pub fn loopback_device(losetup_out: &str) -> (r: String)
    ensures
        r@ == crate::jobserver::runs::host_of(trim_spec(losetup_out@)),
{
    let t = trim(losetup_out);
    crate::jobserver::runs::host_part(t.as_str())
}

/// The command that creates the thin pool of `sectors` 512-byte sectors
/// on `data_dev` with metadata on `loopback`.
pub fn thin_pool_cmd(sectors: u64, loopback: &str, data_dev: &str) -> (r: Cmd)
    ensures
        r.cmd@ == "sudo dmsetup create mypool --table '0 "@ + decimal(sectors as nat) + " thin-pool "@ + loopback@ + " "@
            + data_dev@ + " 256000 0'"@,
        r.cwd is None && !r.use_bash && !r.allow_error,
{
    let mut c = owned("sudo dmsetup create mypool --table '0 ");
    crate::text::push_decimal(&mut c, sectors);
    push_str(&mut c, " thin-pool ");
    push_str(&mut c, loopback);
    push_str(&mut c, " ");
    push_str(&mut c, data_dev);
    push_str(&mut c, " 256000 0'");
    Cmd::new(c)
}

/// The number of 512-byte sectors of a device of `bytes` bytes.
pub fn sectors_of(bytes: u64) -> (r: u64)
    ensures
        r == bytes / 512,
{
    assert(bytes >> 9u64 == bytes / 512) by (bit_vector);
    bytes >> 9
}

/// The commands that attach the metadata file `meta_file` to a free
/// loopback device and then ask which device it got.
pub fn loopback_cmds(meta_file: &str) -> (r: Vec<Cmd>)
    ensures
        r.len() == 2,
        r@[0].cmd@ == "sudo losetup -f "@ + meta_file@,
        r@[1].cmd@ == "sudo losetup -j "@ + meta_file@,
        forall|i: int| 0 <= i < 2 ==> (#[trigger] r@[i]).cwd is None && !r@[i].use_bash && !r@[i].allow_error,
{
    let mut a = owned("sudo losetup -f ");
    push_str(&mut a, meta_file);
    let mut b = owned("sudo losetup -j ");
    push_str(&mut b, meta_file);
    let mut r: Vec<Cmd> = Vec::new();
    r.push(Cmd::new(a));
    r.push(Cmd::new(b));
    r
}

/// The command that prints the size of `dev` in bytes.
pub fn device_size_cmd(dev: &str) -> (r: Cmd)
    ensures
        r.cmd@ == "lsblk -o SIZE -b "@ + dev@ + " | sed '2q;d'"@,
        r.use_bash && r.cwd is None && !r.allow_error,
{
    let mut c = owned("lsblk -o SIZE -b ");
    push_str(&mut c, dev);
    push_str(&mut c, " | sed '2q;d'");
    Cmd::new(c).use_bash()
}

/// The number of 512-byte sectors of a device whose size in bytes `lsblk`
/// printed as `out`, or `None` where the trimmed output is not an unsigned
/// integer (it is read as `str::parse::<usize>` reads it, which agrees
/// with `u64` on 64-bit hosts).
pub fn device_sectors(out: &str) -> (r: Option<u64>)
    ensures
        match crate::text::parse_usize_spec(trim_spec(out@)) {
            Some(n) => r == Some((n / 512) as u64),
            None => r is None,
        },
{
    let t = trim(out);
    match crate::text::parse_usize(t.as_str()) {
        Some(n) => {
            let n64 = n as u64;
            Some(sectors_of(n64))
        },
        None => None,
    }
}

/// The commands that make the thin volume on the pool (a new one first
/// where `new`) and format it as swap.
pub fn thin_volume_cmds(new: bool) -> (r: Vec<Cmd>)
    ensures
        r.len() == (if new { 3int } else { 2int }),
        new ==> r@[0].cmd@ == "sudo dmsetup message /dev/mapper/mypool 0 'create_thin 0'"@,
        r@[r.len() - 2].cmd@ == "sudo dmsetup create mythin --table '0 21474836480 thin /dev/mapper/mypool 0'"@,
        r@[r.len() - 1].cmd@ == "sudo mkswap /dev/mapper/mythin"@,
        forall|i: int| 0 <= i < r.len() ==> (#[trigger] r@[i]).cwd is None && !r@[i].use_bash && !r@[i].allow_error,
{
    let mut r: Vec<Cmd> = Vec::new();
    if new {
        r.push(cmd("sudo dmsetup message /dev/mapper/mypool 0 'create_thin 0'"));
    }
    r.push(cmd("sudo dmsetup create mythin --table '0 21474836480 thin /dev/mapper/mypool 0'"));
    r.push(cmd("sudo mkswap /dev/mapper/mythin"));
    r
}

/// Which swap space to turn on, as the research settings say.
pub enum SwapChoice {
    /// The thin swap space with this metadata file and data device.
    Thin { meta: String, data: String },
    /// These devices.
    Devices(Vec<String>),
    /// The devices that `select_swapdevs` lists.
    Listed,
}

/// The swap space to turn on: the thin one where both its settings are
/// recorded, else the recorded swap devices, else the listed ones.
pub fn swapon_choice(dm_meta: Option<String>, dm_data: Option<String>, swap_devices: Option<Vec<String>>) -> (r: SwapChoice)
    ensures
        match (dm_meta, dm_data) {
            (Some(m), Some(d)) => r == (SwapChoice::Thin { meta: m, data: d }),
            _ => match swap_devices {
                Some(v) => r == SwapChoice::Devices(v),
                None => r is Listed,
            },
        },
{
    match (dm_meta, dm_data) {
        (Some(m), Some(d)) => SwapChoice::Thin { meta: m, data: d },
        _ => match swap_devices {
            Some(v) => SwapChoice::Devices(v),
            None => SwapChoice::Listed,
        },
    }
}

/// The devices given to SSDSWAP: those of the thin swap space where its
/// data device is recorded, else the recorded swap devices, else the
/// listed ones (`Listed`).
pub fn ssdswap_choice(dm_data: Option<String>, swap_devices: Option<Vec<String>>) -> (r: SwapChoice)
    ensures
        match dm_data {
            Some(d) => r matches SwapChoice::Devices(v) && v.len() == 3
                && v@[0]@ == replace_all(d@, "/dev/"@, Seq::empty()) && v@[1]@ == "mapper/mythin"@
                && v@[2]@ == "mapper/mypool"@,
            None => match swap_devices {
                Some(v) => r == SwapChoice::Devices(v),
                None => r is Listed,
            },
        },
{
    match dm_data {
        Some(d) => SwapChoice::Devices(thin_ssdswap_devs(d.as_str())),
        None => match swap_devices {
            Some(v) => SwapChoice::Devices(v),
            None => SwapChoice::Listed,
        },
    }
}

// ---------------------------------------------------------------------------
// Virtual machines.

/// The domain name `virsh` reports, or `None` if the line is empty.
pub fn domain_from(out: &str) -> (r: Option<String>)
    ensures
        trim_spec(out@).len() == 0 ==> r is None,
        trim_spec(out@).len() > 0 ==> (r matches Some(d) && d@ == trim_spec(out@)),
{
    let t = trim(out);
    if t.as_str().is_empty() {
        None
    } else {
        Some(t)
    }
}

/// The commands that pin vCPU `v` to host CPU `p` for each pair of the
/// mapping, on domain `domain` (for its configuration if it is not
/// running): first setting the number of vCPUs, then showing them, then
/// pinning each, then showing the pinning.
pub fn vcpupin_cmds(domain: &str, running: bool, mapping: &Vec<(usize, usize)>) -> (r: Vec<Cmd>)
    ensures
        r.len() == mapping.len() + 4,
        r@[0].cmd@ == "sudo virsh setvcpus "@ + domain@ + " "@ + decimal(mapping.len() as nat) + " --maximum --config"@,
        r@[1].cmd@ == "sudo virsh setvcpus "@ + domain@ + " "@ + decimal(mapping.len() as nat) + " --config"@,
        r@[2].cmd@ == "sudo virsh vcpuinfo "@ + domain@,
        forall|k: int| 0 <= k < mapping.len() ==> (#[trigger] r@[3 + k]).cmd@ == "sudo virsh vcpupin "@ + domain@ + " "@
            + (if running { Seq::empty() } else { "--config"@ }) + " "@ + decimal(mapping@[k].0 as nat) + " "@
            + decimal(mapping@[k].1 as nat),
        r@[r.len() - 1].cmd@ == "sudo virsh vcpupin "@ + domain@,
        forall|i: int| 0 <= i < r.len() ==> (#[trigger] r@[i]).cwd is None && !r@[i].use_bash && !r@[i].allow_error,
{
    let mut r: Vec<Cmd> = Vec::new();
    let mut c = owned("sudo virsh setvcpus ");
    push_str(&mut c, domain);
    push_str(&mut c, " ");
    push_usize(&mut c, mapping.len());
    push_str(&mut c, " --maximum --config");
    r.push(Cmd::new(c));
    let mut c = owned("sudo virsh setvcpus ");
    push_str(&mut c, domain);
    push_str(&mut c, " ");
    push_usize(&mut c, mapping.len());
    push_str(&mut c, " --config");
    r.push(Cmd::new(c));
    let mut c = owned("sudo virsh vcpuinfo ");
    push_str(&mut c, domain);
    r.push(Cmd::new(c));
    let mut k: usize = 0;
    while k < mapping.len()
        invariant
            k <= mapping@.len(),
            r.len() == k + 3,
            r@[0].cmd@ == "sudo virsh setvcpus "@ + domain@ + " "@ + decimal(mapping.len() as nat) + " --maximum --config"@,
            r@[1].cmd@ == "sudo virsh setvcpus "@ + domain@ + " "@ + decimal(mapping.len() as nat) + " --config"@,
            r@[2].cmd@ == "sudo virsh vcpuinfo "@ + domain@,
            forall|j: int| 0 <= j < k ==> (#[trigger] r@[3 + j]).cmd@ == "sudo virsh vcpupin "@ + domain@ + " "@
                + (if running { Seq::empty() } else { "--config"@ }) + " "@ + decimal(mapping@[j].0 as nat) + " "@
                + decimal(mapping@[j].1 as nat),
            forall|i: int| 0 <= i < r.len() ==> (#[trigger] r@[i]).cwd is None && !r@[i].use_bash && !r@[i].allow_error,
        decreases mapping@.len() - k,
    {
        let mut c = owned("sudo virsh vcpupin ");
        push_str(&mut c, domain);
        push_str(&mut c, " ");
        if !running {
            push_str(&mut c, "--config");
        }
        push_str(&mut c, " ");
        push_usize(&mut c, mapping[k].0);
        push_str(&mut c, " ");
        push_usize(&mut c, mapping[k].1);
        proof {
            let opt = if running { Seq::<char>::empty() } else { "--config"@ };
            assert(c@ =~= "sudo virsh vcpupin "@ + domain@ + " "@ + opt + " "@ + decimal(mapping@[k as int].0 as nat) + " "@
                + decimal(mapping@[k as int].1 as nat));
        }
        r.push(Cmd::new(c));
        k = k + 1;
    }
    let mut c = owned("sudo virsh vcpupin ");
    push_str(&mut c, domain);
    r.push(Cmd::new(c));
    r
}

/// The identity pinning of `cores` vCPUs: vCPU `c` on host CPU `c`.
pub fn identity_pinning(cores: usize) -> (r: Vec<(usize, usize)>)
    ensures
        r.len() == cores,
        forall|c: int| 0 <= c < cores ==> #[trigger] r@[c] == (c as usize, c as usize),
{
    let mut r: Vec<(usize, usize)> = Vec::new();
    let mut c: usize = 0;
    while c < cores
        invariant
            c <= cores,
            r.len() == c,
            forall|k: int| 0 <= k < c ==> #[trigger] r@[k] == (k as usize, k as usize),
        decreases cores - c,
    {
        r.push((c, c));
        c = c + 1;
    }
    r
}

/// The path of the vagrant directory.
pub open spec fn vagrant_path() -> Seq<char> {
    RESEARCH_WORKSPACE_PATH@ + "/"@ + VAGRANT_SUBDIRECTORY@
}

/// The path of the vagrant directory.
pub fn vagrant_dir() -> (r: String)
    ensures
        r@ == vagrant_path(),
{
    let mut r = owned(RESEARCH_WORKSPACE_PATH);
    push_str(&mut r, "/");
    push_str(&mut r, VAGRANT_SUBDIRECTORY);
    r
}

/// `p` with each `/` escaped for a `sed` pattern.
pub open spec fn sed_escape(p: Seq<char>) -> Seq<char> {
    replace_all(p, "/"@, "\\/"@)
}

/// The commands that regenerate the Vagrantfile for a VM of `memgb` GB and
/// `cores` cores, keeping its domain name `current_name`, and point it at
/// the directories under `user_home`; all run in the vagrant directory.
pub fn vagrantfile_cmds(current_name: &str, memgb: usize, cores: usize, user_home: &str) -> (r: Vec<Cmd>)
    ensures
        r.len() == 7,
        r@[0].cmd@ == "cp Vagrantfile.bk Vagrantfile"@,
        r@[1].cmd@ == "sed -i 's/:test_vm/"@ + current_name@ + "/' Vagrantfile"@,
        r@[2].cmd@ == "sed -i 's/memory = 1023/memory = "@ + decimal(memgb as nat) + "/' Vagrantfile"@,
        r@[3].cmd@ == "sed -i 's/cpus = 1/cpus = "@ + decimal(cores as nat) + "/' Vagrantfile"@,
        r@[4].cmd@ == "sed -i 's/vagrant_dir = ''/vagrant_dir = \""@ + sed_escape(user_home@ + "/"@ + vagrant_path())
            + "\"/' Vagrantfile"@,
        r@[5].cmd@ == "sed -i 's/vm_shared_dir = ''/vm_shared_dir = \""@ + sed_escape(user_home@ + "/"@ + HOSTNAME_SHARED_DIR@)
            + "\"/' Vagrantfile"@,
        r@[6].cmd@ == "sed -i 's/research_workspace_dir = ''/research_workspace_dir = \""@ + sed_escape(
            user_home@ + "/"@ + RESEARCH_WORKSPACE_PATH@,
        ) + "\"/' Vagrantfile"@,
        forall|i: int| 0 <= i < 7 ==> ((#[trigger] r@[i]).cwd matches Some(d) && d@ == vagrant_path()) && !r@[i].use_bash
            && !r@[i].allow_error,
{
    proof {
        reveal_strlit("/");
    }
    let vp = vagrant_dir();
    let mut r: Vec<Cmd> = Vec::new();
    r.push(cmd("cp Vagrantfile.bk Vagrantfile").cwd(vp.as_str()));
    let mut c = owned("sed -i 's/:test_vm/");
    push_str(&mut c, current_name);
    push_str(&mut c, "/' Vagrantfile");
    r.push(Cmd::new(c).cwd(vp.as_str()));
    let mut c = owned("sed -i 's/memory = 1023/memory = ");
    push_usize(&mut c, memgb);
    push_str(&mut c, "/' Vagrantfile");
    r.push(Cmd::new(c).cwd(vp.as_str()));
    let mut c = owned("sed -i 's/cpus = 1/cpus = ");
    push_usize(&mut c, cores);
    push_str(&mut c, "/' Vagrantfile");
    r.push(Cmd::new(c).cwd(vp.as_str()));
    let mut full = owned(user_home);
    push_str(&mut full, "/");
    push_str(&mut full, vp.as_str());
    let esc = replace_str(full.as_str(), "/", "\\/");
    let mut c = owned("sed -i 's/vagrant_dir = ''/vagrant_dir = \"");
    push_str(&mut c, esc.as_str());
    push_str(&mut c, "\"/' Vagrantfile");
    r.push(Cmd::new(c).cwd(vp.as_str()));
    let mut full = owned(user_home);
    push_str(&mut full, "/");
    push_str(&mut full, HOSTNAME_SHARED_DIR);
    let esc = replace_str(full.as_str(), "/", "\\/");
    let mut c = owned("sed -i 's/vm_shared_dir = ''/vm_shared_dir = \"");
    push_str(&mut c, esc.as_str());
    push_str(&mut c, "\"/' Vagrantfile");
    r.push(Cmd::new(c).cwd(vp.as_str()));
    let mut full = owned(user_home);
    push_str(&mut full, "/");
    push_str(&mut full, RESEARCH_WORKSPACE_PATH);
    let esc = replace_str(full.as_str(), "/", "\\/");
    let mut c = owned("sed -i 's/research_workspace_dir = ''/research_workspace_dir = \"");
    push_str(&mut c, esc.as_str());
    push_str(&mut c, "\"/' Vagrantfile");
    r.push(Cmd::new(c).cwd(vp.as_str()));
    r
}

/// The command that sets the network interface of the VM in the
/// Vagrantfile.
pub fn iface_cmd(iface: &str) -> (r: Cmd)
    ensures
        r.cmd@ == "sed -i 's/iface = \"eno1\"/iface = \""@ + iface@ + "\"/' Vagrantfile"@,
        (r.cwd matches Some(d) && d@ == vagrant_path()) && !r.use_bash && !r.allow_error,
{
    let vp = vagrant_dir();
    let mut c = owned("sed -i 's/iface = \"eno1\"/iface = \"");
    push_str(&mut c, iface);
    push_str(&mut c, "\"/' Vagrantfile");
    Cmd::new(c).cwd(vp.as_str())
}

/// What to do about the thin swap space once `sudo dmsetup ls` has been
/// read.
pub enum ThinSwapStart {
    /// The thin volume exists: just turn it on with this command.
    SwapOn(Cmd),
    /// It must be created: attach the metadata file with these commands
    /// (the last prints the loopback device), then ask for the size of the
    /// data device with `device_size_cmd`, then call `thin_swap_create_cmds`.
    Create(Vec<Cmd>),
}

/// The first decision about the thin swap space, from the listing of the
/// device mapper: turn on the thin volume if it exists, else begin creating
/// it with the metadata in `meta_file`.
pub fn thin_swap_start(dmsetup_ls: &str, meta_file: &str) -> (r: ThinSwapStart)
    ensures
        (exists|i: int| 0 <= i <= dmsetup_ls@.len() - 6 && #[trigger] dmsetup_ls@.subrange(i, i + 6) == "mythin"@)
            ==> (r matches ThinSwapStart::SwapOn(c) && c.cmd@ == "sudo swapon -d /dev/"@ + "mapper/mythin"@ && c.cwd is None
            && !c.use_bash && !c.allow_error),
        !(exists|i: int| 0 <= i <= dmsetup_ls@.len() - 6 && #[trigger] dmsetup_ls@.subrange(i, i + 6) == "mythin"@)
            ==> (r matches ThinSwapStart::Create(cs) && cs.len() == 2 && cs@[0].cmd@ == "sudo losetup -f "@ + meta_file@
            && cs@[1].cmd@ == "sudo losetup -j "@ + meta_file@ && forall|i: int|
            0 <= i < 2 ==> (#[trigger] cs@[i]).cwd is None && !cs@[i].use_bash && !cs@[i].allow_error),
{
    if thin_volume_exists(dmsetup_ls) {
        ThinSwapStart::SwapOn(swapon_cmd("mapper/mythin"))
    } else {
        ThinSwapStart::Create(loopback_cmds(meta_file))
    }
}

/// The commands that create the thin swap space and turn it on, from what
/// `losetup -j` printed and the size of the data device as `lsblk`
/// printed it: the pool over the loopback device and the data device, the
/// thin volume (a new one if `new`), and `swapon`. `None` if the size is
/// not a number.
pub fn thin_swap_create_cmds(losetup_out: &str, size_out: &str, data_dev: &str, new: bool) -> (r: Option<Vec<Cmd>>)
    ensures
        match crate::text::parse_usize_spec(trim_spec(size_out@)) {
            None => r is None,
            Some(n) => r matches Some(cs) && cs.len() == (if new { 5int } else { 4int })
                && cs@[0].cmd@ == "sudo dmsetup create mypool --table '0 "@ + decimal((n / 512) as u64 as nat)
                + " thin-pool "@ + crate::jobserver::runs::host_of(trim_spec(losetup_out@)) + " "@ + data_dev@
                + " 256000 0'"@
                && (new ==> cs@[1].cmd@ == "sudo dmsetup message /dev/mapper/mypool 0 'create_thin 0'"@)
                && cs@[cs.len() - 3].cmd@ == "sudo dmsetup create mythin --table '0 21474836480 thin /dev/mapper/mypool 0'"@
                && cs@[cs.len() - 2].cmd@ == "sudo mkswap /dev/mapper/mythin"@
                && cs@[cs.len() - 1].cmd@ == "sudo swapon -d /dev/"@ + "mapper/mythin"@
                && forall|i: int| 0 <= i < cs.len() ==> (#[trigger] cs@[i]).cwd is None && !cs@[i].use_bash
                    && !cs@[i].allow_error,
        },
{
    let sectors = match device_sectors(size_out) {
        Some(n) => n,
        None => return None,
    };
    let loopback = loopback_device(losetup_out);
    let mut r: Vec<Cmd> = Vec::new();
    r.push(thin_pool_cmd(sectors, loopback.as_str(), data_dev));
    let mut vol = thin_volume_cmds(new);
    let ghost v = vol@;
    r.append(&mut vol);
    r.push(swapon_cmd("mapper/mythin"));
    assert(forall|i: int| 0 <= i < v.len() ==> r@[i + 1] == #[trigger] v[i]);
    Some(r)
}

// ---------------------------------------------------------------------------
// Kernel command line.

/// Whether the word `w` sets the kernel argument `param`: it is `param`
/// itself or `param=` followed by a value.
pub open spec fn sets_param(w: Seq<char>, param: Seq<char>) -> bool {
    w == param || starts_with(w, param + "="@)
}

/// The words of `ws` that do not set the argument `param`.
pub open spec fn kept_params(ws: Seq<Seq<char>>, param: Seq<char>) -> Seq<Seq<char>>
    decreases ws.len(),
{
    if ws.len() == 0 {
        Seq::empty()
    } else {
        kept_params(ws.drop_last(), param) + if sets_param(ws.last(), param) {
            Seq::empty()
        } else {
            seq![ws.last()]
        }
    }
}

/// Words joined by single spaces.
pub open spec fn join_spaces(ws: Seq<Seq<char>>) -> Seq<char>
    decreases ws.len(),
{
    if ws.len() == 0 {
        Seq::empty()
    } else if ws.len() == 1 {
        ws[0]
    } else {
        join_spaces(ws.drop_last()) + " "@ + ws.last()
    }
}

/// The current kernel command line as a `sed` pattern: trimmed, slashes
/// escaped, then every backslash doubled.
pub open spec fn grub_pattern(line: Seq<char>) -> Seq<char> {
    replace_all(replace_all(trim_spec(line), "/"@, "\\/"@), "\\"@, "\\\\"@)
}

/// The command that rewrites the kernel command line in the GRUB defaults:
/// an existing `param` or `param=...` argument is dropped, every other
/// argument is kept, and `param` (with its value, if any) is appended.
pub open spec fn boot_param_text(line: Seq<char>, param: Seq<char>, value: Option<Seq<char>>) -> Seq<char> {
    let cur = grub_pattern(line);
    "sudo sed -i 's/"@ + cur + "/"@ + join_spaces(kept_params(words(cur), param)) + " "@ + (match value {
        Some(v) => param + "="@ + v,
        None => param,
    }) + "/' /etc/default/grub"@
}

/// The command that sets a kernel boot parameter, given the current
/// command line.
pub fn boot_param_cmd(current_line: &str, param: &str, value: Option<&str>) -> (r: Cmd)
    ensures
        r.cmd@ == boot_param_text(current_line@, param@, match value {
            Some(v) => Some(v@),
            None => None,
        }),
        r.cwd is None && !r.use_bash && !r.allow_error,
{
    proof {
        reveal_strlit("/");
        reveal_strlit("\\");
    }
    let t = trim(current_line);
    let a = replace_str(t.as_str(), "/", "\\/");
    let cur = replace_str(a.as_str(), "\\", "\\\\");
    let ws = split_whitespace(cur.as_str());
    let ghost all = words(cur@);
    let mut with_eq = owned(param);
    push_str(&mut with_eq, "=");
    let mut kept = String::new();
    let mut count: usize = 0;
    let mut i: usize = 0;
    while i < ws.len()
        invariant
            i <= ws@.len(),
            ws.len() == all.len(),
            forall|k: int| 0 <= k < ws.len() ==> (#[trigger] ws@[k])@ == all[k],
            kept@ == join_spaces(kept_params(all.take(i as int), param@)),
            count == kept_params(all.take(i as int), param@).len(),
            count <= i,
            with_eq@ == param@ + "="@,
        decreases ws@.len() - i,
    {
        assert(all.take(i + 1).drop_last() =~= all.take(i as int));
        assert(all.take(i + 1).last() == all[i as int]);
        let sets = str_eq(ws[i].as_str(), param) || str_starts_with(ws[i].as_str(), with_eq.as_str());
        if !sets {
            if count > 0 {
                push_str(&mut kept, " ");
            }
            push_str(&mut kept, ws[i].as_str());
            proof {
                let prev = kept_params(all.take(i as int), param@);
                let next = kept_params(all.take(i + 1), param@);
                assert(next == prev.push(all[i as int]));
                assert(next.drop_last() =~= prev);
            }
            count = count + 1;
        }
        i = i + 1;
    }
    assert(all.take(i as int) =~= all);
    let mut c = owned("sudo sed -i 's/");
    push_str(&mut c, cur.as_str());
    push_str(&mut c, "/");
    push_str(&mut c, kept.as_str());
    push_str(&mut c, " ");
    match value {
        Some(v) => {
            push_str(&mut c, param);
            push_str(&mut c, "=");
            push_str(&mut c, v);
        },
        None => push_str(&mut c, param),
    }
    push_str(&mut c, "/' /etc/default/grub");
    Cmd::new(c)
}

} // verus!
