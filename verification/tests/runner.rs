use std::collections::BTreeMap;
use std::hash::{Hash, Hasher};

use zerosim_tools::runner::cmd::cmd;
use zerosim_tools::runner::common::{gen_local_version, service, timings_str, GitHubRepo, ServiceAction, Username};
use zerosim_tools::runner::exp00007::Workload as Workload7;
use zerosim_tools::runner::exp00008::Workload as Workload8;
use zerosim_tools::runner::exptmp::Workload as WorkloadTmp;
use zerosim_tools::runner::exptmp::{
    exptmp_plan, hibench_cmds, results_line, timer_label, trace_cmd, zswap_max_pool_cmd, ExptmpConfig, Step,
};
use zerosim_tools::runall::results_path;
use zerosim_tools::runner::output::OutputManager;
use zerosim_tools::runner::rpm::{local_push_args, rpm_config_cmds, rpm_make_cmds};
use zerosim_tools::runner::setup00000::{
    host_kernel_options, proxy_cmds, rename_poweroff_cmd, setup_steps, swap_plan, validate_options, SetupConfig,
    SetupStep,
};
use zerosim_tools::runner::setup00002::{
    kernel_dir_name, parse_config_option, pathify, validate_config_option, ConfigOptionError,
};
use zerosim_tools::runner::workloads::{
    mix_plan, mix_sizes, redis_config_cmds, LocalityMemAccessMode, RedisWorkloadConfig, TasksetCtx, TimeMmapTouchPattern,
    MIX_REDIS_SNAPSHOT_FREQ_SECS, REDIS_SNAPSHOT_FREQ_SECS,
};
use zerosim_tools::runner::zerosim::{
    thin_swap_create_cmds, thin_swap_start, ThinSwapStart,
    boot_param_cmd, domain_from, identity_pinning, loopback_device, sectors_of, select_swapdevs, swapoff_cmds,
    thin_pool_cmd, thin_ssdswap_devs, thin_volume_exists, vcpupin_cmds,
};

use zerosim_tools::runner::host::{
        ksm_disable_cmds, perf_governor_cmd, printk_level_cmd, sim_output_cmds, sys_info_cmds, tsc_offsetting_cmd,
        Side,
    };
use zerosim_tools::runner::settings::{new_domain_cmd, ResearchSettings};
use zerosim_tools::runner::zerosim::{
        device_sectors, device_size_cmd, loopback_cmds, ssdswap_choice, swapon_choice, thin_volume_cmds, SwapChoice,
    };

use zerosim_tools::runner::hadoop::{download_cmds, Stack};
use zerosim_tools::runner::common::local_workspace_version;

fn s(x: &str) -> String {
    x.to_string()
}

#[test]
fn foo() {
    let mut settings = OutputManager::new();
    settings.register("git_hash", serde_json::to_string(&(0 + 1)).unwrap(), false);
    settings.register("workload", serde_json::to_string("name").unwrap(), false);
    settings.register("setting1", serde_json::to_string(&false).unwrap(), false);
    settings.register("setting2", serde_json::to_string(&String::new()).unwrap(), true);
    settings.register("setting3", serde_json::to_string(&3.1E3).unwrap(), false);
    settings.register("setting4", serde_json::to_string(&(2, 1)).unwrap(), false);

    let (output_file, params_file) = settings.gen_file_names();
    let params: BTreeMap<String, String> = settings.settings_list().into_iter().collect();
    let params_json = serde_json::to_string(&params);
    let git_hash: usize = serde_json::from_str(&settings.get("git_hash")).unwrap();

    assert!(output_file.starts_with("setting2__-"));
    assert!(output_file.ends_with(".out"));
    assert!(params_file.ends_with(".params"));
    assert!(params_json.is_ok());
    assert_eq!(git_hash, 1);
}

#[test]
fn output_file_names_from_important_settings() {
    let mut m = OutputManager::with_timestamp(s("2020-01-01-00-00-00"));
    m.register("size", s("100"), true);
    m.register("workload", s("\"memcached gen\""), true);
    m.register("exp", s("\"00000\""), false);
    assert_eq!(m.gen_file_name("err"), "size100-workload_memcached_gen_-2020-01-01-00-00-00.err");
    let (out, params) = m.gen_file_names();
    assert_eq!(out, "size100-workload_memcached_gen_-2020-01-01-00-00-00.out");
    assert_eq!(params, "size100-workload_memcached_gen_-2020-01-01-00-00-00.params");
    let names: Vec<String> = m.settings_list().into_iter().map(|p| p.0).collect();
    assert_eq!(names, vec![s("exp"), s("size"), s("workload")]);
    assert!(m.is_registered("size"));
    assert!(!m.is_registered("other"));
    assert_eq!(m.get("exp"), "\"00000\"");
}

#[test]
fn output_without_important_settings() {
    let m = OutputManager::with_timestamp(s("T"));
    assert_eq!(m.gen_file_name("out"), "-T.out");
}

#[test]
fn username_and_repo_urls() {
    assert_eq!(Username("markm").as_str(), "markm");
    let r = GitHubRepo::Https { repo: s("github.com/a/b"), token: Some((s("u"), s("t"))) };
    assert_eq!(r.to_string(), "https://u:t@github.com/a/b");
    let r = GitHubRepo::Https { repo: s("github.com/a/b"), token: None };
    assert_eq!(r.to_string(), "https://github.com/a/b");
    let r = GitHubRepo::Ssh { repo: s("git@github.com:a/b") };
    assert_eq!(r.to_string(), "git@github.com:a/b");
}

#[test]
fn local_version_from_branch_and_hash() {
    assert_eq!(gen_local_version("markm_ztier_branch_long", "0123456789abcdef0123"), "markm-ztier-bra-0123456789abcde");
    assert_eq!(gen_local_version("a_b", "ff"), "a-b-ff");
    assert_eq!(gen_local_version("ééééééééé", "abc"), "ééééééééé-abc");
    assert_eq!(gen_local_version("ééééééééééééééééé", "ü_ü"), "ééééééééééééééé-ü_ü");
}

#[test]
fn timing_report() {
    let t = vec![(s("a"), 1, 500_000_000), (s("b"), 0, 2_000)];
    assert_eq!(timings_str(&t), "a: 1.5s\nb: 2µs\n");
    assert_eq!(timings_str(&vec![]), "");
    let mut both = t.clone();
    both.push((s("c"), 3, 0));
    assert_eq!(timings_str(&both), format!("{}{}", timings_str(&t), timings_str(&vec![(s("c"), 3, 0)])));
}

#[test]
fn service_commands() {
    assert_eq!(service("libvirtd", ServiceAction::Restart).cmd, "sudo service libvirtd restart");
    assert_eq!(service("firewalld", ServiceAction::Disable).cmd, "sudo systemctl disable firewalld");
    assert_eq!(service("x", ServiceAction::Start).cmd, "sudo service x start");
}

#[test]
fn workload_names_round_trip() {
    for w in [Workload7::Memcached, Workload7::Cg, Workload7::Memhog] {
        assert_eq!(Workload7::from_str(w.to_str()), w);
    }
    for w in [Workload8::Memcached, Workload8::Cg, Workload8::Memhog] {
        assert_eq!(Workload8::from_str(w.to_str()), w);
    }
    assert_eq!(Workload7::Cg.to_str(), "nas_cg");
    assert_eq!(Workload8::from_str("memcached_gen_data"), Workload8::Memcached);
}

#[test]
fn temporary_workloads_need_their_pattern() {
    assert_eq!(WorkloadTmp::Zeros.to_str(), "time_mmap_touch");
    assert_eq!(WorkloadTmp::Counter.to_str(), "time_mmap_touch");
    assert_eq!(WorkloadTmp::from_str("time_mmap_touch", Some(TimeMmapTouchPattern::Zeros)), WorkloadTmp::Zeros);
    assert_eq!(WorkloadTmp::from_str("time_mmap_touch", Some(TimeMmapTouchPattern::Counter)), WorkloadTmp::Counter);
    assert_eq!(WorkloadTmp::from_str("hibench_wordcount", None), WorkloadTmp::HiBenchWordcount);
    assert_eq!(WorkloadTmp::from_str("locality_mem_access", None), WorkloadTmp::Locality);
}

#[test]
fn config_options_are_parsed() {
    assert_eq!(parse_config_option("+CONFIG_ZSWAP").unwrap(), (s("CONFIG_ZSWAP"), true));
    assert_eq!(parse_config_option("-X_1").unwrap(), (s("X_1"), false));
    assert!(matches!(parse_config_option(""), Err(ConfigOptionError::Empty)));
    assert!(matches!(parse_config_option("+"), Err(ConfigOptionError::Empty)));
    assert!(matches!(parse_config_option("CONFIG_X"), Err(ConfigOptionError::MissingSign)));
    assert!(matches!(parse_config_option("+BAD-NAME"), Err(ConfigOptionError::InvalidName(n)) if n == "BAD-NAME"));
}

#[test]
fn config_option_messages() {
    assert_eq!(validate_config_option(s("+A")), Ok(()));
    assert_eq!(validate_config_option(s("")), Err(s("Empty string is not a valid option")));
    assert_eq!(validate_config_option(s("A")), Err(s("Kernel config option must be prefixed with + or -")));
    assert_eq!(validate_config_option(s("-a b")), Err(s("Invalid config name \"a b\"")));
}

#[test]
fn kernel_directory_names() {
    assert_eq!(kernel_dir_name(255), "kernel-ff");
    assert_eq!(kernel_dir_name(0), "kernel-0");
    let mut h = std::collections::hash_map::DefaultHasher::new();
    format!("{}{}", "https://github.com/x/linux", "master").hash(&mut h);
    let expected = format!("kernel-{:x}", h.finish());
    assert_eq!(pathify("https://github.com/x/linux", "master"), expected);
    assert_ne!(pathify("a", "b"), s("kernel-"));
}

#[test]
fn taskset_cores_cycle() {
    let mut t = TasksetCtx::new(3);
    let cores: Vec<usize> = (0..7).map(|_| t.next()).collect();
    assert_eq!(cores, vec![0, 1, 2, 0, 1, 2, 0]);
}

#[test]
fn mix_workload_sizes() {
    assert_eq!(mix_sizes(30), (10240, 10, 10485760));
    assert_eq!(mix_sizes(1), (341, 0, 349525));
}

#[test]
fn swap_devices_ssds_first() {
    let devs = vec![s("sda"), s("sdb"), s("sdc"), s("sdd")];
    let sizes = vec![s("1.8T"), s("447.1G"), s("10G"), s("447.1G")];
    assert_eq!(select_swapdevs(&devs, &sizes), vec![s("sdb"), s("sdd"), s("sda")]);
    let mounts = vec![(s("sda1"), s("/")), (s("sdb"), s("[SWAP]")), (s("sdc"), s("[SWAP]"))];
    let cmds: Vec<String> = swapoff_cmds(&mounts).into_iter().map(|c| c.cmd).collect();
    assert_eq!(cmds, vec![s("sudo swapoff /dev/sdb"), s("sudo swapoff /dev/sdc")]);
}

#[test]
fn thin_swap_space() {
    assert_eq!(thin_ssdswap_devs("/dev/sdb"), vec![s("sdb"), s("mapper/mythin"), s("mapper/mypool")]);
    assert!(thin_volume_exists("mypool\t(253:0)\nmythin\t(253:1)\n"));
    assert!(!thin_volume_exists("mypool\t(253:0)\n"));
    assert!(!thin_volume_exists("myth"));
    assert_eq!(loopback_device("  /dev/loop0: [2049]:12 (/users/x/dm.meta)\n"), "/dev/loop0");
    assert_eq!(sectors_of(1073741824), 2097152);
    assert_eq!(sectors_of(511), 0);
    assert_eq!(
        thin_pool_cmd(2048, "/dev/loop0", "/dev/sdb").cmd,
        "sudo dmsetup create mypool --table '0 2048 thin-pool /dev/loop0 /dev/sdb 256000 0'"
    );
}

#[test]
fn vcpu_pinning() {
    assert_eq!(domain_from("  vagrant_test_vm \n"), Some(s("vagrant_test_vm")));
    assert_eq!(domain_from(" \n"), None);
    assert_eq!(identity_pinning(3), vec![(0, 0), (1, 1), (2, 2)]);
    let cmds: Vec<String> = vcpupin_cmds("vm", false, &vec![(0, 2), (1, 3)]).into_iter().map(|c| c.cmd).collect();
    assert_eq!(
        cmds,
        vec![
            s("sudo virsh setvcpus vm 2 --maximum --config"),
            s("sudo virsh setvcpus vm 2 --config"),
            s("sudo virsh vcpuinfo vm"),
            s("sudo virsh vcpupin vm --config 0 2"),
            s("sudo virsh vcpupin vm --config 1 3"),
            s("sudo virsh vcpupin vm"),
        ]
    );
    let running = vcpupin_cmds("vm", true, &vec![(0, 2)]);
    assert_eq!(running[3].cmd, "sudo virsh vcpupin vm  0 2");
}

#[test]
fn kernel_boot_parameter() {
    let c = boot_param_cmd("  quiet rhgb tsc=unstable crashkernel=auto  \n", "tsc", Some("reliable"));
    assert_eq!(
        c.cmd,
        "sudo sed -i 's/quiet rhgb tsc=unstable crashkernel=auto/quiet rhgb crashkernel=auto tsc=reliable/' /etc/default/grub"
    );
    let c = boot_param_cmd("root=/dev/sda1 ro", "ro", None);
    assert_eq!(
        c.cmd,
        "sudo sed -i 's/root=\\\\/dev\\\\/sda1 ro/root=\\\\/dev\\\\/sda1 ro/' /etc/default/grub"
    );
}

#[test]
fn kernel_boot_parameter_keeps_longer_names() {
    let c = boot_param_cmd("quiet memmap=1G tsc=unstable", "mem", Some("4G"));
    assert_eq!(
        c.cmd,
        "sudo sed -i 's/quiet memmap=1G tsc=unstable/quiet memmap=1G tsc=unstable mem=4G/' /etc/default/grub"
    );
    let c = boot_param_cmd("quiet mem=2G memmap=1G", "mem", Some("4G"));
    assert_eq!(c.cmd, "sudo sed -i 's/quiet mem=2G memmap=1G/quiet memmap=1G mem=4G/' /etc/default/grub");
    let c = boot_param_cmd("quiet nokaslr", "nokaslr", None);
    assert_eq!(c.cmd, "sudo sed -i 's/quiet nokaslr/quiet nokaslr/' /etc/default/grub");
}

fn config() -> SetupConfig {
    SetupConfig {
        aws: false,
        setup_proxy: None,
        host_dep: false,
        home_device: None,
        mapper_device: None,
        swap_devs: vec![],
        clone_wkspc: None,
        git_branch: None,
        host_bmks: false,
        host_prep: false,
        disable_ept: false,
        destroy_existing_vm: false,
        create_vm: false,
        guest_kernel: false,
        setup_hadoop: false,
    }
}

#[test]
fn setup_steps_follow_options() {
    assert_eq!(setup_steps(&config()), vec![SetupStep::SetUpHostDevices]);
    let mut c = config();
    c.host_dep = true;
    c.git_branch = Some(s("markm_ztier"));
    c.create_vm = true;
    c.guest_kernel = true;
    assert_eq!(
        setup_steps(&c),
        vec![
            SetupStep::RenamePoweroff,
            SetupStep::InstallHostDependencies,
            SetupStep::SetUpHostDevices,
            SetupStep::InstallHostKernel,
            SetupStep::InstallRust,
            SetupStep::InitVm,
            SetupStep::InstallGuestDependencies,
            SetupStep::InstallGuestKernel,
            SetupStep::InstallGuestBenchmarks,
            SetupStep::TscReliableBootParam,
            SetupStep::SyncAndPoweroff,
        ]
    );
    let mut c = config();
    c.setup_hadoop = true;
    assert_eq!(setup_steps(&c)[1], SetupStep::StartVagrant);
}

#[test]
fn setup_options_and_commands() {
    let mut c = config();
    assert!(validate_options(&c));
    c.mapper_device = Some(s("/dev/sdb"));
    c.swap_devs = vec![s("sdc")];
    assert!(!validate_options(&c));
    assert_eq!(host_kernel_options(false).len(), 11);
    assert_eq!(host_kernel_options(true)[12], ("CONFIG_MODULE_SIG_KEY", false));
    let p = proxy_cmds("squid:3128");
    assert_eq!(p[0].cmd, "echo export http_proxy='squid:3128' | tee --append .bashrc");
    assert!(p[3].use_bash);
    let (cmds, record) = swap_plan(&vec![], &vec![s("sdb"), s("sdc")]);
    assert!(!record);
    assert_eq!(cmds[1].cmd, "sudo mkswap /dev/sdc");
    let (cmds, record) = swap_plan(&vec![s("sdd")], &vec![s("sdb")]);
    assert!(record);
    assert_eq!(cmds.len(), 1);
    assert_eq!(
        rename_poweroff_cmd("poweroff is /usr/sbin/poweroff").cmd,
        "sudo mv $(echo 'poweroff is /usr/sbin/poweroff' | awk '{print $3}') /usr/sbin/poweroff-actually"
    );
}

#[test]
fn kernel_rpm_build() {
    let m = rpm_make_cmds("u", "8", "exp");
    assert_eq!(m[0].cmd, "make -j 8 binrpm-pkg LOCALVERSION=-exp");
    assert_eq!(m[0].cwd, Some(s("/users/u/linux-dev/kbuild")));
    assert!(m[0].allow_error && !m[1].allow_error);
    let c = rpm_config_cmds("u", "/boot/config-5", &vec![s("CONFIG_ZSWAP")]);
    assert_eq!(c[0].cmd, "cp /boot/config-5 /users/u/linux-dev/kbuild/.config");
    assert_eq!(c[2].cmd, "sed -i 's/# CONFIG_ZSWAP is not set/CONFIG_ZSWAP=y/' /users/u/linux-dev/kbuild/.config");
    assert_eq!(c[3].cmd, "getconf _NPROCESSORS_ONLN");
    assert!(local_push_args(true, "h:22", "u", "b").is_empty());
    let a = local_push_args(false, "h:22", "u", "b");
    assert_eq!(a[1], vec![s("push"), s("-u"), s("ssh://h:22/users/u/linux-dev"), s("b")]);
    assert_eq!(cmd("ls").cmd, "ls");
}

#[test]
fn host_preparation_commands() {
    assert_eq!(sys_info_cmds().len(), 3);
    assert_eq!(printk_level_cmd(4).cmd, "echo 4 | sudo tee /proc/sys/kernel/printk");
    assert_eq!(
        perf_governor_cmd("/users/u").cmd,
        "sudo /users/u/research-workspace/0sim/tools/power/cpupower/cpupower frequency-set -g performance"
    );
    let k = ksm_disable_cmds(false, true);
    assert_eq!(k.len(), 1);
    assert_eq!(k[0].cmd, "sudo systemctl disable ksmtuned");
    assert_eq!(ksm_disable_cmds(true, true).len(), 2);
    assert_eq!(tsc_offsetting_cmd(false).cmd, "echo 0 | sudo tee /sys/module/kvm_intel/parameters/enable_tsc_offsetting");
    let r = sim_output_cmds("sim.out");
    assert_eq!(r[0].0, Side::Host);
    assert_eq!(r[0].1.cmd, "echo -e 'Host Config\n=====' > vm_shared/results//sim.out");
    assert_eq!(r[8].0, Side::Guest);
    assert_eq!(r[8].1.cmd, "cat /proc/meminfo >> /vagrant/vm_shared/results//sim.out");
}

#[test]
fn research_settings_read_back() {
    let mut st = ResearchSettings::new();
    assert_eq!(st.get("dm-data"), None);
    st.set(s("dm-data"), s("\"/dev/sdc\""));
    st.set(s("dm-meta"), s("\"dm.meta\""));
    st.set(s("dm-data"), s("\"/dev/sdb\""));
    assert_eq!(st.get("dm-data"), Some(s("\"/dev/sdb\"")));
    assert_eq!(st.get("dm-meta"), Some(s("\"dm.meta\"")));
    assert_eq!(st.entries.len(), 2);
    assert_eq!(new_domain_cmd("abc").cmd, "sed -i 's/:test_vm/:test_vm_abc/' Vagrantfile");
}

#[test]
fn swap_space_choices() {
    assert!(matches!(
        swapon_choice(Some(s("dm.meta")), Some(s("/dev/sdb")), Some(vec![s("sdc")])),
        SwapChoice::Thin { meta, data } if meta == "dm.meta" && data == "/dev/sdb"
    ));
    assert!(matches!(swapon_choice(None, Some(s("/dev/sdb")), Some(vec![s("sdc")])), SwapChoice::Devices(v) if v == vec![s("sdc")]));
    assert!(matches!(swapon_choice(None, None, None), SwapChoice::Listed));
    assert!(matches!(
        ssdswap_choice(Some(s("/dev/sdb")), None),
        SwapChoice::Devices(v) if v == vec![s("sdb"), s("mapper/mythin"), s("mapper/mypool")]
    ));
    assert_eq!(thin_volume_cmds(true).len(), 3);
    assert_eq!(thin_volume_cmds(false)[0].cmd, "sudo dmsetup create mythin --table '0 21474836480 thin /dev/mapper/mypool 0'");
    assert_eq!(loopback_cmds("dm.meta")[1].cmd, "sudo losetup -j dm.meta");
    assert_eq!(device_size_cmd("/dev/sdb").cmd, "lsblk -o SIZE -b /dev/sdb | sed '2q;d'");
    assert_eq!(device_sectors(" 480103981056\n"), Some(937703088));
    assert_eq!(device_sectors("SIZE"), None);
}

#[test]
fn new_output_manager_is_stamped_with_local_time() {
    let m = OutputManager::new();
    let ts = m.timestamp.clone();
    assert_eq!(ts.len(), 19);
    for (i, c) in ts.chars().enumerate() {
        if i == 4 || i == 7 || i == 10 || i == 13 || i == 16 {
            assert_eq!(c, '-');
        } else {
            assert!(c.is_ascii_digit());
        }
    }
    assert_eq!(m.gen_file_name("out"), format!("-{}.out", ts));
}

#[test]
fn hadoop_and_spark_downloads() {
    let h = download_cmds(Stack::Hadoop, "3.1.2", "/home/u");
    assert_eq!(
        h[0].cmd,
        "wget -O /tmp/hadoop.tgz http://apache-mirror.8birdsvideo.com/hadoop/common/hadoop-3.1.2/hadoop-3.1.2.tar.gz"
    );
    assert_eq!(h[1].cmd, "tar xvzf /tmp/hadoop.tgz");
    assert_eq!(h[2].cmd, "rm -rf /home/u/hadoop");
    assert_eq!(h[3].cmd, "mv hadoop-3.1.2 /home/u/hadoop");
    let sp = download_cmds(Stack::Spark, "2.4.3", "/home/u");
    assert_eq!(
        sp[0].cmd,
        "wget -O /tmp/spark.tgz http://apache-mirror.8birdsvideo.com/spark/spark-2.4.3/spark-2.4.3-bin-without-hadoop.tgz"
    );
    assert_eq!(sp[3].cmd, "mv spark-2.4.3-bin-without-hadoop /home/u/spark");
}

#[test]
fn local_workspace_versions() {
    assert_eq!(local_workspace_version(true, "abc\n"), "dirty");
    assert_eq!(local_workspace_version(false, "abc123\n"), "abc123");
}

#[test]
fn timing_report_lines() {
    assert_eq!(zerosim_tools::runner::common::timing_report_line("Start VM", "3.2s"), "Start VM: 3.2s\n");
}

fn tmp_config(workload: WorkloadTmp) -> ExptmpConfig {
    ExptmpConfig {
        workload,
        size: 2,
        vm_size: 1024,
        cores: 2,
        warmup: false,
        calibrate: false,
        zswap_max_pool_percent: 50,
        pf_time: None,
        print_results_path: false,
    }
}

#[test]
fn exptmp_plan_touch_pages() {
    let mut cfg = tmp_config(WorkloadTmp::Counter);
    cfg.warmup = true;
    cfg.print_results_path = true;
    cfg.pf_time = Some(7);
    let steps = exptmp_plan(&cfg);
    assert_eq!(
        steps,
        vec![
            Step::Reboot,
            Step::ConnectHost,
            Step::SsdSwapOn,
            Step::StartVm { vm_size: 1024, cores: 2 },
            Step::ZswapOn,
            Step::ZswapMaxPool { percent: 50 },
            Step::WriteParams,
            Step::Warmup { pages: 524288, pin_core: 0 },
            Step::ReadCpuFreq,
            Step::TouchPages { pages: 524288, pattern: TimeMmapTouchPattern::Counter, pf_time: Some(7), pin_core: 1 },
            Step::Date,
            Step::WriteTimes,
            Step::SimOutput,
            Step::PrintResults,
        ]
    );
}

#[test]
fn exptmp_plan_memcached_and_calibration() {
    let mut cfg = tmp_config(WorkloadTmp::Memcached);
    cfg.calibrate = true;
    cfg.cores = 1;
    cfg.warmup = true;
    let steps = exptmp_plan(&cfg);
    assert_eq!(steps[6], Step::Calibrate);
    assert_eq!(steps[7], Step::WriteParams);
    assert_eq!(steps[8], Step::Warmup { pages: 524288, pin_core: 0 });
    assert_eq!(
        steps[10],
        Step::Memcached { server_size_mb: 2048, wk_size_gb: 2, pf_time: None, client_pin_core: 0 }
    );
    assert_eq!(steps.len(), 14);
    assert_eq!(steps[13], Step::SimOutput);
}

#[test]
fn exptmp_plan_locality_and_hibench() {
    let mut cfg = tmp_config(WorkloadTmp::Locality);
    cfg.pf_time = Some(1000);
    let steps = exptmp_plan(&cfg);
    assert_eq!(
        steps[8..14].to_vec(),
        vec![
            Step::StartTrace { nonlocal: false, page_fault_time: 1000 },
            Step::Locality { mode: LocalityMemAccessMode::Local, n: 10000 },
            Step::JoinTrace,
            Step::StartTrace { nonlocal: true, page_fault_time: 1000 },
            Step::Locality { mode: LocalityMemAccessMode::Random, n: 10000 },
            Step::JoinTrace,
        ]
    );
    let steps = exptmp_plan(&tmp_config(WorkloadTmp::HiBenchWordcount));
    assert_eq!(steps[8], Step::Hadoop { k: 0 });
    assert_eq!(steps[11], Step::Hadoop { k: 3 });
    let cmds = hibench_cmds();
    assert_eq!(cmds[0].cmd, "./start-all-standalone.sh");
    assert_eq!(cmds[0].cwd.as_deref(), Some("research-workspace/bmks/zerosim-hadoop"));
    assert_eq!(cmds[1].cwd.as_deref(), Some("research-workspace/bmks/zerosim-hadoop/HiBench"));
    assert_eq!(cmds[3].cmd, "./start-all-standalone.sh");
}

#[test]
fn exptmp_timer_labels() {
    assert_eq!(timer_label(&Step::StartVm { vm_size: 1, cores: 1 }), Some("Start VM"));
    assert_eq!(timer_label(&Step::Locality { mode: LocalityMemAccessMode::Random, n: 1 }), Some("Workload 2"));
    assert_eq!(timer_label(&Step::Date), None);
}

#[test]
fn exptmp_commands() {
    assert_eq!(zswap_max_pool_cmd(50).cmd, "echo 50 | sudo tee /sys/module/zswap/parameters/max_pool_percent");
    assert!(zswap_max_pool_cmd(50).use_bash);
    assert_eq!(
        trace_cmd("t.trace", 9).cmd,
        "sudo taskset -c 3 research-workspace/0sim-trace/target/release/zerosim-trace trace 500 100000 vm_shared/results//t.trace -t 9"
    );
}

#[test]
fn results_line_is_read_back() {
    let line = results_line("memcached-*.out");
    assert_eq!(line, "RESULTS: memcached-*.out");
    let out = vec!["starting".to_string(), line];
    assert_eq!(results_path(&out), Some("memcached-*.out".to_string()));
}

#[test]
fn redis_snapshot_frequencies() {
    let cfg = RedisWorkloadConfig {
        exp_dir: "e",
        nullfs: "n",
        redis_conf: "r.conf",
        server_size_mb: 100,
        wk_size_gb: 1,
        output_file: None,
        server_pin_core: None,
        client_pin_core: 0,
        freq: None,
        pf_time: None,
        eager: false,
    };
    assert_eq!(redis_config_cmds(&cfg, REDIS_SNAPSHOT_FREQ_SECS)[2].cmd, "redis-cli -s /tmp/redis.sock CONFIG SET save \"300 1\"");
    assert_eq!(
        redis_config_cmds(&cfg, MIX_REDIS_SNAPSHOT_FREQ_SECS)[2].cmd,
        "redis-cli -s /tmp/redis.sock CONFIG SET save \"60 1\""
    );
}

#[test]
fn thin_swap_decisions() {
    match thin_swap_start("mypool\t(253:0)\nmythin\t(253:1)\n", "/tmp/meta") {
        ThinSwapStart::SwapOn(c) => assert_eq!(c.cmd, "sudo swapon -d /dev/mapper/mythin"),
        ThinSwapStart::Create(_) => panic!("the thin volume exists"),
    }
    match thin_swap_start("No devices found\n", "/tmp/meta") {
        ThinSwapStart::Create(cs) => {
            assert_eq!(cs[0].cmd, "sudo losetup -f /tmp/meta");
            assert_eq!(cs[1].cmd, "sudo losetup -j /tmp/meta");
        },
        ThinSwapStart::SwapOn(_) => panic!("the thin volume is missing"),
    }
    let cmds = thin_swap_create_cmds("/dev/loop0: [2049]:12 (/tmp/meta)\n", " 1024\n", "/dev/sdb", true).unwrap();
    assert_eq!(cmds.len(), 5);
    assert_eq!(cmds[0].cmd, "sudo dmsetup create mypool --table '0 2 thin-pool /dev/loop0 /dev/sdb 256000 0'");
    assert_eq!(cmds[1].cmd, "sudo dmsetup message /dev/mapper/mypool 0 'create_thin 0'");
    assert_eq!(cmds[4].cmd, "sudo swapon -d /dev/mapper/mythin");
    assert_eq!(thin_swap_create_cmds("/dev/loop0: x", "big", "/dev/sdb", false).map(|c| c.len()), None);
    assert_eq!(thin_swap_create_cmds("/dev/loop0: x", "512", "/dev/sdb", false).map(|c| c.len()), Some(4));
}

#[test]
fn mix_plan_cores_and_paging() {
    let mut tctx = TasksetCtx::new(2);
    let plan = mix_plan("/numactl", "/metis", 9, 100, true, &mut tctx);
    assert_eq!(plan.redis_server_size_mb, 3072);
    assert_eq!(plan.redis_wk_size_gb, 3);
    assert_eq!(plan.redis_client_core, 0);
    assert!(plan.redis_eager);
    assert_eq!(plan.redis_snapshot_secs, 60);
    assert_eq!(plan.metis.len(), 2);
    assert_eq!(plan.metis[1].cmd, "taskset -c 1 ./obj/matrix_mult2 -q -o -l 100 ; echo matrix_mult2 done ;");
    assert_eq!(plan.memhog.len(), 2);
    assert!(plan.memhog[1].cmd.contains("taskset -c 0 /numactl/memhog -r1 3145728k -p -o"));
    assert_eq!(tctx.next, 3);
    let plan = mix_plan("/numactl", "/metis", 9, 100, false, &mut TasksetCtx::new(4));
    assert_eq!(plan.metis.len(), 1);
    assert_eq!(plan.memhog.len(), 1);
}
