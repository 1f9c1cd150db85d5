use zerosim_tools::cloudlab::{
    boot_config_query, home_partition, kbuild_prep_cmds, kernel_branch, kernel_install_cmds, libvirt_packages,
    linux_dev_checkout_cmd, mkswap_cmd, push_branch_args, vagrant_install_cmds, vagrant_installed_cmd,
    ztier_options, ZTIER_LOCAL_VERSION,
};
use zerosim_tools::runner::rpm::{rpm_config_cmds, rpm_make_cmds};

#[test]
fn cloudlab_packages_and_vagrant() {
    assert_eq!(libvirt_packages(), vec!["libvirt", "libvirt-devel", "qemu-kvm", "virt-manager", "pciutils-devel"]);
    assert_eq!(vagrant_installed_cmd().cmd, "yum list installed vagrant | grep -q vagrant");
    let missing = vagrant_install_cmds(false);
    assert_eq!(missing.len(), 2);
    assert_eq!(
        missing[0].cmd,
        "sudo yum -y install https://releases.hashicorp.com/vagrant/2.1.5/vagrant_2.1.5_x86_64.rpm"
    );
    assert_eq!(missing[1].cmd, "vagrant plugin install vagrant-libvirt");
    assert_eq!(vagrant_install_cmds(true).len(), 1);
}

#[test]
fn cloudlab_devices() {
    assert_eq!(home_partition("/dev/sda", "markm"), ("/dev/sda1".to_string(), "/users/markm".to_string()));
    assert_eq!(mkswap_cmd("sdb").cmd, "sudo mkswap /dev/sdb");
}

#[test]
fn cloudlab_branch_and_repository() {
    assert_eq!(kernel_branch(None), "markm_ztier");
    assert_eq!(kernel_branch(Some("dev")), "dev");
    let args = push_branch_args("node:22", "u", "dev");
    assert_eq!(args[0], vec!["checkout".to_string(), "dev".to_string()]);
    assert_eq!(
        args[1],
        vec!["push".to_string(), "-u".to_string(), "ssh://node:22/users/u/linux-dev".to_string(), "dev".to_string()]
    );
    let c = linux_dev_checkout_cmd("u", "dev");
    assert_eq!(c.cmd, "git checkout dev");
    assert_eq!(c.cwd.as_deref(), Some("/users/u/linux-dev"));
}

#[test]
fn cloudlab_kernel_build() {
    let prep = kbuild_prep_cmds("u");
    assert_eq!(prep[0].cmd, "mkdir -p /users/u/linux-dev/kbuild");
    assert_eq!(prep[1].cmd, "make O=/users/u/linux-dev/kbuild defconfig");
    assert!(boot_config_query().use_bash);
    let cfg = rpm_config_cmds("u", "/boot/config-4.x", &ztier_options());
    assert_eq!(cfg.len(), 9);
    assert_eq!(cfg[0].cmd, "cp /boot/config-4.x /users/u/linux-dev/kbuild/.config");
    assert_eq!(cfg[1].cmd, "yes '' | make oldconfig");
    assert_eq!(cfg[2].cmd, "sed -i 's/# CONFIG_ZSWAP is not set/CONFIG_ZSWAP=y/' /users/u/linux-dev/kbuild/.config");
    assert_eq!(cfg[7].cmd, "sed -i 's/# CONFIG_ZSMALLOC is not set/CONFIG_ZSMALLOC=y/' /users/u/linux-dev/kbuild/.config");
    assert_eq!(cfg[8].cmd, "getconf _NPROCESSORS_ONLN");
    let make = rpm_make_cmds("u", "8", ZTIER_LOCAL_VERSION);
    assert_eq!(make[0].cmd, "make -j 8 binrpm-pkg LOCALVERSION=-ztier");
    assert!(make[0].allow_error && !make[1].allow_error);
    let inst = kernel_install_cmds("u");
    assert_eq!(inst[0].cwd.as_deref(), Some("/users/u/rpmbuild/RPMS/x86_64/"));
    assert_eq!(inst[1].cmd, "sudo grub2-set-default 0");
    assert_eq!(inst[2].cmd, "mkdir images");
}
