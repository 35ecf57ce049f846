use vmtest::config::{Mount, Target, VMConfig};
use vmtest::qemu::{
    console_device, drive_args, gen_sock, guest_agent_args, guest_init_path, hash, host_supports_kvm,
    kernel_args, kvm_args, machine_args, machine_protocol_args, plan9_fs_args, render_command_script,
    uefi_firmware_args, virtio_serial_args, vmconfig_args, HostEnv, Qemu,
};

fn x86_host(kvm: bool) -> HostEnv {
    HostEnv {
        arch: "x86_64".to_string(),
        kvm_dev: kvm,
        ovmf_present: vec![false, false, false],
    }
}

#[test]
fn test_hash_is_stable() {
    // FNV-1a test vectors, and the same value on repeated calls.
    assert_eq!(hash(""), 14695981039346656037);
    assert_eq!(hash("a"), 12638187200555641996);
    assert_eq!(hash("/img.raw"), hash("/img.raw"));
}

#[test]
fn test_gen_sock_shape() {
    // prefix, dash, six random digits, suffix
    let s = gen_sock("qga");
    assert_eq!(s.len(), "/tmp/qga-".len() + 6 + ".sock".len());
    assert!(s.starts_with("/tmp/qga-"));
    assert!(s.ends_with(".sock"));
    let digits = &s["/tmp/qga-".len()..s.len() - ".sock".len()];
    assert!(digits.chars().all(|c| c.is_ascii_digit()));
}

#[test]
fn test_drive_args_tokens() {
    let args = drive_args("/img.raw", 1);
    let id = "9447612105769902037";
    assert_eq!(
        args,
        vec![
            "-drive".to_string(),
            format!("file=/img.raw,index=1,media=disk,if=none,id=disk{}", id),
            "-device".to_string(),
            format!("virtio-blk-pci,drive=disk{},bootindex=1", id),
        ]
    );
}

#[test]
fn test_guest_agent_args_tokens() {
    let args = guest_agent_args("/tmp/qga-123456.sock");
    assert_eq!(
        args,
        vec![
            "-chardev",
            "socket,path=/tmp/qga-123456.sock,server=on,wait=off,id=qga0",
            "-device",
            "virtio-serial",
            "-device",
            "virtserialport,chardev=qga0,name=org.qemu.guest_agent.0",
        ]
    );
}

#[test]
fn test_machine_protocol_args_tokens() {
    assert_eq!(
        machine_protocol_args("/tmp/qmp-1.sock"),
        vec!["-qmp", "unix:/tmp/qmp-1.sock,server=on,wait=off"]
    );
}

#[test]
fn test_virtio_serial_args_tokens() {
    assert_eq!(
        virtio_serial_args("/tmp/cmdout-1.sock"),
        vec![
            "--device",
            "virtio-serial",
            "-chardev",
            "socket,path=/tmp/cmdout-1.sock,server=on,wait=off,id=cmdout",
            "--device",
            "virtserialport,chardev=cmdout,name=org.qemu.virtio_serial.0",
        ]
    );
}

#[test]
fn test_kvm_args_modes() {
    assert_eq!(
        kvm_args("x86_64", &x86_host(true)),
        vec!["-enable-kvm", "-cpu", "host"]
    );
    assert_eq!(kvm_args("x86_64", &x86_host(false)), vec!["-cpu", "qemu64"]);
    assert_eq!(kvm_args("aarch64", &x86_host(true)), vec!["-cpu", "max"]);
    assert_eq!(kvm_args("s390x", &x86_host(true)), vec!["-cpu", "max"]);
    assert!(host_supports_kvm("x86_64", &x86_host(true)));
    assert!(!host_supports_kvm("aarch64", &x86_host(true)));
}

#[test]
fn test_machine_args_only_for_aarch64() {
    assert_eq!(machine_args("aarch64"), vec!["-machine", "virt,gic-version=3"]);
    assert_eq!(machine_args("x86_64"), Vec::<String>::new());
}

#[test]
fn test_console_device_per_arch() {
    assert_eq!(console_device("aarch64"), "ttyAMA0");
    assert_eq!(console_device("x86_64"), "0");
}

#[test]
fn test_plan9_fs_args_tokens() {
    assert_eq!(
        plan9_fs_args("/host", "shared", "shared-mount", false),
        vec![
            "-virtfs",
            "local,id=shared,path=/host,mount_tag=shared-mount,security_model=none,multidevs=remap",
        ]
    );
    assert_eq!(
        plan9_fs_args("/host", "m", "m", true),
        vec![
            "-virtfs",
            "local,id=m,path=/host,mount_tag=m,security_model=none,multidevs=remap,readonly=on",
        ]
    );
    // An empty host path stands for the current directory.
    assert_eq!(
        plan9_fs_args("", "shared", "shared-mount", false),
        vec![
            "-virtfs",
            "local,id=shared,path=.,mount_tag=shared-mount,security_model=none,multidevs=remap",
        ]
    );
}

#[test]
fn test_uefi_firmware_selection() {
    let explicit = Some("/custom/OVMF.fd".to_string());
    assert_eq!(
        uefi_firmware_args(&explicit, &vec![true, true, true]),
        vec!["-bios", "/custom/OVMF.fd"]
    );
    assert_eq!(
        uefi_firmware_args(&None, &vec![false, true, false]),
        vec!["-bios", "/usr/share/OVMF/OVMF_CODE.fd"]
    );
    // Fall back to the first entry when nothing exists.
    assert_eq!(
        uefi_firmware_args(&None, &vec![false, false, false]),
        vec!["-bios", "/usr/share/edk2/ovmf/OVMF_CODE.fd"]
    );
}

#[test]
fn test_kernel_args_tokens() {
    let args = kernel_args("/k/bzImage", "x86_64", "/tmp/vmtest-init.sh", &Some("ro  quiet".to_string()));
    assert_eq!(args[0], "-kernel");
    assert_eq!(args[1], "/k/bzImage");
    assert_eq!(args[2], "-no-reboot");
    assert_eq!(args[3], "-append");
    let expected = [
        "rootfstype=9p",
        "rootflags=trans=virtio,cache=loose,msize=1048576",
        "rw",
        "earlyprintk=serial,0,115200",
        "printk.devkmsg=on",
        "console=0,115200",
        "loglevel=7",
        "raid=noautodetect",
        "init=/tmp/vmtest-init.sh",
        "panic=-1",
        "ro",
        "quiet",
    ]
    .join(" ");
    assert_eq!(args[4], expected);
    assert_eq!(args.len(), 5);
}

#[test]
fn test_kernel_ro_flag_appended_last() {
    let args = kernel_args("/k", "x86_64", "/tmp/i.sh", &Some("ro".to_string()));
    let appended = &args[4];
    assert!(appended.ends_with(" panic=-1 ro"));
}

#[test]
fn test_vmconfig_args_tokens() {
    let vm = VMConfig {
        num_cpus: 1,
        memory: "256M".to_string(),
        mounts: vec![(
            "/tmp/mount".to_string(),
            Mount { host_path: "/host/dir".to_string(), writable: false },
        )],
        bios: None,
        extra_args: vec!["-fsdev".to_string(), "x".to_string()],
    };
    let tag = "mount16956539846106592052";
    assert_eq!(
        vmconfig_args(&vm),
        vec![
            "-smp".to_string(),
            "1".to_string(),
            "-m".to_string(),
            "256M".to_string(),
            "-virtfs".to_string(),
            format!(
                "local,id={t},path=/host/dir,mount_tag={t},security_model=none,multidevs=remap,readonly=on",
                t = tag
            ),
            "-fsdev".to_string(),
            "x".to_string(),
        ]
    );
}

#[test]
fn test_guest_init_path() {
    let ok = |g: &str, h: &str| guest_init_path(g, h).unwrap();
    // no trailing /
    assert_eq!(ok("/tmp", "/foo/tmp/bar.sh"), "/tmp/bar.sh");
    // with trailing /
    assert_eq!(ok("/tmp/", "/foo/tmp/bar.sh"), "/tmp/bar.sh");
    // valid if the rootfs is /foo/tmp and the host tmp dir is /
    assert_eq!(ok("/", "/foo/tmp/bar.sh"), "/bar.sh");
    // valid if the host tmp dir is /foo/tmp and the rootfs is /
    assert_eq!(ok("/foo/tmp", "/foo/tmp/bar.sh"), "/foo/tmp/bar.sh");
}

#[test]
fn test_invalid_guest_init_path() {
    // The guest tmp dir is not a suffix of the parent of the init path.
    assert!(guest_init_path("/tmp", "/foo/bar.sh").is_err());
    assert!(guest_init_path("/foo/tmp", "/bar/tmp/bar.sh").is_err());
    // Suffix only at a non-component boundary.
    assert!(guest_init_path("/tmp", "/footmp/bar.sh").is_err());
    // The guest tmp dir must be absolute.
    assert!(guest_init_path("tmp", "/foo/tmp/bar.sh").is_err());
}

#[test]
fn test_command_script_content() {
    let cd = render_command_script(true, "/work", "if true; then echo -n $0; fi");
    assert!(cd.starts_with("exec > /dev/virtio-ports/org.qemu.virtio_serial.0 2>&1\n"));
    assert!(cd.contains("cd /work\n"));
    assert!(cd.ends_with("if true; then echo -n $0; fi\n"));

    let no_cd = render_command_script(false, "/work", "true");
    assert!(!no_cd.contains("cd /work"));
    assert!(no_cd.ends_with("true\n"));
}

fn image_target() -> Target {
    Target {
        name: "i".to_string(),
        image: Some("/img.raw".to_string()),
        uefi: true,
        command: "/mnt/vmtest/main.sh nixos".to_string(),
        ..Default::default()
    }
}

fn kernel_target() -> Target {
    Target {
        name: "k".to_string(),
        kernel: Some("/k/bzImage".to_string()),
        kernel_args: Some("ro".to_string()),
        command: "touch /some-host-dir/file".to_string(),
        arch: "x86_64".to_string(),
        ..Default::default()
    }
}

#[test]
fn test_qemu_new_image_mode() {
    let t = Target { arch: "x86_64".to_string(), ..image_target() };
    let q = Qemu::new(&t, "/shared", "/tmp", "/tmp/vmtest-initAAAAA.sh", &x86_host(false)).unwrap();
    assert_eq!(q.program, "qemu-system-x86_64");
    assert_eq!(&q.argv[0..5], &["-nodefaults", "-display", "none", "-serial", "stdio"]);
    // Exactly one boot-mode block: the image drive, no kernel.
    assert!(q.argv.iter().any(|a| a == "-drive"));
    assert!(!q.argv.iter().any(|a| a == "-kernel"));
    // UEFI firmware requested.
    assert!(q.argv.iter().any(|a| a == "-bios"));
    assert!(q.image);
    assert_eq!(q.guest_init, "/tmp/vmtest-initAAAAA.sh");
}

#[test]
fn test_qemu_new_kernel_mode() {
    let q = Qemu::new(&kernel_target(), "/shared", "/tmp", "/tmp/vmtest-initBBBBB.sh", &x86_host(false))
        .unwrap();
    assert!(q.argv.iter().any(|a| a == "-kernel"));
    assert!(!q.argv.iter().any(|a| a == "-drive"));
    assert!(!q.argv.iter().any(|a| a == "-bios"));
    // The host root is exported under the tag the kernel finds root by.
    assert!(q.argv.iter().any(|a| a.contains("mount_tag=/dev/root")));
    // The shared directory is exported under the well-known tag.
    assert!(q.argv.iter().any(|a| a.contains("mount_tag=shared-mount")));
    assert!(!q.image);
}

#[test]
fn test_qemu_new_program_override() {
    let t = Target {
        qemu_command: Some("/opt/qemu/bin/qemu-system-x86_64".to_string()),
        ..kernel_target()
    };
    let q = Qemu::new(&t, "/shared", "/tmp", "/tmp/vmtest-initCCCCC.sh", &x86_host(false)).unwrap();
    assert_eq!(q.program, "/opt/qemu/bin/qemu-system-x86_64");
}

#[test]
fn test_qemu_new_rejects_bad_init_layout() {
    let r = Qemu::new(&kernel_target(), "/shared", "/tmp", "/elsewhere/init.sh", &x86_host(false));
    assert!(r.is_err());
}
