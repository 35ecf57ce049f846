use vmtest::config::{Config, Mount, Target, VMConfig};
use vmtest::errors::ErrorKind;
use vmtest::vmtest::{validate_config, Vmtest};

fn kernel_target(name: &str) -> Target {
    Target {
        name: name.to_string(),
        kernel: Some("bzImage-v5.15-empty".to_string()),
        command: "true".to_string(),
        ..Default::default()
    }
}

fn image_target(name: &str) -> Target {
    Target {
        name: name.to_string(),
        image: Some("image-uefi.raw-efi".to_string()),
        uefi: true,
        command: "/mnt/vmtest/main.sh nixos".to_string(),
        ..Default::default()
    }
}

#[test]
fn test_vmconfig_defaults() {
    let vm = VMConfig::default();
    assert_eq!(vm.memory, "4G");
    assert_eq!(vm.num_cpus, 2);
    assert!(vm.bios.is_none());
    assert_eq!(vm.extra_args.len(), 0);
    assert_eq!(vm.mounts.len(), 0);
}

#[test]
fn test_target_defaults() {
    let t = Target::default();
    assert_eq!(t.rootfs, "/");
    assert!(t.image.is_none());
    assert!(t.kernel.is_none());
    assert!(!t.uefi);
    assert!(t.kernel_args.is_none());
    assert!(t.qemu_command.is_none());
}

#[test]
fn test_validate_accepts_good_config() {
    let config = Config {
        target: vec![kernel_target("k"), image_target("i")],
    };
    assert!(validate_config(&config).is_ok());
}

fn expect_invalid(t: Target) {
    let config = Config { target: vec![t] };
    let err = validate_config(&config).unwrap_err();
    assert!(matches!(err.kind, ErrorKind::ConfigInvalid), "{}", err.message());
}

#[test]
fn test_validate_rejects_empty_name() {
    expect_invalid(Target {
        name: "".to_string(),
        ..kernel_target("x")
    });
}

#[test]
fn test_validate_rejects_neither_image_nor_kernel() {
    expect_invalid(Target {
        kernel: None,
        ..kernel_target("t")
    });
}

#[test]
fn test_validate_rejects_both_image_and_kernel() {
    expect_invalid(Target {
        image: Some("img".to_string()),
        ..kernel_target("t")
    });
}

#[test]
fn test_validate_rejects_uefi_without_image() {
    expect_invalid(Target {
        uefi: true,
        ..kernel_target("t")
    });
}

#[test]
fn test_validate_rejects_bios_without_uefi() {
    let mut t = image_target("t");
    t.uefi = false;
    t.vm.bios = Some("/usr/share/OVMF/OVMF_CODE.fd".to_string());
    expect_invalid(t);
}

#[test]
fn test_validate_rejects_kernel_args_without_kernel() {
    expect_invalid(Target {
        kernel_args: Some("ro".to_string()),
        ..image_target("t")
    });
}

#[test]
fn test_validate_rejects_empty_paths() {
    expect_invalid(Target {
        image: Some("".to_string()),
        ..image_target("t")
    });
    expect_invalid(Target {
        kernel: Some("".to_string()),
        ..kernel_target("t")
    });
    expect_invalid(Target {
        rootfs: "".to_string(),
        ..kernel_target("t")
    });
}

#[test]
fn test_validate_rejects_empty_command() {
    expect_invalid(Target {
        command: "".to_string(),
        ..kernel_target("t")
    });
}

#[test]
fn test_vmtest_new_validates() {
    let bad = Config {
        target: vec![Target {
            command: "".to_string(),
            ..kernel_target("t")
        }],
    };
    assert!(Vmtest::new("/base".to_string(), bad).is_err());

    let good = Config {
        target: vec![kernel_target("t")],
    };
    let vmtest = Vmtest::new("/base".to_string(), good).unwrap();
    assert_eq!(vmtest.targets().len(), 1);
    assert_eq!(vmtest.targets()[0].name, "t");
}

#[test]
fn test_resolve_path() {
    let config = Config {
        target: vec![kernel_target("t")],
    };
    let vmtest = Vmtest::new("/base".to_string(), config).unwrap();
    assert_eq!(vmtest.resolve_path("rel/file"), "/base/rel/file");
    assert_eq!(vmtest.resolve_path("/abs/file"), "/abs/file");
}

#[test]
fn test_mounts_keep_their_order() {
    let mut t = image_target("t");
    t.vm.mounts = vec![
        (
            "/tmp/mount".to_string(),
            Mount { host_path: "/host/dir".to_string(), writable: true },
        ),
        (
            "/tmp/ro".to_string(),
            Mount { host_path: "/host/other".to_string(), writable: false },
        ),
    ];
    let config = Config { target: vec![t] };
    let vmtest = Vmtest::new("/base".to_string(), config).unwrap();
    assert_eq!(vmtest.targets()[0].vm.mounts[0].0, "/tmp/mount");
    assert_eq!(vmtest.targets()[0].vm.mounts[1].0, "/tmp/ro");
}
