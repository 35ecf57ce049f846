use vmtest::config::{Config, Target};
use vmtest::errors::ErrorKind;
use vmtest::output::Output;
use vmtest::qemu::{HostEnv, Qemu};
use vmtest::qga::Version;
use vmtest::run::{Event, ExecResult, RunMachine, Step};
use vmtest::vmtest::Vmtest;

fn host() -> HostEnv {
    HostEnv {
        arch: "x86_64".to_string(),
        kvm_dev: false,
        ovmf_present: vec![true, false, false],
    }
}

fn image_target() -> Target {
    Target {
        name: "uefi image boots with uefi flag".to_string(),
        image: Some("/assets/image-uefi.raw-efi".to_string()),
        uefi: true,
        arch: "x86_64".to_string(),
        command: "/mnt/vmtest/main.sh nixos".to_string(),
        ..Default::default()
    }
}

fn kernel_target() -> Target {
    Target {
        name: "command is run in shell".to_string(),
        kernel: Some("/assets/bzImage-v5.15-empty".to_string()),
        arch: "x86_64".to_string(),
        command: "if true; then echo -n $0 > /mnt/vmtest/result; fi".to_string(),
        ..Default::default()
    }
}

fn plan(t: Target) -> Qemu {
    Qemu::new(&t, "/shared", "/tmp", "/tmp/vmtest-initXYZ.sh", &host()).unwrap()
}

fn ok_exec(rc: i64) -> Event {
    Event::ExecDone(Ok(ExecResult {
        exitcode: rc,
        out_data: None,
        out_truncated: false,
        err_data: None,
        err_truncated: false,
    }))
}

fn agent_ok() -> Event {
    Event::AgentReady(Ok(Version { major: 8, minor: 1, patch: 0 }))
}

// Drive a machine through a successful boot up to the first mkdir request.
fn boot_to_mounting(m: &mut RunMachine, log: &mut Vec<Output>) -> Step {
    let (out, step) = m.step(Event::Spawned(Ok(())));
    log.extend(out);
    assert!(matches!(step, Step::WaitSockets));
    let (out, step) = m.step(Event::SocketsReady(true));
    log.extend(out);
    assert!(matches!(step, Step::ConnectControl));
    let (out, step) = m.step(Event::ControlReady(Ok(())));
    log.extend(out);
    assert!(matches!(step, Step::ConnectAgent));
    let (out, step) = m.step(agent_ok());
    log.extend(out);
    step
}

fn kind_name(o: &Output) -> &'static str {
    match o {
        Output::BootStart => "BootStart",
        Output::Boot(_) => "Boot",
        Output::BootEnd(Ok(_)) => "BootEndOk",
        Output::BootEnd(Err(_)) => "BootEndErr",
        Output::WaitStart => "WaitStart",
        Output::WaitEnd(_) => "WaitEnd",
        Output::SetupStart => "SetupStart",
        Output::Setup(_) => "Setup",
        Output::SetupEnd(Ok(_)) => "SetupEndOk",
        Output::SetupEnd(Err(_)) => "SetupEndErr",
        Output::CommandStart => "CommandStart",
        Output::Command(_) => "Command",
        Output::CommandEnd(Ok(_)) => "CommandEndOk",
        Output::CommandEnd(Err(_)) => "CommandEndErr",
    }
}

#[test]
fn test_image_happy_path_event_order() {
    let (mut m, first, step) = RunMachine::start(plan(image_target()));
    assert!(matches!(step, Step::Spawn));
    let mut log = first;

    let step = boot_to_mounting(&mut m, &mut log);
    // mkdir of the shared mount point
    match &step {
        Step::Exec(g) => {
            assert_eq!(g.path, "mkdir");
            assert_eq!(g.args, vec!["-p", "/mnt/vmtest"]);
            assert!(!g.propagate_env);
            assert!(g.merged_capture);
        },
        _ => panic!("expected an exec step"),
    }
    let (out, step) = m.step(ok_exec(0));
    log.extend(out);
    // the mount itself
    match &step {
        Step::Exec(g) => {
            assert_eq!(g.path, "mount");
            assert_eq!(
                g.args,
                vec![
                    "-t",
                    "9p",
                    "-o",
                    "trans=virtio,cache=loose,msize=1048576",
                    "shared-mount",
                    "/mnt/vmtest",
                ]
            );
        },
        _ => panic!("expected an exec step"),
    }
    let (out, step) = m.step(ok_exec(0));
    log.extend(out);
    // the user command, without environment propagation in image mode
    match &step {
        Step::Exec(g) => {
            assert_eq!(g.path, "bash");
            assert_eq!(g.args[0], "-c");
            assert!(g.args[1].contains("/mnt/vmtest/main.sh nixos"));
            assert!(!g.propagate_env);
            assert!(g.stream_output);
        },
        _ => panic!("expected an exec step"),
    }
    let (out, step) = m.step(Event::CommandLine("hello".to_string()));
    log.extend(out);
    assert!(matches!(step, Step::Continue));
    let (out, step) = m.step(Event::ExecDone(Ok(ExecResult {
        exitcode: 0,
        out_data: Some("tail line\n".to_string()),
        out_truncated: false,
        err_data: None,
        err_truncated: false,
    })));
    log.extend(out);
    match &step {
        Step::Exec(g) => assert_eq!(g.path, "sync"),
        _ => panic!("expected the sync step"),
    }
    let (out, step) = m.step(ok_exec(0));
    log.extend(out);
    assert!(matches!(step, Step::Quit));
    let (out, step) = m.step(Event::QuitDone);
    log.extend(out);
    assert!(matches!(step, Step::Cleanup));
    let (out, step) = m.step(Event::CleanedUp);
    log.extend(out);
    assert!(matches!(step, Step::Finished));

    let kinds: Vec<&str> = log.iter().map(kind_name).collect();
    assert_eq!(
        kinds,
        vec![
            "BootStart",
            "BootEndOk",
            "SetupStart",
            "SetupEndOk",
            "CommandStart",
            "Command",
            "Command",
            "CommandEndOk",
        ]
    );
    match &log[log.len() - 1] {
        Output::CommandEnd(Ok(code)) => assert_eq!(*code, 0),
        _ => panic!("expected a command end"),
    }
    match &log[6] {
        Output::Command(l) => assert_eq!(l, "tail line"),
        _ => panic!("expected the flushed output line"),
    }
}

#[test]
fn test_kernel_mode_propagates_environment() {
    let (mut m, _first, _step) = RunMachine::start(plan(kernel_target()));
    let mut log = Vec::new();
    let _ = boot_to_mounting(&mut m, &mut log);
    let (_, step) = m.step(ok_exec(0));
    let (_, step2) = m.step(ok_exec(0));
    assert!(matches!(step, Step::Exec(_)));
    match &step2 {
        Step::Exec(g) => {
            assert_eq!(g.path, "bash");
            // Host environment is forwarded only in kernel mode, and the
            // script changes into the shared directory because the guest
            // shares the host userspace.
            assert!(g.propagate_env);
            assert!(g.args[1].contains("cd /shared\n"));
        },
        _ => panic!("expected the command step"),
    }
}

#[test]
fn test_boot_failure_is_terminal() {
    let (mut m, first, _step) = RunMachine::start(plan(image_target()));
    let mut log = first;
    let (out, step) = m.step(Event::Spawned(Ok(())));
    log.extend(out);
    assert!(matches!(step, Step::WaitSockets));
    let (out, step) = m.step(Event::BootLine("BdsDxe: failed to load Boot0001".to_string()));
    log.extend(out);
    assert!(matches!(step, Step::Continue));
    let (out, step) = m.step(Event::SocketsReady(false));
    log.extend(out);
    // Cleanup still runs on the failure path.
    assert!(matches!(step, Step::Cleanup));
    let (out, step) = m.step(Event::CleanedUp);
    log.extend(out);
    assert!(matches!(step, Step::Finished));

    let kinds: Vec<&str> = log.iter().map(kind_name).collect();
    assert_eq!(kinds, vec!["BootStart", "Boot", "BootEndErr"]);
    match &log[2] {
        Output::BootEnd(Err(e)) => assert!(matches!(e.kind, ErrorKind::HypervisorNotReady)),
        _ => panic!("expected the boot error"),
    }
}

#[test]
fn test_control_failure_reports_stderr() {
    let (mut m, _first, _) = RunMachine::start(plan(kernel_target()));
    let (_, _) = m.step(Event::Spawned(Ok(())));
    let (_, _) = m.step(Event::SocketsReady(true));
    let (out, step) = m.step(Event::ControlReady(Err(
        "qemu: could not open kernel file '/assets/does-not-exist'".to_string(),
    )));
    assert!(matches!(step, Step::Cleanup));
    match &out[0] {
        Output::BootEnd(Err(e)) => {
            assert!(matches!(e.kind, ErrorKind::ControlProtocolError));
            assert!(e.message().contains("qemu: could not open kernel file"));
        },
        _ => panic!("expected the boot error"),
    }
}

#[test]
fn test_mount_retry_recovers_after_code_32() {
    let (mut m, _first, _) = RunMachine::start(plan(image_target()));
    let mut log = Vec::new();
    let _ = boot_to_mounting(&mut m, &mut log);
    let (_, step) = m.step(ok_exec(0)); // mkdir done
    assert!(matches!(step, Step::Exec(_)));
    // Four failures with exit code 32, with linearly growing backoff.
    for attempt in 0..4u64 {
        let (out, step) = m.step(ok_exec(32));
        assert!(out.is_empty());
        match step {
            Step::Sleep(secs) => assert_eq!(secs, attempt),
            _ => panic!("expected a backoff sleep"),
        }
        let (out, step) = m.step(Event::Slept);
        assert!(out.is_empty());
        match &step {
            Step::Exec(g) => assert_eq!(g.path, "mount"),
            _ => panic!("expected the mount retry"),
        }
    }
    // The fifth attempt succeeds: the setup stage closes well.
    let (out, step) = m.step(ok_exec(0));
    let kinds: Vec<&str> = out.iter().map(kind_name).collect();
    assert_eq!(kinds, vec!["SetupEndOk", "CommandStart"]);
    assert!(matches!(step, Step::Exec(_)));
}

#[test]
fn test_mount_fails_after_five_code_32() {
    let (mut m, _first, _) = RunMachine::start(plan(image_target()));
    let mut log = Vec::new();
    let _ = boot_to_mounting(&mut m, &mut log);
    let (_, _) = m.step(ok_exec(0)); // mkdir done
    for _ in 0..4u64 {
        let (_, _) = m.step(ok_exec(32));
        let (_, _) = m.step(Event::Slept);
    }
    // Fifth consecutive 32 is fatal.
    let (out, step) = m.step(ok_exec(32));
    assert!(matches!(step, Step::Cleanup));
    match &out[0] {
        Output::SetupEnd(Err(e)) => {
            assert!(matches!(e.kind, ErrorKind::MountFailed));
            assert!(e.message().contains("32"));
        },
        _ => panic!("expected the setup error"),
    }
}

#[test]
fn test_other_mount_error_is_fatal_at_once() {
    let (mut m, _first, _) = RunMachine::start(plan(image_target()));
    let mut log = Vec::new();
    let _ = boot_to_mounting(&mut m, &mut log);
    let (_, _) = m.step(ok_exec(0)); // mkdir done
    let (out, step) = m.step(ok_exec(1));
    assert!(matches!(step, Step::Cleanup));
    assert!(matches!(&out[0], Output::SetupEnd(Err(_))));
}

#[test]
fn test_command_nonzero_exit_is_not_an_error() {
    let (mut m, _first, _) = RunMachine::start(plan(kernel_target()));
    let mut log = Vec::new();
    let _ = boot_to_mounting(&mut m, &mut log);
    let (_, _) = m.step(ok_exec(0));
    let (_, _) = m.step(ok_exec(0));
    let (out, step) = m.step(ok_exec(12));
    match &out[out.len() - 1] {
        Output::CommandEnd(Ok(code)) => assert_eq!(*code, 12),
        _ => panic!("a non-zero exit code is still a command result"),
    }
    match &step {
        Step::Exec(g) => assert_eq!(g.path, "sync"),
        _ => panic!("expected the sync step"),
    }
}

#[test]
fn test_truncation_markers_and_stderr_order() {
    let (mut m, _first, _) = RunMachine::start(plan(kernel_target()));
    let mut log = Vec::new();
    let _ = boot_to_mounting(&mut m, &mut log);
    let (_, _) = m.step(ok_exec(0));
    let (_, _) = m.step(ok_exec(0));
    let (out, _) = m.step(Event::ExecDone(Ok(ExecResult {
        exitcode: 0,
        out_data: Some("o1\no2\n".to_string()),
        out_truncated: true,
        err_data: Some("e1\n".to_string()),
        err_truncated: true,
    })));
    let lines: Vec<String> = out
        .iter()
        .filter_map(|o| match o {
            Output::Command(l) => Some(l.clone()),
            _ => None,
        })
        .collect();
    // stderr comes after stdout so errors sit closest to the exit line
    assert_eq!(lines, vec!["o1", "o2", "<stdout truncation>", "e1", "<stderr truncation>"]);
}

#[test]
fn test_agent_failure_ends_boot() {
    let (mut m, _first, _) = RunMachine::start(plan(image_target()));
    let (_, _) = m.step(Event::Spawned(Ok(())));
    let (_, _) = m.step(Event::SocketsReady(true));
    let (_, _) = m.step(Event::ControlReady(Ok(())));
    let (out, step) = m.step(Event::AgentReady(Err("no sync response".to_string())));
    assert!(matches!(step, Step::Cleanup));
    match &out[0] {
        Output::BootEnd(Err(e)) => assert!(matches!(e.kind, ErrorKind::AgentTimeout)),
        _ => panic!("expected the boot error"),
    }
}

#[test]
fn test_spawn_failure_ends_boot() {
    let (mut m, _first, _) = RunMachine::start(plan(image_target()));
    let (out, step) = m.step(Event::Spawned(Err("No such file or directory".to_string())));
    assert!(matches!(step, Step::Cleanup));
    match &out[0] {
        Output::BootEnd(Err(e)) => {
            assert!(matches!(e.kind, ErrorKind::SpawnFailed));
            assert!(e.message().contains("No such file or directory"));
        },
        _ => panic!("expected the boot error"),
    }
}

#[test]
fn test_run_out_of_bounds() {
    let config = Config { target: vec![image_target(), kernel_target()] };
    let vmtest = Vmtest::new("/base".to_string(), config).unwrap();
    let err = match vmtest.run_one(2, "/tmp", "/tmp/vmtest-initXYZ.sh", &host()) {
        Ok(_) => panic!("an out-of-range index must not produce a plan"),
        Err(e) => e,
    };
    assert!(matches!(err.kind, ErrorKind::IndexOutOfRange));
}

#[test]
fn test_run_one_resolves_relative_paths() {
    let config = Config {
        target: vec![Target {
            name: "k".to_string(),
            kernel: Some("bzImage-v5.15-empty".to_string()),
            arch: "x86_64".to_string(),
            command: "true".to_string(),
            ..Default::default()
        }],
    };
    let vmtest = Vmtest::new("/base".to_string(), config).unwrap();
    let q = vmtest
        .run_one(0, "/tmp", "/tmp/vmtest-initXYZ.sh", &host())
        .unwrap();
    assert!(q.argv.iter().any(|a| a == "/base/bzImage-v5.15-empty"));
    // The base directory doubles as the shared directory.
    assert!(q.argv.iter().any(|a| a.contains("path=/base,mount_tag=shared-mount")));
}

#[test]
fn test_extra_mounts_are_mounted_in_order() {
    let mut t = image_target();
    t.vm.mounts = vec![(
        "/tmp/mount".to_string(),
        vmtest::config::Mount { host_path: "/host/dir".to_string(), writable: true },
    )];
    let (mut m, _first, _) = RunMachine::start(plan(t));
    let mut log = Vec::new();
    let _ = boot_to_mounting(&mut m, &mut log);
    let (_, _) = m.step(ok_exec(0)); // mkdir shared
    let (_, _) = m.step(ok_exec(0)); // mount shared
    // Next job: the extra mount.
    let (_, step) = m.step(ok_exec(0));
    match &step {
        Step::Exec(g) => {
            assert_eq!(g.path, "mount");
            assert_eq!(g.args[4], "mount16956539846106592052");
            assert_eq!(g.args[5], "/tmp/mount");
            // A writable mount carries no read-only option.
            assert_eq!(g.args[3], "trans=virtio,cache=loose,msize=1048576");
        },
        _ => panic!("expected the extra mount's mkdir first"),
    }
}
