use vmtest::config::{Config, Target};
use vmtest::errors::{ErrorKind, VmError};
use vmtest::output::Output;
use vmtest::qga::{handshake_timeout_secs, Version};
use vmtest::ui::{heading, run_summary, show_cmd, target_outcome, Ui};
use vmtest::vmtest::Vmtest;

fn harness_error() -> VmError {
    VmError::new(ErrorKind::HypervisorNotReady, "did not come up".to_string())
}

#[test]
fn test_version_parsing() {
    let v = Version::new("8.1.2").unwrap();
    assert_eq!((v.major, v.minor, v.patch), (8, 1, 2));
    let v = Version::new(" 7.0.50 \n").unwrap();
    assert_eq!((v.major, v.minor, v.patch), (7, 0, 50));
    assert!(Version::new("8.1").is_err());
    assert!(Version::new("8.1.2.3").is_err());
    assert!(Version::new("a.b.c").is_err());
    assert!(Version::new("8..2").is_err());
    assert!(Version::new("8.1.256").is_err());
    assert!(Version::new("").is_err());
}

#[test]
fn test_merged_capture_from_8_1() {
    let v = |major, minor| Version { major, minor, patch: 0 };
    assert!(v(8, 1).merged_capture());
    assert!(v(9, 0).merged_capture());
    assert!(!v(8, 0).merged_capture());
    assert!(!v(7, 9).merged_capture());
}

#[test]
fn test_handshake_timeouts() {
    assert_eq!(handshake_timeout_secs(true), 30);
    assert_eq!(handshake_timeout_secs(false), 120);
}

#[test]
fn test_heading_depth() {
    assert_eq!(heading("my target", 1), "=> my target");
    assert_eq!(heading("Booting", 2), "===> Booting");
}

#[test]
fn test_show_cmd_for_one_liners() {
    assert!(show_cmd(&None));
    assert!(!show_cmd(&Some("vmtest.toml".to_string())));
}

#[test]
fn test_target_outcome_success() {
    let events = vec![
        Output::BootStart,
        Output::Boot("line".to_string()),
        Output::BootEnd(Ok(())),
        Output::SetupStart,
        Output::SetupEnd(Ok(())),
        Output::CommandStart,
        Output::Command("out".to_string()),
        Output::CommandEnd(Ok(0)),
    ];
    assert_eq!(target_outcome(&events), Some(0));
}

#[test]
fn test_target_outcome_keeps_exit_code() {
    let events = vec![Output::CommandStart, Output::CommandEnd(Ok(12))];
    assert_eq!(target_outcome(&events), Some(12));
}

#[test]
fn test_target_outcome_clamps_wide_codes() {
    let events = vec![Output::CommandEnd(Ok(i64::MAX))];
    assert_eq!(target_outcome(&events), Some(i32::MAX));
    let events = vec![Output::CommandEnd(Ok(i64::MIN))];
    assert_eq!(target_outcome(&events), Some(i32::MIN));
}

#[test]
fn test_target_outcome_harness_failures() {
    let events = vec![Output::BootStart, Output::BootEnd(Err(harness_error()))];
    assert_eq!(target_outcome(&events), None);
    let events = vec![Output::SetupEnd(Err(harness_error()))];
    assert_eq!(target_outcome(&events), None);
    let events = vec![Output::CommandEnd(Err(harness_error()))];
    assert_eq!(target_outcome(&events), None);
}

#[test]
fn test_run_summary_single_target() {
    assert_eq!(run_summary(&vec![Some(0)]), 0);
    assert_eq!(run_summary(&vec![Some(12)]), 12);
    // A harness failure maps to the sysexits catchall code.
    assert_eq!(run_summary(&vec![None]), 69);
}

#[test]
fn test_run_summary_counts_failures() {
    assert_eq!(run_summary(&vec![Some(0), Some(0)]), 0);
    assert_eq!(run_summary(&vec![Some(1), Some(1), Some(0)]), 2);
    assert_eq!(run_summary(&vec![None, Some(0), Some(3)]), 2);
}

#[test]
fn test_ui_holds_the_run() {
    let config = Config {
        target: vec![Target {
            name: "t".to_string(),
            kernel: Some("/k".to_string()),
            command: "true".to_string(),
            ..Default::default()
        }],
    };
    let vmtest = Vmtest::new("/base".to_string(), config).unwrap();
    let ui = Ui::new(vmtest);
    assert_eq!(ui.vmtest.targets().len(), 1);
}
