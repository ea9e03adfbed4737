//! Command-line decisions: argument reading and exit status.

use mbr_forensic::cli::{exit_status, parse_args, CliAction};
use mbr_forensic::diag::{
    analysis_complete, ebr_no_signature, ebr_truncated, ebr_walk_failed, partition_read_failed,
};
use mbr_forensic::{Anomaly, BootCodeId, Error, MbrAnalysis, PartitioningEra, Severity};

fn args(v: &[&str]) -> Vec<String> {
    v.iter().map(|s| s.to_string()).collect()
}

fn analyse_of(a: CliAction) -> Option<(bool, String)> {
    match a {
        CliAction::Usage => None,
        CliAction::Analyse { json, path } => Some((json, path)),
    }
}

#[test]
fn path_alone_is_text_analysis() {
    assert_eq!(
        analyse_of(parse_args(&args(&["disk.img"]))),
        Some((false, "disk.img".to_string()))
    );
}

#[test]
fn json_flag_in_any_position() {
    assert_eq!(
        analyse_of(parse_args(&args(&["--json", "d.img"]))),
        Some((true, "d.img".to_string()))
    );
    assert_eq!(
        analyse_of(parse_args(&args(&["d.img", "--json"]))),
        Some((true, "d.img".to_string()))
    );
}

#[test]
fn no_args_asks_for_usage() {
    assert!(analyse_of(parse_args(&args(&[]))).is_none());
    assert!(analyse_of(parse_args(&args(&["--json"]))).is_none());
}

#[test]
fn help_flags_ask_for_usage() {
    assert!(analyse_of(parse_args(&args(&["--help"]))).is_none());
    assert!(analyse_of(parse_args(&args(&["-h", "d.img"]))).is_none());
    assert!(analyse_of(parse_args(&args(&["d.img", "--help"]))).is_none());
}

#[test]
fn last_path_wins() {
    assert_eq!(
        analyse_of(parse_args(&args(&["a.img", "b.img"]))),
        Some((false, "b.img".to_string()))
    );
}

#[test]
fn exit_status_reflects_findings() {
    let mut a = MbrAnalysis {
        disk_serial: 0,
        boot_code_id: BootCodeId::Unknown,
        era: PartitioningEra::Unknown,
        partitions: vec![],
        anomalies: vec![],
        gpt: None,
    };
    assert_eq!(exit_status(&a), 0);
    a.anomalies.push(Anomaly {
        severity: Severity::Info,
        code: "MBR-X".to_string(),
        offset: 0,
        note: String::new(),
    });
    assert_eq!(exit_status(&a), 1);
}

#[test]
fn trace_hooks_have_no_effect() {
    analysis_complete(1, 2, 3, BootCodeId::Grub2);
    ebr_walk_failed(63, &Error::TooShort(3));
    partition_read_failed(512, &Error::BadSignature(0));
    ebr_truncated(1000);
    ebr_no_signature(1000);
}
