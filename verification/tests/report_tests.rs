//! Text report rendering (backs the `mbr-forensic` command line).

use mbr_forensic::report::{partition_line_with_name, text_report};
use mbr_forensic::findings::GptCrossCheck;
use mbr_forensic::{
    Anomaly, BootCodeId, DetectedFs, MbrAnalysis, PartitionSummary, PartitioningEra, Severity,
    TypeCode,
};

/// A hand-built analysis record for a 100-sector disk with an all-zero boot
/// area and one Linux entry at LBA 2048 spanning 100 sectors; its era and
/// anomalies are chosen for the test, not computed by an analyser.
fn disk_with_partition() -> MbrAnalysis {
    MbrAnalysis {
        disk_serial: 0,
        boot_code_id: BootCodeId::AllZeros,
        era: PartitioningEra::VistaOrLater,
        partitions: vec![PartitionSummary {
            index: 0,
            declared_type: TypeCode(0x83),
            lba_start: 2048,
            lba_end: 2147,
            detected_fs: None,
        }],
        anomalies: vec![
            Anomaly {
                severity: Severity::Medium,
                code: "MBR-WIPED-BOOT-CODE".to_string(),
                offset: 0,
                note: "boot code is all zeros".to_string(),
            },
            Anomaly {
                severity: Severity::High,
                code: "MBR-OUT-OF-BOUNDS".to_string(),
                offset: 446,
                note: "partition 0 ends beyond the disk".to_string(),
            },
        ],
        gpt: None,
    }
}

#[test]
fn report_includes_partitions_and_anomalies() {
    let a = disk_with_partition();
    let r = text_report(&a);
    assert!(r.contains("MBR Forensic Analysis"), "{r}");
    assert!(
        r.contains("Linux"),
        "partition type name should appear:\n{r}"
    );
    // The record carries a wiped-boot-code anomaly with an MBR-* code.
    assert!(r.contains("MBR-"), "anomaly codes should appear:\n{r}");
    assert!(r.contains("partition"), "{r}");
}

#[test]
fn report_is_non_empty_for_clean_disk() {
    let a = disk_with_partition();
    assert!(!text_report(&a).is_empty());
}

#[test]
fn report_matches_the_format_strings() {
    let a = MbrAnalysis {
        disk_serial: 0x1234_abcd,
        boot_code_id: BootCodeId::Grub2,
        era: PartitioningEra::VistaOrLater,
        partitions: vec![
            PartitionSummary {
                index: 0,
                declared_type: TypeCode(0x83),
                lba_start: 2048,
                lba_end: 2147,
                detected_fs: Some(DetectedFs::Ext),
            },
            PartitionSummary {
                index: 3,
                declared_type: TypeCode(0x0B),
                lba_start: 123_456_789_012_345,
                lba_end: u64::MAX,
                detected_fs: None,
            },
        ],
        anomalies: vec![
            Anomaly {
                severity: Severity::Low,
                code: "MBR-A".to_string(),
                offset: 0x1be,
                note: "first".to_string(),
            },
            Anomaly {
                severity: Severity::Critical,
                code: "MBR-B".to_string(),
                offset: 0,
                note: "second".to_string(),
            },
            Anomaly {
                severity: Severity::Info,
                code: "MBR-C".to_string(),
                offset: u64::MAX,
                note: "third".to_string(),
            },
        ],
        gpt: Some(GptCrossCheck {
            partition_entries: 128,
            anomalies: 0,
        }),
    };
    let mut want = String::new();
    want.push_str("MBR Forensic Analysis\n");
    want.push_str(&format!("  disk signature : {:#010x}\n", 0x1234_abcdu32));
    want.push_str("  boot code      : Grub2\n");
    want.push_str("  partitioning   : VistaOrLater\n");
    want.push_str("\nPartition table (2 entries):\n");
    want.push_str(&format!(
        "  [{}] {:<24} LBA {:>12}..={:<12}  fs={}\n",
        0, "Linux", 2048u64, 2147u64, "Ext"
    ));
    want.push_str(&format!(
        "  [{}] {:<24} LBA {:>12}..={:<12}  fs={}\n",
        3,
        "FAT32 (CHS)",
        123_456_789_012_345u64,
        u64::MAX,
        "-"
    ));
    want.push_str("\nAnomalies (3):\n");
    want.push_str("  [Low] MBR-A @ 0x1be: first\n");
    want.push_str("  [Critical] MBR-B @ 0x0: second\n");
    want.push_str(&format!("  [Info] MBR-C @ {:#x}: third\n", u64::MAX));
    want.push_str(&format!(
        "\nGPT cross-check: {} partition entries, {} GPT anomalies\n",
        128, 0
    ));
    want.push_str("\nHighest severity: Critical\n");
    assert_eq!(text_report(&a), want);
}

#[test]
fn clean_empty_analysis_report() {
    let a = MbrAnalysis {
        disk_serial: 7,
        boot_code_id: BootCodeId::Unknown,
        era: PartitioningEra::Unknown,
        partitions: vec![],
        anomalies: vec![],
        gpt: None,
    };
    let want = "MBR Forensic Analysis\n  disk signature : 0x00000007\n  boot code      : Unknown\n  partitioning   : Unknown\n\nPartition table (0 entries):\n  (no primary partitions)\n\nAnomalies: none\n\nHighest severity: none (clean)\n";
    assert_eq!(text_report(&a), want);
}

#[test]
fn long_type_name_is_not_truncated() {
    let p = PartitionSummary {
        index: 12,
        declared_type: TypeCode(0x27),
        lba_start: 0,
        lba_end: 999_999_999_999,
        detected_fs: Some(DetectedFs::Ntfs),
    };
    let name = "Windows Recovery / Hidden NTFS";
    assert_eq!(
        partition_line_with_name(&p, name),
        format!(
            "  [{}] {:<24} LBA {:>12}..={:<12}  fs={}\n",
            12, name, 0u64, 999_999_999_999u64, "Ntfs"
        )
    );
    assert_eq!(
        partition_line_with_name(&p, ""),
        format!("  [12] {:<24} LBA            0..=999999999999  fs=Ntfs\n", "")
    );
}

#[test]
fn max_severity_picks_the_highest() {
    let mut a = disk_with_partition();
    assert_eq!(a.max_severity(), Some(Severity::High));
    a.anomalies.clear();
    assert_eq!(a.max_severity(), None);
    a.anomalies.push(Anomaly {
        severity: Severity::Info,
        code: "MBR-X".to_string(),
        offset: 1,
        note: String::new(),
    });
    assert_eq!(a.max_severity(), Some(Severity::Info));
}

#[test]
fn anomaly_renders_on_one_line() {
    let an = Anomaly {
        severity: Severity::Medium,
        code: "MBR-RESIDUAL".to_string(),
        offset: 0x1ce,
        note: "deleted entry".to_string(),
    };
    assert_eq!(an.render(), "[Medium] MBR-RESIDUAL @ 0x1ce: deleted entry");
}

#[test]
fn names_match_debug_output() {
    for b in [
        BootCodeId::Windows7Plus,
        BootCodeId::WindowsVista,
        BootCodeId::Grub2,
        BootCodeId::GrubLegacy,
        BootCodeId::Syslinux,
        BootCodeId::AllZeros,
        BootCodeId::AllOnes,
        BootCodeId::Unknown,
    ] {
        assert_eq!(b.debug_name(), format!("{b:?}"));
    }
    for e in [
        PartitioningEra::PreVista,
        PartitioningEra::VistaOrLater,
        PartitioningEra::Mixed,
        PartitioningEra::Unknown,
    ] {
        assert_eq!(e.debug_name(), format!("{e:?}"));
    }
    for f in [
        DetectedFs::Ext,
        DetectedFs::Ntfs,
        DetectedFs::Fat,
        DetectedFs::ExFat,
        DetectedFs::Apfs,
        DetectedFs::Xfs,
        DetectedFs::LinuxSwap,
        DetectedFs::LinuxLvm,
        DetectedFs::Luks,
        DetectedFs::AllZeros,
        DetectedFs::Unknown,
    ] {
        assert_eq!(f.debug_name(), format!("{f:?}"));
    }
    for s in [
        Severity::Info,
        Severity::Low,
        Severity::Medium,
        Severity::High,
        Severity::Critical,
    ] {
        assert_eq!(s.name(), format!("{s:?}"));
    }
    assert!(Severity::Info.rank() < Severity::Low.rank());
    assert!(Severity::High.rank() < Severity::Critical.rank());
}
