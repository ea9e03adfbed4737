//! The findings of a forensic MBR analysis: anomalies with their severity,
//! per-partition summaries, and the analysis record that the report renders.

use vstd::prelude::*;

use crate::boot_code::BootCodeId;
use crate::partition::TypeCode;
use crate::provenance::PartitioningEra;
use crate::signature::DetectedFs;
use crate::text::{hex, push_hex};

verus! {

/// How serious an anomaly is, from least to most.
#[derive(Debug, Clone, Copy, PartialEq, Eq, Structural, PartialOrd, Ord)]
pub enum Severity {
    /// Informational: worth recording, not suspicious by itself.
    Info,
    /// Unusual but commonly benign.
    Low,
    /// Suspicious; warrants a closer look.
    Medium,
    /// Strong indicator of tampering or data hiding.
    High,
    /// Definitive indicator of tampering.
    Critical,
}

/// The position of a severity in the order `Info < Low < Medium < High < Critical`.
pub open spec fn severity_rank(s: Severity) -> nat {
    match s {
        Severity::Info => 0,
        Severity::Low => 1,
        Severity::Medium => 2,
        Severity::High => 3,
        Severity::Critical => 4,
    }
}

/// The name under which a severity is shown.
pub open spec fn severity_name(s: Severity) -> Seq<char> {
    match s {
        Severity::Info => "Info"@,
        Severity::Low => "Low"@,
        Severity::Medium => "Medium"@,
        Severity::High => "High"@,
        Severity::Critical => "Critical"@,
    }
}

impl Severity {
    /// The position of this severity in the order of seriousness.
    pub fn rank(&self) -> (r: u8)
        ensures
            r == severity_rank(*self),
    {
        match self {
            Severity::Info => 0,
            Severity::Low => 1,
            Severity::Medium => 2,
            Severity::High => 3,
            Severity::Critical => 4,
        }
    }

    /// The name under which this severity is shown.
    pub fn name(&self) -> (s: &'static str)
        ensures
            s@ == severity_name(*self),
    {
        match self {
            Severity::Info => "Info",
            Severity::Low => "Low",
            Severity::Medium => "Medium",
            Severity::High => "High",
            Severity::Critical => "Critical",
        }
    }
}

/// One detected condition: its severity, a stable `MBR-*` code, the byte
/// offset on disk where it was found, and a human-readable note.
#[derive(Debug, Clone)]
pub struct Anomaly {
    /// How serious the condition is.
    pub severity: Severity,
    /// Stable identifier of the anomaly type (`MBR-...`).
    pub code: String,
    /// Byte offset on disk of the structure concerned.
    pub offset: u64,
    /// Human-readable explanation.
    pub note: String,
}

/// The one-line text of an anomaly: `[severity] code @ 0xoffset: note`.
pub open spec fn anomaly_text(a: Anomaly) -> Seq<char> {
    "["@ + severity_name(a.severity) + "] "@ + a.code@ + " @ 0x"@ + hex(a.offset as nat) + ": "@
        + a.note@
}

impl Anomaly {
    /// The one-line text of this anomaly (what the report lists).
    pub fn render(&self) -> (s: String)
        ensures
            s@ == anomaly_text(*self),
    {
        let mut s = String::new();
        s.append("[");
        s.append(self.severity.name());
        s.append("] ");
        s.append(self.code.as_str());
        s.append(" @ 0x");
        push_hex(&mut s, self.offset);
        s.append(": ");
        s.append(self.note.as_str());
        s
    }
}

/// A primary (or logical) partition as summarised by the analysis.
#[derive(Debug, Clone, Copy)]
pub struct PartitionSummary {
    /// Position of the entry in the partition table.
    pub index: usize,
    /// The partition type declared in the entry.
    pub declared_type: TypeCode,
    /// First LBA of the partition.
    pub lba_start: u64,
    /// Last LBA of the partition (inclusive).
    pub lba_end: u64,
    /// Filesystem detected from the partition's first sector, if it was read.
    pub detected_fs: Option<DetectedFs>,
}

/// The outcome of cross-checking the MBR against a GPT on the same disk, as
/// far as the report reads it.
#[derive(Debug, Clone, Copy, PartialEq, Eq, Structural)]
pub struct GptCrossCheck {
    /// Number of GPT partition entries found.
    pub partition_entries: usize,
    /// Number of GPT anomalies found.
    pub anomalies: usize,
}

/// The result of a forensic MBR analysis, as far as the report reads it.
#[derive(Debug, Clone)]
pub struct MbrAnalysis {
    /// NT disk signature (offset 440).
    pub disk_serial: u32,
    /// Bootloader recognised in the boot-code area.
    pub boot_code_id: BootCodeId,
    /// Partitioning-tool generation suggested by alignment.
    pub era: PartitioningEra,
    /// Summaries of the partitions found.
    pub partitions: Vec<PartitionSummary>,
    /// Every anomaly detected.
    pub anomalies: Vec<Anomaly>,
    /// The GPT cross-check, where one was made.
    pub gpt: Option<GptCrossCheck>,
}

/// `m` is the highest severity among `anomalies`: some anomaly has it and
/// none has a higher one.
pub open spec fn is_max_severity(anomalies: Seq<Anomaly>, m: Severity) -> bool {
    &&& exists|i: int| 0 <= i < anomalies.len() && #[trigger] anomalies[i].severity == m
    &&& forall|i: int|
        0 <= i < anomalies.len() ==> severity_rank(#[trigger] anomalies[i].severity)
            <= severity_rank(m)
}

/// Severities rank in their declared order:
/// `Info < Low < Medium < High < Critical`.
pub proof fn law_severity_rank_follows_declared_order()
    ensures
        severity_rank(Severity::Info) < severity_rank(Severity::Low),
        severity_rank(Severity::Low) < severity_rank(Severity::Medium),
        severity_rank(Severity::Medium) < severity_rank(Severity::High),
        severity_rank(Severity::High) < severity_rank(Severity::Critical),
{
}

/// The highest severity is never below any anomaly's severity in the declared
/// order `Info < Low < Medium < High < Critical`.
pub proof fn law_max_severity_respects_order(anomalies: Seq<Anomaly>, m: Severity, i: int)
    requires
        is_max_severity(anomalies, m),
        0 <= i < anomalies.len(),
    ensures
        anomalies[i].severity == Severity::Critical ==> m == Severity::Critical,
        anomalies[i].severity == Severity::High ==> (m == Severity::High || m
            == Severity::Critical),
        anomalies[i].severity == Severity::Medium ==> (m == Severity::Medium || m
            == Severity::High || m == Severity::Critical),
        anomalies[i].severity == Severity::Low ==> m != Severity::Info,
{
    assert(severity_rank(anomalies[i].severity) <= severity_rank(m));
}

impl MbrAnalysis {
    /// The highest severity among the anomalies, or `None` for a clean disk.
    pub fn max_severity(&self) -> (r: Option<Severity>)
        ensures
            r is None <==> self.anomalies@.len() == 0,
            r matches Some(m) ==> is_max_severity(self.anomalies@, m),
    {
        let n = self.anomalies.len();
        if n == 0 {
            return None;
        }
        let mut best = self.anomalies[0].severity;
        let mut i: usize = 1;
        assert(self.anomalies@.take(1)[0].severity == best);
        while i < n
            invariant
                n == self.anomalies@.len(),
                1 <= i <= n,
                is_max_severity(self.anomalies@.take(i as int), best),
            decreases n - i,
        {
            let s = self.anomalies[i].severity;
            let ghost prev = self.anomalies@.take(i as int);
            let ghost next = self.anomalies@.take(i + 1);
            assert(next =~= prev.push(self.anomalies@[i as int]));
            if s.rank() > best.rank() {
                best = s;
                assert(next[i as int].severity == best);
            } else {
                let ghost w = choose|k: int| 0 <= k < prev.len() && #[trigger] prev[k].severity == best;
                assert(next[w].severity == best);
            }
            i = i + 1;
        }
        assert(self.anomalies@.take(n as int) =~= self.anomalies@);
        Some(best)
    }
}

} // verus!
