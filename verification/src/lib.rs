//! Forensic-grade Master Boot Record analysis: the verified core of the
//! `mbr-forensic` text report, its knowledge-base lookups and the decisions
//! of its command line.
//!
//! - [`text`]: decimal / hexadecimal rendering and padding, defined over
//!   character sequences.
//! - [`findings`]: anomalies, severities, partition summaries and the
//!   analysis record.
//! - [`report`]: the text report, specified line by line.
//! - [`partition`], [`bootkit`]: partition type names and boot-sector
//!   malware markers from the forensicnomicon knowledge base.
//! - [`cli`]: argument reading and exit status.
//! - [`diag`]: trace-event hooks.

pub mod text;
pub mod boot_code;
pub mod partition;
pub mod provenance;
pub mod signature;
pub mod findings;
pub mod report;
pub mod error;
pub mod diag;
pub mod bootkit;
pub mod cli;

pub use boot_code::BootCodeId;
pub use error::Error;
pub use findings::{Anomaly, GptCrossCheck, MbrAnalysis, PartitionSummary, Severity};
pub use partition::TypeCode;
pub use provenance::PartitioningEra;
pub use signature::DetectedFs;
