//! Diagnostics hooks: one greppable home for every trace event of an
//! analysis run.
//!
//! The library keeps no logging dependency, so every hook is a no-op; they
//! exist so that callers and the analysis name each observable event in one
//! place.

use vstd::prelude::*;

use crate::boot_code::BootCodeId;
use crate::error::Error;
use crate::findings::Anomaly;

verus! {

/// The analysis finished; summary counts.
pub fn analysis_complete(_anomalies: usize, _partitions: usize, _gaps: usize, _boot: BootCodeId) {
}

/// Walking the EBR chain of an extended partition failed (e.g. a seek error).
pub fn ebr_walk_failed(_ext_start: u64, _err: &Error) {
}

/// A partition's first sector could not be read for fingerprinting.
pub fn partition_read_failed(_byte_offset: u64, _err: &Error) {
}

/// An EBR sector could not be read (image truncated): the chain ends.
pub fn ebr_truncated(_ebr_lba: u64) {
}

/// An EBR sector lacked the `0x55AA` boot signature: the chain ends.
pub fn ebr_no_signature(_ebr_lba: u64) {
}

/// An anomaly was recorded by the analysis.
pub(crate) fn anomaly_recorded(_a: &Anomaly) {
}

} // verus!
