//! The partitioning tool generation suggested by partition alignment.

use vstd::prelude::*;

verus! {

/// Which generation of partitioning tools laid the partitions out.
#[derive(Debug, Clone, Copy, PartialEq, Eq, Structural)]
pub enum PartitioningEra {
    /// Cylinder (63-sector) alignment: DOS / Windows XP era tools.
    PreVista,
    /// 1 MiB (2048-sector) alignment: Windows Vista and later, modern Linux.
    VistaOrLater,
    /// Partitions follow both conventions.
    Mixed,
    /// No partition allows a conclusion.
    Unknown,
}

/// The name under which a [`PartitioningEra`] is shown (its variant name).
pub open spec fn era_name(e: PartitioningEra) -> Seq<char> {
    match e {
        PartitioningEra::PreVista => "PreVista"@,
        PartitioningEra::VistaOrLater => "VistaOrLater"@,
        PartitioningEra::Mixed => "Mixed"@,
        PartitioningEra::Unknown => "Unknown"@,
    }
}

impl PartitioningEra {
    /// The variant name, as `{:?}` prints it.
    pub fn debug_name(&self) -> (s: &'static str)
        ensures
            s@ == era_name(*self),
    {
        match self {
            PartitioningEra::PreVista => "PreVista",
            PartitioningEra::VistaOrLater => "VistaOrLater",
            PartitioningEra::Mixed => "Mixed",
            PartitioningEra::Unknown => "Unknown",
        }
    }
}

} // verus!
