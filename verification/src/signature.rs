//! Filesystems recognised from the magic bytes of a partition's first sector.

use vstd::prelude::*;

verus! {

/// The filesystem detected in a partition, independently of its declared type.
#[derive(Debug, Clone, Copy, PartialEq, Eq, Structural)]
pub enum DetectedFs {
    /// ext2 / ext3 / ext4.
    Ext,
    /// NTFS.
    Ntfs,
    /// FAT12 / FAT16 / FAT32.
    Fat,
    /// exFAT.
    ExFat,
    /// APFS.
    Apfs,
    /// XFS.
    Xfs,
    /// Linux swap.
    LinuxSwap,
    /// Linux LVM physical volume.
    LinuxLvm,
    /// LUKS encrypted volume.
    Luks,
    /// The first sector is all zeros.
    AllZeros,
    /// No known magic matched.
    Unknown,
}

/// The name under which a [`DetectedFs`] is shown (its variant name).
pub open spec fn detected_fs_name(f: DetectedFs) -> Seq<char> {
    match f {
        DetectedFs::Ext => "Ext"@,
        DetectedFs::Ntfs => "Ntfs"@,
        DetectedFs::Fat => "Fat"@,
        DetectedFs::ExFat => "ExFat"@,
        DetectedFs::Apfs => "Apfs"@,
        DetectedFs::Xfs => "Xfs"@,
        DetectedFs::LinuxSwap => "LinuxSwap"@,
        DetectedFs::LinuxLvm => "LinuxLvm"@,
        DetectedFs::Luks => "Luks"@,
        DetectedFs::AllZeros => "AllZeros"@,
        DetectedFs::Unknown => "Unknown"@,
    }
}

impl DetectedFs {
    /// The variant name, as `{:?}` prints it.
    pub fn debug_name(&self) -> (s: &'static str)
        ensures
            s@ == detected_fs_name(*self),
    {
        match self {
            DetectedFs::Ext => "Ext",
            DetectedFs::Ntfs => "Ntfs",
            DetectedFs::Fat => "Fat",
            DetectedFs::ExFat => "ExFat",
            DetectedFs::Apfs => "Apfs",
            DetectedFs::Xfs => "Xfs",
            DetectedFs::LinuxSwap => "LinuxSwap",
            DetectedFs::LinuxLvm => "LinuxLvm",
            DetectedFs::Luks => "Luks",
            DetectedFs::AllZeros => "AllZeros",
            DetectedFs::Unknown => "Unknown",
        }
    }
}

} // verus!
