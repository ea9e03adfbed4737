//! Identity of the bootloader found in the MBR boot-code area.

use vstd::prelude::*;

verus! {

/// The bootloader recognised in the first 446 bytes of the MBR.
#[derive(Debug, Clone, Copy, PartialEq, Eq, Structural)]
pub enum BootCodeId {
    /// Windows 7 / Server 2008 R2 and later.
    Windows7Plus,
    /// Windows Vista / Server 2008.
    WindowsVista,
    /// GRUB 2 `boot.img`.
    Grub2,
    /// GRUB Legacy stage1.
    GrubLegacy,
    /// Syslinux / EXTLINUX.
    Syslinux,
    /// Wiped: all zeros.
    AllZeros,
    /// Erased: all `0xFF`.
    AllOnes,
    /// No known signature matched.
    Unknown,
}

/// The name under which a [`BootCodeId`] is shown (its variant name).
pub open spec fn boot_code_id_name(b: BootCodeId) -> Seq<char> {
    match b {
        BootCodeId::Windows7Plus => "Windows7Plus"@,
        BootCodeId::WindowsVista => "WindowsVista"@,
        BootCodeId::Grub2 => "Grub2"@,
        BootCodeId::GrubLegacy => "GrubLegacy"@,
        BootCodeId::Syslinux => "Syslinux"@,
        BootCodeId::AllZeros => "AllZeros"@,
        BootCodeId::AllOnes => "AllOnes"@,
        BootCodeId::Unknown => "Unknown"@,
    }
}

impl BootCodeId {
    /// The variant name, as `{:?}` prints it.
    pub fn debug_name(&self) -> (s: &'static str)
        ensures
            s@ == boot_code_id_name(*self),
    {
        match self {
            BootCodeId::Windows7Plus => "Windows7Plus",
            BootCodeId::WindowsVista => "WindowsVista",
            BootCodeId::Grub2 => "Grub2",
            BootCodeId::GrubLegacy => "GrubLegacy",
            BootCodeId::Syslinux => "Syslinux",
            BootCodeId::AllZeros => "AllZeros",
            BootCodeId::AllOnes => "AllOnes",
            BootCodeId::Unknown => "Unknown",
        }
    }
}

} // verus!
