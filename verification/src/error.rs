//! What can stop a virtual machine from being started, and what is worth
//! a warning.

use vstd::prelude::*;
use crate::data::guest::GuestOS;

verus! {

/// Why the QEMU command line could not be built or QEMU not be started.
#[derive(Debug, Clone, PartialEq)]
pub enum Error {
    /// The host CPU lacks an instruction set that the guest needs.
    Instructions(String),
    /// No free port was found from the given one on.
    UnavailablePort(u16),
    /// The host has less memory (bytes) than the guest needs.
    InsufficientRam(i64, GuestOS),
    /// USB audio needs an XHCI controller.
    ConflictingSoundUsb,
    /// A program could not be found.
    Which(String),
    /// A program could not be run.
    Command(String, String),
    /// Legacy BIOS boot is only available on x86_64.
    LegacyBoot,
    /// No bootloader for a RISC-V 64 guest was found.
    Riscv64Bootloader,
    /// No EFI firmware was found.
    Ovmf,
    /// The EFI variables could not be copied.
    CopyOvmfVars(String),
    /// The architecture, boot type and guest do not go together.
    UnsupportedBootCombination,
    /// The Spice viewer could not be found.
    ViewerNotFound(String),
    /// The QEMU program could not be found.
    QemuNotFound(String),
    /// A disk image could not be created.
    DiskCreationFailed(String),
    /// A disk image is in use by another process.
    DiskInUse(String),
    /// The output of `qemu-img info` could not be read.
    DeserializeQemuImgInfo(String),
    /// No macOS bootloader was found in the VM directory.
    MacBootloader,
    /// An image that the configuration names does not exist.
    NonexistentImage(String),
    /// A monitor command failed.
    MonitorCommand(String),
}

/// What does not stop the virtual machine but is worth telling.
#[derive(Debug, Clone, PartialEq)]
pub enum Warning {
    /// macOS guests want a power of two as their core count; the next one
    /// up is recommended.
    MacOSCorePow2(usize),
    /// Hardware virtualization is unavailable; the text names its brand.
    HwVirt(String),
    /// No sound server was found on the host.
    AudioBackend,
    /// The configured memory (host total, in bytes) is below what the guest
    /// needs.
    InsufficientRamConfiguration(i64, GuestOS),
}

/// Why a monitor command could not be sent.
#[derive(Debug, Clone, PartialEq)]
pub enum MonitorError {
    NoMonitor,
    Write(String),
    Read(String),
}

} // verus!
