//! The emulated machine: architecture, firmware, processors and memory.

use vstd::prelude::*;

verus! {

/// The kind of x86_64 machine.
#[derive(Debug, Clone, Copy, PartialEq, Eq, Structural)]
pub enum X86_64Machine {
    Standard,
}

/// The kind of AArch64 machine.
#[derive(Debug, Clone, Copy, PartialEq, Eq, Structural)]
pub enum AArch64Machine {
    Standard,
}

/// The kind of RISC-V 64 machine.
#[derive(Debug, Clone, Copy, PartialEq, Eq, Structural)]
pub enum Riscv64Machine {
    Standard,
}

/// The architecture of the guest, and the kind of machine for it.
#[derive(Debug, Clone, Copy, PartialEq, Eq, Structural)]
pub enum Arch {
    X86_64 { machine: X86_64Machine },
    AArch64 { machine: AArch64Machine },
    Riscv64 { machine: Riscv64Machine },
}

impl Default for Arch {
    fn default() -> (r: Self)
        ensures
            r == (Arch::X86_64 { machine: X86_64Machine::Standard }),
    {
        Arch::X86_64 { machine: X86_64Machine::Standard }
    }
}

impl Arch {
    /// Every architecture with every kind of machine, x86_64 first, then
    /// AArch64, then RISC-V 64.
    pub fn iter() -> (r: Vec<Arch>)
        ensures
            r@ == seq![
                Arch::X86_64 { machine: X86_64Machine::Standard },
                Arch::AArch64 { machine: AArch64Machine::Standard },
                Arch::Riscv64 { machine: Riscv64Machine::Standard },
            ],
    {
        let mut v = Vec::new();
        v.push(Arch::X86_64 { machine: X86_64Machine::Standard });
        v.push(Arch::AArch64 { machine: AArch64Machine::Standard });
        v.push(Arch::Riscv64 { machine: Riscv64Machine::Standard });
        assert(v@ =~= seq![
            Arch::X86_64 { machine: X86_64Machine::Standard },
            Arch::AArch64 { machine: AArch64Machine::Standard },
            Arch::Riscv64 { machine: Riscv64Machine::Standard },
        ]);
        v
    }

    /// The name that the architecture is shown with.
    pub open spec fn spec_name(self) -> Seq<char> {
        match self {
            Arch::X86_64 { .. } => "x86_64 (Standard)"@,
            Arch::AArch64 { .. } => "AArch64 (Standard)"@,
            Arch::Riscv64 { .. } => "Riscv64 (Standard)"@,
        }
    }

    /// The name that the architecture is shown with.
    pub fn name(&self) -> (r: &'static str)
        ensures
            r@ == self.spec_name(),
    {
        match self {
            Arch::X86_64 { .. } => "x86_64 (Standard)",
            Arch::AArch64 { .. } => "AArch64 (Standard)",
            Arch::Riscv64 { .. } => "Riscv64 (Standard)",
        }
    }

    /// The QEMU program that emulates the architecture.
    pub open spec fn spec_qemu_bin(self) -> Seq<char> {
        match self {
            Arch::X86_64 { .. } => "qemu-system-x86_64"@,
            Arch::AArch64 { .. } => "qemu-system-aarch64"@,
            Arch::Riscv64 { .. } => "qemu-system-riscv64"@,
        }
    }

    /// The QEMU program that emulates the architecture.
    pub fn qemu_bin(&self) -> (r: &'static str)
        ensures
            r@ == self.spec_qemu_bin(),
    {
        match self {
            Arch::X86_64 { .. } => "qemu-system-x86_64",
            Arch::AArch64 { .. } => "qemu-system-aarch64",
            Arch::Riscv64 { .. } => "qemu-system-riscv64",
        }
    }
}

/// How the guest boots.
#[derive(Debug, Clone, Copy, PartialEq, Eq, Structural)]
pub enum BootType {
    Efi { secure_boot: bool },
    Legacy,
}

impl Default for BootType {
    fn default() -> (r: Self)
        ensures
            r == (BootType::Efi { secure_boot: false }),
    {
        BootType::Efi { secure_boot: false }
    }
}

/// The machine settings of a virtual machine. `cpu_threads`, where it is
/// set, is a positive number of threads; `ram` is in bytes.
#[derive(Debug, Clone, Copy, PartialEq, Eq, Structural)]
pub struct Machine {
    pub cpu_threads: Option<usize>,
    pub arch: Arch,
    pub boot: BootType,
    pub tpm: bool,
    pub ram: Option<u64>,
    pub status_quo: bool,
}

impl Machine {
    /// A set thread count is positive.
    pub open spec fn wf(self) -> bool {
        self.cpu_threads matches Some(t) ==> t > 0
    }
}

} // verus!
