//! The emulated machine: processors, memory, TPM, firmware and the QEMU
//! machine type.

use vstd::prelude::*;
use crate::data::guest::GuestOS;
use crate::data::machine::{Arch, Machine};
use crate::error::{Error, Warning};
use crate::text::{push_arg, push_string, views};
use crate::utils::{extend_lines, lines, ArgDisplay, EmulatorArgs};
use self::boot::BootArgs;
use self::cpu::{Cpu, CpuFeatures, CpuHost};
use self::ram::Ram;
use self::tpm::Tpm;

pub mod cpu;
pub mod ram;
pub mod tpm;
pub mod boot;

verus! {

/// The QEMU machine family.
#[derive(Debug, Clone, Copy, PartialEq, Eq, Structural)]
pub enum QemuMachineType {
    Qemu32,
    Pc,
    Virt,
}

impl QemuMachineType {
    /// The name QEMU knows the family by.
    pub open spec fn spec_arg(self) -> Seq<char> {
        match self {
            QemuMachineType::Qemu32 => "q35"@,
            QemuMachineType::Pc => "pc"@,
            QemuMachineType::Virt => "virt"@,
        }
    }

    /// The name QEMU knows the family by.
    pub fn arg(&self) -> (r: &'static str)
        ensures
            r@ == self.spec_arg(),
    {
        match self {
            QemuMachineType::Qemu32 => "q35",
            QemuMachineType::Pc => "pc",
            QemuMachineType::Virt => "virt",
        }
    }
}

/// What the machine needs on each architecture.
#[derive(Debug, Clone, Copy, PartialEq, Eq, Structural)]
pub enum MachineType {
    X86_64 { smm: bool, no_hpet: bool },
    AArch64,
    Riscv64,
}

/// The QEMU machine of a guest.
#[derive(Debug, Clone, Copy, PartialEq, Eq, Structural)]
pub struct FullMachine {
    pub qemu_machine: QemuMachineType,
    pub specific: MachineType,
}

/// The machine of a guest on an architecture: x86_64 guests get `q35`
/// (`pc` for FreeDOS, Batocera, Haiku, Solaris, ReactOS and KolibriOS),
/// SMM for Windows and FreeDOS, no HPET for Windows and macOS; AArch64 and
/// RISC-V 64 guests get `virt`.
pub open spec fn spec_full_machine(arch: Arch, guest: GuestOS) -> FullMachine {
    match arch {
        Arch::X86_64 { .. } => FullMachine {
            qemu_machine: match guest {
                GuestOS::FreeDOS | GuestOS::Batocera | GuestOS::Haiku | GuestOS::Solaris | GuestOS::ReactOS
                | GuestOS::KolibriOS => QemuMachineType::Pc,
                _ => QemuMachineType::Qemu32,
            },
            specific: MachineType::X86_64 {
                smm: guest == GuestOS::Windows || guest == GuestOS::WindowsServer || guest == GuestOS::FreeDOS,
                no_hpet: guest == GuestOS::Windows || guest == GuestOS::WindowsServer || guest is MacOS,
            },
        },
        Arch::AArch64 { .. } => FullMachine { qemu_machine: QemuMachineType::Virt, specific: MachineType::AArch64 },
        Arch::Riscv64 { .. } => FullMachine { qemu_machine: QemuMachineType::Virt, specific: MachineType::Riscv64 },
    }
}

impl FullMachine {
    /// The machine of a guest on an architecture.
    pub fn new(arch: Arch, guest: GuestOS) -> (r: FullMachine)
        ensures
            r == spec_full_machine(arch, guest),
    {
        match arch {
            Arch::X86_64 { .. } => {
                let smm = matches!(guest, GuestOS::Windows | GuestOS::WindowsServer | GuestOS::FreeDOS);
                let no_hpet = matches!(guest, GuestOS::Windows | GuestOS::WindowsServer | GuestOS::MacOS { .. });
                let qemu_machine = match guest {
                    GuestOS::FreeDOS | GuestOS::Batocera | GuestOS::Haiku | GuestOS::Solaris | GuestOS::ReactOS
                    | GuestOS::KolibriOS => QemuMachineType::Pc,
                    _ => QemuMachineType::Qemu32,
                };
                FullMachine { qemu_machine, specific: MachineType::X86_64 { smm, no_hpet } }
            },
            Arch::AArch64 { .. } => FullMachine { qemu_machine: QemuMachineType::Virt, specific: MachineType::AArch64 },
            Arch::Riscv64 { .. } => FullMachine { qemu_machine: QemuMachineType::Virt, specific: MachineType::Riscv64 },
        }
    }
}

impl EmulatorArgs for FullMachine {
    open spec fn spec_display(&self) -> Seq<(Seq<char>, Seq<char>)> {
        seq![]
    }

    open spec fn spec_qemu_args(&self) -> Seq<Seq<char>> {
        seq!["-machine"@, self.qemu_machine.spec_arg() + match self.specific {
            MachineType::X86_64 { smm, no_hpet } => (if smm { ",smm=on"@ } else { ",smm=off"@ })
                + (if no_hpet { ",hpet=off"@ } else { ""@ }) + ",vmport=off"@,
            MachineType::AArch64 => ",virtualization=on,pflash0=rom,pflash1=efivars"@,
            MachineType::Riscv64 => ",usb=on"@,
        }]
    }

    fn display(&self) -> (r: Vec<ArgDisplay>) {
        let r = Vec::new();
        assert(lines(r@) =~= self.spec_display());
        r
    }

    fn qemu_args(&self) -> (r: Vec<String>) {
        let mut m = String::from_str(self.qemu_machine.arg());
        let ghost base = m@;
        match self.specific {
            MachineType::X86_64 { smm, no_hpet } => {
                let a: &str = if smm { ",smm=on" } else { ",smm=off" };
                m.append(a);
                let b: &str = if no_hpet { ",hpet=off" } else { "" };
                m.append(b);
                m.append(",vmport=off");
                assert(m@ =~= base + ((if smm { ",smm=on"@ } else { ",smm=off"@ })
                    + (if no_hpet { ",hpet=off"@ } else { ""@ }) + ",vmport=off"@));
            },
            MachineType::AArch64 => m.append(",virtualization=on,pflash0=rom,pflash1=efivars"),
            MachineType::Riscv64 => m.append(",usb=on"),
        }
        let mut a: Vec<String> = Vec::new();
        push_arg(&mut a, "-machine");
        push_string(&mut a, m);
        assert(views(a@) =~= self.spec_qemu_args());
        a
    }
}

/// Everything about the machine of a guest.
#[derive(Debug, Clone, PartialEq)]
pub struct MachineArgs {
    pub cpu_args: Cpu,
    pub ram_args: Ram,
    pub tpm_args: Option<Tpm>,
    pub boot_args: BootArgs,
    pub machine_type: FullMachine,
}

impl EmulatorArgs for MachineArgs {
    open spec fn spec_display(&self) -> Seq<(Seq<char>, Seq<char>)> {
        self.cpu_args.spec_display() + self.ram_args.spec_display() + self.boot_args.spec_display()
            + self.machine_type.spec_display()
    }

    open spec fn spec_qemu_args(&self) -> Seq<Seq<char>> {
        self.cpu_args.spec_qemu_args() + self.ram_args.spec_qemu_args() + self.boot_args.spec_qemu_args()
            + self.machine_type.spec_qemu_args()
    }

    fn display(&self) -> (r: Vec<ArgDisplay>) {
        let mut r = self.cpu_args.display();
        extend_lines(&mut r, self.ram_args.display());
        extend_lines(&mut r, self.boot_args.display());
        extend_lines(&mut r, self.machine_type.display());
        r
    }

    fn qemu_args(&self) -> (r: Vec<String>) {
        let mut a = self.cpu_args.qemu_args();
        let ram = self.ram_args.qemu_args();
        crate::text::extend_args(&mut a, &ram);
        let boot = self.boot_args.qemu_args();
        crate::text::extend_args(&mut a, &boot);
        let m = self.machine_type.qemu_args();
        crate::text::extend_args(&mut a, &m);
        a
    }
}

/// What the host says about the machine: its CPUs, whether hardware
/// virtualization is available (or the warning why not), what CPUID
/// reports, its total and available memory in bytes, where `swtpm` is (or
/// why it was not found), and the firmware that was found.
pub struct MachineHost {
    pub cpu: CpuHost,
    pub hw_virt: Result<bool, Warning>,
    pub features: CpuFeatures,
    pub total_memory: u64,
    pub available_memory: u64,
    pub swtpm: Result<String, String>,
    pub boot: Result<BootArgs, Error>,
}

/// The warnings about the machine: those about the processors, then one
/// about a configured amount of memory below 4 GiB.
pub open spec fn spec_machine_warnings(m: Machine, guest: GuestOS, host: MachineHost) -> Seq<Warning> {
    let total = crate::units::size_bytes(host.total_memory as int);
    let ram = ram::spec_ram(m.ram, total);
    crate::args::machine::cpu::spec_cpu_warnings(m.cpu_threads, guest, host.hw_virt)
        + (if m.ram is Some && ram->Some_0 < ram::MIN_MACOS_WINDOWS_RAM {
            seq![Warning::InsufficientRamConfiguration(total as i64, guest)]
        } else {
            seq![]
        })
}

/// The machine arguments of a guest whose memory, TPM and firmware are in
/// order: the machine type and firmware, the TPM with its socket and state
/// in the VM directory, the memory, and the processors as the host reports
/// them.
pub open spec fn spec_machine_args(machine: Machine, guest: GuestOS, vm_dir: Seq<char>, vm_name: Seq<char>, host: MachineHost,
    m: MachineArgs) -> bool {
    let total = crate::units::size_bytes(host.total_memory as int);
    let ram = ram::spec_ram(machine.ram, total);
    let cores = crate::args::machine::cpu::spec_cores(machine.cpu_threads, host.cpu.physical, host.cpu.logical);
    &&& m.machine_type == spec_full_machine(machine.arch, guest)
    &&& m.boot_args == host.boot->Ok_0
    &&& m.tpm_args is Some == machine.tpm
    &&& m.ram_args.total_ram == total
    &&& m.ram_args.ram == crate::units::size_bytes(ram->Some_0)
    &&& m.ram_args.free_ram == crate::units::size_bytes(host.available_memory as int)
    &&& m.cpu_args.phys_cores == cores.0
    &&& m.cpu_args.smt == cores.1
    &&& m.cpu_args.cpu_type == crate::args::machine::cpu::spec_cpu_type(machine.arch, guest)
    &&& views(m.cpu_args.unique_cpus@) == crate::args::machine::cpu::dedup_adjacent(views(host.cpu.brands@))
    &&& m.cpu_args.any_amd == views(host.cpu.vendors@).contains("AuthenticAMD"@)
    &&& m.cpu_args.guest_tweaks == guest.spec_tweaks(host.hw_virt).0
    &&& m.cpu_args.features == host.features
    &&& (m.tpm_args matches Some(t) ==> {
        &&& t.binary@ == host.swtpm->Ok_0@
        &&& t.socket@ == tpm::spec_tpm_socket(vm_dir, vm_name)
        &&& t.ctrl@ == "type=unixio,path="@ + tpm::spec_tpm_socket(vm_dir, vm_name)
        &&& t.tpmstate@ == "dir="@ + vm_dir
    })
}

impl Machine {
    /// The machine of the guest: processors, memory, TPM (where it is on),
    /// firmware and machine type. The first error among memory, TPM and
    /// firmware (in that order) is returned; the warnings of the
    /// processors come before that of the memory.
    pub fn args(&self, guest: GuestOS, vm_dir: &str, vm_name: &str, host: MachineHost)
        -> (r: Result<(MachineArgs, Vec<Warning>), Error>)
        requires
            self.wf(),
            guest is MacOS ==> (self.cpu_threads matches Some(t) ==> t <= usize::MAX / 2 + 1),
        ensures
            ({
                let total = crate::units::size_bytes(host.total_memory as int);
                let ram = ram::spec_ram(self.ram, total);
                if ram is None {
                    r == Err::<(MachineArgs, Vec<Warning>), Error>(Error::InsufficientRam(total as i64, guest))
                } else if self.tpm && host.swtpm is Err {
                    r == Err::<(MachineArgs, Vec<Warning>), Error>(Error::Which(host.swtpm->Err_0))
                } else if host.boot is Err {
                    r == Err::<(MachineArgs, Vec<Warning>), Error>(host.boot->Err_0)
                } else {
                    r matches Ok((m, w)) && spec_machine_args(*self, guest, vm_dir@, vm_name@, host, m)
                        && w@ == spec_machine_warnings(*self, guest, host)
                }
            }),
    {
        let MachineHost { cpu, hw_virt, features, total_memory, available_memory, swtpm, boot } = host;
        let (cpu_args, mut warnings) = match self.cpu_args(guest, &cpu, hw_virt, features) {
            Ok(c) => c,
            Err(e) => return Err(e),
        };
        let (ram_args, ram_warning) = match self.ram_args(guest, total_memory, available_memory) {
            Ok(r) => r,
            Err(e) => return Err(e),
        };
        match ram_warning {
            Some(w) => warnings.push(w),
            None => {},
        }
        let tpm_args = if self.tpm {
            match Tpm::new(vm_dir, vm_name, swtpm) {
                Ok(t) => Some(t),
                Err(e) => return Err(e),
            }
        } else {
            None
        };
        let boot_args = match boot {
            Ok(b) => b,
            Err(e) => return Err(e),
        };
        let machine_type = FullMachine::new(self.arch, guest);
        Ok((MachineArgs { cpu_args, ram_args, tpm_args, boot_args, machine_type }, warnings))
    }
}

} // verus!
