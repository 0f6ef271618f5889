//! What depends on the architecture: hardware virtualization and the
//! QEMU machine type.

use vstd::prelude::*;
use crate::args::arch::HostArch;
use crate::legacy::config::{Arch, GuestOS};

verus! {

impl Arch {
    /// Whether the guest has the host's architecture.
    pub open spec fn spec_matches_host(self, host: HostArch) -> bool {
        match self {
            Arch::x86_64 => host == HostArch::X86_64,
            Arch::aarch64 => host == HostArch::AArch64,
            Arch::riscv64 => host == HostArch::Riscv64,
        }
    }

    /// Whether the guest has the host's architecture.
    pub fn matches_host(&self, host: HostArch) -> (r: bool)
        ensures
            r == self.spec_matches_host(host),
    {
        match self {
            Arch::x86_64 => host == HostArch::X86_64,
            Arch::aarch64 => host == HostArch::AArch64,
            Arch::riscv64 => host == HostArch::Riscv64,
        }
    }

    /// Whether the guest runs with hardware virtualization: it must have
    /// the host's architecture, and the host must support it.
    pub fn enable_hw_virt(&self, host: HostArch, supports_hw_virt: bool) -> (r: bool)
        ensures
            r == (self.spec_matches_host(host) && supports_hw_virt),
    {
        self.matches_host(host) && supports_hw_virt
    }

    /// The QEMU machine of a guest: on x86_64 `q35` without HPET for
    /// Windows and macOS, `pc` for FreeDOS, Batocera, Haiku, Solaris, ReactOS
    /// and KolibriOS, `q35` for the others, with SMM for Windows and FreeDOS,
    /// and without VMware's I/O port; `virt` on AArch64 and RISC-V 64.
    pub open spec fn spec_machine_type(self, guest: GuestOS) -> Seq<char> {
        match self {
            Arch::x86_64 => {
                let t = match guest {
                    GuestOS::Windows | GuestOS::WindowsServer | GuestOS::MacOS { .. } => "q35,hpet=off"@,
                    GuestOS::FreeDOS | GuestOS::Batocera | GuestOS::Haiku | GuestOS::Solaris | GuestOS::ReactOS
                    | GuestOS::KolibriOS => "pc"@,
                    _ => "q35"@,
                };
                let smm = match guest {
                    GuestOS::Windows | GuestOS::WindowsServer | GuestOS::FreeDOS => "on"@,
                    _ => "off"@,
                };
                t + ",smm="@ + smm + ",vmport=off"@
            },
            Arch::aarch64 => "virt,virtualization=on,pflash0=rom,pflash1=efivars"@,
            Arch::riscv64 => "virt,usb=on"@,
        }
    }

    /// The QEMU machine of a guest.
    pub fn machine_type(&self, guest_os: &GuestOS) -> (r: String)
        ensures
            r@ == self.spec_machine_type(*guest_os),
    {
        match self {
            Arch::x86_64 => {
                let t: &str = match guest_os {
                    GuestOS::Windows | GuestOS::WindowsServer | GuestOS::MacOS { .. } => "q35,hpet=off",
                    GuestOS::FreeDOS | GuestOS::Batocera | GuestOS::Haiku | GuestOS::Solaris | GuestOS::ReactOS
                    | GuestOS::KolibriOS => "pc",
                    _ => "q35",
                };
                let smm: &str = match guest_os {
                    GuestOS::Windows | GuestOS::WindowsServer | GuestOS::FreeDOS => "on",
                    _ => "off",
                };
                let mut m = String::from_str(t);
                m.append(",smm=");
                m.append(smm);
                m.append(",vmport=off");
                m
            },
            Arch::aarch64 => String::from_str("virt,virtualization=on,pflash0=rom,pflash1=efivars"),
            Arch::riscv64 => String::from_str("virt,usb=on"),
        }
    }
}

} // verus!
