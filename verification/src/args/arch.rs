//! Whether the host can run a guest with hardware virtualization.

use vstd::prelude::*;
use crate::data::machine::Arch;
use crate::error::Warning;

verus! {

/// The architecture of the host.
#[derive(Debug, Clone, Copy, PartialEq, Eq, Structural)]
pub enum HostArch {
    X86_64,
    AArch64,
    Riscv64,
    Other,
}

/// The brand of hardware virtualization of a CPU vendor, as it is shown
/// after the word "Virtualization".
pub open spec fn spec_virt_type(vendor: Option<Seq<char>>) -> Seq<char> {
    match vendor {
        Some(v) => if v == "GenuineIntel"@ {
            " (VT-x)"@
        } else if v == "AuthenticAMD"@ {
            " (AMD-V)"@
        } else {
            ""@
        },
        None => ""@,
    }
}

/// The brand of hardware virtualization of a CPU vendor.
pub fn query_virt_type(vendor: Option<&str>) -> (r: &'static str)
    ensures
        r@ == spec_virt_type(match vendor { Some(v) => Some(v@), None => None }),
{
    match vendor {
        Some(v) => if crate::text::str_eq(v, "GenuineIntel") {
            " (VT-x)"
        } else if crate::text::str_eq(v, "AuthenticAMD") {
            " (AMD-V)"
        } else {
            ""
        },
        None => "",
    }
}

impl Arch {
    /// Whether the guest has the host's architecture.
    pub open spec fn spec_matches_host(self, host: HostArch) -> bool {
        match self {
            Arch::X86_64 { .. } => host == HostArch::X86_64,
            Arch::AArch64 { .. } => host == HostArch::AArch64,
            Arch::Riscv64 { .. } => host == HostArch::Riscv64,
        }
    }

    /// Whether the guest has the host's architecture.
    pub fn matches_host(&self, host: HostArch) -> (r: bool)
        ensures
            r == self.spec_matches_host(host),
    {
        match self {
            Arch::X86_64 { .. } => host == HostArch::X86_64,
            Arch::AArch64 { .. } => host == HostArch::AArch64,
            Arch::Riscv64 { .. } => host == HostArch::Riscv64,
        }
    }

    /// Whether the guest runs with hardware virtualization: only a guest
    /// of the host's architecture does, and only where KVM is available;
    /// where it is not, a warning names the CPU vendor's virtualization
    /// (on x86_64 hosts; `vendor` is the CPU vendor string).
    pub fn enable_hw_virt(&self, host: HostArch, kvm_available: bool, vendor: Option<&str>) -> (r: Result<bool, Warning>)
        ensures
            !self.spec_matches_host(host) ==> r == Ok::<bool, Warning>(false),
            self.spec_matches_host(host) && kvm_available ==> r == Ok::<bool, Warning>(true),
            self.spec_matches_host(host) && !kvm_available ==> (r matches Err(Warning::HwVirt(t))
                && t@ == (if host == HostArch::X86_64 {
                    spec_virt_type(match vendor { Some(v) => Some(v@), None => None })
                } else {
                    ""@
                })),
    {
        if !self.matches_host(host) {
            return Ok(false);
        }
        if !kvm_available {
            if host == HostArch::X86_64 {
                return Err(Warning::HwVirt(String::from_str(query_virt_type(vendor))));
            } else {
                return Err(Warning::HwVirt(String::from_str("")));
            }
        }
        Ok(true)
    }
}

} // verus!
