//! What depends on the guest operating system: CPU checks, the network
//! card, the CPU model, the default disk size and guest tweaks.

use vstd::prelude::*;
use crate::args::arch::{spec_virt_type, query_virt_type, HostArch};
use crate::args::guest::spec_osk;
use crate::args::machine::cpu::{macos_cpu_flags, macos_legacy_cpu_flag, spec_macos_cpu_flags, spec_macos_legacy_cpu_flag, CpuFeatures};
use crate::legacy::config::{Arch, GuestOS, MacOSRelease};
use crate::legacy::config_parse::BYTES_PER_GB;
use crate::text::{push_arg, views};

verus! {

/// What CPUID reports that the checks need: the vendor; whether the CPU
/// has VMX, SSE4.1 and SSE4.2 (where the feature leaf is reported); SVM
/// (where the extended identifiers are); AVX2 (where the extended features
/// are).
#[derive(Debug, Clone, PartialEq)]
pub struct LegacyCpuid {
    pub vendor: Option<String>,
    pub feature_info: Option<(bool, bool, bool)>,
    pub svm: Option<bool>,
    pub avx2: Option<bool>,
}

/// Why the host's CPU cannot run the guest, if it cannot: CPUID must
/// report the feature leaf and the extended identifiers; VMX or SVM is
/// needed; macOS Ventura and Sonoma need AVX2 reported and SSE4.2 or AVX2,
/// other macOS releases SSE4.1.
pub open spec fn spec_cpu_problem(guest: GuestOS, c: LegacyCpuid) -> Option<Seq<char>> {
    match (c.feature_info, c.svm) {
        (Some((vmx, sse41, sse42)), Some(svm)) => if !(vmx || svm) {
            Some("CPU Virtualization"@ + spec_virt_type(match c.vendor { Some(v) => Some(v@), None => None })
                + " is required for x86_64 guests. Please enable it in your BIOS."@)
        } else {
            match guest {
                GuestOS::MacOS { release } => if release == MacOSRelease::Ventura || release == MacOSRelease::Sonoma {
                    match c.avx2 {
                        Some(avx2) => if !(sse42 || avx2) {
                            Some("macOS releases Ventura and newer require a CPU which supports AVX2 and SSE4.2."@)
                        } else {
                            None
                        },
                        None => Some("Could not determine whether your CPU supports AVX2."@),
                    }
                } else if !sse41 {
                    Some("macOS requires a CPU which supports SSE4.1."@)
                } else {
                    None
                },
                _ => None,
            }
        },
        _ => Some("Could not determine whether your CPU supports the necessary instructions."@),
    }
}

impl GuestOS {
    /// Checks that the host's CPU can run the guest (see `spec_cpu_problem`).
    pub fn validate_cpu(&self, c: &LegacyCpuid) -> (r: Result<(), String>)
        ensures
            match spec_cpu_problem(*self, *c) {
                None => r is Ok,
                Some(m) => r matches Err(e) && e@ == m,
            },
    {
        let (vmx, sse41, sse42) = match c.feature_info {
            Some(f) => f,
            None => return Err(String::from_str("Could not determine whether your CPU supports the necessary instructions.")),
        };
        let svm = match c.svm {
            Some(s) => s,
            None => return Err(String::from_str("Could not determine whether your CPU supports the necessary instructions.")),
        };
        if !(vmx || svm) {
            let vendor: Option<&str> = match &c.vendor {
                Some(v) => Some(v.as_str()),
                None => None,
            };
            let mut m = String::from_str("CPU Virtualization");
            m.append(query_virt_type(vendor));
            m.append(" is required for x86_64 guests. Please enable it in your BIOS.");
            return Err(m);
        }
        if let GuestOS::MacOS { release } = self {
            if matches!(release, MacOSRelease::Ventura | MacOSRelease::Sonoma) {
                match c.avx2 {
                    Some(avx2) => {
                        if !(sse42 || avx2) {
                            return Err(String::from_str("macOS releases Ventura and newer require a CPU which supports AVX2 and SSE4.2."));
                        }
                    },
                    None => return Err(String::from_str("Could not determine whether your CPU supports AVX2.")),
                }
            } else if !sse41 {
                return Err(String::from_str("macOS requires a CPU which supports SSE4.1."));
            }
        }
        Ok(())
    }

    /// The network card of the guest: RTL 8139 for Batocera, FreeDOS and
    /// Haiku, E1000 for ReactOS, VirtIO for macOS from Big Sur on (VMXNET3
    /// before), VirtIO for Linux, Solaris and GhostBSD, RTL 8139 for the
    /// others.
    pub open spec fn spec_net_device(self) -> Seq<char> {
        match self {
            GuestOS::Batocera | GuestOS::FreeDOS | GuestOS::Haiku => "rtl8139"@,
            GuestOS::ReactOS => "e1000"@,
            GuestOS::MacOS { release } => if release.spec_rank() >= MacOSRelease::BigSur.spec_rank() {
                "virtio-net"@
            } else {
                "vmxnet3"@
            },
            GuestOS::Linux | GuestOS::LinuxOld | GuestOS::Solaris | GuestOS::GhostBSD => "virtio-net"@,
            _ => "rtl8139"@,
        }
    }

    /// The network card of the guest.
    pub fn net_device(&self) -> (r: &'static str)
        ensures
            r@ == self.spec_net_device(),
    {
        match self {
            GuestOS::Batocera | GuestOS::FreeDOS | GuestOS::Haiku => "rtl8139",
            GuestOS::ReactOS => "e1000",
            GuestOS::MacOS { release } => if release.at_least(MacOSRelease::BigSur) {
                "virtio-net"
            } else {
                "vmxnet3"
            },
            GuestOS::Linux | GuestOS::LinuxOld | GuestOS::Solaris | GuestOS::GhostBSD => "virtio-net",
            _ => "rtl8139",
        }
    }

    /// The CPU model of the guest, given whether its architecture is the
    /// host's, the vendor of the host's first CPU, and what CPUID reports:
    /// none on RISC-V 64; the host's own model (without 1 GiB pages on a
    /// macOS host; else QEMU's `max`) on
    /// AArch64; on x86_64 the host's own (or `max`) for most guests,
    /// `qemu32` for KolibriOS and ReactOS, a Skylake server model without
    /// the flags the host lacks for macOS from Ventura on, Penryn with the
    /// flags the host has for older macOS, the host's model with Hyper-V
    /// enlightenments for Windows; AMD hosts add the topology extensions.
    pub open spec fn spec_cpu_argument(self, arch: Arch, matches_host: bool, vendor: Seq<char>, f: CpuFeatures) -> Option<Seq<char>> {
        let default_cpu = if matches_host { if f.macos_host { "host,-pdpe1gb"@ } else { "host"@ } } else { "max"@ };
        match arch {
            Arch::riscv64 => None,
            Arch::aarch64 => Some(default_cpu),
            Arch::x86_64 => {
                let a = match self {
                    GuestOS::KolibriOS | GuestOS::ReactOS => "qemu32"@,
                    GuestOS::MacOS { release } => if release.spec_rank() >= MacOSRelease::Ventura.spec_rank() {
                        spec_macos_cpu_flags("Skylake-Server-v3,vendor=GenuineIntel,vmware-cpuid-freq=on"@, f)
                    } else {
                        spec_macos_legacy_cpu_flag(f)
                    },
                    GuestOS::Windows | GuestOS::WindowsServer => default_cpu + ",+hypervisor,+invtsc,l3-cache=on,migratable=no,hv_passthrough"@,
                    _ => default_cpu,
                };
                Some(if vendor == "AuthenticAMD"@ { a + ",topoext"@ } else { a })
            },
        }
    }

    /// The CPU model of the guest (see `spec_cpu_argument`).
    pub fn cpu_argument(&self, arch: &Arch, matches_host: bool, vendor: &str, f: &CpuFeatures) -> (r: Option<String>)
        ensures
            match self.spec_cpu_argument(*arch, matches_host, vendor@, *f) {
                Some(a) => r matches Some(s) && s@ == a,
                None => r is None,
            },
    {
        let default_cpu: &str = if matches_host { if f.macos_host { "host,-pdpe1gb" } else { "host" } } else { "max" };
        match arch {
            Arch::riscv64 => None,
            Arch::aarch64 => Some(String::from_str(default_cpu)),
            Arch::x86_64 => {
                let mut a = match self {
                    GuestOS::KolibriOS | GuestOS::ReactOS => String::from_str("qemu32"),
                    GuestOS::MacOS { release } => if release.at_least(MacOSRelease::Ventura) {
                        macos_cpu_flags("Skylake-Server-v3,vendor=GenuineIntel,vmware-cpuid-freq=on", f)
                    } else {
                        macos_legacy_cpu_flag(f)
                    },
                    GuestOS::Windows | GuestOS::WindowsServer => {
                        let mut s = String::from_str(default_cpu);
                        s.append(",+hypervisor,+invtsc,l3-cache=on,migratable=no,hv_passthrough");
                        s
                    },
                    _ => String::from_str(default_cpu),
                };
                if crate::text::str_eq(vendor, "AuthenticAMD") {
                    a.append(",topoext");
                }
                Some(a)
            },
        }
    }

    /// The size a new disk of the guest gets: 64 GiB for Windows, 96 GiB
    /// for macOS, 16 GiB for ReactOS and KolibriOS, 32 GiB for the others.
    pub open spec fn spec_disk_size(self) -> u64 {
        match self {
            GuestOS::Windows | GuestOS::WindowsServer => (64 * BYTES_PER_GB) as u64,
            GuestOS::MacOS { .. } => (96 * BYTES_PER_GB) as u64,
            GuestOS::ReactOS | GuestOS::KolibriOS => (16 * BYTES_PER_GB) as u64,
            _ => (32 * BYTES_PER_GB) as u64,
        }
    }

    /// The size a new disk of the guest gets.
    pub fn disk_size(&self) -> (r: u64)
        ensures
            r == self.spec_disk_size(),
    {
        match self {
            GuestOS::Windows | GuestOS::WindowsServer => 64 * BYTES_PER_GB,
            GuestOS::MacOS { .. } => 96 * BYTES_PER_GB,
            GuestOS::ReactOS | GuestOS::KolibriOS => 16 * BYTES_PER_GB,
            _ => 32 * BYTES_PER_GB,
        }
    }

    /// The tweaks of a guest: Windows and macOS drop lost timer ticks and
    /// have no S3 sleep; macOS also gets the SMC with its key.
    pub open spec fn spec_guest_tweaks(self) -> Option<Seq<Seq<char>>> {
        match self {
            GuestOS::MacOS { .. } => Some(seq!["-global"@, "kvm-pit.lost_tick_policy=discard"@, "-global"@,
                "ICH9-LPC.disable_s3=1"@, "-device"@, "isa-applesmc,osk="@ + spec_osk()]),
            GuestOS::Windows | GuestOS::WindowsServer => Some(seq!["-global"@, "kvm-pit.lost_tick_policy=discard"@,
                "-global"@, "ICH9-LPC.disable_s3=1"@]),
            _ => None,
        }
    }

    /// The tweaks of a guest.
    pub fn guest_tweaks(&self) -> (r: Option<Vec<String>>)
        ensures
            match self.spec_guest_tweaks() {
                Some(t) => r matches Some(v) && views(v@) == t,
                None => r is None,
            },
    {
        let mac = matches!(self, GuestOS::MacOS { .. });
        if !mac && !matches!(self, GuestOS::Windows | GuestOS::WindowsServer) {
            return None;
        }
        let mut v: Vec<String> = Vec::new();
        push_arg(&mut v, "-global");
        push_arg(&mut v, "kvm-pit.lost_tick_policy=discard");
        push_arg(&mut v, "-global");
        push_arg(&mut v, "ICH9-LPC.disable_s3=1");
        if mac {
            push_arg(&mut v, "-device");
            let mut osk = String::from_str("isa-applesmc,osk=");
            osk.append("ourhardworkbythesewordsguardedpleasedontsteal(c)AppleComputerInc");
            crate::text::push_string(&mut v, osk);
        }
        assert(views(v@) =~= self.spec_guest_tweaks()->Some_0);
        Some(v)
    }
}

} // verus!
