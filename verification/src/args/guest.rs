//! Settings that a guest operating system needs.

use vstd::prelude::*;
use crate::data::guest::GuestOS;
use crate::data::guest::MacOSRelease;
use crate::error::{Error, Warning};
use crate::text::{push_arg, views};
use crate::utils::{lines, ArgDisplay, EmulatorArgs};

verus! {

/// The SMC key that macOS guests need.
pub open spec fn spec_osk() -> Seq<char> {
    "ourhardworkbythesewordsguardedpleasedontsteal(c)AppleComputerInc"@
}

/// What a guest needs: KVM, dropping lost timer ticks (Windows and macOS
/// with KVM), no S3 sleep (Windows and macOS), and the SMC key (macOS).
#[derive(Debug, Clone, Copy, PartialEq, Eq, Structural)]
pub struct GuestTweaks {
    pub hw_virt: bool,
    pub discard_lost_ticks: bool,
    pub disable_s3: bool,
    pub osk: bool,
}

/// The instruction set that a guest lacks on the host, if any: macOS
/// guests need SSE4.1, and from Ventura on SSE4.2 and AVX2. `feature_info`
/// holds whether the host has SSE4.1 and SSE4.2, where CPUID reports that
/// leaf; `avx2` whether it has AVX2, where CPUID reports the extended leaf.
/// What CPUID does not report is not held against the guest.
pub open spec fn spec_missing_instructions(guest: GuestOS, feature_info: Option<(bool, bool)>, avx2: Option<bool>) -> Option<Seq<char>> {
    match (guest, feature_info) {
        (GuestOS::MacOS { release }, Some((sse41, sse42))) => if !sse41 {
            Some("SSE4.1"@)
        } else if release.spec_rank() >= MacOSRelease::Ventura.spec_rank() && avx2 is Some {
            if !sse42 { Some("SSE4.2"@) } else if !avx2->Some_0 { Some("AVX2"@) } else { None }
        } else {
            None
        },
        _ => None,
    }
}

impl GuestOS {
    /// Checks that the host's CPU has the instruction sets the guest
    /// needs (see `spec_missing_instructions`).
    pub fn validate_cpu(&self, feature_info: Option<(bool, bool)>, avx2: Option<bool>) -> (r: Result<(), Error>)
        ensures
            match spec_missing_instructions(*self, feature_info, avx2) {
                None => r is Ok,
                Some(m) => r matches Err(Error::Instructions(s)) && s@ == m,
            },
    {
        let (sse41, sse42) = match feature_info {
            Some(f) => f,
            None => return Ok(()),
        };
        if let GuestOS::MacOS { release } = self {
            if !sse41 {
                return Err(Error::Instructions(String::from_str("SSE4.1")));
            }
            if release.at_least(MacOSRelease::Ventura) {
                let has_avx2 = match avx2 {
                    Some(a) => a,
                    None => return Ok(()),
                };
                if !sse42 {
                    return Err(Error::Instructions(String::from_str("SSE4.2")));
                }
                if !has_avx2 {
                    return Err(Error::Instructions(String::from_str("AVX2")));
                }
            }
        }
        Ok(())
    }

    /// The tweaks of a guest, given whether hardware virtualization is
    /// available (or the warning why not, which is passed on).
    pub open spec fn spec_tweaks(self, hw_virt: Result<bool, Warning>) -> (GuestTweaks, Seq<Warning>) {
        let hw = match hw_virt { Ok(b) => b, Err(_) => false };
        let win_or_mac = self == GuestOS::Windows || self == GuestOS::WindowsServer || self is MacOS;
        (GuestTweaks {
            hw_virt: hw,
            discard_lost_ticks: hw && win_or_mac,
            disable_s3: win_or_mac,
            osk: self is MacOS,
        }, match hw_virt { Ok(_) => seq![], Err(w) => seq![w] })
    }

    /// The tweaks of a guest.
    pub fn tweaks(&self, hw_virt: Result<bool, Warning>) -> (r: (GuestTweaks, Vec<Warning>))
        ensures
            r.0 == self.spec_tweaks(hw_virt).0,
            r.1@ == self.spec_tweaks(hw_virt).1,
    {
        let ghost hv = hw_virt;
        let mut warnings = Vec::new();
        let hw = match hw_virt {
            Ok(b) => b,
            Err(w) => {
                warnings.push(w);
                false
            },
        };
        let win_or_mac = matches!(self, GuestOS::Windows | GuestOS::WindowsServer | GuestOS::MacOS { .. });
        let t = GuestTweaks {
            hw_virt: hw,
            discard_lost_ticks: hw && win_or_mac,
            disable_s3: win_or_mac,
            osk: matches!(self, GuestOS::MacOS { .. }),
        };
        assert(warnings@ =~= self.spec_tweaks(hv).1);
        (t, warnings)
    }
}

impl EmulatorArgs for GuestTweaks {
    open spec fn spec_display(&self) -> Seq<(Seq<char>, Seq<char>)> {
        seq![]
    }

    open spec fn spec_qemu_args(&self) -> Seq<Seq<char>> {
        (if self.hw_virt { seq!["-accel"@, "kvm"@] } else { seq![] })
            + (if self.discard_lost_ticks { seq!["-global"@, "kvm-pit.lost_tick_policy=discard"@] } else { seq![] })
            + (if self.disable_s3 { seq!["-global"@, "ICH9-LPC.disable_s3=1"@] } else { seq![] })
            + (if self.osk { seq!["-device"@, spec_osk()] } else { seq![] })
    }

    fn display(&self) -> (r: Vec<ArgDisplay>) {
        let r = Vec::new();
        assert(lines(r@) =~= self.spec_display());
        r
    }

    fn qemu_args(&self) -> (r: Vec<String>) {
        let mut a = Vec::new();
        if self.hw_virt {
            push_arg(&mut a, "-accel");
            push_arg(&mut a, "kvm");
        }
        let ghost s1 = views(a@);
        if self.discard_lost_ticks {
            push_arg(&mut a, "-global");
            push_arg(&mut a, "kvm-pit.lost_tick_policy=discard");
        }
        let ghost s2 = views(a@);
        if self.disable_s3 {
            push_arg(&mut a, "-global");
            push_arg(&mut a, "ICH9-LPC.disable_s3=1");
        }
        let ghost s3 = views(a@);
        if self.osk {
            push_arg(&mut a, "-device");
            push_arg(&mut a, "ourhardworkbythesewordsguardedpleasedontsteal(c)AppleComputerInc");
        }
        proof {
            assert(s1 =~= (if self.hw_virt { seq!["-accel"@, "kvm"@] } else { seq![] }));
            assert(s2 =~= s1 + (if self.discard_lost_ticks { seq!["-global"@, "kvm-pit.lost_tick_policy=discard"@] } else { seq![] }));
            assert(s3 =~= s2 + (if self.disable_s3 { seq!["-global"@, "ICH9-LPC.disable_s3=1"@] } else { seq![] }));
            assert(views(a@) =~= s3 + (if self.osk { seq!["-device"@, spec_osk()] } else { seq![] }));
        }
        a
    }
}

} // verus!
