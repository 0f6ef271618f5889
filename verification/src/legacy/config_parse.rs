//! Reading the settings of the first-generation format: text values of
//! the configuration file and command line, and the defaults that depend
//! on the host.

use vstd::prelude::*;
use crate::data::network::SocketAddress;
use crate::text::{decimal, str_eq, u64_to_string};
use super::config::{
    Access, Arch, BootType, CpuCores, Display, GuestOS, Keyboard, MacOSRelease, Monitor, Mouse, Network,
    PreAlloc, PublicDir, Resolution, SerdeMonitor, Snapshot, SoundCard, USBController,
};
use super::validate::{spec_is_keyboard_layout, validate_keyboard_layout};

verus! {

/// The text that `str::to_lowercase` gives for a text.
pub uninterp spec fn lowercase(s: Seq<char>) -> Seq<char>;

/// The lowercase form of an ASCII character: `A` to `Z` become `a` to
/// `z`, every other character stays.
pub open spec fn ascii_lower(c: char) -> char {
    if 'A' <= c && c <= 'Z' { ((c as u32) + 32) as char } else { c }
}

/// `str::to_lowercase`: the lowercase form of a text by Unicode's rules.
/// For a text of ASCII characters that is `A` to `Z` made `a` to `z`
/// (the documentation's examples show it, and Unicode's lowercase
/// mapping of ASCII is that); for other texts it is only named.
#[verifier::external_body]
fn to_lowercase(s: &str) -> (r: String)
    ensures
        r@ == lowercase(s@),
        (forall|i: int| 0 <= i < s@.len() ==> (#[trigger] s@[i]) as u32 <= 127) ==> (r@.len() == s@.len()
            && forall|i: int| 0 <= i < s@.len() ==> #[trigger] r@[i] == ascii_lower(s@[i])),
{
    s.to_lowercase()
}

impl Access {
    /// Who may connect: `remote`, `local`, or an address.
    pub open spec fn spec_from_text(value: Option<String>, default: Access) -> Access {
        match value {
            Some(s) => if s@ == "remote"@ {
                Access::Remote
            } else if s@ == "local"@ {
                Access::Local
            } else {
                Access::Address(s)
            },
            None => default,
        }
    }

    /// Who may connect, from a setting; local where there is none.
    pub fn from_option(value: Option<String>) -> (r: Access)
        ensures
            r == Self::spec_from_text(value, Access::Local),
    {
        Self::from_setting(value, Access::Local)
    }

    /// Who may connect, from a setting; `default` where there is none.
    pub fn from_setting(value: Option<String>, default: Access) -> (r: Access)
        ensures
            r == Self::spec_from_text(value, default),
    {
        match value {
            Some(input) => {
                if str_eq(input.as_str(), "remote") {
                    Access::Remote
                } else if str_eq(input.as_str(), "local") {
                    Access::Local
                } else {
                    Access::Address(input)
                }
            },
            None => default,
        }
    }
}

impl From<(Option<String>, Access)> for Access {
    fn from(value: (Option<String>, Access)) -> (r: Access) {
        Access::from_setting(value.0, value.1)
    }
}

impl vstd::std_specs::convert::FromSpecImpl<(Option<String>, Access)> for Access {
    open spec fn obeys_from_spec() -> bool {
        true
    }

    open spec fn from_spec(v: (Option<String>, Access)) -> Access {
        Access::spec_from_text(v.0, v.1)
    }
}

/// The core count of a guest: the configured one, else from the host's
/// logical CPUs (16 from 32 on, 8 from 16, 4 from 8, 2 from 4, else 1);
/// the host pairs threads where it has more logical than physical CPUs.
/// A host that reports more physical than logical CPUs needs the count
/// set by hand.
pub open spec fn spec_cpu_cores(input: Option<usize>, logical: usize, physical: usize) -> Option<(usize, bool)> {
    let smt = logical > physical;
    match input {
        Some(c) => Some((c, smt)),
        None => if physical > logical {
            None
        } else {
            Some((if logical >= 32 { 16usize } else if logical >= 16 { 8 } else if logical >= 8 { 4 } else if logical >= 4 { 2 } else { 1 }, smt))
        },
    }
}

/// The core count of a guest (see `spec_cpu_cores`).
pub fn cpu_cores(input: Option<usize>, logical: usize, physical: usize) -> (r: Result<(usize, bool), String>)
    ensures
        match spec_cpu_cores(input, logical, physical) {
            Some(c) => r == Ok::<(usize, bool), String>(c),
            None => r is Err,
        },
{
    let smt = logical > physical;
    let cores = match input {
        Some(c) => c,
        None => {
            if physical > logical {
                return Err(String::from_str(
                    "Found more physical cores than logical cores. Please manually set your core count in the configuration file.",
                ));
            }
            if logical >= 32 {
                16
            } else if logical >= 16 {
                8
            } else if logical >= 8 {
                4
            } else if logical >= 4 {
                2
            } else {
                1
            }
        },
    };
    Ok((cores, smt))
}

impl CpuCores {
    /// The core count of a guest (see `spec_cpu_cores`).
    pub fn from_host(input: Option<usize>, logical: usize, physical: usize) -> (r: Result<CpuCores, String>)
        ensures
            match spec_cpu_cores(input, logical, physical) {
                Some((cores, smt)) => r == Ok::<CpuCores, String>(CpuCores { cores, smt }),
                None => r is Err,
            },
    {
        match cpu_cores(input, logical, physical) {
            Ok((cores, smt)) => Ok(CpuCores { cores, smt }),
            Err(e) => Err(e),
        }
    }
}

/// Bytes in a gibibyte.
pub const BYTES_PER_GB: u64 = 1073741824;

/// The memory of a guest by default, from the host's (in bytes, counted
/// in decimal gigabytes): 32 GiB from 128 GB on, 16 GiB from 64, 8 GiB
/// from 16, 4 GiB from 8, else all of the host's.
pub open spec fn spec_default_ram(system_ram: u64) -> u64 {
    let g = system_ram / 1000000000;
    if g >= 128 {
        (32 * BYTES_PER_GB) as u64
    } else if g >= 64 {
        (16 * BYTES_PER_GB) as u64
    } else if g >= 16 {
        (8 * BYTES_PER_GB) as u64
    } else if g >= 8 {
        (4 * BYTES_PER_GB) as u64
    } else {
        system_ram
    }
}

/// The memory of a guest by default (see `spec_default_ram`).
pub fn default_ram(system_ram: u64) -> (r: u64)
    ensures
        r == spec_default_ram(system_ram),
{
    let g = system_ram / 1000000000;
    if g >= 128 {
        32 * BYTES_PER_GB
    } else if g >= 64 {
        16 * BYTES_PER_GB
    } else if g >= 16 {
        8 * BYTES_PER_GB
    } else if g >= 8 {
        4 * BYTES_PER_GB
    } else {
        system_ram
    }
}

/// Without more memory than 8 GB (decimal) the guest gets all of the
/// host's; otherwise a fixed share that never exceeds the host's memory
/// nor 32 GiB.
pub proof fn law_default_ram_bounded(system_ram: u64)
    ensures
        spec_default_ram(system_ram) <= system_ram,
        spec_default_ram(system_ram) <= 32 * BYTES_PER_GB,
        system_ram / 1000000000 < 8 ==> spec_default_ram(system_ram) == system_ram,
{
}

/// The core count picked for a guest without a configured one is a power
/// of two, at least one, and at most half of the host's logical CPUs where
/// there are two or more.
pub proof fn law_default_cores(logical: usize, physical: usize)
    ensures
        spec_cpu_cores(None, logical, physical) matches Some((c, smt)) ==> {
            &&& crate::args::machine::cpu::is_power_of_two(c as nat)
            &&& c >= 1
            &&& (logical >= 2 ==> 2 * c <= logical)
            &&& smt == (logical > physical)
        },
{
    vstd::arithmetic::power2::lemma2_to64();
    assert(vstd::arithmetic::power2::pow2(0) == 1);
    assert(vstd::arithmetic::power2::pow2(1) == 2);
    assert(vstd::arithmetic::power2::pow2(2) == 4);
    assert(vstd::arithmetic::power2::pow2(3) == 8);
    assert(vstd::arithmetic::power2::pow2(4) == 16);
}

/// The name of an architecture reads back as that architecture.
pub proof fn law_arch_name_round_trip(arch: Arch)
    ensures
        Arch::spec_from_name(arch.spec_as_str()) == Some(arch),
{
    reveal_strlit("x86_64");
    reveal_strlit("aarch64");
    reveal_strlit("riscv64");
    assert("aarch64"@[0] != "x86_64"@[0]);
    assert("riscv64"@[0] != "x86_64"@[0]);
    assert("riscv64"@[0] != "aarch64"@[0]);
}

impl Snapshot {
    /// A snapshot operation from the command line: `apply`, `create` or
    /// `delete` with a tag, or `info` alone.
    pub fn from_args(input: &Vec<String>) -> (r: Result<Snapshot, String>)
        requires
            input@.len() >= 1,
        ensures
            input@[0]@ == "apply"@ && input@.len() == 2 ==> (r matches Ok(Snapshot::Apply(t)) && t@ == input@[1]@),
            input@[0]@ == "create"@ && input@.len() == 2 ==> (r matches Ok(Snapshot::Create(t)) && t@ == input@[1]@),
            input@[0]@ == "delete"@ && input@.len() == 2 ==> (r matches Ok(Snapshot::Delete(t)) && t@ == input@[1]@),
            input@[0]@ == "info"@ && input@.len() == 1 ==> r == Ok::<Snapshot, String>(Snapshot::Info),
            !((input@[0]@ == "apply"@ || input@[0]@ == "create"@ || input@[0]@ == "delete"@) && input@.len() == 2)
                && !(input@[0]@ == "info"@ && input@.len() == 1) ==> r is Err,
    {
        proof {
            reveal_strlit("apply");
            reveal_strlit("create");
            reveal_strlit("delete");
            reveal_strlit("info");
        }
        assert("apply"@ != "create"@ && "apply"@ != "delete"@ && "create"@ != "delete"@) by {
            assert("apply"@[0] != "create"@[0]);
            assert("apply"@[0] != "delete"@[0]);
            assert("create"@[0] != "delete"@[0]);
        }
        let n = input.len();
        let op = input[0].as_str();
        if n == 2 && str_eq(op, "apply") {
            Ok(Snapshot::Apply(input[1].clone()))
        } else if n == 2 && str_eq(op, "create") {
            Ok(Snapshot::Create(input[1].clone()))
        } else if n == 2 && str_eq(op, "delete") {
            Ok(Snapshot::Delete(input[1].clone()))
        } else if n == 1 && str_eq(op, "info") {
            Ok(Snapshot::Info)
        } else {
            let mut m = String::from_str("Invalid parameters to argument --snapshot: ");
            let all = crate::text::join(input, " ");
            m.append(all.as_str());
            Err(m)
        }
    }
}

impl PublicDir {
    /// The shared directory from the configuration file and the command
    /// line (which wins): `default`, `none`, or a directory; the default
    /// where neither sets one.
    pub open spec fn spec_from_settings(conf: Option<String>, cli: Option<String>) -> PublicDir {
        let chosen = match cli { Some(d) => Some(d), None => conf };
        match chosen {
            Some(d) => if d@ == "default"@ {
                PublicDir::Default
            } else if d@ == "none"@ {
                PublicDir::Disabled
            } else {
                PublicDir::Custom(d)
            },
            None => PublicDir::Default,
        }
    }

    /// The shared directory from the configuration file and the command
    /// line.
    pub fn from_settings(conf: Option<String>, cli: Option<String>) -> (r: PublicDir)
        ensures
            r == Self::spec_from_settings(conf, cli),
    {
        let chosen = match cli {
            Some(d) => Some(d),
            None => conf,
        };
        match chosen {
            Some(d) => {
                if str_eq(d.as_str(), "default") {
                    PublicDir::Default
                } else if str_eq(d.as_str(), "none") {
                    PublicDir::Disabled
                } else {
                    PublicDir::Custom(d)
                }
            },
            None => PublicDir::Default,
        }
    }
}

/// The keyboard layout from the configuration file and the command line
/// (which wins); each must be one that QEMU knows. None is set by default.
pub fn keyboard_layout(conf: Option<String>, cli: Option<String>) -> (r: Result<Option<String>, String>)
    ensures
        match (cli, conf) {
            (Some(l), _) | (None, Some(l)) => if spec_is_keyboard_layout(l@) {
                r matches Ok(Some(k)) && k@ == l@
            } else {
                r matches Err(m) && m@ == "Keyboard layout "@ + l@ + " is not supported by QEMU."@
            },
            (None, None) => r matches Ok(None),
        },
{
    let chosen = match cli {
        Some(l) => Some(l),
        None => conf,
    };
    match chosen {
        Some(l) => match validate_keyboard_layout(l) {
            Ok(k) => Ok(Some(k)),
            Err(e) => Err(e),
        },
        None => Ok(None),
    }
}

impl Monitor {
    /// The address text of a telnet console from the settings: the host
    /// (the command line's, else the file's, else `127.0.0.1`), a colon,
    /// and the port (the command line's, else the file's, else the
    /// default).
    pub open spec fn spec_telnet_text(serde: SerdeMonitor, host: Option<String>, port: Option<u16>, default_port: u16) -> Seq<char> {
        let h = match host { Some(h) => h@, None => match serde.telnet_host { Some(h) => h@, None => "127.0.0.1"@ } };
        let p = match port { Some(p) => p, None => match serde.telnet_port { Some(p) => p, None => default_port } };
        h + ":"@ + decimal(p as nat)
    }

    /// The address text of a telnet console from the settings.
    pub fn telnet_text(serde: &SerdeMonitor, host: &Option<String>, port: Option<u16>, default_port: u16) -> (r: String)
        ensures
            r@ == Self::spec_telnet_text(*serde, *host, port, default_port),
    {
        let mut t = match host {
            Some(h) => h.clone(),
            None => match &serde.telnet_host {
                Some(h) => h.clone(),
                None => String::from_str("127.0.0.1"),
            },
        };
        let p = match port {
            Some(p) => p,
            None => match serde.telnet_port {
                Some(p) => p,
                None => default_port,
            },
        };
        t.append(":");
        let ps = u64_to_string(p as u64);
        t.append(ps.as_str());
        t
    }

    /// Whether a console's settings are accepted (see `from_settings`).
    pub open spec fn spec_settings_ok(serde: SerdeMonitor, kind: Option<String>, host: Option<String>, port: Option<u16>,
        address: Result<SocketAddress, String>) -> bool {
        let k = match kind { Some(k) => k@, None => serde.kind@ };
        let h = match host { Some(h) => Some(h), None => serde.telnet_host };
        if k == "none"@ {
            !(h is Some || port is Some)
        } else if k == "telnet"@ {
            address is Ok
        } else {
            k == "socket"@
        }
    }

    /// A console from the configuration file's settings and the command
    /// line's (kind, telnet host, telnet port), which win: `none` (which
    /// takes no host or port from the command line), `telnet` (whose
    /// address text must read as a socket address: `address` is what it
    /// reads as, or why not), or `socket` at `socketpath`.
    pub fn from_settings(serde: SerdeMonitor, kind: Option<String>, host: Option<String>, port: Option<u16>, socketpath: String,
        address: Result<SocketAddress, String>) -> (r: Result<Monitor, String>)
        ensures
            ({
                let k = match kind { Some(k) => k@, None => serde.kind@ };
                let h = match host { Some(h) => Some(h), None => serde.telnet_host };
                if k == "none"@ {
                    if h is Some || port is Some { r is Err } else { r == Ok::<Monitor, String>(Monitor::Disabled) }
                } else if k == "telnet"@ {
                    match address {
                        Ok(a) => r == Ok::<Monitor, String>(Monitor::Telnet { address: a }),
                        Err(e) => r == Err::<Monitor, String>(e),
                    }
                } else if k == "socket"@ {
                    r == Ok::<Monitor, String>(Monitor::Socket { socketpath })
                } else {
                    r is Err
                }
            }),
    {
        let k = match kind {
            Some(k) => k,
            None => serde.kind,
        };
        let has_host = host.is_some() || serde.telnet_host.is_some();
        if str_eq(k.as_str(), "none") {
            if has_host || port.is_some() {
                Err(String::from_str("Monitor type 'none' cannot have any additional parameters."))
            } else {
                Ok(Monitor::Disabled)
            }
        } else if str_eq(k.as_str(), "telnet") {
            match address {
                Ok(a) => Ok(Monitor::Telnet { address: a }),
                Err(e) => Err(e),
            }
        } else if str_eq(k.as_str(), "socket") {
            Ok(Monitor::Socket { socketpath })
        } else {
            let mut m = String::from_str("Invalid monitor type: ");
            m.append(k.as_str());
            Err(m)
        }
    }
}

impl Mouse {
    /// The pointing device of a guest by default: USB for FreeBSD and
    /// GhostBSD, a tablet for the others.
    pub fn for_guest(value: &GuestOS) -> (r: Mouse)
        ensures
            r == (if *value == GuestOS::FreeBSD || *value == GuestOS::GhostBSD { Mouse::Usb } else { Mouse::Tablet }),
    {
        match value {
            GuestOS::FreeBSD | GuestOS::GhostBSD => Mouse::Usb,
            _ => Mouse::Tablet,
        }
    }
}

impl USBController {
    /// The USB controller of a guest by default: XHCI for Solaris and macOS
    /// from Big Sur on, EHCI for the others.
    pub open spec fn spec_for_guest(value: GuestOS) -> USBController {
        match value {
            GuestOS::Solaris => USBController::Xhci,
            GuestOS::MacOS { release } => if release.spec_rank() >= MacOSRelease::BigSur.spec_rank() {
                USBController::Xhci
            } else {
                USBController::Ehci
            },
            _ => USBController::Ehci,
        }
    }

    /// The USB controller of a guest by default.
    pub fn for_guest(value: &GuestOS) -> (r: USBController)
        ensures
            r == Self::spec_for_guest(*value),
    {
        match value {
            GuestOS::Solaris => USBController::Xhci,
            GuestOS::MacOS { release } => if release.at_least(MacOSRelease::BigSur) {
                USBController::Xhci
            } else {
                USBController::Ehci
            },
            _ => USBController::Ehci,
        }
    }
}

impl Resolution {
    /// The resolution from the file and the command line: a width and
    /// height given on the command line win, then a screen, then the file.
    pub fn from_settings(res: Resolution, width: Option<u32>, height: Option<u32>, screen: Option<String>) -> (r: Resolution)
        ensures
            r == (match (width, height, screen) {
                (Some(w), Some(h), _) => Resolution::Custom { width: w, height: h },
                (_, _, Some(s)) => Resolution::Display(s),
                _ => res,
            }),
    {
        match (width, height, screen) {
            (Some(w), Some(h), _) => Resolution::Custom { width: w, height: h },
            (_, _, Some(s)) => Resolution::Display(s),
            _ => res,
        }
    }
}

/// A flag from a text: `true`/`on`, `false`/`off`, or `default` where
/// there is no text.
pub fn parse_optional_bool(value: Option<String>, default: bool) -> (r: Result<bool, String>)
    ensures
        match value {
            Some(t) => if t@ == "true"@ || t@ == "on"@ {
                r == Ok::<bool, String>(true)
            } else if t@ == "false"@ || t@ == "off"@ {
                r == Ok::<bool, String>(false)
            } else {
                r matches Err(m) && m@ == "Invalid value: "@ + t@
            },
            None => r == Ok::<bool, String>(default),
        },
{
    match value {
        Some(text) => {
            if str_eq(text.as_str(), "true") || str_eq(text.as_str(), "on") {
                Ok(true)
            } else if str_eq(text.as_str(), "false") || str_eq(text.as_str(), "off") {
                Ok(false)
            } else {
                let mut m = String::from_str("Invalid value: ");
                m.append(text.as_str());
                Err(m)
            }
        },
        None => Ok(default),
    }
}

impl MacOSRelease {
    /// The release named in an older configuration file.
    pub open spec fn spec_from_name(s: Seq<char>) -> Option<MacOSRelease> {
        if s == "high-sierra"@ { Some(MacOSRelease::HighSierra) }
        else if s == "mojave"@ { Some(MacOSRelease::Mojave) }
        else if s == "catalina"@ { Some(MacOSRelease::Catalina) }
        else if s == "big-sur"@ { Some(MacOSRelease::BigSur) }
        else if s == "monterey"@ { Some(MacOSRelease::Monterey) }
        else if s == "ventura"@ { Some(MacOSRelease::Ventura) }
        else if s == "sonoma"@ { Some(MacOSRelease::Sonoma) }
        else { None }
    }

    /// The release named in an older configuration file, which must name
    /// one.
    pub fn from_setting(value: Option<String>) -> (r: Result<MacOSRelease, String>)
        ensures
            match value {
                Some(s) => match Self::spec_from_name(s@) { Some(m) => r == Ok::<MacOSRelease, String>(m), None => r is Err },
                None => r is Err,
            },
    {
        match value {
            Some(release) => {
                let s = release.as_str();
                if str_eq(s, "high-sierra") {
                    Ok(MacOSRelease::HighSierra)
                } else if str_eq(s, "mojave") {
                    Ok(MacOSRelease::Mojave)
                } else if str_eq(s, "catalina") {
                    Ok(MacOSRelease::Catalina)
                } else if str_eq(s, "big-sur") {
                    Ok(MacOSRelease::BigSur)
                } else if str_eq(s, "monterey") {
                    Ok(MacOSRelease::Monterey)
                } else if str_eq(s, "ventura") {
                    Ok(MacOSRelease::Ventura)
                } else if str_eq(s, "sonoma") {
                    Ok(MacOSRelease::Sonoma)
                } else {
                    let mut m = String::from_str("Unsupported macOS release: ");
                    m.append(s);
                    Err(m)
                }
            },
            None => Err(String::from_str("Your configuration file must include a macOS release.")),
        }
    }
}

impl Arch {
    /// The architecture that a name stands for.
    pub open spec fn spec_from_name(s: Seq<char>) -> Option<Arch> {
        if s == "x86_64"@ {
            Some(Arch::x86_64)
        } else if s == "aarch64"@ {
            Some(Arch::aarch64)
        } else if s == "riscv64"@ {
            Some(Arch::riscv64)
        } else {
            None
        }
    }

    /// The architecture named in an older configuration file; x86_64
    /// where it names none.
    pub fn from_setting(value: Option<String>) -> (r: Result<Arch, String>)
        ensures
            match value {
                Some(s) => match Arch::spec_from_name(s@) {
                    Some(a) => r == Ok::<Arch, String>(a),
                    None => r is Err,
                },
                None => r == Ok::<Arch, String>(Arch::x86_64),
            },
    {
        match value {
            Some(arch) => {
                let s = arch.as_str();
                if str_eq(s, "x86_64") {
                    Ok(Arch::x86_64)
                } else if str_eq(s, "aarch64") {
                    Ok(Arch::aarch64)
                } else if str_eq(s, "riscv64") {
                    Ok(Arch::riscv64)
                } else {
                    let mut m = arch;
                    m.append(" is not a supported architecture. Please check your legacy config file.");
                    Err(m)
                }
            },
            None => Ok(Arch::x86_64),
        }
    }
}

impl BootType {
    /// The boot type named in an older configuration file, with whether
    /// Secure Boot is on: `efi`, or `legacy`/`bios` (which take no Secure
    /// Boot); EFI where none is named.
    pub fn from_settings(boot: Option<String>, secure: Option<String>) -> (r: Result<BootType, String>)
        ensures
            ({
                let sb = match secure {
                    Some(t) => if t@ == "true"@ || t@ == "on"@ { Some(true) }
                        else if t@ == "false"@ || t@ == "off"@ { Some(false) } else { None },
                    None => Some(false),
                };
                match sb {
                    None => r is Err,
                    Some(secure_boot) => match boot {
                        Some(b) => if b@ == "efi"@ {
                            r == Ok::<BootType, String>(BootType::Efi { secure_boot })
                        } else if secure_boot {
                            r is Err
                        } else if b@ == "legacy"@ || b@ == "bios"@ {
                            r == Ok::<BootType, String>(BootType::Legacy)
                        } else {
                            r is Err
                        },
                        None => r == Ok::<BootType, String>(BootType::Efi { secure_boot }),
                    },
                }
            }),
    {
        let secure_boot = match parse_optional_bool(secure, false) {
            Ok(b) => b,
            Err(e) => return Err(e),
        };
        match boot {
            Some(b) => {
                let s = b.as_str();
                if str_eq(s, "efi") {
                    Ok(BootType::Efi { secure_boot })
                } else if secure_boot {
                    Err(String::from_str("Secure boot is only supported with the EFI boot type."))
                } else if str_eq(s, "legacy") || str_eq(s, "bios") {
                    Ok(BootType::Legacy)
                } else {
                    let mut m = String::from_str("Specified boot type ");
                    m.append(s);
                    m.append(" is invalid. Please check your config file. Valid boot types are 'efi', 'legacy'/'bios'");
                    Err(m)
                }
            },
            None => Ok(BootType::Efi { secure_boot }),
        }
    }
}

impl PreAlloc {
    /// The preallocation named in an older configuration file; off where
    /// it names none.
    pub fn from_setting(value: Option<String>) -> (r: Result<PreAlloc, String>)
        ensures
            match value {
                Some(s) => if s@ == "off"@ { r == Ok::<PreAlloc, String>(PreAlloc::Off) }
                    else if s@ == "metadata"@ { r == Ok::<PreAlloc, String>(PreAlloc::Metadata) }
                    else if s@ == "falloc"@ { r == Ok::<PreAlloc, String>(PreAlloc::Falloc) }
                    else if s@ == "full"@ { r == Ok::<PreAlloc, String>(PreAlloc::Full) }
                    else { r is Err },
                None => r == Ok::<PreAlloc, String>(PreAlloc::Off),
            },
    {
        match value {
            Some(v) => {
                let s = v.as_str();
                if str_eq(s, "off") {
                    Ok(PreAlloc::Off)
                } else if str_eq(s, "metadata") {
                    Ok(PreAlloc::Metadata)
                } else if str_eq(s, "falloc") {
                    Ok(PreAlloc::Falloc)
                } else if str_eq(s, "full") {
                    Ok(PreAlloc::Full)
                } else {
                    Err(String::from_str("Invalid preallocation type."))
                }
            },
            None => Ok(PreAlloc::Off),
        }
    }
}

impl Display {
    /// The display named in an older configuration file; SDL where it
    /// names none.
    pub fn from_setting(value: Option<String>) -> (r: Result<Display, String>)
        ensures
            match value {
                Some(s) => if s@ == "sdl"@ { r == Ok::<Display, String>(Display::Sdl) }
                    else if s@ == "gtk"@ { r == Ok::<Display, String>(Display::Gtk) }
                    else if s@ == "spice"@ { r == Ok::<Display, String>(Display::Spice) }
                    else if s@ == "spice-app"@ { r == Ok::<Display, String>(Display::SpiceApp) }
                    else { r is Err },
                None => r == Ok::<Display, String>(Display::Sdl),
            },
    {
        match value {
            Some(d) => {
                let s = d.as_str();
                if str_eq(s, "sdl") {
                    Ok(Display::Sdl)
                } else if str_eq(s, "gtk") {
                    Ok(Display::Gtk)
                } else if str_eq(s, "spice") {
                    Ok(Display::Spice)
                } else if str_eq(s, "spice-app") {
                    Ok(Display::SpiceApp)
                } else {
                    let mut m = String::from_str("Invalid display type: ");
                    m.append(s);
                    Err(m)
                }
            },
            None => Ok(Display::Sdl),
        }
    }
}

impl Network {
    /// The network named in an older configuration file (read in lower
    /// case), with a MAC address, which only a bridge takes: `restrict`,
    /// `nat`, `none`, or the name of a bridge; NAT where none is named.
    pub fn from_settings(network: Option<String>, mac_addr: Option<String>) -> (r: Result<Network, String>)
        ensures
            match network {
                Some(n) => {
                    let l = lowercase(n@);
                    if (l == "restrict"@ || l == "nat"@ || l == "none"@) && mac_addr is Some {
                        r is Err
                    } else if l == "restrict"@ {
                        r == Ok::<Network, String>(Network::Restrict)
                    } else if l == "nat"@ {
                        r == Ok::<Network, String>(Network::Nat)
                    } else if l == "none"@ {
                        r == Ok::<Network, String>(Network::Disabled)
                    } else {
                        r matches Ok(Network::Bridged { bridge, mac_addr: m }) && bridge@ == l && m == mac_addr
                    }
                },
                None => r == Ok::<Network, String>(Network::Nat),
            },
    {
        match network {
            Some(n) => {
                let l = to_lowercase(n.as_str());
                let s = l.as_str();
                let plain = str_eq(s, "restrict") || str_eq(s, "nat") || str_eq(s, "none");
                if plain && mac_addr.is_some() {
                    Err(String::from_str("MAC Addresses are only supported for bridged networking."))
                } else if str_eq(s, "restrict") {
                    Ok(Network::Restrict)
                } else if str_eq(s, "nat") {
                    Ok(Network::Nat)
                } else if str_eq(s, "none") {
                    Ok(Network::Disabled)
                } else {
                    Ok(Network::Bridged { bridge: l, mac_addr })
                }
            },
            None => Ok(Network::Nat),
        }
    }
}

impl Keyboard {
    /// The keyboard named in an older configuration file; USB where it
    /// names none.
    pub fn from_setting(value: Option<String>) -> (r: Result<Keyboard, String>)
        ensures
            match value {
                Some(s) => if s@ == "usb"@ { r == Ok::<Keyboard, String>(Keyboard::Usb) }
                    else if s@ == "ps2"@ { r == Ok::<Keyboard, String>(Keyboard::PS2) }
                    else if s@ == "virtio"@ { r == Ok::<Keyboard, String>(Keyboard::Virtio) }
                    else { r is Err },
                None => r == Ok::<Keyboard, String>(Keyboard::Usb),
            },
    {
        match value {
            Some(k) => {
                let s = k.as_str();
                if str_eq(s, "usb") {
                    Ok(Keyboard::Usb)
                } else if str_eq(s, "ps2") {
                    Ok(Keyboard::PS2)
                } else if str_eq(s, "virtio") {
                    Ok(Keyboard::Virtio)
                } else {
                    let mut m = String::from_str("Invalid keyboard type: ");
                    m.append(s);
                    Err(m)
                }
            },
            None => Ok(Keyboard::Usb),
        }
    }
}

impl SerdeMonitor {
    /// A console of an older configuration file: its kind (`socket` where
    /// none is named), telnet host, and telnet port, which must read as a
    /// port number (`port` is what it reads as, where it does).
    pub fn from_settings(kind: Option<String>, host: Option<String>, port_text: Option<String>, port: Option<u16>)
        -> (r: Result<SerdeMonitor, String>)
        ensures
            port_text is Some && port is None ==> r is Err,
            !(port_text is Some && port is None) ==> (r matches Ok(m) && {
                &&& m.kind@ == (match kind { Some(k) => k@, None => "socket"@ })
                &&& m.telnet_host == host
                &&& m.telnet_port == (if port_text is Some { port } else { None })
            }),
    {
        let kind = match kind {
            Some(k) => k,
            None => String::from_str("socket"),
        };
        let telnet_port = match port_text {
            Some(t) => match port {
                Some(p) => Some(p),
                None => {
                    let mut m = String::from_str("Invalid port number: ");
                    m.append(t.as_str());
                    return Err(m);
                },
            },
            None => None,
        };
        Ok(SerdeMonitor { kind, telnet_host: host, telnet_port })
    }
}

impl SoundCard {
    /// The sound card named in an older configuration file; Intel HDA where
    /// it names none.
    pub fn from_setting(value: Option<String>) -> (r: Result<SoundCard, String>)
        ensures
            match value {
                Some(s) => if s@ == "none"@ { r == Ok::<SoundCard, String>(SoundCard::Disabled) }
                    else if s@ == "ac97"@ { r == Ok::<SoundCard, String>(SoundCard::AC97) }
                    else if s@ == "es1370"@ { r == Ok::<SoundCard, String>(SoundCard::ES1370) }
                    else if s@ == "sb16"@ { r == Ok::<SoundCard, String>(SoundCard::SB16) }
                    else if s@ == "intel-hda"@ { r == Ok::<SoundCard, String>(SoundCard::IntelHDA) }
                    else { r is Err },
                None => r == Ok::<SoundCard, String>(SoundCard::IntelHDA),
            },
    {
        match value {
            Some(c) => {
                let s = c.as_str();
                if str_eq(s, "none") {
                    Ok(SoundCard::Disabled)
                } else if str_eq(s, "ac97") {
                    Ok(SoundCard::AC97)
                } else if str_eq(s, "es1370") {
                    Ok(SoundCard::ES1370)
                } else if str_eq(s, "sb16") {
                    Ok(SoundCard::SB16)
                } else if str_eq(s, "intel-hda") {
                    Ok(SoundCard::IntelHDA)
                } else {
                    let mut m = String::from_str("Invalid sound card: ");
                    m.append(s);
                    Err(m)
                }
            },
            None => Ok(SoundCard::IntelHDA),
        }
    }
}

impl GuestOS {
    /// The guest named in an older configuration file (read in lower
    /// case), with a macOS release, which only macOS takes.
    pub open spec fn spec_from_name(l: Seq<char>) -> Option<GuestOS> {
        if l == "linux"@ { Some(GuestOS::Linux) }
        else if l == "linux_old"@ { Some(GuestOS::LinuxOld) }
        else if l == "windows"@ { Some(GuestOS::Windows) }
        else if l == "windows-server"@ { Some(GuestOS::WindowsServer) }
        else if l == "freebsd"@ { Some(GuestOS::FreeBSD) }
        else if l == "ghostbsd"@ { Some(GuestOS::GhostBSD) }
        else if l == "freedos"@ { Some(GuestOS::FreeDOS) }
        else if l == "haiku"@ { Some(GuestOS::Haiku) }
        else if l == "solaris"@ { Some(GuestOS::Solaris) }
        else if l == "kolibrios"@ { Some(GuestOS::KolibriOS) }
        else if l == "reactos"@ { Some(GuestOS::ReactOS) }
        else if l == "batocera"@ { Some(GuestOS::Batocera) }
        else { None }
    }

    /// The guest named in an older configuration file, which must name one.
    pub fn from_settings(os: Option<String>, macos_release: Option<String>) -> (r: Result<GuestOS, String>)
        ensures
            match os {
                None => r is Err,
                Some(o) => {
                    let l = lowercase(o@);
                    if l == "macos"@ {
                        match macos_release {
                            Some(s) => match MacOSRelease::spec_from_name(s@) {
                                Some(m) => r == Ok::<GuestOS, String>(GuestOS::MacOS { release: m }),
                                None => r is Err,
                            },
                            None => r is Err,
                        }
                    } else if macos_release is Some {
                        r is Err
                    } else {
                        match Self::spec_from_name(l) { Some(g) => r == Ok::<GuestOS, String>(g), None => r is Err }
                    }
                },
            },
    {
        let o = match os {
            Some(o) => o,
            None => return Err(String::from_str("The configuration file must contain a guest_os field")),
        };
        let l = to_lowercase(o.as_str());
        let s = l.as_str();
        if str_eq(s, "macos") {
            return match MacOSRelease::from_setting(macos_release) {
                Ok(release) => Ok(GuestOS::MacOS { release }),
                Err(e) => Err(e),
            };
        }
        if macos_release.is_some() {
            let mut m = String::from_str("macOS releases are not supported for OS ");
            m.append(o.as_str());
            return Err(m);
        }
        if str_eq(s, "linux") {
            Ok(GuestOS::Linux)
        } else if str_eq(s, "linux_old") {
            Ok(GuestOS::LinuxOld)
        } else if str_eq(s, "windows") {
            Ok(GuestOS::Windows)
        } else if str_eq(s, "windows-server") {
            Ok(GuestOS::WindowsServer)
        } else if str_eq(s, "freebsd") {
            Ok(GuestOS::FreeBSD)
        } else if str_eq(s, "ghostbsd") {
            Ok(GuestOS::GhostBSD)
        } else if str_eq(s, "freedos") {
            Ok(GuestOS::FreeDOS)
        } else if str_eq(s, "haiku") {
            Ok(GuestOS::Haiku)
        } else if str_eq(s, "solaris") {
            Ok(GuestOS::Solaris)
        } else if str_eq(s, "kolibrios") {
            Ok(GuestOS::KolibriOS)
        } else if str_eq(s, "reactos") {
            Ok(GuestOS::ReactOS)
        } else if str_eq(s, "batocera") {
            Ok(GuestOS::Batocera)
        } else {
            Err(String::from_str("The guest_os specified in the configuration file is unsupported."))
        }
    }
}

} // verus!
