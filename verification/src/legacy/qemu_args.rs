//! The QEMU command line of the first-generation builder.

use vstd::prelude::*;
use crate::args::machine::boot::{has_bin_extension, is_bin_file, pair_views, spec_aarch64_ovmf, spec_riscv64_uboot,
    string_pair_views};
use vstd::arithmetic::power2::{lemma_pow2_strictly_increases, pow2};
use crate::args::machine::cpu::{dedup_adjacent, dedup_strings, is_next_power_of_two, is_power_of_two, lemma_next_power_unique,
    next_power_of_two};
use crate::legacy::config::{Arch, BooleanDisplay, BootType, CpuCores, GuestOS, Keyboard, MacOSRelease, Mouse, Network,
    PortForward, PublicDir, USBController};
use crate::legacy::config_parse::BYTES_PER_GB;
use crate::text::{decimal, has_part, join_path, lemma_has_part_extend, lemma_has_part_self, path_join, push_arg, push_string, seq_join, u64_to_string, usize_to_string, views};

pub mod arch;
pub mod guest_os;
pub mod images;
pub mod info;

verus! {

/// The firmware with Secure Boot of x86_64 guests (code, variables), in the order they are looked for.
pub open spec fn spec_legacy_secure_boot_ovmf() -> Seq<(Seq<char>, Seq<char>)> {
    seq![("OVMF/OVMF_CODE_4M.secboot.fd"@, "OVMF/OVMF_VARS_4M.fd"@), ("edk2/ovmf/OVMF_CODE.secboot.fd"@, "edk2/ovmf/OVMF_VARS.fd"@), ("OVMF/x64/OVMF_CODE.secboot.fd"@, "OVMF/x64/OVMF_VARS.fd"@), ("edk2-ovmf/OVMF_CODE.secboot.fd"@, "edk2-ovmf/OVMF_VARS.fd"@), ("qemu/ovmf-x86_64-smm-ms-code.bin"@, "qemu/ovmf-x86_64-smm-ms-vars.bin"@), ("qemu/edk2-x86_64-secure-code.fd"@, "qemu/edk2-x86_64-code.fd"@), ("edk2-ovmf/x64/OVMF_CODE.secboot.fd"@, "edk2-ovmf/x64/OVMF_VARS.fd"@)]
}

fn legacy_secure_boot_ovmf() -> (r: Vec<(&'static str, &'static str)>)
    ensures
        pair_views(r@) == spec_legacy_secure_boot_ovmf(),
{
    let mut v: Vec<(&'static str, &'static str)> = Vec::new();
    v.push(("OVMF/OVMF_CODE_4M.secboot.fd", "OVMF/OVMF_VARS_4M.fd"));
    v.push(("edk2/ovmf/OVMF_CODE.secboot.fd", "edk2/ovmf/OVMF_VARS.fd"));
    v.push(("OVMF/x64/OVMF_CODE.secboot.fd", "OVMF/x64/OVMF_VARS.fd"));
    v.push(("edk2-ovmf/OVMF_CODE.secboot.fd", "edk2-ovmf/OVMF_VARS.fd"));
    v.push(("qemu/ovmf-x86_64-smm-ms-code.bin", "qemu/ovmf-x86_64-smm-ms-vars.bin"));
    v.push(("qemu/edk2-x86_64-secure-code.fd", "qemu/edk2-x86_64-code.fd"));
    v.push(("edk2-ovmf/x64/OVMF_CODE.secboot.fd", "edk2-ovmf/x64/OVMF_VARS.fd"));
    assert(pair_views(v@) =~= spec_legacy_secure_boot_ovmf());
    v
}

/// The firmware without Secure Boot of x86_64 guests (code, variables), in the order they are looked for.
pub open spec fn spec_legacy_efi_ovmf() -> Seq<(Seq<char>, Seq<char>)> {
    seq![("OVMF/OVMF_CODE_4M.fd"@, "OVMF/OVMF_VARS_4M.fd"@), ("edk2/ovmf/OVMF_CODE.fd"@, "edk2/ovmf/OVMF_VARS.fd"@), ("OVMF/OVMF_CODE.fd"@, "OVMF/OVMF_VARS.fd"@), ("OVMF/x64/OVMF_CODE.fd"@, "OVMF/x64/OVMF_VARS.fd"@), ("edk2-ovmf/OVMF_CODE.fd"@, "edk2-ovmf/OVMF_VARS.fd"@), ("qemu/ovmf-x86_64-4m-code.bin"@, "qemu/ovmf-x86_64-4m-vars.bin"@), ("qemu/edk2-x86_64-code.fd"@, "qemu/edk2-x86_64-code.fd"@), ("edk2-ovmf/x64/OVMF_CODE.fd"@, "edk2-ovmf/x64/OVMF_VARS.fd"@)]
}

fn legacy_efi_ovmf() -> (r: Vec<(&'static str, &'static str)>)
    ensures
        pair_views(r@) == spec_legacy_efi_ovmf(),
{
    let mut v: Vec<(&'static str, &'static str)> = Vec::new();
    v.push(("OVMF/OVMF_CODE_4M.fd", "OVMF/OVMF_VARS_4M.fd"));
    v.push(("edk2/ovmf/OVMF_CODE.fd", "edk2/ovmf/OVMF_VARS.fd"));
    v.push(("OVMF/OVMF_CODE.fd", "OVMF/OVMF_VARS.fd"));
    v.push(("OVMF/x64/OVMF_CODE.fd", "OVMF/x64/OVMF_VARS.fd"));
    v.push(("edk2-ovmf/OVMF_CODE.fd", "edk2-ovmf/OVMF_VARS.fd"));
    v.push(("qemu/ovmf-x86_64-4m-code.bin", "qemu/ovmf-x86_64-4m-vars.bin"));
    v.push(("qemu/edk2-x86_64-code.fd", "qemu/edk2-x86_64-code.fd"));
    v.push(("edk2-ovmf/x64/OVMF_CODE.fd", "edk2-ovmf/x64/OVMF_VARS.fd"));
    assert(pair_views(v@) =~= spec_legacy_efi_ovmf());
    v
}

/// The firmware files of a guest, joined to QEMU's share directory:
/// AArch64's, else with or without Secure Boot.
pub open spec fn spec_legacy_firmware(arch: Arch, secure_boot: bool, share_dir: Seq<char>) -> Seq<(Seq<char>, Seq<char>)> {
    let table = if arch == Arch::aarch64 {
        spec_aarch64_ovmf()
    } else if secure_boot {
        spec_legacy_secure_boot_ovmf()
    } else {
        spec_legacy_efi_ovmf()
    };
    table.map_values(|p: (Seq<char>, Seq<char>)| (join_path(share_dir, p.0), join_path(share_dir, p.1)))
}

/// The firmware files of a guest, in the order they are looked for.
pub fn legacy_firmware(arch: Arch, secure_boot: bool, share_dir: &str) -> (r: Vec<(String, String)>)
    ensures
        string_pair_views(r@) == spec_legacy_firmware(arch, secure_boot, share_dir@),
{
    let table = if arch == Arch::aarch64 {
        let mut v: Vec<(&'static str, &'static str)> = Vec::new();
        v.push(("AAVMF/AAVMF_CODE.fd", "AAVMF/AAVMF_VARS.fd"));
        assert(pair_views(v@) =~= spec_aarch64_ovmf());
        v
    } else if secure_boot {
        legacy_secure_boot_ovmf()
    } else {
        legacy_efi_ovmf()
    };
    let ghost t = pair_views(table@);
    let mut r: Vec<(String, String)> = Vec::new();
    let mut i: usize = 0;
    while i < table.len()
        invariant
            i <= table@.len(),
            t == pair_views(table@),
            string_pair_views(r@) == t.subrange(0, i as int).map_values(
                |p: (Seq<char>, Seq<char>)| (join_path(share_dir@, p.0), join_path(share_dir@, p.1))),
        decreases table.len() - i,
    {
        let (c, v) = table[i];
        let ghost before = string_pair_views(r@);
        r.push((path_join(share_dir, c), path_join(share_dir, v)));
        proof {
            assert(string_pair_views(r@) =~= before.push((join_path(share_dir@, c@), join_path(share_dir@, v@))));
            assert(t.subrange(0, i + 1).map_values(
                |p: (Seq<char>, Seq<char>)| (join_path(share_dir@, p.0), join_path(share_dir@, p.1)))
                =~= t.subrange(0, i as int).map_values(
                |p: (Seq<char>, Seq<char>)| (join_path(share_dir@, p.0), join_path(share_dir@, p.1)))
                .push((join_path(share_dir@, c@), join_path(share_dir@, v@))));
        }
        i = i + 1;
    }
    assert(t.subrange(0, table@.len() as int) =~= t);
    r
}

/// What the firmware of a guest needs, before any file is looked for.
#[derive(Debug, Clone, Copy, PartialEq, Eq, Structural)]
pub enum LegacyBootPlan {
    /// A RISC-V bootloader.
    Riscv,
    /// Legacy BIOS boot.
    Bios,
    /// The OVMF files that come with a macOS guest.
    MacEfi,
    /// QEMU's firmware for the architecture.
    StdEfi { secure_boot: bool },
}

impl BootType {
    /// The firmware a guest needs: RISC-V guests a bootloader; legacy BIOS
    /// boot on x86_64 (not for macOS); EFI on x86_64 and AArch64, macOS
    /// guests without Secure Boot and from their own files.
    pub open spec fn spec_plan(self, guest: GuestOS, arch: Arch) -> Result<LegacyBootPlan, Seq<char>> {
        match (self, arch) {
            (BootType::Efi { .. }, Arch::riscv64) => Ok(LegacyBootPlan::Riscv),
            (BootType::Legacy, Arch::x86_64) => if guest is MacOS {
                Err("macOS guests require EFI boot."@)
            } else {
                Ok(LegacyBootPlan::Bios)
            },
            (BootType::Efi { secure_boot }, _) => if guest is MacOS {
                if secure_boot { Err("macOS guests do not support Secure Boot."@) } else { Ok(LegacyBootPlan::MacEfi) }
            } else {
                Ok(LegacyBootPlan::StdEfi { secure_boot })
            },
            _ => Err("The specified combination of architecture and boot type is not currently supported."@),
        }
    }

    /// The firmware a guest needs.
    pub fn plan(&self, guest: &GuestOS, arch: &Arch) -> (r: Result<LegacyBootPlan, String>)
        ensures
            match self.spec_plan(*guest, *arch) {
                Ok(p) => r == Ok::<LegacyBootPlan, String>(p),
                Err(m) => r matches Err(e) && e@ == m,
            },
    {
        let mac = matches!(guest, GuestOS::MacOS { .. });
        match (self, arch) {
            (BootType::Efi { .. }, Arch::riscv64) => Ok(LegacyBootPlan::Riscv),
            (BootType::Legacy, Arch::x86_64) => if mac {
                Err(String::from_str("macOS guests require EFI boot."))
            } else {
                Ok(LegacyBootPlan::Bios)
            },
            (BootType::Efi { secure_boot }, _) => if mac {
                if *secure_boot {
                    Err(String::from_str("macOS guests do not support Secure Boot."))
                } else {
                    Ok(LegacyBootPlan::MacEfi)
                }
            } else {
                Ok(LegacyBootPlan::StdEfi { secure_boot: *secure_boot })
            },
            _ => Err(String::from_str("The specified combination of architecture and boot type is not currently supported.")),
        }
    }
}

/// Why the bootloader of a RISC-V guest is not clear.
pub open spec fn spec_riscv_bios_error() -> Seq<char> {
    "Could not determine the correct RISC-V bootloader. Please ensure that there are not multiple `.bin` files in your VM directory."@
}

/// The bootloader of a RISC-V guest: the one file with the extension
/// `bin` among `files` (those of `<vm_dir>/boot`, then those of `vm_dir`),
/// else U-Boot where it is installed; several such files are refused.
pub fn find_riscv_bios(files: &Vec<String>, uboot_exists: bool) -> (r: Result<Option<String>, String>)
    ensures
        ({
            let bins = files@.filter(|f: String| has_bin_extension(f@));
            if bins.len() == 0 {
                if uboot_exists { r matches Ok(Some(b)) && b@ == spec_riscv64_uboot() } else { r matches Ok(None) }
            } else if bins.len() == 1 {
                r matches Ok(Some(b)) && b@ == bins[0]@
            } else {
                r matches Err(m) && m@ == spec_riscv_bios_error()
            }
        }),
{
    let mut bins: Vec<String> = Vec::new();
    let mut i: usize = 0;
    while i < files.len()
        invariant
            i <= files@.len(),
            bins@ == files@.subrange(0, i as int).filter(|f: String| has_bin_extension(f@)),
        decreases files.len() - i,
    {
        proof {
            reveal(Seq::filter);
            assert(files@.subrange(0, i + 1).drop_last() =~= files@.subrange(0, i as int));
        }
        if is_bin_file(files[i].as_str()) {
            bins.push(files[i].clone());
        }
        i = i + 1;
    }
    assert(files@.subrange(0, files@.len() as int) =~= files@);
    if bins.len() == 0 {
        if uboot_exists {
            Ok(Some(String::from_str("/usr/lib/u-boot/qemu-riscv64_smode/u-boot.bin")))
        } else {
            Ok(None)
        }
    } else if bins.len() == 1 {
        Ok(Some(bins[0].clone()))
    } else {
        Err(String::from_str(
            "Could not determine the correct RISC-V bootloader. Please ensure that there are not multiple `.bin` files in your VM directory.",
        ))
    }
}

/// The boot description and arguments of a RISC-V guest with the
/// bootloader that was found, if any.
pub fn riscv_boot_args(bios: Option<String>) -> (r: (String, Option<Vec<String>>))
    ensures
        match bios {
            Some(b) => r.0@ == "Boot: EFI (RISC-V), Bootloader: "@ + b@ && (r.1 matches Some(v) && views(v@) == seq!["-kernel"@, b@]),
            None => r.0@ == "Boot: EFI (RISC-V). \x1b[31mWARNING\x1b[0m: Could not find bootloader in your VM directory. VM may fail to boot. Read more: {PLACEHOLDER}"@
                && r.1 is None,
        },
{
    match bios {
        Some(b) => {
            let mut m = String::from_str("Boot: EFI (RISC-V), Bootloader: ");
            m.append(b.as_str());
            let mut v: Vec<String> = Vec::new();
            push_arg(&mut v, "-kernel");
            push_string(&mut v, b);
            assert(views(v@) =~= seq!["-kernel"@, bios->Some_0@]);
            (m, Some(v))
        },
        None => (String::from_str(
            "Boot: EFI (RISC-V). \x1b[31mWARNING\x1b[0m: Could not find bootloader in your VM directory. VM may fail to boot. Read more: {PLACEHOLDER}",
        ), None),
    }
}

/// The firmware that macOS guests bring: `OVMF_CODE.fd` and the first of
/// `OVMF_VARS-1024x768.fd` and `OVMF_VARS-1920x1080.fd` that exists.
pub fn mac_firmware(vm_dir: &str, code_exists: bool, vars_1024_exists: bool, vars_1920_exists: bool) -> (r: Result<(String, String), String>)
    ensures
        !code_exists ==> (r matches Err(m) && m@ == "macOS firmware \"OVMF_CODE.fd\" could not be found."@),
        code_exists && !vars_1024_exists && !vars_1920_exists ==> (r matches Err(m) && m@ == "macOS EFI VARS could not be found."@),
        code_exists && (vars_1024_exists || vars_1920_exists) ==> (r matches Ok((c, v))
            && c@ == join_path(vm_dir@, "OVMF_CODE.fd"@)
            && v@ == join_path(vm_dir@, if vars_1024_exists { "OVMF_VARS-1024x768.fd"@ } else { "OVMF_VARS-1920x1080.fd"@ })),
{
    if !code_exists {
        return Err(String::from_str("macOS firmware \"OVMF_CODE.fd\" could not be found."));
    }
    let code = path_join(vm_dir, "OVMF_CODE.fd");
    if vars_1024_exists {
        Ok((code, path_join(vm_dir, "OVMF_VARS-1024x768.fd")))
    } else if vars_1920_exists {
        Ok((code, path_join(vm_dir, "OVMF_VARS-1920x1080.fd")))
    } else {
        Err(String::from_str("macOS EFI VARS could not be found."))
    }
}

/// Why QEMU's firmware was not found for a guest.
pub open spec fn spec_missing_firmware(arch: Arch, secure_boot: bool) -> Seq<char> {
    if arch == Arch::aarch64 {
        "Firmware for aarch64 could not be found."@
    } else if secure_boot {
        "Secure Boot capable firmware could not be found."@
    } else {
        "EFI firmware could not be found. Please install OVMF firmware."@
    }
}

/// Why QEMU's firmware was not found for a guest.
pub fn missing_firmware(arch: Arch, secure_boot: bool) -> (r: String)
    ensures
        r@ == spec_missing_firmware(arch, secure_boot),
{
    if arch == Arch::aarch64 {
        String::from_str("Firmware for aarch64 could not be found.")
    } else if secure_boot {
        String::from_str("Secure Boot capable firmware could not be found.")
    } else {
        String::from_str("EFI firmware could not be found. Please install OVMF firmware.")
    }
}

/// The boot description and arguments of an EFI guest with its firmware
/// code and variables: AArch64 guests get block devices, x86_64 guests
/// flash drives.
pub open spec fn spec_efi_args(arch: Arch, secure_boot: bool, code: Seq<char>, vars: Seq<char>) -> (Seq<char>, Seq<Seq<char>>) {
    if arch == Arch::aarch64 {
        ("Boot: EFI (aarch64), OVMF: "@ + code,
            seq!["-blockdev"@, "node-name=rom,driver=file,filename="@ + code + ",read-only=true"@,
                "-blockdev"@, "node-name=efivars,driver=file,filename="@ + vars])
    } else {
        ("Boot: EFI (x86_64), OVMF: "@ + code + ", Secure Boot: "@ + secure_boot.spec_as_str(),
            seq!["-global"@, "driver=cfi.pflash01,property=secure,value=on"@,
                "-drive"@, "if=pflash,format=raw,unit=0,file="@ + code + ",readonly=on"@,
                "-drive"@, "if=pflash,format=raw,unit=1,file="@ + vars])
    }
}

/// EFI firmware goes where QEMU boots it: on x86_64 the firmware code is
/// the first flash drive (unit 0), read-only, and the variables the second
/// (unit 1); on AArch64 the code is the read-only `rom` block device and
/// the variables the `efivars` one.
pub proof fn law_legacy_firmware_places(arch: Arch, secure_boot: bool, code: Seq<char>, vars: Seq<char>)
    ensures
        arch != Arch::aarch64 ==> spec_efi_args(arch, secure_boot, code, vars).1 == seq!["-global"@,
            "driver=cfi.pflash01,property=secure,value=on"@,
            "-drive"@, "if=pflash,format=raw,unit=0,file="@ + code + ",readonly=on"@,
            "-drive"@, "if=pflash,format=raw,unit=1,file="@ + vars],
        arch == Arch::aarch64 ==> spec_efi_args(arch, secure_boot, code, vars).1 == seq![
            "-blockdev"@, "node-name=rom,driver=file,filename="@ + code + ",read-only=true"@,
            "-blockdev"@, "node-name=efivars,driver=file,filename="@ + vars],
{
}

/// The boot description and arguments of an EFI guest.
pub fn efi_args(arch: Arch, secure_boot: bool, code: &str, vars: &str) -> (r: (String, Vec<String>))
    ensures
        (r.0@, views(r.1@)) == spec_efi_args(arch, secure_boot, code@, vars@),
{
    let mut a: Vec<String> = Vec::new();
    if arch == Arch::aarch64 {
        let mut m = String::from_str("Boot: EFI (aarch64), OVMF: ");
        m.append(code);
        push_arg(&mut a, "-blockdev");
        let mut c = String::from_str("node-name=rom,driver=file,filename=");
        c.append(code);
        c.append(",read-only=true");
        push_string(&mut a, c);
        push_arg(&mut a, "-blockdev");
        let mut v = String::from_str("node-name=efivars,driver=file,filename=");
        v.append(vars);
        push_string(&mut a, v);
        assert(views(a@) =~= spec_efi_args(arch, secure_boot, code@, vars@).1);
        (m, a)
    } else {
        let mut m = String::from_str("Boot: EFI (x86_64), OVMF: ");
        m.append(code);
        m.append(", Secure Boot: ");
        m.append(secure_boot.as_str());
        push_arg(&mut a, "-global");
        push_arg(&mut a, "driver=cfi.pflash01,property=secure,value=on");
        push_arg(&mut a, "-drive");
        let mut c = String::from_str("if=pflash,format=raw,unit=0,file=");
        c.append(code);
        c.append(",readonly=on");
        push_string(&mut a, c);
        push_arg(&mut a, "-drive");
        let mut v = String::from_str("if=pflash,format=raw,unit=1,file=");
        v.append(vars);
        push_string(&mut a, v);
        assert(views(a@) =~= spec_efi_args(arch, secure_boot, code@, vars@).1);
        (m, a)
    }
}

/// What the host says about a guest's boot files: the files of
/// `<vm_dir>/boot` and then of `vm_dir` (for a RISC-V bootloader), whether
/// U-Boot is installed, whether a macOS guest's `OVMF_CODE.fd`,
/// `OVMF_VARS-1024x768.fd` and `OVMF_VARS-1920x1080.fd` exist, whether
/// the code and variables of each firmware candidate (see
/// `legacy_firmware`, under `/usr/share`) both exist, and, for the first
/// candidate that does, the canonical path of its code once its variables
/// were copied to `<vm_dir>/OVMF_VARS.fd` where needed (or why that
/// failed).
pub struct LegacyBootHost {
    pub riscv_files: Vec<String>,
    pub uboot_exists: bool,
    pub mac_code_exists: bool,
    pub mac_vars_exist: (bool, bool),
    pub firmware_present: Vec<bool>,
    pub firmware_code: Result<String, String>,
}

/// The boot description and arguments of a RISC-V guest.
pub open spec fn spec_riscv_boot(files: Seq<String>, uboot_exists: bool) -> Result<(Seq<char>, Option<Seq<Seq<char>>>), Seq<char>> {
    let bins = files.filter(|f: String| has_bin_extension(f@));
    let bios: Option<Seq<char>> = if bins.len() == 0 {
        if uboot_exists { Some(spec_riscv64_uboot()) } else { None }
    } else {
        Some(bins[0]@)
    };
    if bins.len() > 1 {
        Err(spec_riscv_bios_error())
    } else {
        match bios {
            Some(b) => Ok(("Boot: EFI (RISC-V), Bootloader: "@ + b, Some(seq!["-kernel"@, b]))),
            None => Ok(("Boot: EFI (RISC-V). \x1b[31mWARNING\x1b[0m: Could not find bootloader in your VM directory. VM may fail to boot. Read more: {PLACEHOLDER}"@, None)),
        }
    }
}

/// The boot description and arguments of an EFI guest, as an outcome.
pub open spec fn spec_efi_boot(arch: Arch, secure_boot: bool, code: Seq<char>, vars: Seq<char>)
    -> Result<(Seq<char>, Option<Seq<Seq<char>>>), Seq<char>> {
    Ok((spec_efi_args(arch, secure_boot, code, vars).0, Some(spec_efi_args(arch, secure_boot, code, vars).1)))
}

impl BootType {
    /// The boot description and arguments of a guest in `vm_dir`, or why
    /// it cannot boot: see `spec_plan` for which firmware it needs.
    pub open spec fn spec_to_args(self, vm_dir: Seq<char>, guest: GuestOS, arch: Arch, host: LegacyBootHost)
        -> Result<(Seq<char>, Option<Seq<Seq<char>>>), Seq<char>> {
        match self.spec_plan(guest, arch) {
            Err(m) => Err(m),
            Ok(LegacyBootPlan::Riscv) => spec_riscv_boot(host.riscv_files@, host.uboot_exists),
            Ok(LegacyBootPlan::Bios) => Ok(("Boot: Legacy/BIOS"@, None)),
            Ok(LegacyBootPlan::MacEfi) => if !host.mac_code_exists {
                Err("macOS firmware \"OVMF_CODE.fd\" could not be found."@)
            } else if !host.mac_vars_exist.0 && !host.mac_vars_exist.1 {
                Err("macOS EFI VARS could not be found."@)
            } else {
                spec_efi_boot(arch, false, join_path(vm_dir, "OVMF_CODE.fd"@),
                    join_path(vm_dir, if host.mac_vars_exist.0 { "OVMF_VARS-1024x768.fd"@ } else { "OVMF_VARS-1920x1080.fd"@ }))
            },
            Ok(LegacyBootPlan::StdEfi { secure_boot }) => if !host.firmware_present@.contains(true) {
                Err(spec_missing_firmware(arch, secure_boot))
            } else {
                match host.firmware_code {
                    Err(e) => Err(e@),
                    Ok(c) => spec_efi_boot(arch, secure_boot, c@, join_path(vm_dir, "OVMF_VARS.fd"@)),
                }
            },
        }
    }

    /// The boot description and arguments of a guest in `vm_dir`, or why
    /// it cannot boot.
    pub fn to_args(&self, vm_dir: &str, guest_os: &GuestOS, arch: &Arch, host: &LegacyBootHost)
        -> (r: Result<(String, Option<Vec<String>>), String>)
        ensures
            match self.spec_to_args(vm_dir@, *guest_os, *arch, *host) {
                Ok((text, args)) => r matches Ok((t, a)) && t@ == text && crate::legacy::launch::opt_views(a) == args,
                Err(m) => r matches Err(e) && e@ == m,
            },
    {
        let plan = match self.plan(guest_os, arch) {
            Ok(p) => p,
            Err(e) => return Err(e),
        };
        match plan {
            LegacyBootPlan::Riscv => {
                let bios = match find_riscv_bios(&host.riscv_files, host.uboot_exists) {
                    Ok(b) => b,
                    Err(e) => return Err(e),
                };
                Ok(riscv_boot_args(bios))
            },
            LegacyBootPlan::Bios => Ok((String::from_str("Boot: Legacy/BIOS"), None)),
            LegacyBootPlan::MacEfi => {
                let (code, vars) = match mac_firmware(vm_dir, host.mac_code_exists, host.mac_vars_exist.0, host.mac_vars_exist.1) {
                    Ok(f) => f,
                    Err(e) => return Err(e),
                };
                let (t, a) = efi_args(*arch, false, code.as_str(), vars.as_str());
                Ok((t, Some(a)))
            },
            LegacyBootPlan::StdEfi { secure_boot } => {
                if !contains_true(&host.firmware_present) {
                    return Err(missing_firmware(*arch, secure_boot));
                }
                let code = match &host.firmware_code {
                    Ok(c) => c,
                    Err(e) => return Err(e.clone()),
                };
                let vars = path_join(vm_dir, "OVMF_VARS.fd");
                let (t, a) = efi_args(*arch, secure_boot, code.as_str(), vars.as_str());
                Ok((t, Some(a)))
            },
        }
    }
}

/// Whether any flag is set.
pub fn contains_true(v: &Vec<bool>) -> (r: bool)
    ensures
        r == v@.contains(true),
{
    let mut i: usize = 0;
    while i < v.len()
        invariant
            i <= v@.len(),
            forall|j: int| 0 <= j < i ==> !v@[j],
        decreases v.len() - i,
    {
        if v[i] {
            assert(v@[i as int] == true);
            return true;
        }
        i = i + 1;
    }
    false
}

/// The SSH forwarding and its note of a found host port.
pub open spec fn spec_ssh(port: Option<u16>) -> (Seq<char>, Seq<char>) {
    match port {
        Some(p) => (",hostfwd=tcp::"@ + decimal(p as nat) + "-:22"@, ", SSH (On host): ssh {user}@localhost -p "@ + decimal(p as nat)),
        None => (seq![], seq![]),
    }
}

/// The TCP and UDP forwarding of port forwards.
pub open spec fn spec_pf_args(f: Seq<PortForward>) -> Seq<char>
    decreases f.len(),
{
    if f.len() == 0 {
        seq![]
    } else {
        let p = f.last();
        spec_pf_args(f.drop_last()) + ",hostfwd=tcp::"@ + decimal(p.host as nat) + "-:"@ + decimal(p.guest as nat)
            + ",hostfwd=udp::"@ + decimal(p.host as nat) + "-:"@ + decimal(p.guest as nat)
    }
}

/// The TCP forwarding of one port forward: the host's port before `-:`,
/// the guest's after it.
pub open spec fn legacy_tcp_fwd(p: PortForward) -> Seq<char> {
    ",hostfwd=tcp::"@ + decimal(p.host as nat) + "-:"@ + decimal(p.guest as nat)
}

/// The UDP forwarding of one port forward: the host's port before `-:`,
/// the guest's after it.
pub open spec fn legacy_udp_fwd(p: PortForward) -> Seq<char> {
    ",hostfwd=udp::"@ + decimal(p.host as nat) + "-:"@ + decimal(p.guest as nat)
}

/// The `i`th port forward is in the forwarding text, for TCP and UDP.
proof fn lemma_pf_hold_at(f: Seq<PortForward>, i: int)
    requires
        0 <= i < f.len(),
    ensures
        has_part(spec_pf_args(f), legacy_tcp_fwd(f[i])),
        has_part(spec_pf_args(f), legacy_udp_fwd(f[i])),
    decreases f.len(),
{
    let d = f.drop_last();
    let tcp = legacy_tcp_fwd(f.last());
    let udp = legacy_udp_fwd(f.last());
    assert(spec_pf_args(f) =~= spec_pf_args(d) + tcp + udp);
    if i == f.len() - 1 {
        lemma_has_part_self(tcp);
        lemma_has_part_self(udp);
        lemma_has_part_extend(spec_pf_args(d), tcp, udp, tcp);
        lemma_has_part_extend(spec_pf_args(d) + tcp, udp, seq![], udp);
        assert(spec_pf_args(d) + tcp + udp + Seq::<char>::empty() =~= spec_pf_args(f));
    } else {
        lemma_pf_hold_at(d, i);
        assert(f[i] == d[i]);
        lemma_has_part_extend(seq![], spec_pf_args(d), tcp + udp, legacy_tcp_fwd(f[i]));
        lemma_has_part_extend(seq![], spec_pf_args(d), tcp + udp, legacy_udp_fwd(f[i]));
        assert(Seq::<char>::empty() + spec_pf_args(d) + (tcp + udp) =~= spec_pf_args(f));
    }
}

/// A user network forwards every port forward from the host's port to the
/// guest's, over TCP and UDP: its `-netdev` option holds
/// `,hostfwd=tcp::<host>-:<guest>` and `,hostfwd=udp::<host>-:<guest>`
/// for each of them.
pub proof fn law_legacy_port_forwards_host_to_guest(net: Network, vmname: Seq<char>, ssh_port: Option<u16>,
    f: Seq<PortForward>, publicdir: Option<Seq<char>>, guest_os: GuestOS, smbd_found: bool, bridge_exists: bool)
    requires
        net == Network::Nat || net == Network::Restrict,
    ensures
        spec_network_args(net, vmname, ssh_port, Some(f), publicdir, guest_os, smbd_found, bridge_exists) is Some,
        spec_network_args(net, vmname, ssh_port, Some(f), publicdir, guest_os, smbd_found, bridge_exists)->Some_0.0.len() == 4,
        spec_network_args(net, vmname, ssh_port, Some(f), publicdir, guest_os, smbd_found, bridge_exists)->Some_0.0[0] == "-netdev"@,
        forall|i: int| 0 <= i < f.len() ==> has_part(
            spec_network_args(net, vmname, ssh_port, Some(f), publicdir, guest_os, smbd_found, bridge_exists)->Some_0.0[1],
            #[trigger] legacy_tcp_fwd(f[i])),
        forall|i: int| 0 <= i < f.len() ==> has_part(
            spec_network_args(net, vmname, ssh_port, Some(f), publicdir, guest_os, smbd_found, bridge_exists)->Some_0.0[1],
            #[trigger] legacy_udp_fwd(f[i])),
{
    reveal(spec_network_args);
    let (ssh_arg, _) = spec_ssh(ssh_port);
    let samba = if smbd_found && publicdir is Some { ",smb="@ + publicdir->Some_0 } else { seq![] };
    let restrict = net == Network::Restrict;
    let front = "user,hostname="@ + vmname + ssh_arg;
    let back = samba + (if restrict { ",restrict=y"@ } else { seq![] }) + ",id=nic"@;
    let a = spec_network_args(net, vmname, ssh_port, Some(f), publicdir, guest_os, smbd_found, bridge_exists)->Some_0.0;
    assert(a[1] =~= front + spec_pf_args(f) + back);
    assert forall|i: int| 0 <= i < f.len() implies #[trigger] has_part(a[1], legacy_tcp_fwd(f[i])) by {
        lemma_pf_hold_at(f, i);
        lemma_has_part_extend(front, spec_pf_args(f), back, legacy_tcp_fwd(f[i]));
    }
    assert forall|i: int| 0 <= i < f.len() implies #[trigger] has_part(a[1], legacy_udp_fwd(f[i])) by {
        lemma_pf_hold_at(f, i);
        lemma_has_part_extend(front, spec_pf_args(f), back, legacy_udp_fwd(f[i]));
    }
}

/// How each port forward is shown.
pub open spec fn spec_pf_texts(f: Seq<PortForward>) -> Seq<Seq<char>> {
    f.map_values(|p: PortForward| decimal(p.host as nat) + " => "@ + decimal(p.guest as nat))
}

/// The forwarding of port forwards, and how they are shown.
pub fn port_forward_args(f: &Vec<PortForward>) -> (r: (String, String))
    ensures
        r.0@ == spec_pf_args(f@),
        r.1@ == "Port forwards: "@ + seq_join(spec_pf_texts(f@), ", "@),
{
    let mut a = String::new();
    let mut texts: Vec<String> = Vec::new();
    let mut i: usize = 0;
    while i < f.len()
        invariant
            i <= f@.len(),
            a@ == spec_pf_args(f@.subrange(0, i as int)),
            views(texts@) == spec_pf_texts(f@.subrange(0, i as int)),
        decreases f.len() - i,
    {
        let p = f[i];
        let h = u64_to_string(p.host as u64);
        let g = u64_to_string(p.guest as u64);
        a.append(",hostfwd=tcp::");
        a.append(h.as_str());
        a.append("-:");
        a.append(g.as_str());
        a.append(",hostfwd=udp::");
        a.append(h.as_str());
        a.append("-:");
        a.append(g.as_str());
        let mut t = h.clone();
        t.append(" => ");
        t.append(g.as_str());
        push_string(&mut texts, t);
        assert(f@.subrange(0, i + 1).drop_last() =~= f@.subrange(0, i as int));
        assert(spec_pf_texts(f@.subrange(0, i + 1)) =~= spec_pf_texts(f@.subrange(0, i as int)).push(
            decimal(p.host as nat) + " => "@ + decimal(p.guest as nat)));
        i = i + 1;
    }
    assert(f@.subrange(0, f@.len() as int) =~= f@);
    let j = crate::text::join(&texts, ", ");
    let mut m = String::from_str("Port forwards: ");
    m.append(j.as_str());
    (a, m)
}

/// The network arguments and notes of a guest (see `Network::into_args`);
/// none where a bridge is missing.
#[verifier::opaque]
pub open spec fn spec_network_args(net: Network, vmname: Seq<char>, ssh_port: Option<u16>, port_forwards: Option<Seq<PortForward>>,
    publicdir: Option<Seq<char>>, guest_os: GuestOS, smbd_found: bool, bridge_exists: bool) -> Option<(Seq<Seq<char>>, Seq<Seq<char>>)>
{
    match net {
        Network::Disabled => Some((seq!["-nic"@, "none"@], seq!["Network: Disabled"@])),
        Network::Bridged { bridge, mac_addr } => if !bridge_exists {
            None
        } else {
            Some((seq!["-nic"@, "bridge,br="@ + bridge@ + match mac_addr { Some(x) => ",mac="@ + x@, None => seq![] }],
                seq!["Network: Bridged ("@ + bridge@ + ")"@]))
        },
        _ => {
            let restrict = net == Network::Restrict;
            let device = guest_os.spec_net_device();
            let (ssh_arg, ssh_msg) = spec_ssh(ssh_port);
            let pf = match port_forwards { Some(f) => spec_pf_args(f), None => seq![] };
            let samba = if smbd_found && publicdir is Some { ",smb="@ + publicdir->Some_0 } else { seq![] };
            let host = "user,hostname="@ + vmname + ssh_arg + pf + samba;
            Some((seq!["-netdev"@, host + (if restrict { ",restrict=y"@ } else { seq![] }) + ",id=nic"@,
                    "-device"@, device + ",netdev=nic"@],
                seq!["Network: "@ + (if restrict { "Restricted"@ } else { "User"@ }) + " ("@ + device + ")"@ + ssh_msg]
                    + (match port_forwards { Some(f) => seq!["Port forwards: "@ + seq_join(spec_pf_texts(f), ", "@)], None => seq![] })
                    + (if smbd_found && publicdir is Some { seq!["smbd on guest: `smb://10.0.2.4/qemu`"@] } else { seq![] })))
        },
    }
}

impl Network {
    /// The network arguments and notes of a guest, given the free SSH port
    /// that was found (if any), whether `smbd` was found, and whether a
    /// bridge exists on the host (a missing one is refused). A NAT network
    /// forwards SSH and the configured ports and shares the public
    /// directory over Samba where `smbd` exists.
    pub fn into_args(self, vmname: &str, ssh_port: Option<u16>, port_forwards: Option<Vec<PortForward>>, publicdir: Option<String>,
        guest_os: &GuestOS, smbd_found: bool, bridge_exists: bool) -> (r: Result<(Vec<String>, Option<Vec<String>>), String>)
        ensures
            match spec_network_args(self, vmname@, ssh_port, match port_forwards { Some(f) => Some(f@), None => None },
                crate::data::io::opt_view(&publicdir), *guest_os, smbd_found, bridge_exists) {
                Some((sa, sm)) => r matches Ok((a, Some(m))) && views(a@) == sa && views(m@) == sm,
                None => r is Err,
            },
    {
        proof {
            reveal(spec_network_args);
        }
        match self {
            Network::Disabled => {
                let mut a: Vec<String> = Vec::new();
                push_arg(&mut a, "-nic");
                push_arg(&mut a, "none");
                let mut m: Vec<String> = Vec::new();
                push_arg(&mut m, "Network: Disabled");
                assert(views(a@) =~= seq!["-nic"@, "none"@]);
                assert(views(m@) =~= seq!["Network: Disabled"@]);
                Ok((a, Some(m)))
            },
            Network::Bridged { bridge, mac_addr } => {
                if !bridge_exists {
                    let mut e = String::from_str("Network interface ");
                    e.append(bridge.as_str());
                    e.append(" could not be found.");
                    return Err(e);
                }
                let mut nic = String::from_str("bridge,br=");
                nic.append(bridge.as_str());
                let ghost base = nic@;
                match &mac_addr {
                    Some(x) => {
                        nic.append(",mac=");
                        nic.append(x.as_str());
                    },
                    None => {},
                }
                assert(nic@ =~= base + match mac_addr { Some(x) => ",mac="@ + x@, None => seq![] });
                let mut a: Vec<String> = Vec::new();
                push_arg(&mut a, "-nic");
                push_string(&mut a, nic);
                let mut t = String::from_str("Network: Bridged (");
                t.append(bridge.as_str());
                t.append(")");
                let mut m: Vec<String> = Vec::new();
                push_string(&mut m, t);
                Ok((a, Some(m)))
            },
            _ => {
                let restrict = matches!(self, Network::Restrict);
                let device = guest_os.net_device();
                let mut net = String::from_str("user,hostname=");
                net.append(vmname);
                let mut first = String::from_str("Network: ");
                first.append(if restrict { "Restricted" } else { "User" });
                first.append(" (");
                first.append(device);
                first.append(")");
                let ghost net0 = net@;
                let ghost first0 = first@;
                match ssh_port {
                    Some(p) => {
                        let ps = u64_to_string(p as u64);
                        net.append(",hostfwd=tcp::");
                        net.append(ps.as_str());
                        net.append("-:22");
                        first.append(", SSH (On host): ssh {user}@localhost -p ");
                        first.append(ps.as_str());
                    },
                    None => {},
                }
                assert(net@ =~= net0 + spec_ssh(ssh_port).0);
                assert(first@ =~= first0 + spec_ssh(ssh_port).1);
                let mut msgs: Vec<String> = Vec::new();
                push_string(&mut msgs, first);
                let ghost m1 = views(msgs@);
                let ghost n1 = net@;
                match &port_forwards {
                    Some(f) => {
                        let (pa, pm) = port_forward_args(f);
                        net.append(pa.as_str());
                        push_string(&mut msgs, pm);
                    },
                    None => {},
                }
                let ghost n2 = net@;
                let ghost m2 = views(msgs@);
                assert(n2 =~= n1 + match port_forwards { Some(f) => spec_pf_args(f@), None => seq![] });
                assert(m2 =~= m1 + (match port_forwards { Some(f) => seq!["Port forwards: "@ + seq_join(spec_pf_texts(f@), ", "@)], None => seq![] }));
                if smbd_found {
                    match &publicdir {
                        Some(d) => {
                            push_arg(&mut msgs, "smbd on guest: `smb://10.0.2.4/qemu`");
                            net.append(",smb=");
                            net.append(d.as_str());
                        },
                        None => {},
                    }
                }
                let ghost samba = if smbd_found && publicdir is Some { ",smb="@ + publicdir->Some_0@ } else { seq![] };
                assert(net@ =~= n2 + samba);
                if restrict {
                    net.append(",restrict=y");
                }
                net.append(",id=nic");
                let mut dev = String::from_str(device);
                dev.append(",netdev=nic");
                let mut a: Vec<String> = Vec::new();
                push_arg(&mut a, "-netdev");
                push_string(&mut a, net);
                push_arg(&mut a, "-device");
                push_string(&mut a, dev);
                assert(views(msgs@) =~= m2 + (if smbd_found && publicdir is Some { seq!["smbd on guest: `smb://10.0.2.4/qemu`"@] } else { seq![] }));
                Ok((a, Some(msgs)))
            },
        }
    }
}

impl PublicDir {
    /// The directory that is shared: none; the user's public directory
    /// (`public`), unless it is their home directory (`home`); or the
    /// chosen one, which must exist (`custom_exists`).
    pub fn resolve(self, public: Option<String>, home: Option<String>, custom_exists: bool) -> (r: Result<Option<String>, String>)
        ensures
            match self {
                PublicDir::Disabled => r matches Ok(None),
                PublicDir::Default => r matches Ok(d) && (match (public, home) {
                    (Some(p), Some(h)) => if p@ == h@ { d is None } else { d matches Some(x) && x@ == p@ },
                    (Some(p), None) => d matches Some(x) && x@ == p@,
                    (None, _) => d is None,
                }),
                PublicDir::Custom(dir) => if custom_exists { r matches Ok(Some(x)) && x@ == dir@ } else { r is Err },
            },
    {
        match self {
            PublicDir::Disabled => Ok(None),
            PublicDir::Default => match (public, home) {
                (Some(p), Some(h)) => if crate::text::str_eq(p.as_str(), h.as_str()) { Ok(None) } else { Ok(Some(p)) },
                (Some(p), None) => Ok(Some(p)),
                (None, _) => Ok(None),
            },
            PublicDir::Custom(dir) => {
                if custom_exists {
                    Ok(Some(dir))
                } else {
                    let mut m = String::from_str("Chosen public directory ");
                    m.append(dir.as_str());
                    m.append(" does not exist.");
                    Err(m)
                }
            },
        }
    }
}

/// The socket of a guest's TPM: `<vm_dir>/<vm_name>.swtpm-sock`.
pub open spec fn spec_legacy_tpm_socket(vm_dir: Seq<char>, vm_name: Seq<char>) -> Seq<char> {
    join_path(vm_dir, vm_name + ".swtpm-sock"@)
}

/// The arguments that `swtpm` is started with for a guest.
pub fn tpm_swtpm_args(vm_dir: &str, vm_name: &str) -> (r: Vec<String>)
    ensures
        views(r@) == seq!["socket"@, "--ctrl"@, "type=unixio,path="@ + spec_legacy_tpm_socket(vm_dir@, vm_name@), "--terminate"@,
            "--tpmstate"@, "dir="@ + vm_dir@, "--tpm2"@],
{
    let mut n = String::from_str(vm_name);
    n.append(".swtpm-sock");
    let socket = path_join(vm_dir, n.as_str());
    let mut ctrl = String::from_str("type=unixio,path=");
    ctrl.append(socket.as_str());
    let mut state = String::from_str("dir=");
    state.append(vm_dir);
    let mut a: Vec<String> = Vec::new();
    push_arg(&mut a, "socket");
    push_arg(&mut a, "--ctrl");
    push_string(&mut a, ctrl);
    push_arg(&mut a, "--terminate");
    push_arg(&mut a, "--tpmstate");
    push_string(&mut a, state);
    push_arg(&mut a, "--tpm2");
    assert(views(a@) =~= seq!["socket"@, "--ctrl"@, "type=unixio,path="@ + spec_legacy_tpm_socket(vm_dir@, vm_name@), "--terminate"@,
        "--tpmstate"@, "dir="@ + vm_dir@, "--tpm2"@]);
    a
}

/// The QEMU arguments of a guest's TPM once `swtpm` runs with process id
/// `pid`, and its note.
pub fn tpm_args(vm_dir: &str, vm_name: &str, pid: u32) -> (r: (Vec<String>, String))
    ensures
        views(r.0@) == seq!["-chardev"@, "socket,id=chrtpm,path="@ + spec_legacy_tpm_socket(vm_dir@, vm_name@),
            "-tpmdev"@, "emulator,id=tpm0,chardev=chrtpm"@, "-device"@, "tpm-tis,tpmdev=tpm0"@],
        r.1@ == "TPM: "@ + spec_legacy_tpm_socket(vm_dir@, vm_name@) + " (pid: "@ + decimal(pid as nat) + ")"@,
{
    let mut n = String::from_str(vm_name);
    n.append(".swtpm-sock");
    let socket = path_join(vm_dir, n.as_str());
    let mut print = String::from_str("TPM: ");
    print.append(socket.as_str());
    print.append(" (pid: ");
    let p = u64_to_string(pid as u64);
    print.append(p.as_str());
    print.append(")");
    let mut s = String::from_str("socket,id=chrtpm,path=");
    s.append(socket.as_str());
    let mut a: Vec<String> = Vec::new();
    push_arg(&mut a, "-chardev");
    push_string(&mut a, s);
    push_arg(&mut a, "-tpmdev");
    push_arg(&mut a, "emulator,id=tpm0,chardev=chrtpm");
    push_arg(&mut a, "-device");
    push_arg(&mut a, "tpm-tis,tpmdev=tpm0");
    assert(views(a@) =~= seq!["-chardev"@, "socket,id=chrtpm,path="@ + spec_legacy_tpm_socket(vm_dir@, vm_name@),
        "-tpmdev"@, "emulator,id=tpm0,chardev=chrtpm"@, "-device"@, "tpm-tis,tpmdev=tpm0"@]);
    (a, print)
}

/// The core count a guest runs with: macOS guests want a power of two and
/// round down to one.
pub open spec fn spec_guest_cores(cores: usize, guest: GuestOS) -> nat {
    if guest is MacOS && !is_power_of_two(cores as nat) {
        (choose|n: nat| is_next_power_of_two(n, cores as nat)) / 2
    } else {
        cores as nat
    }
}

/// The core count a guest runs with (see `spec_guest_cores`).
pub fn guest_cores(cores: usize, guest_os: &GuestOS) -> (r: usize)
    requires
        1 <= cores <= usize::MAX / 2 + 1,
    ensures
        r == spec_guest_cores(cores, *guest_os),
{
    if let GuestOS::MacOS { .. } = guest_os {
        let (next, exact) = next_power_of_two(cores);
        if !exact {
            proof {
                let n = choose|n: nat| is_next_power_of_two(n, cores as nat);
                lemma_next_power_unique(n, next as nat, cores as nat);
            }
            return next / 2;
        }
    }
    cores
}

/// The `-smp` value and the note of a core count, with paired threads or
/// not, and a socket count.
pub open spec fn spec_smp(cores: nat, smt: bool, sockets: nat) -> (Seq<char>, Seq<char>) {
    if cores > 1 && smt {
        ("cores="@ + decimal(cores / 2) + ",threads=2,sockets="@ + decimal(sockets),
            decimal(cores / 2) + " core"@ + (if cores > 2 { "s"@ } else { seq![] }) + " and "@ + decimal(cores) + " threads"@)
    } else {
        ("cores="@ + decimal(cores) + ",threads=1,sockets="@ + decimal(sockets),
            decimal(cores) + " core"@ + (if cores > 1 { "s"@ } else { seq![] }))
    }
}

/// The `-smp` value runs as many threads as the guest has cores: with
/// paired threads (and more than one core) half as many cores of two
/// threads, the odd one left out, else one thread per core; the sockets
/// are given as they are.
pub proof fn law_legacy_smp_threads(cores: nat, smt: bool, sockets: nat)
    ensures
        ({
            let t: nat = if cores > 1 && smt { 2 } else { 1 };
            let k: nat = cores / t;
            &&& spec_smp(cores, smt, sockets).0 == "cores="@ + decimal(k)
                + (if t == 2 { ",threads=2,sockets="@ } else { ",threads=1,sockets="@ }) + decimal(sockets)
            &&& k * t <= cores < k * t + t
        }),
{
    let t: nat = if cores > 1 && smt { 2 } else { 1 };
    let k: nat = cores / t;
    assert(spec_smp(cores, smt, sockets).0 =~= "cores="@ + decimal(k)
        + (if t == 2 { ",threads=2,sockets="@ } else { ",threads=1,sockets="@ }) + decimal(sockets));
}

/// The `-smp` value and the note of a core count.
pub fn smp_text(cores: usize, smt: bool, sockets: usize) -> (r: (String, String))
    ensures
        (r.0@, r.1@) == spec_smp(cores as nat, smt, sockets as nat),
{
    let ss = usize_to_string(sockets);
    if cores > 1 && smt {
        let ps = usize_to_string(cores / 2);
        let cs = usize_to_string(cores);
        let mut smp = String::from_str("cores=");
        smp.append(ps.as_str());
        smp.append(",threads=2,sockets=");
        smp.append(ss.as_str());
        let mut t = ps.clone();
        t.append(" core");
        if cores > 2 {
            t.append("s");
        }
        t.append(" and ");
        t.append(cs.as_str());
        t.append(" threads");
        (smp, t)
    } else {
        let cs = usize_to_string(cores);
        let mut smp = String::from_str("cores=");
        smp.append(cs.as_str());
        smp.append(",threads=1,sockets=");
        smp.append(ss.as_str());
        let mut t = cs.clone();
        t.append(" core");
        if cores > 1 {
            t.append("s");
        }
        (smp, t)
    }
}

/// The processor and memory arguments of a guest (see `cpucores_ram`),
/// given the host's CPU brands; none where macOS or Windows would get less
/// than 4 GiB.
#[verifier::opaque]
pub open spec fn spec_cpucores_ram_args(cpu: CpuCores, brands: Seq<Seq<char>>, ram: u64, guest_os: GuestOS) -> Option<Seq<Seq<char>>> {
    if ram < 4 * BYTES_PER_GB && (guest_os is MacOS || guest_os == GuestOS::Windows || guest_os == GuestOS::WindowsServer) {
        None
    } else {
        let cores = spec_guest_cores(cpu.cores, guest_os);
        let sockets = dedup_adjacent(brands).len();
        let balloon = !(guest_os matches GuestOS::MacOS { release } && release.spec_rank() < MacOSRelease::BigSur.spec_rank());
        Some(seq!["-smp"@, spec_smp(cores, cpu.smt, sockets).0, "-m"@, decimal(ram as nat) + "b"@]
            + (if balloon { seq!["-device"@, "virtio-balloon"@] } else { seq![] }))
    }
}

/// The note on the processors (the memory amounts follow it).
pub open spec fn spec_cpucores_ram_note(cpu: CpuCores, brands: Seq<Seq<char>>, guest_os: GuestOS) -> Seq<char> {
    let sockets = dedup_adjacent(brands).len();
    "Using "@ + (if sockets == 1 { seq![] } else { decimal(sockets) + "sockets, "@ })
        + spec_smp(spec_guest_cores(cpu.cores, guest_os), cpu.smt, sockets).1 + ", "@
}

/// The processor and memory arguments of a guest, and the start of their
/// note (the memory amounts follow it). macOS and Windows guests need at
/// least 4 GiB; macOS guests round their core count down to a power of
/// two; with paired threads, two threads run on each core; the sockets are
/// the host's distinct CPU brands; all but macOS before Big Sur get a
/// memory balloon.
pub fn cpucores_ram(cpu: CpuCores, brands: &Vec<String>, ram: u64, guest_os: &GuestOS) -> (r: Result<(Vec<String>, String), String>)
    requires
        1 <= cpu.cores <= usize::MAX / 2 + 1,
    ensures
        match spec_cpucores_ram_args(cpu, views(brands@), ram, *guest_os) {
            Some(s) => r matches Ok((a, _)) && views(a@) == s,
            None => r is Err,
        },
        ram < 4 * BYTES_PER_GB && (guest_os is MacOS || *guest_os == GuestOS::Windows || *guest_os == GuestOS::WindowsServer)
            ==> (r matches Err(m) && m@ == guest_os.spec_name() + " guests require at least 4GB of RAM."@),
        !(ram < 4 * BYTES_PER_GB && (guest_os is MacOS || *guest_os == GuestOS::Windows || *guest_os == GuestOS::WindowsServer))
            ==> (r matches Ok((a, m)) && {
                let cores = spec_guest_cores(cpu.cores, *guest_os);
                let sockets = dedup_adjacent(views(brands@)).len();
                let (smp, core_text) = spec_smp(cores, cpu.smt, sockets);
                let balloon = !(guest_os matches GuestOS::MacOS { release } && release.spec_rank() < MacOSRelease::BigSur.spec_rank());
                &&& views(a@) == seq!["-smp"@, smp, "-m"@, decimal(ram as nat) + "b"@]
                    + (if balloon { seq!["-device"@, "virtio-balloon"@] } else { seq![] })
                &&& m@ == "Using "@ + (if sockets == 1 { seq![] } else { decimal(sockets) + "sockets, "@ }) + core_text + ", "@
            }),
        r matches Ok((_, m)) ==> m@ == spec_cpucores_ram_note(cpu, views(brands@), *guest_os),
{
    proof {
        reveal(spec_cpucores_ram_args);
    }
    let needs_4g = matches!(guest_os, GuestOS::MacOS { .. } | GuestOS::Windows | GuestOS::WindowsServer);
    if ram < 4 * BYTES_PER_GB && needs_4g {
        let mut m = String::from_str(guest_os.name());
        m.append(" guests require at least 4GB of RAM.");
        return Err(m);
    }
    let cores = guest_cores(cpu.cores, guest_os);
    let unique = dedup_strings(brands);
    let sockets = unique.len();
    let (smp, core_text) = smp_text(cores, cpu.smt, sockets);
    let mut m = String::from_str("Using ");
    if sockets != 1 {
        let ss = usize_to_string(sockets);
        m.append(ss.as_str());
        m.append("sockets, ");
    }
    m.append(core_text.as_str());
    m.append(", ");
    let mut a: Vec<String> = Vec::new();
    push_arg(&mut a, "-smp");
    push_string(&mut a, smp);
    push_arg(&mut a, "-m");
    let mut rs = u64_to_string(ram);
    rs.append("b");
    push_string(&mut a, rs);
    let ghost s1 = views(a@);
    let old_mac = match guest_os {
        GuestOS::MacOS { release } => !release.at_least(MacOSRelease::BigSur),
        _ => false,
    };
    if !old_mac {
        push_arg(&mut a, "-device");
        push_arg(&mut a, "virtio-balloon");
    }
    assert(views(a@) =~= s1 + (if !old_mac { seq!["-device"@, "virtio-balloon"@] } else { seq![] }));
    Ok((a, m))
}

/// The USB arguments that every guest gets, with the passthrough
/// controller `pass`.
pub open spec fn spec_usb_base_args(pass: Seq<char>) -> Seq<Seq<char>> {
    seq!["-device"@, "virtio-rng-pci,rng=rng0"@, "-object"@, "rng-random,id=rng0,filename=/dev/urandom"@,
        "-device"@, pass + ",id=spicepass"@,
        "-chardev"@, "spicevmc,id=usbredirchardev1,name=usbredir"@, "-device"@, "usb-redir,chardev=usbredirchardev1,id=usbredirdev1"@,
        "-chardev"@, "spicevmc,id=usbredirchardev2,name=usbredir"@, "-device"@, "usb-redir,chardev=usbredirchardev2,id=usbredirdev2"@,
        "-chardev"@, "spicevmc,id=usbredirchardev3,name=usbredir"@, "-device"@, "usb-redir,chardev=usbredirchardev3,id=usbredirdev3"@,
        "-device"@, "pci-ohci,id=smartpass"@, "-device"@, "usb-ccid"@]
}

fn usb_base_args(pass: &str) -> (r: Vec<String>)
    ensures
        views(r@) == spec_usb_base_args(pass@),
{
    let mut a: Vec<String> = Vec::new();
    push_arg(&mut a, "-device");
    push_arg(&mut a, "virtio-rng-pci,rng=rng0");
    push_arg(&mut a, "-object");
    push_arg(&mut a, "rng-random,id=rng0,filename=/dev/urandom");
    push_arg(&mut a, "-device");
    let mut sp = String::from_str(pass);
    sp.append(",id=spicepass");
    push_string(&mut a, sp);
    push_arg(&mut a, "-chardev");
    push_arg(&mut a, "spicevmc,id=usbredirchardev1,name=usbredir");
    push_arg(&mut a, "-device");
    push_arg(&mut a, "usb-redir,chardev=usbredirchardev1,id=usbredirdev1");
    push_arg(&mut a, "-chardev");
    push_arg(&mut a, "spicevmc,id=usbredirchardev2,name=usbredir");
    push_arg(&mut a, "-device");
    push_arg(&mut a, "usb-redir,chardev=usbredirchardev2,id=usbredirdev2");
    push_arg(&mut a, "-chardev");
    push_arg(&mut a, "spicevmc,id=usbredirchardev3,name=usbredir");
    push_arg(&mut a, "-device");
    push_arg(&mut a, "usb-redir,chardev=usbredirchardev3,id=usbredirdev3");
    push_arg(&mut a, "-device");
    push_arg(&mut a, "pci-ohci,id=smartpass");
    push_arg(&mut a, "-device");
    push_arg(&mut a, "usb-ccid");
    assert(views(a@) =~= spec_usb_base_args(pass@));
    a
}

impl USBController {
    /// The USB arguments of a guest: a random number generator, Spice USB
    /// redirection and smartcard passthrough, the input controller, the
    /// smartcard reader (unless QEMU was asked and lacks it: `smartcard`
    /// is whether its device list names one, where it was asked), and
    /// passthrough of the given host devices.
    pub open spec fn spec_to_args(self, guest: GuestOS, smartcard: Option<bool>, usb_devices: Option<Seq<Seq<char>>>) -> Seq<Seq<char>> {
        let pass = if guest matches GuestOS::MacOS { release } && release.spec_rank() < MacOSRelease::BigSur.spec_rank() {
            "usb-ehci"@
        } else {
            "qemu-xhci"@
        };
        spec_usb_base_args(pass)
            + (match self {
                USBController::Ehci => seq!["-device"@, "usb-ehci,id=input"@],
                USBController::Xhci => seq!["-device"@, "qemu-xhci,id=input"@],
                USBController::Disabled => seq![],
            })
            + (if smartcard != Some(false) {
                seq!["-chardev"@, "spicevmc,id=ccid,name=smartcard"@, "-device"@, "ccid-card-passthru,chardev=ccid"@]
            } else {
                seq![]
            })
            + (match usb_devices { Some(d) => seq!["-device"@, pass + ",id=hostpass"@] + d, None => seq![] })
    }

    /// The USB arguments of a guest (see `spec_to_args`).
    pub fn to_args(&self, guest_os: &GuestOS, smartcard: Option<bool>, usb_devices: Option<Vec<String>>) -> (r: Vec<String>)
        ensures
            views(r@) == self.spec_to_args(*guest_os, smartcard, match usb_devices { Some(d) => Some(views(d@)), None => None }),
    {
        let old_mac = match guest_os {
            GuestOS::MacOS { release } => !release.at_least(MacOSRelease::BigSur),
            _ => false,
        };
        let pass: &str = if old_mac { "usb-ehci" } else { "qemu-xhci" };
        let mut a = usb_base_args(pass);
        let ghost s1 = views(a@);
        match self {
            USBController::Ehci => {
                push_arg(&mut a, "-device");
                push_arg(&mut a, "usb-ehci,id=input");
            },
            USBController::Xhci => {
                push_arg(&mut a, "-device");
                push_arg(&mut a, "qemu-xhci,id=input");
            },
            USBController::Disabled => {},
        }
        let ghost s2 = views(a@);
        if smartcard != Some(false) {
            push_arg(&mut a, "-chardev");
            push_arg(&mut a, "spicevmc,id=ccid,name=smartcard");
            push_arg(&mut a, "-device");
            push_arg(&mut a, "ccid-card-passthru,chardev=ccid");
        }
        let ghost s3 = views(a@);
        let ghost dv = match &usb_devices { Some(d) => Some(views(d@)), None => None::<Seq<Seq<char>>> };
        match &usb_devices {
            Some(d) => {
                push_arg(&mut a, "-device");
                let mut hp = String::from_str(pass);
                hp.append(",id=hostpass");
                push_string(&mut a, hp);
                crate::text::extend_args(&mut a, &d);
            },
            None => {},
        }
        proof {
            assert(s2 =~= s1 + (match self {
                USBController::Ehci => seq!["-device"@, "usb-ehci,id=input"@],
                USBController::Xhci => seq!["-device"@, "qemu-xhci,id=input"@],
                USBController::Disabled => seq![],
            }));
            assert(s3 =~= s2 + (if smartcard != Some(false) {
                seq!["-chardev"@, "spicevmc,id=ccid,name=smartcard"@, "-device"@, "ccid-card-passthru,chardev=ccid"@]
            } else {
                seq![]
            }));
            assert(views(a@) =~= s3 + (match dv { Some(d) => seq!["-device"@, (if old_mac { "usb-ehci"@ } else { "qemu-xhci"@ }) + ",id=hostpass"@] + d, None => seq![] }));
            assert(views(a@) =~= self.spec_to_args(*guest_os, smartcard, dv));
        }
        a
    }
}

impl Keyboard {
    /// The keyboard device of the guest: USB, VirtIO, or none for PS/2.
    pub open spec fn spec_to_args(self) -> Seq<Seq<char>> {
        match self {
            Keyboard::Usb => seq!["-device"@, "usb-kbd,bus=input.0"@],
            Keyboard::Virtio => seq!["-device"@, "virtio-keyboard"@],
            Keyboard::PS2 => seq![],
        }
    }

    /// The keyboard device of the guest.
    pub fn to_args(&self) -> (r: Vec<String>)
        ensures
            views(r@) == self.spec_to_args(),
    {
        let mut a: Vec<String> = Vec::new();
        match self {
            Keyboard::Usb => {
                push_arg(&mut a, "-device");
                push_arg(&mut a, "usb-kbd,bus=input.0");
            },
            Keyboard::Virtio => {
                push_arg(&mut a, "-device");
                push_arg(&mut a, "virtio-keyboard");
            },
            Keyboard::PS2 => {},
        }
        assert(views(a@) =~= self.spec_to_args());
        a
    }
}

impl Mouse {
    /// The pointing device of the guest: USB mouse, USB tablet, VirtIO, or
    /// none for PS/2.
    pub open spec fn spec_to_args(self) -> Seq<Seq<char>> {
        match self {
            Mouse::Usb => seq!["-device"@, "usb-mouse,bus=input.0"@],
            Mouse::Tablet => seq!["-device"@, "usb-tablet,bus=input.0"@],
            Mouse::Virtio => seq!["-device"@, "virtio-mouse"@],
            Mouse::PS2 => seq![],
        }
    }

    /// The pointing device of the guest.
    pub fn to_args(&self) -> (r: Vec<String>)
        ensures
            views(r@) == self.spec_to_args(),
    {
        let mut a: Vec<String> = Vec::new();
        match self {
            Mouse::Usb => {
                push_arg(&mut a, "-device");
                push_arg(&mut a, "usb-mouse,bus=input.0");
            },
            Mouse::Tablet => {
                push_arg(&mut a, "-device");
                push_arg(&mut a, "usb-tablet,bus=input.0");
            },
            Mouse::Virtio => {
                push_arg(&mut a, "-device");
                push_arg(&mut a, "virtio-mouse");
            },
            Mouse::PS2 => {},
        }
        assert(views(a@) =~= self.spec_to_args());
        a
    }
}

/// The QEMU arguments that share a directory with a guest over 9P (not
/// with Windows guests).
pub open spec fn spec_publicdir_qemu_args(publicdir: Seq<char>, guest_os: GuestOS, username: Seq<char>) -> Seq<Seq<char>> {
    if guest_os == GuestOS::Windows || guest_os == GuestOS::WindowsServer {
        seq![]
    } else {
        seq!["-fsdev"@, "local,id=fsdev0,path="@ + publicdir + ",security_model=mapped-xattr"@,
            "-device"@, "virtio-9p-pci,fsdev=fsdev0,mount_tag=Public-"@ + username]
    }
}

/// How a shared directory is reached from the guest (and, for macOS, what
/// the host needs where the directory is read-only).
pub open spec fn spec_publicdir_notes(publicdir: Seq<char>, guest_os: GuestOS, username: Seq<char>, readonly: bool) -> Seq<Seq<char>> {
    if guest_os is MacOS {
        seq!["WebDAV - On guest: build spice-webdavd (https://gitlab.gnome.org/GNOME/phodav/-/merge_requests/24)\n    Then: Finder -> Connect to Server -> http://localhost:9843/"@,
            "9P - On guest: `sudo mount_9p Public-"@ + username + " ~/Public`"@]
            + (if readonly { seq!["9P - On host - Required for macOS integration: `sudo chmod -r 777 "@ + publicdir + "`"@] } else { seq![] })
    } else if guest_os == GuestOS::Linux || guest_os == GuestOS::LinuxOld {
        seq!["WebDAV - On guest: dav://localhost:9843/"@,
            "9P - On guest: `sudo mount -t 9p -o trans=virtio,version=9p2000.L,msize=104857600 Public-"@ + username + " ~/Public`"@]
    } else {
        seq!["WebDAV - On guest: dav://localhost:9843/"@]
    }
}

/// Every guest but Windows and Windows Server gets the shared directory as
/// a 9P file system: the directory's path is exported and shown to the
/// guest over VirtIO under the tag `Public-<user>`; Windows guests get
/// none.
pub proof fn law_shared_directory_exported(publicdir: Seq<char>, guest_os: GuestOS, username: Seq<char>)
    ensures
        guest_os != GuestOS::Windows && guest_os != GuestOS::WindowsServer ==> spec_publicdir_qemu_args(publicdir, guest_os,
            username) == seq!["-fsdev"@, "local,id=fsdev0,path="@ + publicdir + ",security_model=mapped-xattr"@, "-device"@,
            "virtio-9p-pci,fsdev=fsdev0,mount_tag=Public-"@ + username],
        guest_os == GuestOS::Windows || guest_os == GuestOS::WindowsServer
            ==> spec_publicdir_qemu_args(publicdir, guest_os, username).len() == 0,
{
}

/// The shared directory's arguments and notes: WebDAV for every guest, 9P
/// mount instructions for macOS (with a note to open up a read-only
/// directory) and Linux, and a 9P file system for all but Windows.
/// `username` is the last component of the user's home directory.
pub fn publicdir_args(publicdir: &str, guest_os: &GuestOS, username: &str, readonly: bool) -> (r: (Vec<String>, Vec<String>))
    ensures
        views(r.0@) == spec_publicdir_qemu_args(publicdir@, *guest_os, username@),
        views(r.1@) == spec_publicdir_notes(publicdir@, *guest_os, username@, readonly),
{
    let mut p: Vec<String> = Vec::new();
    let mut a: Vec<String> = Vec::new();
    if let GuestOS::MacOS { .. } = guest_os {
        push_arg(&mut p, "WebDAV - On guest: build spice-webdavd (https://gitlab.gnome.org/GNOME/phodav/-/merge_requests/24)\n    Then: Finder -> Connect to Server -> http://localhost:9843/");
        let mut m = String::from_str("9P - On guest: `sudo mount_9p Public-");
        m.append(username);
        m.append(" ~/Public`");
        push_string(&mut p, m);
        if readonly {
            let mut c = String::from_str("9P - On host - Required for macOS integration: `sudo chmod -r 777 ");
            c.append(publicdir);
            c.append("`");
            push_string(&mut p, c);
        }
    } else {
        push_arg(&mut p, "WebDAV - On guest: dav://localhost:9843/");
        if matches!(guest_os, GuestOS::Linux | GuestOS::LinuxOld) {
            let mut m = String::from_str("9P - On guest: `sudo mount -t 9p -o trans=virtio,version=9p2000.L,msize=104857600 Public-");
            m.append(username);
            m.append(" ~/Public`");
            push_string(&mut p, m);
        }
    }
    if !matches!(guest_os, GuestOS::Windows | GuestOS::WindowsServer) {
        let mut fs = String::from_str("local,id=fsdev0,path=");
        fs.append(publicdir);
        fs.append(",security_model=mapped-xattr");
        let mut dev = String::from_str("virtio-9p-pci,fsdev=fsdev0,mount_tag=Public-");
        dev.append(username);
        push_arg(&mut a, "-fsdev");
        push_string(&mut a, fs);
        push_arg(&mut a, "-device");
        push_string(&mut a, dev);
    }
    proof {
        if guest_os is MacOS {
            assert(views(p@) =~= seq!["WebDAV - On guest: build spice-webdavd (https://gitlab.gnome.org/GNOME/phodav/-/merge_requests/24)\n    Then: Finder -> Connect to Server -> http://localhost:9843/"@,
                "9P - On guest: `sudo mount_9p Public-"@ + username@ + " ~/Public`"@]
                + (if readonly { seq!["9P - On host - Required for macOS integration: `sudo chmod -r 777 "@ + publicdir@ + "`"@] } else { seq![] }));
        }
    }
    assert(views(a@) =~= (if *guest_os == GuestOS::Windows || *guest_os == GuestOS::WindowsServer {
        seq![]
    } else {
        seq!["-fsdev"@, "local,id=fsdev0,path="@ + publicdir@ + ",security_model=mapped-xattr"@,
            "-device"@, "virtio-9p-pci,fsdev=fsdev0,mount_tag=Public-"@ + username@]
    }));
    (a, p)
}

/// The arguments every guest gets: its PID file, machine type, clock and
/// name, hardware virtualization where it is on, and its tweaks; none
/// where the PID file already exists (the guest is running).
pub open spec fn spec_basic_args(vm_name: Seq<char>, vm_dir: Seq<char>, guest: GuestOS, arch: Arch, pid_exists: bool, hw_virt: bool) -> Option<Seq<Seq<char>>> {
    if pid_exists {
        None
    } else {
        Some(seq!["-pidfile"@, join_path(vm_dir, vm_name + ".pid"@), "-machine"@, arch.spec_machine_type(guest),
            "-rtc"@, if arch == Arch::x86_64 { "base=localtime,clock=host,driftfix=slew"@ } else { "base=localtime,clock=host"@ },
            "-name"@, vm_name + ",process="@ + vm_name]
            + (if hw_virt { seq!["-accel"@, "kvm"@] } else { seq![] })
            + match guest.spec_guest_tweaks() { Some(t) => t, None => seq![] })
    }
}

/// The arguments every guest gets (see `spec_basic_args`).
pub fn basic_args(vm_name: &str, vm_dir: &str, guest_os: &GuestOS, arch: &Arch, pid_exists: bool, hw_virt: bool) -> (r: Option<Vec<String>>)
    ensures
        match spec_basic_args(vm_name@, vm_dir@, *guest_os, *arch, pid_exists, hw_virt) {
            Some(s) => r matches Some(v) && views(v@) == s,
            None => r is None,
        },
{
    if pid_exists {
        return None;
    }
    let mut n = String::from_str(vm_name);
    n.append(".pid");
    let pid = path_join(vm_dir, n.as_str());
    let rtc: &str = if *arch == Arch::x86_64 { "base=localtime,clock=host,driftfix=slew" } else { "base=localtime,clock=host" };
    let machine = arch.machine_type(guest_os);
    let mut a: Vec<String> = Vec::new();
    push_arg(&mut a, "-pidfile");
    push_string(&mut a, pid);
    push_arg(&mut a, "-machine");
    push_string(&mut a, machine);
    push_arg(&mut a, "-rtc");
    push_arg(&mut a, rtc);
    let mut name = String::from_str(vm_name);
    name.append(",process=");
    name.append(vm_name);
    push_arg(&mut a, "-name");
    push_string(&mut a, name);
    let ghost s1 = views(a@);
    if hw_virt {
        push_arg(&mut a, "-accel");
        push_arg(&mut a, "kvm");
    }
    let ghost s2 = views(a@);
    assert(s2 =~= s1 + (if hw_virt { seq!["-accel"@, "kvm"@] } else { seq![] }));
    match guest_os.guest_tweaks() {
        Some(t) => crate::text::extend_args(&mut a, &t),
        None => {},
    }
    assert(views(a@) =~= spec_basic_args(vm_name@, vm_dir@, *guest_os, *arch, pid_exists, hw_virt)->Some_0);
    Some(a)
}

/// The arguments of `qemu-img` that create a disk: its format, path and
/// size, and the preallocation option where the format takes one (a mode
/// that the format does not support is refused).
pub fn create_disk_args(path: &str, size: u64, format: &crate::legacy::config::DiskFormat,
    prealloc: &crate::legacy::config::PreAlloc) -> (r: Result<Vec<String>, String>)
    ensures
        match prealloc.spec_qemu_img_arg(*format) {
            Ok(o) => r matches Ok(a) && views(a@) == seq!["create"@, "-q"@, "-f"@, format.spec_as_str(), path@,
                decimal(size as nat), "-o"@, o],
            Err(m) => r matches Err(e) && e@ == m,
        },
{
    let o = match prealloc.qemu_img_arg(format) {
        Ok(Some(o)) => o,
        Ok(None) => return Err(String::new()),
        Err(e) => return Err(e),
    };
    let mut a: Vec<String> = Vec::new();
    push_arg(&mut a, "create");
    push_arg(&mut a, "-q");
    push_arg(&mut a, "-f");
    push_arg(&mut a, format.as_str());
    push_arg(&mut a, path);
    push_string(&mut a, u64_to_string(size));
    push_arg(&mut a, "-o");
    push_arg(&mut a, o);
    assert(views(a@) =~= seq!["create"@, "-q"@, "-f"@, format.spec_as_str(), path@, decimal(size as nat), "-o"@,
        prealloc.spec_qemu_img_arg(*format)->Ok_0]);
    Ok(a)
}

/// The arguments of the Spice viewer: the window title, the shared
/// directory, full screen where asked, and the port (`spicy`) or the
/// Spice address (`remote-viewer`).
pub fn viewer_args(vm_name: &str, publicdir: &str, port: u16, fullscreen: bool, viewer: crate::legacy::config::Viewer)
    -> (r: Vec<String>)
    requires
        viewer != crate::legacy::config::Viewer::Disabled,
    ensures
        views(r@) == seq!["--title"@, vm_name@, "--spice-shared-dir"@, publicdir@]
            + (if fullscreen { seq!["--full-screen"@] } else { seq![] })
            + (if viewer == crate::legacy::config::Viewer::Spicy {
                seq!["--port"@, decimal(port as nat)]
            } else {
                seq!["spice://localhost:"@ + decimal(port as nat)]
            }),
{
    let mut a: Vec<String> = Vec::new();
    push_arg(&mut a, "--title");
    push_arg(&mut a, vm_name);
    push_arg(&mut a, "--spice-shared-dir");
    push_arg(&mut a, publicdir);
    let ghost s1 = views(a@);
    if fullscreen {
        push_arg(&mut a, "--full-screen");
    }
    let ghost s2 = views(a@);
    assert(s2 =~= s1 + (if fullscreen { seq!["--full-screen"@] } else { seq![] }));
    let p = u64_to_string(port as u64);
    if viewer == crate::legacy::config::Viewer::Spicy {
        push_arg(&mut a, "--port");
        push_string(&mut a, p);
    } else {
        let mut u = String::from_str("spice://localhost:");
        u.append(p.as_str());
        push_string(&mut a, u);
    }
    a
}

/// Whether a path is absolute: it starts at the root.
pub open spec fn is_absolute(p: Seq<char>) -> bool {
    p.len() > 0 && p[0] == '/'
}

/// The relative path from `base` to `path` that `pathdiff` gives, if any.
pub uninterp spec fn diff_paths_result(path: Seq<char>, base: Seq<char>) -> Option<Seq<char>>;

/// `pathdiff::diff_paths(path, base)`, written as text. Its source shows
/// that an absolute path from a relative base is given back as it is, and
/// that a relative path from an absolute base has no relative form; the
/// other cases, which walk the paths' components, are only named.
#[verifier::external_body]
fn diff_paths(path: &str, base: &str) -> (r: Option<String>)
    ensures
        crate::data::io::opt_view(&r) == diff_paths_result(path@, base@),
        is_absolute(path@) && !is_absolute(base@) ==> crate::data::io::opt_view(&r) == Some(path@),
        !is_absolute(path@) && is_absolute(base@) ==> r is None,
{
    pathdiff::diff_paths(path, base).map(|p| p.to_string_lossy().into_owned())
}

/// A path relative to the working directory, where it has such a form.
pub trait Relativize {
    /// The path relative to `current_dir`, or the path itself.
    fn relativize(&self, current_dir: &str) -> String;
}

impl Relativize for String {
    fn relativize(&self, current_dir: &str) -> (r: String)
        ensures
            r@ == (match diff_paths_result(self@, current_dir@) { Some(d) => d, None => self@ }),
    {
        match diff_paths(self.as_str(), current_dir) {
            Some(d) => d,
            None => self.clone(),
        }
    }
}

} // verus!
