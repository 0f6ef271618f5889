//! How the guest boots: BIOS, or which EFI firmware or bootloader it gets.

use vstd::prelude::*;
use crate::data::guest::GuestOS;
use crate::data::machine::{Arch, BootType, Machine};
use crate::error::Error;
use crate::text::{join_path, path_join, push_arg, push_string, views};
use crate::utils::{lines, ArgDisplay, EmulatorArgs};

verus! {

/// The views of a sequence of pairs of string slices.
pub open spec fn pair_views(v: Seq<(&str, &str)>) -> Seq<(Seq<char>, Seq<char>)> {
    v.map_values(|p: (&str, &str)| (p.0@, p.1@))
}

/// The views of a sequence of pairs of strings.
pub open spec fn string_pair_views(v: Seq<(String, String)>) -> Seq<(Seq<char>, Seq<char>)> {
    v.map_values(|p: (String, String)| (p.0@, p.1@))
}

/// The firmware with Secure Boot of x86_64 guests (code, variables), under QEMU's share directory, in the order they are looked for.
pub open spec fn spec_secure_boot_ovmf() -> Seq<(Seq<char>, Seq<char>)> {
    seq![("OVMF/OVMF_CODE_4M.secboot.fd"@, "OVMF/OVMF_VARS_4M.fd"@), ("edk2/ovmf/OVMF_CODE.secboot.fd"@, "edk2/ovmf/OVMF_VARS.fd"@), ("OVMF/x64/OVMF_CODE.secboot.fd"@, "OVMF/x64/OVMF_VARS.fd"@), ("edk2-ovmf/OVMF_CODE.secboot.fd"@, "edk2-ovmf/OVMF_VARS.fd"@), ("qemu/ovmf-x86_64-smm-ms-code.bin"@, "qemu/ovmf-x86_64-smm-ms-vars.bin"@), ("qemu/edk2-x86_64-secure-code.fd"@, "qemu/edk2-x86_64-code.fd"@), ("edk2-ovmf/x64/OVMF_CODE.secboot.fd"@, "edk2-ovmf/x64/OVMF_VARS.fd"@), ("edk2/x64/OVMF_CODE.secboot.4m.fd"@, "edk2/x64/OVMF_VARS.4m.fd"@)]
}

fn secure_boot_ovmf() -> (r: Vec<(&'static str, &'static str)>)
    ensures
        pair_views(r@) == spec_secure_boot_ovmf(),
{
    let mut v: Vec<(&'static str, &'static str)> = Vec::new();
    v.push(("OVMF/OVMF_CODE_4M.secboot.fd", "OVMF/OVMF_VARS_4M.fd"));
    v.push(("edk2/ovmf/OVMF_CODE.secboot.fd", "edk2/ovmf/OVMF_VARS.fd"));
    v.push(("OVMF/x64/OVMF_CODE.secboot.fd", "OVMF/x64/OVMF_VARS.fd"));
    v.push(("edk2-ovmf/OVMF_CODE.secboot.fd", "edk2-ovmf/OVMF_VARS.fd"));
    v.push(("qemu/ovmf-x86_64-smm-ms-code.bin", "qemu/ovmf-x86_64-smm-ms-vars.bin"));
    v.push(("qemu/edk2-x86_64-secure-code.fd", "qemu/edk2-x86_64-code.fd"));
    v.push(("edk2-ovmf/x64/OVMF_CODE.secboot.fd", "edk2-ovmf/x64/OVMF_VARS.fd"));
    v.push(("edk2/x64/OVMF_CODE.secboot.4m.fd", "edk2/x64/OVMF_VARS.4m.fd"));
    assert(pair_views(v@) =~= spec_secure_boot_ovmf());
    v
}

/// The firmware without Secure Boot of x86_64 guests (code, variables), in the order they are looked for.
pub open spec fn spec_efi_ovmf() -> Seq<(Seq<char>, Seq<char>)> {
    seq![("OVMF/OVMF_CODE_4M.fd"@, "OVMF/OVMF_VARS_4M.fd"@), ("edk2/ovmf/OVMF_CODE.fd"@, "edk2/ovmf/OVMF_VARS.fd"@), ("OVMF/OVMF_CODE.fd"@, "OVMF/OVMF_VARS.fd"@), ("OVMF/x64/OVMF_CODE.fd"@, "OVMF/x64/OVMF_VARS.fd"@), ("edk2-ovmf/OVMF_CODE.fd"@, "edk2-ovmf/OVMF_VARS.fd"@), ("qemu/ovmf-x86_64-4m-code.bin"@, "qemu/ovmf-x86_64-4m-vars.bin"@), ("qemu/edk2-x86_64-code.fd"@, "qemu/edk2-x86_64-code.fd"@), ("edk2-ovmf/x64/OVMF_CODE.fd"@, "edk2-ovmf/x64/OVMF_VARS.fd"@), ("edk2/x64/OVMF_CODE.4m.fd"@, "edk2/x64/OVMF_VARS.4m.fd"@)]
}

fn efi_ovmf() -> (r: Vec<(&'static str, &'static str)>)
    ensures
        pair_views(r@) == spec_efi_ovmf(),
{
    let mut v: Vec<(&'static str, &'static str)> = Vec::new();
    v.push(("OVMF/OVMF_CODE_4M.fd", "OVMF/OVMF_VARS_4M.fd"));
    v.push(("edk2/ovmf/OVMF_CODE.fd", "edk2/ovmf/OVMF_VARS.fd"));
    v.push(("OVMF/OVMF_CODE.fd", "OVMF/OVMF_VARS.fd"));
    v.push(("OVMF/x64/OVMF_CODE.fd", "OVMF/x64/OVMF_VARS.fd"));
    v.push(("edk2-ovmf/OVMF_CODE.fd", "edk2-ovmf/OVMF_VARS.fd"));
    v.push(("qemu/ovmf-x86_64-4m-code.bin", "qemu/ovmf-x86_64-4m-vars.bin"));
    v.push(("qemu/edk2-x86_64-code.fd", "qemu/edk2-x86_64-code.fd"));
    v.push(("edk2-ovmf/x64/OVMF_CODE.fd", "edk2-ovmf/x64/OVMF_VARS.fd"));
    v.push(("edk2/x64/OVMF_CODE.4m.fd", "edk2/x64/OVMF_VARS.4m.fd"));
    assert(pair_views(v@) =~= spec_efi_ovmf());
    v
}

/// The firmware of AArch64 guests (code, variables).
pub open spec fn spec_aarch64_ovmf() -> Seq<(Seq<char>, Seq<char>)> {
    seq![("AAVMF/AAVMF_CODE.fd"@, "AAVMF/AAVMF_VARS.fd"@)]
}

fn aarch64_ovmf() -> (r: Vec<(&'static str, &'static str)>)
    ensures
        pair_views(r@) == spec_aarch64_ovmf(),
{
    let mut v: Vec<(&'static str, &'static str)> = Vec::new();
    v.push(("AAVMF/AAVMF_CODE.fd", "AAVMF/AAVMF_VARS.fd"));
    assert(pair_views(v@) =~= spec_aarch64_ovmf());
    v
}

/// The U-Boot that RISC-V 64 guests fall back to.
pub open spec fn spec_riscv64_uboot() -> Seq<char> {
    "/usr/lib/u-boot/qemu-riscv64_smode/u-boot.bin"@
}

/// The U-Boot that RISC-V 64 guests fall back to.
pub fn riscv64_uboot() -> (r: &'static str)
    ensures
        r@ == spec_riscv64_uboot(),
{
    "/usr/lib/u-boot/qemu-riscv64_smode/u-boot.bin"
}

/// Where QEMU's shared files are.
pub fn qemu_share_dir() -> (r: &'static str)
    ensures
        r@ == "/usr/share"@,
{
    "/usr/share"
}

/// What firmware the guest needs, before any file is looked for.
#[derive(Debug, Clone, Copy, PartialEq, Eq, Structural)]
pub enum BootPlan {
    /// Legacy BIOS boot of an x86_64 guest.
    X86_64Bios,
    /// The OVMF files that come with a macOS guest.
    MacOS,
    /// A RISC-V 64 bootloader.
    Riscv64,
    /// QEMU's OVMF for an x86_64 guest.
    X86_64Efi { secure_boot: bool },
    /// QEMU's AAVMF for an AArch64 guest.
    AArch64Efi,
}

/// The firmware that a guest needs: macOS guests boot only by EFI without
/// Secure Boot on x86_64; legacy BIOS exists only on x86_64; AArch64 has
/// no Secure Boot.
pub open spec fn spec_boot_plan(boot: BootType, arch: Arch, guest: GuestOS) -> Result<BootPlan, Error> {
    if guest is MacOS {
        if boot == (BootType::Efi { secure_boot: false }) && arch is X86_64 {
            Ok(BootPlan::MacOS)
        } else {
            Err(Error::UnsupportedBootCombination)
        }
    } else {
        match (boot, arch) {
            (BootType::Legacy, Arch::X86_64 { .. }) => Ok(BootPlan::X86_64Bios),
            (BootType::Legacy, _) => Err(Error::LegacyBoot),
            (BootType::Efi { .. }, Arch::Riscv64 { .. }) => Ok(BootPlan::Riscv64),
            (BootType::Efi { secure_boot }, Arch::X86_64 { .. }) => Ok(BootPlan::X86_64Efi { secure_boot }),
            (BootType::Efi { secure_boot: false }, Arch::AArch64 { .. }) => Ok(BootPlan::AArch64Efi),
            _ => Err(Error::UnsupportedBootCombination),
        }
    }
}

impl Machine {
    /// The firmware that the guest needs.
    pub fn boot_plan(&self, guest: GuestOS) -> (r: Result<BootPlan, Error>)
        ensures
            r == spec_boot_plan(self.boot, self.arch, guest),
    {
        if let GuestOS::MacOS { .. } = guest {
            return match (self.boot, self.arch) {
                (BootType::Efi { secure_boot: false }, Arch::X86_64 { .. }) => Ok(BootPlan::MacOS),
                _ => Err(Error::UnsupportedBootCombination),
            };
        }
        match (self.boot, self.arch) {
            (BootType::Legacy, Arch::X86_64 { .. }) => Ok(BootPlan::X86_64Bios),
            (BootType::Legacy, _) => Err(Error::LegacyBoot),
            (BootType::Efi { .. }, Arch::Riscv64 { .. }) => Ok(BootPlan::Riscv64),
            (BootType::Efi { secure_boot }, Arch::X86_64 { .. }) => Ok(BootPlan::X86_64Efi { secure_boot }),
            (BootType::Efi { secure_boot: false }, Arch::AArch64 { .. }) => Ok(BootPlan::AArch64Efi),
            _ => Err(Error::UnsupportedBootCombination),
        }
    }
}

/// The firmware files of a plan, joined to QEMU's share directory: for
/// x86_64 with or without Secure Boot, or for AArch64 (other plans need
/// none).
pub open spec fn spec_firmware_candidates(plan: BootPlan, share_dir: Seq<char>) -> Seq<(Seq<char>, Seq<char>)> {
    let table = match plan {
        BootPlan::X86_64Efi { secure_boot: true } => spec_secure_boot_ovmf(),
        BootPlan::X86_64Efi { secure_boot: false } => spec_efi_ovmf(),
        BootPlan::AArch64Efi => spec_aarch64_ovmf(),
        _ => seq![],
    };
    table.map_values(|p: (Seq<char>, Seq<char>)| (join_path(share_dir, p.0), join_path(share_dir, p.1)))
}

/// The firmware files of a plan, in the order they are looked for.
pub fn firmware_candidates(plan: BootPlan, share_dir: &str) -> (r: Vec<(String, String)>)
    ensures
        string_pair_views(r@) == spec_firmware_candidates(plan, share_dir@),
{
    let table = match plan {
        BootPlan::X86_64Efi { secure_boot: true } => secure_boot_ovmf(),
        BootPlan::X86_64Efi { secure_boot: false } => efi_ovmf(),
        BootPlan::AArch64Efi => aarch64_ovmf(),
        _ => Vec::new(),
    };
    let ghost t = pair_views(table@);
    assert(t == match plan {
        BootPlan::X86_64Efi { secure_boot: true } => spec_secure_boot_ovmf(),
        BootPlan::X86_64Efi { secure_boot: false } => spec_efi_ovmf(),
        BootPlan::AArch64Efi => spec_aarch64_ovmf(),
        _ => seq![],
    });
    let mut r: Vec<(String, String)> = Vec::new();
    let mut i: usize = 0;
    while i < table.len()
        invariant
            i <= table@.len(),
            t == pair_views(table@),
            string_pair_views(r@) == t.subrange(0, i as int).map_values(
                |p: (Seq<char>, Seq<char>)| (join_path(share_dir@, p.0), join_path(share_dir@, p.1))),
        decreases table.len() - i,
    {
        let (c, v) = table[i];
        let ghost before = string_pair_views(r@);
        r.push((path_join(share_dir, c), path_join(share_dir, v)));
        proof {
            assert(string_pair_views(r@) =~= before.push((join_path(share_dir@, c@), join_path(share_dir@, v@))));
            assert(t.subrange(0, i + 1).map_values(
                |p: (Seq<char>, Seq<char>)| (join_path(share_dir@, p.0), join_path(share_dir@, p.1)))
                =~= t.subrange(0, i as int).map_values(
                |p: (Seq<char>, Seq<char>)| (join_path(share_dir@, p.0), join_path(share_dir@, p.1)))
                .push((join_path(share_dir@, c@), join_path(share_dir@, v@))));
        }
        i = i + 1;
    }
    assert(t.subrange(0, table@.len() as int) =~= t);
    r
}

/// The index of the first entry that holds, if any.
pub fn first_true(present: &Vec<bool>) -> (r: Option<usize>)
    ensures
        match r {
            Some(i) => i < present@.len() && present@[i as int] && forall|j: int| 0 <= j < i ==> !present@[j],
            None => forall|j: int| 0 <= j < present@.len() ==> !present@[j],
        },
{
    let mut i: usize = 0;
    while i < present.len()
        invariant
            i <= present@.len(),
            forall|j: int| 0 <= j < i ==> !present@[j],
        decreases present.len() - i,
    {
        if present[i] {
            return Some(i);
        }
        i = i + 1;
    }
    None
}

/// EFI firmware: the code, the guest's own copy of the variables, and
/// whether Secure Boot is on.
#[derive(Debug, Clone, PartialEq)]
pub struct Efi {
    pub code: String,
    pub vars: String,
    pub secure_boot: bool,
}

/// The firmware that was found for a guest: the code, the variables that
/// the guest's copy is made from, the guest's copy, and whether that copy
/// is (re)made from them (it is where it is missing or read-only).
#[derive(Debug, Clone, PartialEq)]
pub struct FirmwarePick {
    pub code: String,
    pub vars_source: String,
    pub vm_vars: String,
    pub copy_vars: bool,
}

/// Picks the first candidate whose code and variables both exist
/// (`present`, one entry per candidate); the guest keeps its variables in
/// `<vm_dir>/OVMF_VARS.fd`, which is copied from the firmware's where it
/// does not exist or is read-only. No candidate found is an error.
pub fn pick_firmware(vm_dir: &str, candidates: &Vec<(String, String)>, present: &Vec<bool>, vm_vars_exists: bool, vm_vars_readonly: bool)
    -> (r: Result<FirmwarePick, Error>)
    requires
        present@.len() == candidates@.len(),
    ensures
        match r {
            Ok(p) => exists|i: int| 0 <= i < present@.len() && present@[i] && (forall|j: int| 0 <= j < i ==> !present@[j])
                && p.code@ == candidates@[i].0@ && p.vars_source@ == candidates@[i].1@,
            Err(e) => e == Error::Ovmf && forall|j: int| 0 <= j < present@.len() ==> !present@[j],
        },
        r matches Ok(p) ==> p.vm_vars@ == join_path(vm_dir@, "OVMF_VARS.fd"@) && p.copy_vars == (!vm_vars_exists || vm_vars_readonly),
{
    match first_true(present) {
        None => Err(Error::Ovmf),
        Some(i) => {
            let p = FirmwarePick {
                code: candidates[i].0.clone(),
                vars_source: candidates[i].1.clone(),
                vm_vars: path_join(vm_dir, "OVMF_VARS.fd"),
                copy_vars: !vm_vars_exists || vm_vars_readonly,
            };
            assert(present@[i as int]);
            Ok(p)
        },
    }
}

/// The firmware that macOS guests bring in their own directory: the
/// code `OVMF_CODE.fd` and the first of the variable files
/// `OVMF_VARS-1024x768.fd` and `OVMF_VARS-1920x1080.fd` that exists.
pub fn macos_firmware(vm_dir: &str, code_exists: bool, vars_1024_exists: bool, vars_1920_exists: bool) -> (r: Result<BootArgs, Error>)
    ensures
        !code_exists || !(vars_1024_exists || vars_1920_exists) ==> r == Err::<BootArgs, Error>(Error::Ovmf),
        code_exists && (vars_1024_exists || vars_1920_exists) ==> (r matches Ok(BootArgs::X86_64Efi(e))
            && e.code@ == join_path(vm_dir@, "OVMF_CODE.fd"@)
            && e.vars@ == join_path(vm_dir@, if vars_1024_exists { "OVMF_VARS-1024x768.fd"@ } else { "OVMF_VARS-1920x1080.fd"@ })
            && !e.secure_boot),
{
    if !code_exists {
        return Err(Error::Ovmf);
    }
    let code = path_join(vm_dir, "OVMF_CODE.fd");
    let vars = if vars_1024_exists {
        path_join(vm_dir, "OVMF_VARS-1024x768.fd")
    } else if vars_1920_exists {
        path_join(vm_dir, "OVMF_VARS-1920x1080.fd")
    } else {
        return Err(Error::Ovmf);
    };
    Ok(BootArgs::X86_64Efi(Efi { code, vars, secure_boot: false }))
}

/// The index of the last `c` in `s`, if any.
pub open spec fn last_index_of(s: Seq<char>, c: char) -> Option<int> {
    if exists|i: int| 0 <= i < s.len() && s[i] == c {
        Some(choose|i: int| 0 <= i < s.len() && s[i] == c && forall|j: int| i < j < s.len() ==> s[j] != c)
    } else {
        None
    }
}

/// The last component of a path.
pub open spec fn file_name(p: Seq<char>) -> Seq<char> {
    match last_index_of(p, '/') {
        Some(i) => p.subrange(i + 1, p.len() as int),
        None => p,
    }
}

/// Whether a path's file name has the extension `bin`: a dot that is not
/// the name's first character, followed by `bin` to the end.
pub open spec fn has_bin_extension(p: Seq<char>) -> bool {
    let name = file_name(p);
    match last_index_of(name, '.') {
        Some(k) => k > 0 && name.subrange(k + 1, name.len() as int) == "bin"@,
        None => false,
    }
}

/// The index of the last `c` in `s`, if any.
pub fn rfind_char(s: &str, c: char) -> (r: Option<usize>)
    ensures
        r == (match last_index_of(s@, c) { Some(i) => Some(i as usize), None => None::<usize> }),
        r matches Some(i) ==> i < s@.len() && last_index_of(s@, c) == Some(i as int),
        r is None ==> last_index_of(s@, c) is None,
{
    let n = s.unicode_len();
    let mut i = n;
    while i > 0
        invariant
            i <= n == s@.len(),
            forall|j: int| i <= j < n ==> s@[j] != c,
        decreases i,
    {
        if s.get_char(i - 1) == c {
            let ghost k = (i - 1) as int;
            assert(exists|x: int| 0 <= x < s@.len() && s@[x] == c) by { assert(s@[k] == c); }
            let ghost w = choose|x: int| 0 <= x < s@.len() && s@[x] == c && forall|j: int| x < j < s@.len() ==> s@[j] != c;
            assert(w == k) by {
                if w < k { assert(s@[k] == c); }
                if w > k { assert(s@[w] != c); }
            }
            return Some(i - 1);
        }
        i = i - 1;
    }
    assert(!exists|x: int| 0 <= x < s@.len() && s@[x] == c);
    None
}

/// Whether a path's file name has the extension `bin`.
pub fn is_bin_file(p: &str) -> (r: bool)
    ensures
        r == has_bin_extension(p@),
{
    let pn = p.unicode_len();
    let name = match rfind_char(p, '/') {
        Some(i) => p.substring_char(i + 1, pn),
        None => p,
    };
    assert(name@ == file_name(p@));
    let nn = name.unicode_len();
    match rfind_char(name, '.') {
        Some(k) => {
            if k == 0 {
                return false;
            }
            let ext = name.substring_char(k + 1, nn);
            crate::text::str_eq(ext, "bin")
        },
        None => false,
    }
}

/// The bootloader of a RISC-V 64 guest: the first file with the
/// extension `bin` among `files` (those of `<vm_dir>/bios`, then those of
/// `vm_dir`, as they were listed), else U-Boot where it is installed.
pub fn riscv64_bootloader(files: &Vec<String>, uboot_exists: bool) -> (r: Result<BootArgs, Error>)
    ensures
        (exists|i: int| 0 <= i < files@.len() && has_bin_extension(#[trigger] files@[i]@)) ==> (r matches Ok(BootArgs::Riscv64Efi(b))
            && exists|i: int| 0 <= i < files@.len() && has_bin_extension(#[trigger] files@[i]@) && b@ == files@[i]@
                && forall|j: int| 0 <= j < i ==> !has_bin_extension(files@[j]@)),
        !(exists|i: int| 0 <= i < files@.len() && has_bin_extension(#[trigger] files@[i]@)) ==> (if uboot_exists {
            r matches Ok(BootArgs::Riscv64Efi(b)) && b@ == spec_riscv64_uboot()
        } else {
            r == Err::<BootArgs, Error>(Error::Riscv64Bootloader)
        }),
{
    let mut i: usize = 0;
    while i < files.len()
        invariant
            i <= files@.len(),
            forall|j: int| 0 <= j < i ==> !has_bin_extension(files@[j]@),
        decreases files.len() - i,
    {
        if is_bin_file(files[i].as_str()) {
            return Ok(BootArgs::Riscv64Efi(files[i].clone()));
        }
        i = i + 1;
    }
    if uboot_exists {
        Ok(BootArgs::Riscv64Efi(String::from_str(riscv64_uboot())))
    } else {
        Err(Error::Riscv64Bootloader)
    }
}

/// The firmware of a guest.
#[derive(Debug, Clone, PartialEq)]
pub enum BootArgs {
    X86_64Bios,
    X86_64Efi(Efi),
    AArch64Efi(Efi),
    Riscv64Efi(String),
}

/// EFI firmware goes where QEMU boots it: on x86_64 the firmware code is
/// the first flash drive (unit 0), read-only, and the guest's copy of the
/// variables the second (unit 1), after the secure driver; on AArch64 the
/// code is the read-only `rom` block device and the variables the
/// `efivars` one. BIOS boot needs no argument, and a RISC-V guest boots
/// its bootloader as the kernel.
pub proof fn law_firmware_places(b: BootArgs)
    ensures
        b matches BootArgs::X86_64Efi(e) ==> b.spec_qemu_args() == seq!["-global"@,
            "driver=cfi.pflash01,property=secure,value=on"@,
            "-drive"@, "if=pflash,format=raw,unit=0,file="@ + e.code@ + ",readonly=on"@,
            "-drive"@, "if=pflash,format=raw,unit=1,file="@ + e.vars@],
        b matches BootArgs::AArch64Efi(e) ==> b.spec_qemu_args() == seq![
            "-blockdev"@, "node-name=rom,driver=file,filename="@ + e.code@ + ",read-only=true"@,
            "-blockdev"@, "node-name=efivars,driver=file,filename="@ + e.vars@],
        b is X86_64Bios ==> b.spec_qemu_args().len() == 0,
        b matches BootArgs::Riscv64Efi(k) ==> b.spec_qemu_args() == seq!["-kernel"@, k@],
{
}

impl EmulatorArgs for BootArgs {
    open spec fn spec_display(&self) -> Seq<(Seq<char>, Seq<char>)> {
        seq![("Boot"@, match self {
            BootArgs::X86_64Bios => "Legacy/BIOS"@,
            BootArgs::X86_64Efi(e) => "EFI (x86_64), OVMF: "@ + e.code@ + ", Secure Boot: "@
                + (if e.secure_boot { "Enabled"@ } else { "Disabled"@ }),
            BootArgs::AArch64Efi(e) => "EFI (AArch64), OVMF: "@ + e.code@,
            BootArgs::Riscv64Efi(b) => "EFI (Riscv64), Bootloader: "@ + b@,
        })]
    }

    open spec fn spec_qemu_args(&self) -> Seq<Seq<char>> {
        match self {
            BootArgs::X86_64Bios => seq![],
            BootArgs::X86_64Efi(e) => seq!["-global"@, "driver=cfi.pflash01,property=secure,value=on"@,
                "-drive"@, "if=pflash,format=raw,unit=0,file="@ + e.code@ + ",readonly=on"@,
                "-drive"@, "if=pflash,format=raw,unit=1,file="@ + e.vars@],
            BootArgs::AArch64Efi(e) => seq!["-blockdev"@, "node-name=rom,driver=file,filename="@ + e.code@ + ",read-only=true"@,
                "-blockdev"@, "node-name=efivars,driver=file,filename="@ + e.vars@],
            BootArgs::Riscv64Efi(b) => seq!["-kernel"@, b@],
        }
    }

    fn display(&self) -> (r: Vec<ArgDisplay>) {
        let value = match self {
            BootArgs::X86_64Bios => String::from_str("Legacy/BIOS"),
            BootArgs::X86_64Efi(e) => {
                let mut v = String::from_str("EFI (x86_64), OVMF: ");
                v.append(e.code.as_str());
                v.append(", Secure Boot: ");
                v.append(if e.secure_boot { "Enabled" } else { "Disabled" });
                v
            },
            BootArgs::AArch64Efi(e) => {
                let mut v = String::from_str("EFI (AArch64), OVMF: ");
                v.append(e.code.as_str());
                v
            },
            BootArgs::Riscv64Efi(b) => {
                let mut v = String::from_str("EFI (Riscv64), Bootloader: ");
                v.append(b.as_str());
                v
            },
        };
        let mut r: Vec<ArgDisplay> = Vec::new();
        r.push(ArgDisplay::new("Boot", value));
        assert(lines(r@) =~= self.spec_display());
        r
    }

    fn qemu_args(&self) -> (r: Vec<String>) {
        let mut a: Vec<String> = Vec::new();
        match self {
            BootArgs::X86_64Bios => {},
            BootArgs::X86_64Efi(e) => {
                push_arg(&mut a, "-global");
                push_arg(&mut a, "driver=cfi.pflash01,property=secure,value=on");
                push_arg(&mut a, "-drive");
                let mut c = String::from_str("if=pflash,format=raw,unit=0,file=");
                c.append(e.code.as_str());
                c.append(",readonly=on");
                push_string(&mut a, c);
                push_arg(&mut a, "-drive");
                let mut v = String::from_str("if=pflash,format=raw,unit=1,file=");
                v.append(e.vars.as_str());
                push_string(&mut a, v);
            },
            BootArgs::AArch64Efi(e) => {
                push_arg(&mut a, "-blockdev");
                let mut c = String::from_str("node-name=rom,driver=file,filename=");
                c.append(e.code.as_str());
                c.append(",read-only=true");
                push_string(&mut a, c);
                push_arg(&mut a, "-blockdev");
                let mut v = String::from_str("node-name=efivars,driver=file,filename=");
                v.append(e.vars.as_str());
                push_string(&mut a, v);
            },
            BootArgs::Riscv64Efi(b) => {
                push_arg(&mut a, "-kernel");
                push_arg(&mut a, b.as_str());
            },
        }
        assert(views(a@) =~= self.spec_qemu_args());
        a
    }
}

} // verus!
