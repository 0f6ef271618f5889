//! The processors of the guest: how many, and the CPU model that QEMU
//! emulates with its flags.

use vstd::prelude::*;
use vstd::arithmetic::power::lemma_pow0;
use vstd::arithmetic::power2::{lemma_pow2, lemma_pow2_strictly_increases, lemma_pow2_unfold, pow2};
use crate::args::guest::GuestTweaks;
use crate::data::guest::{GuestOS, MacOSRelease};
use crate::data::machine::{Arch, Machine};
use crate::error::{Error, Warning};
use crate::text::{decimal, join, push_arg, push_string, seq_join, str_eq, str_views, u128_to_string, usize_to_string, views};
use crate::utils::{lines, plural_if, ArgDisplay, EmulatorArgs};

verus! {

/// Whether `n` is a power of two.
pub open spec fn is_power_of_two(n: nat) -> bool {
    exists|k: nat| #[trigger] pow2(k) == n
}

/// Whether `r` is the smallest power of two that is at least `n`.
pub open spec fn is_next_power_of_two(r: nat, n: nat) -> bool {
    exists|k: nat| #[trigger] pow2(k) == r && r >= n && (k == 0 || pow2((k - 1) as nat) < n)
}

/// There is only one smallest power of two at least `c`.
pub proof fn lemma_next_power_unique(a: nat, b: nat, c: nat)
    requires
        is_next_power_of_two(a, c),
        is_next_power_of_two(b, c),
    ensures
        a == b,
{
    let ka = choose|k: nat| #[trigger] pow2(k) == a && a >= c && (k == 0 || pow2((k - 1) as nat) < c);
    let kb = choose|k: nat| #[trigger] pow2(k) == b && b >= c && (k == 0 || pow2((k - 1) as nat) < c);
    if ka < kb {
        if ka < (kb - 1) as nat {
            lemma_pow2_strictly_increases(ka, (kb - 1) as nat);
        }
    } else if kb < ka {
        if kb < (ka - 1) as nat {
            lemma_pow2_strictly_increases(kb, (ka - 1) as nat);
        }
    }
}

/// The smallest power of two that is at least `n`, and whether `n` is one.
pub fn next_power_of_two(n: usize) -> (r: (usize, bool))
    requires
        1 <= n <= usize::MAX / 2 + 1,
    ensures
        is_next_power_of_two(r.0 as nat, n as nat),
        r.1 == is_power_of_two(n as nat),
{
    let mut p: usize = 1;
    let ghost mut k: nat = 0;
    proof {
        lemma_pow0(2);
        lemma_pow2(0);
    }
    while p < n
        invariant
            1 <= n <= usize::MAX / 2 + 1,
            1 <= p,
            p == pow2(k),
            forall|j: nat| j < k ==> #[trigger] pow2(j) < n,
        decreases (if p < n { n - p } else { 0 }),
    {
        proof {
            lemma_pow2_unfold(k + 1);
        }
        p = p * 2;
        proof {
            k = k + 1;
        }
    }
    let exact = p == n;
    proof {
        if k > 0 {
            assert(pow2((k - 1) as nat) < n);
        }
        assert(is_next_power_of_two(p as nat, n as nat));
        if !exact && is_power_of_two(n as nat) {
            let j = choose|j: nat| #[trigger] pow2(j) == n;
            if j < k {
                assert(pow2(j) < n);
            } else if j > k {
                lemma_pow2_strictly_increases(k, j);
            }
        }
    }
    (p, exact)
}

/// Appends, for each flag of a table whose bit in `has` equals `add`,
/// `,+flag` (when adding) or `,-flag` (when removing); `n` entries are
/// looked at.
pub open spec fn feature_mods_upto(has: Seq<bool>, flags: Seq<Seq<char>>, add: bool, n: nat) -> Seq<char>
    decreases n,
{
    if n == 0 {
        seq![]
    } else {
        let i = (n - 1) as int;
        feature_mods_upto(has, flags, add, (n - 1) as nat) + (if has[i] == add {
            (if add { ",+"@ } else { ",-"@ }) + flags[i]
        } else {
            seq![]
        })
    }
}

/// The flag modifications of a table: the entries that both sequences
/// have are looked at.
pub open spec fn feature_mods(has: Seq<bool>, flags: Seq<Seq<char>>, add: bool) -> Seq<char> {
    feature_mods_upto(has, flags, add, if has.len() < flags.len() { has.len() } else { flags.len() })
}

/// The flag modifications of a table whose CPUID leaf may be missing.
pub open spec fn opt_feature_mods(has: Option<Vec<bool>>, flags: Seq<Seq<char>>, add: bool) -> Seq<char> {
    match has {
        Some(h) => feature_mods(h@, flags, add),
        None => seq![],
    }
}

/// Adds (`,+flag`) the flags that the host has, or removes (`,-flag`)
/// those it lacks.
fn modify_features(arg: &mut String, has: &Vec<bool>, flags: &Vec<&'static str>, add: bool)
    ensures
        final(arg)@ == old(arg)@ + feature_mods(has@, str_views(flags@), add),
{
    let n = if has.len() < flags.len() { has.len() } else { flags.len() };
    let mut i: usize = 0;
    while i < n
        invariant
            n == (if has@.len() < flags@.len() { has@.len() } else { flags@.len() }),
            i <= n,
            arg@ == old(arg)@ + feature_mods_upto(has@, str_views(flags@), add, i as nat),
        decreases n - i,
    {
        let ghost before = arg@;
        if has[i] == add {
            if add {
                proof { reveal_strlit(",+"); }
                arg.append(",+");
            } else {
                proof { reveal_strlit(",-"); }
                arg.append(",-");
            }
            arg.append(flags[i]);
        }
        proof {
            assert(feature_mods_upto(has@, str_views(flags@), add, (i + 1) as nat)
                == feature_mods_upto(has@, str_views(flags@), add, i as nat) + (if has@[i as int] == add {
                    (if add { ",+"@ } else { ",-"@ }) + str_views(flags@)[i as int]
                } else {
                    seq![]
                }));
            assert(arg@ =~= old(arg)@ + feature_mods_upto(has@, str_views(flags@), add, (i + 1) as nat));
        }
        i = i + 1;
    }
}

/// Applies `modify_features` where the CPUID leaf is present.
fn modify_opt_features(arg: &mut String, has: &Option<Vec<bool>>, flags: &Vec<&'static str>, add: bool)
    ensures
        final(arg)@ == old(arg)@ + opt_feature_mods(*has, str_views(flags@), add),
{
    match has {
        Some(h) => modify_features(arg, h, flags, add),
        None => {
            assert(arg@ =~= old(arg)@ + opt_feature_mods(*has, str_views(flags@), add));
        },
    }
}

/// The flags of the `mac_feature_info` table.
pub open spec fn spec_mac_feature_info() -> Seq<Seq<char>> {
    seq!["aes"@, "apic"@, "clflush"@, "cmov"@, "cx8"@, "cx16"@, "de"@, "f16c"@, "fma"@, "fxsr"@, "mca"@, "mce"@, "mmx"@, "movbe"@, "msr"@, "mtrr"@, "pae"@, "pat"@, "pcid"@, "pge"@, "pse"@, "pse36"@, "popcnt"@, "rdrand"@, "sep"@, "x2apic"@, "xsave"@]
}

fn mac_feature_info() -> (r: Vec<&'static str>)
    ensures
        str_views(r@) == spec_mac_feature_info(),
{
    let mut v: Vec<&'static str> = Vec::new();
    v.push("aes");
    v.push("apic");
    v.push("clflush");
    v.push("cmov");
    v.push("cx8");
    v.push("cx16");
    v.push("de");
    v.push("f16c");
    v.push("fma");
    v.push("fxsr");
    v.push("mca");
    v.push("mce");
    v.push("mmx");
    v.push("movbe");
    v.push("msr");
    v.push("mtrr");
    v.push("pae");
    v.push("pat");
    v.push("pcid");
    v.push("pge");
    v.push("pse");
    v.push("pse36");
    v.push("popcnt");
    v.push("rdrand");
    v.push("sep");
    v.push("x2apic");
    v.push("xsave");
    assert(str_views(v@) =~= spec_mac_feature_info());
    v
}

/// The flags of the `mac_extended_feature_info` table.
pub open spec fn spec_mac_extended_feature_info() -> Seq<Seq<char>> {
    seq!["adx"@, "avx2"@, "avx512f"@, "avx512bw"@, "avx512dq"@, "avx512cd"@, "avx512vl"@, "clwb"@, "bmi1"@, "bmi2"@, "erms"@, "fsgsbase"@, "invpcid"@, "mpx"@, "smep"@, "vaes"@, "vpclmulqdq"@]
}

fn mac_extended_feature_info() -> (r: Vec<&'static str>)
    ensures
        str_views(r@) == spec_mac_extended_feature_info(),
{
    let mut v: Vec<&'static str> = Vec::new();
    v.push("adx");
    v.push("avx2");
    v.push("avx512f");
    v.push("avx512bw");
    v.push("avx512dq");
    v.push("avx512cd");
    v.push("avx512vl");
    v.push("clwb");
    v.push("bmi1");
    v.push("bmi2");
    v.push("erms");
    v.push("fsgsbase");
    v.push("invpcid");
    v.push("mpx");
    v.push("smep");
    v.push("vaes");
    v.push("vpclmulqdq");
    assert(str_views(v@) =~= spec_mac_extended_feature_info());
    v
}

/// The flags of the `mac_extended_processor` table.
pub open spec fn spec_mac_extended_processor() -> Seq<Seq<char>> {
    seq!["abm"@, "lahf-lm"@, "lm"@, "nx"@, "syscall"@, "pdpe1gb"@]
}

fn mac_extended_processor() -> (r: Vec<&'static str>)
    ensures
        str_views(r@) == spec_mac_extended_processor(),
{
    let mut v: Vec<&'static str> = Vec::new();
    v.push("abm");
    v.push("lahf-lm");
    v.push("lm");
    v.push("nx");
    v.push("syscall");
    v.push("pdpe1gb");
    assert(str_views(v@) =~= spec_mac_extended_processor());
    v
}

/// The flags of the `mac_extended_state` table.
pub open spec fn spec_mac_extended_state() -> Seq<Seq<char>> {
    seq!["xgetbv1"@, "xsaveopt"@]
}

fn mac_extended_state() -> (r: Vec<&'static str>)
    ensures
        str_views(r@) == spec_mac_extended_state(),
{
    let mut v: Vec<&'static str> = Vec::new();
    v.push("xgetbv1");
    v.push("xsaveopt");
    assert(str_views(v@) =~= spec_mac_extended_state());
    v
}

/// The flags of the `mac_thermal_power` table.
pub open spec fn spec_mac_thermal_power() -> Seq<Seq<char>> {
    seq!["arat"@]
}

fn mac_thermal_power() -> (r: Vec<&'static str>)
    ensures
        str_views(r@) == spec_mac_thermal_power(),
{
    let mut v: Vec<&'static str> = Vec::new();
    v.push("arat");
    assert(str_views(v@) =~= spec_mac_thermal_power());
    v
}

/// The flags of the `legacy_feature_info` table.
pub open spec fn spec_legacy_feature_info() -> Seq<Seq<char>> {
    seq!["tsc"@, "vme"@, "fxsr"@, "mmx"@, "clflush"@, "pse36"@, "pat"@, "cmov"@, "mca"@, "pge"@, "mtrr"@, "sep"@, "apic"@, "cx8"@, "mce"@, "pae"@, "msr"@, "pse"@, "de"@, "fpu"@, "cx16"@]
}

fn legacy_feature_info() -> (r: Vec<&'static str>)
    ensures
        str_views(r@) == spec_legacy_feature_info(),
{
    let mut v: Vec<&'static str> = Vec::new();
    v.push("tsc");
    v.push("vme");
    v.push("fxsr");
    v.push("mmx");
    v.push("clflush");
    v.push("pse36");
    v.push("pat");
    v.push("cmov");
    v.push("mca");
    v.push("pge");
    v.push("mtrr");
    v.push("sep");
    v.push("apic");
    v.push("cx8");
    v.push("mce");
    v.push("pae");
    v.push("msr");
    v.push("pse");
    v.push("de");
    v.push("fpu");
    v.push("cx16");
    assert(str_views(v@) =~= spec_legacy_feature_info());
    v
}

/// The flags of the `legacy_extended_processor` table.
pub open spec fn spec_legacy_extended_processor() -> Seq<Seq<char>> {
    seq!["lm"@, "nx"@, "syscall"@, "lahf-lm"@]
}

fn legacy_extended_processor() -> (r: Vec<&'static str>)
    ensures
        str_views(r@) == spec_legacy_extended_processor(),
{
    let mut v: Vec<&'static str> = Vec::new();
    v.push("lm");
    v.push("nx");
    v.push("syscall");
    v.push("lahf-lm");
    assert(str_views(v@) =~= spec_legacy_extended_processor());
    v
}

/// What the host's CPUID reports, one table of flags at a time: each
/// entry says whether the host has the flag at the same place of the
/// table; `None` where the CPUID leaf is missing (and on hosts that are
/// not x86_64). Also whether the host runs macOS, whose hypervisor keeps
/// 1 GiB pages from guests.
#[derive(Debug, Clone, PartialEq)]
pub struct CpuFeatures {
    pub macos_host: bool,
    pub mac_feature_info: Option<Vec<bool>>,
    pub mac_extended_feature_info: Option<Vec<bool>>,
    pub mac_extended_processor: Option<Vec<bool>>,
    pub mac_extended_state: Option<Vec<bool>>,
    pub mac_thermal_power: Option<Vec<bool>>,
    pub legacy_feature_info: Option<Vec<bool>>,
    pub legacy_extended_processor: Option<Vec<bool>>,
}

/// The extended processor flags of the host, where a macOS host counts
/// as having 1 GiB pages (`pdpe1gb`, the sixth), so that they are not
/// taken off.
pub open spec fn spec_pdpe1gb_kept(h: Seq<bool>, macos_host: bool) -> Seq<bool> {
    if macos_host && h.len() > 5 { h.update(5, true) } else { h }
}

/// The CPU model of a macOS guest (from Catalina on): the given model,
/// without the flags that the host lacks.
pub open spec fn spec_macos_cpu_flags(input: Seq<char>, f: CpuFeatures) -> Seq<char> {
    input
        + opt_feature_mods(f.mac_feature_info, spec_mac_feature_info(), false)
        + opt_feature_mods(f.mac_extended_feature_info, spec_mac_extended_feature_info(), false)
        + (match f.mac_extended_processor {
            Some(h) => feature_mods(spec_pdpe1gb_kept(h@, f.macos_host), spec_mac_extended_processor(), false),
            None => seq![],
        })
        + opt_feature_mods(f.mac_extended_state, spec_mac_extended_state(), false)
        + opt_feature_mods(f.mac_thermal_power, spec_mac_thermal_power(), false)
}

/// The CPU model of a macOS guest (from Catalina on).
pub fn macos_cpu_flags(input: &str, f: &CpuFeatures) -> (r: String)
    ensures
        r@ == spec_macos_cpu_flags(input@, *f),
{
    let mut a = String::from_str(input);
    modify_opt_features(&mut a, &f.mac_feature_info, &mac_feature_info(), false);
    modify_opt_features(&mut a, &f.mac_extended_feature_info, &mac_extended_feature_info(), false);
    match &f.mac_extended_processor {
        Some(h) => {
            let mut kept: Vec<bool> = Vec::new();
            let mut i: usize = 0;
            while i < h.len()
                invariant
                    i <= h@.len(),
                    kept@ == spec_pdpe1gb_kept(h@, f.macos_host).subrange(0, i as int),
                decreases h.len() - i,
            {
                let b = if i == 5 && f.macos_host { true } else { h[i] };
                kept.push(b);
                assert(kept@ =~= spec_pdpe1gb_kept(h@, f.macos_host).subrange(0, i + 1));
                i = i + 1;
            }
            assert(kept@ =~= spec_pdpe1gb_kept(h@, f.macos_host));
            modify_features(&mut a, &kept, &mac_extended_processor(), false);
        },
        None => {},
    }
    modify_opt_features(&mut a, &f.mac_extended_state, &mac_extended_state(), false);
    modify_opt_features(&mut a, &f.mac_thermal_power, &mac_thermal_power(), false);
    a
}

/// The model that older macOS guests get: Penryn, with the flags that the
/// host has added.
pub open spec fn spec_macos_legacy_cpu_flag(f: CpuFeatures) -> Seq<char> {
    "Penryn,vendor=GenuineIntel,+sse,+sse2,+ssse3,+sse4.1"@
        + opt_feature_mods(f.legacy_feature_info, spec_legacy_feature_info(), true)
        + opt_feature_mods(f.legacy_extended_processor, spec_legacy_extended_processor(), true)
}

/// The CPU model of macOS guests before Catalina.
pub fn macos_legacy_cpu_flag(f: &CpuFeatures) -> (r: String)
    ensures
        r@ == spec_macos_legacy_cpu_flag(*f),
{
    let mut a = String::from_str("Penryn,vendor=GenuineIntel,+sse,+sse2,+ssse3,+sse4.1");
    modify_opt_features(&mut a, &f.legacy_feature_info, &legacy_feature_info(), true);
    modify_opt_features(&mut a, &f.legacy_extended_processor, &legacy_extended_processor(), true);
    a
}

/// The CPU model where nothing more specific is needed: the host's own
/// with hardware virtualization (without 1 GiB pages on a macOS host),
/// else QEMU's most capable one.
pub open spec fn spec_default_cpu(hw_accel: bool, macos_host: bool) -> Seq<char> {
    if hw_accel { if macos_host { "host,-pdpe1gb"@ } else { "host"@ } } else { "max"@ }
}

/// The CPU model where nothing more specific is needed.
pub fn default_cpu(hw_accel: bool, macos_host: bool) -> (r: &'static str)
    ensures
        r@ == spec_default_cpu(hw_accel, macos_host),
{
    if hw_accel {
        if macos_host {
            "host,-pdpe1gb"
        } else {
            "host"
        }
    } else {
        "max"
    }
}

/// Which CPU model the guest gets.
#[derive(Debug, Clone, Copy, PartialEq, Eq, Structural)]
pub enum CpuArg {
    Default,
    Mac,
    LegacyMac,
    Windows,
    Qemu32,
}

/// The CPU model of a guest on an architecture (RISC-V 64 guests get none).
pub open spec fn spec_cpu_type(arch: Arch, guest: GuestOS) -> Option<CpuArg> {
    match arch {
        Arch::Riscv64 { .. } => None,
        Arch::AArch64 { .. } => Some(CpuArg::Default),
        Arch::X86_64 { .. } => Some(match guest {
            GuestOS::KolibriOS | GuestOS::ReactOS => CpuArg::Qemu32,
            GuestOS::MacOS { release } => if release.spec_rank() >= MacOSRelease::Catalina.spec_rank() {
                CpuArg::Mac
            } else {
                CpuArg::LegacyMac
            },
            GuestOS::Windows | GuestOS::WindowsServer => CpuArg::Windows,
            _ => CpuArg::Default,
        }),
    }
}

fn cpu_type(arch: Arch, guest: GuestOS) -> (r: Option<CpuArg>)
    ensures
        r == spec_cpu_type(arch, guest),
{
    match arch {
        Arch::Riscv64 { .. } => None,
        Arch::AArch64 { .. } => Some(CpuArg::Default),
        Arch::X86_64 { .. } => Some(match guest {
            GuestOS::KolibriOS | GuestOS::ReactOS => CpuArg::Qemu32,
            GuestOS::MacOS { release } => if release.at_least(MacOSRelease::Catalina) {
                CpuArg::Mac
            } else {
                CpuArg::LegacyMac
            },
            GuestOS::Windows | GuestOS::WindowsServer => CpuArg::Windows,
            _ => CpuArg::Default,
        }),
    }
}

/// The text of a CPU model.
pub open spec fn spec_cpu_model(t: CpuArg, hw_virt: bool, f: CpuFeatures) -> Seq<char> {
    match t {
        CpuArg::Default => spec_default_cpu(hw_virt, f.macos_host),
        CpuArg::Mac => spec_macos_cpu_flags("Skylake-Server-v3,vendor=GenuineIntel,vmware-cpuid-freq=on"@, f),
        CpuArg::LegacyMac => spec_macos_legacy_cpu_flag(f),
        CpuArg::Windows => spec_default_cpu(hw_virt, f.macos_host) + ",+hypervisor,+invtsc,l3-cache=on,migratable=no,hv_passthrough"@,
        CpuArg::Qemu32 => "qemu32"@,
    }
}

fn cpu_model(t: CpuArg, hw_virt: bool, f: &CpuFeatures) -> (r: String)
    ensures
        r@ == spec_cpu_model(t, hw_virt, *f),
{
    match t {
        CpuArg::Default => String::from_str(default_cpu(hw_virt, f.macos_host)),
        CpuArg::Mac => macos_cpu_flags("Skylake-Server-v3,vendor=GenuineIntel,vmware-cpuid-freq=on", f),
        CpuArg::LegacyMac => macos_legacy_cpu_flag(f),
        CpuArg::Windows => {
            let mut s = String::from_str(default_cpu(hw_virt, f.macos_host));
            s.append(",+hypervisor,+invtsc,l3-cache=on,migratable=no,hv_passthrough");
            s
        },
        CpuArg::Qemu32 => String::from_str("qemu32"),
    }
}

/// The CPUs of the host: the counts of physical and logical cores, and
/// the brand and vendor of each logical CPU, in order.
#[derive(Debug, Clone, PartialEq)]
pub struct CpuHost {
    pub physical: usize,
    pub logical: usize,
    pub brands: Vec<String>,
    pub vendors: Vec<String>,
}

/// A list without its repeated neighbours (the first of each run stays).
pub open spec fn dedup_adjacent(s: Seq<Seq<char>>) -> Seq<Seq<char>>
    decreases s.len(),
{
    if s.len() == 0 {
        seq![]
    } else {
        let d = dedup_adjacent(s.drop_last());
        if d.len() > 0 && d.last() == s.last() { d } else { d.push(s.last()) }
    }
}

/// The list without repeated neighbours.
pub fn dedup_strings(s: &Vec<String>) -> (r: Vec<String>)
    ensures
        views(r@) == dedup_adjacent(views(s@)),
{
    let mut r: Vec<String> = Vec::new();
    let mut i: usize = 0;
    while i < s.len()
        invariant
            i <= s@.len(),
            views(r@) == dedup_adjacent(views(s@).subrange(0, i as int)),
        decreases s.len() - i,
    {
        let ghost prefix = views(s@).subrange(0, i as int);
        let ghost next = views(s@).subrange(0, i + 1);
        assert(next.drop_last() =~= prefix);
        let n = r.len();
        if n > 0 && str_eq(r[n - 1].as_str(), s[i].as_str()) {
        } else {
            push_string(&mut r, s[i].clone());
        }
        i = i + 1;
    }
    assert(views(s@).subrange(0, s@.len() as int) =~= views(s@));
    r
}

/// Whether any of the vendors is AMD.
pub fn any_amd(vendors: &Vec<String>) -> (r: bool)
    ensures
        r == views(vendors@).contains("AuthenticAMD"@),
{
    let mut i: usize = 0;
    while i < vendors.len()
        invariant
            i <= vendors@.len(),
            forall|j: int| 0 <= j < i ==> vendors@[j]@ != "AuthenticAMD"@,
        decreases vendors.len() - i,
    {
        if str_eq(vendors[i].as_str(), "AuthenticAMD") {
            assert(views(vendors@)[i as int] == "AuthenticAMD"@);
            return true;
        }
        i = i + 1;
    }
    assert forall|j: int| 0 <= j < views(vendors@).len() implies views(vendors@)[j] != "AuthenticAMD"@ by {
        assert(vendors@[j]@ != "AuthenticAMD"@);
    }
    false
}

/// The processors of the guest. `phys_cores` is at least one; with
/// simultaneous multithreading (`smt`) each core runs two threads.
#[derive(Debug, Clone, PartialEq)]
pub struct Cpu {
    pub phys_cores: usize,
    pub smt: bool,
    pub unique_cpus: Vec<String>,
    pub any_amd: bool,
    pub guest_tweaks: GuestTweaks,
    pub cpu_type: Option<CpuArg>,
    pub features: CpuFeatures,
}

/// The core count and whether threads are paired: the configured thread
/// count (else the host's logical CPUs), halved where the host pairs
/// threads, and at least one.
pub open spec fn spec_cores(threads: Option<usize>, physical: usize, logical: usize) -> (nat, bool) {
    let base: nat = match threads { Some(t) => t as nat, None => logical as nat };
    let smt = logical > physical;
    let c: nat = if smt { base / 2 } else { base };
    (if c < 1 { 1 } else { c }, smt)
}

/// Whether the guest asks for a warning that its thread count is not a
/// power of two (macOS guests want one).
pub open spec fn spec_pow2_warning(threads: Option<usize>, guest: GuestOS) -> bool {
    guest is MacOS && (threads matches Some(t) && !is_power_of_two(t as nat))
}

/// The warnings about the processors: for a macOS guest whose thread
/// count is not a power of two, the next power of two up; then those of
/// the guest's tweaks.
pub open spec fn spec_cpu_warnings(threads: Option<usize>, guest: GuestOS, hw_virt: Result<bool, Warning>) -> Seq<Warning> {
    (if spec_pow2_warning(threads, guest) {
        seq![Warning::MacOSCorePow2((choose|n: nat| is_next_power_of_two(n, threads->Some_0 as nat)) as usize)]
    } else {
        seq![]
    }) + guest.spec_tweaks(hw_virt).1
}

impl Machine {
    /// The processors of the guest, from the host's CPUs, whether
    /// hardware virtualization is available (or the warning why not) and
    /// what CPUID reports. A macOS guest whose thread count is not a power
    /// of two is warned about first, with the next power of two
    /// recommended; the warnings of the guest's tweaks follow.
    pub fn cpu_args(&self, guest: GuestOS, host: &CpuHost, hw_virt: Result<bool, Warning>, features: CpuFeatures)
        -> (r: Result<(Cpu, Vec<Warning>), Error>)
        requires
            self.wf(),
            guest is MacOS ==> (self.cpu_threads matches Some(t) ==> t <= usize::MAX / 2 + 1),
        ensures
            r matches Ok((cpu, w)) && {
                let (cores, smt) = spec_cores(self.cpu_threads, host.physical, host.logical);
                let pw = spec_pow2_warning(self.cpu_threads, guest);
                let tw = guest.spec_tweaks(hw_virt);
                &&& cpu.phys_cores == cores
                &&& cpu.smt == smt
                &&& views(cpu.unique_cpus@) == dedup_adjacent(views(host.brands@))
                &&& cpu.any_amd == views(host.vendors@).contains("AuthenticAMD"@)
                &&& cpu.guest_tweaks == tw.0
                &&& cpu.cpu_type == spec_cpu_type(self.arch, guest)
                &&& cpu.features == features
                &&& w@.len() == (if pw { 1int } else { 0 }) + tw.1.len()
                &&& (pw ==> (w@[0] matches Warning::MacOSCorePow2(n)
                        && self.cpu_threads matches Some(t) && is_next_power_of_two(n as nat, t as nat)))
                &&& w@.subrange(if pw { 1int } else { 0 }, w@.len() as int) == tw.1
                &&& w@ == spec_cpu_warnings(self.cpu_threads, guest, hw_virt)
            },
    {
        let mut warnings: Vec<Warning> = Vec::new();
        let mut cores: usize = match self.cpu_threads {
            Some(t) => {
                if let GuestOS::MacOS { .. } = guest {
                    let (next, exact) = next_power_of_two(t);
                    if !exact {
                        proof {
                            let n = choose|n: nat| is_next_power_of_two(n, t as nat);
                            lemma_next_power_unique(n, next as nat, t as nat);
                        }
                        warnings.push(Warning::MacOSCorePow2(next));
                    }
                }
                t
            },
            None => host.logical,
        };
        let smt = host.logical > host.physical;
        if smt {
            cores = cores / 2;
        }
        if cores < 1 {
            cores = 1;
        }
        let ghost nw = warnings@.len();
        let unique_cpus = dedup_strings(&host.brands);
        let amd = any_amd(&host.vendors);
        let (guest_tweaks, mut warns) = guest.tweaks(hw_virt);
        warnings.append(&mut warns);
        assert(warnings@.subrange(nw as int, warnings@.len() as int) =~= guest.spec_tweaks(hw_virt).1);
        assert(warnings@ =~= warnings@.subrange(0, nw as int) + warnings@.subrange(nw as int, warnings@.len() as int));
        let cpu = Cpu {
            phys_cores: cores,
            smt,
            unique_cpus,
            any_amd: amd,
            guest_tweaks,
            cpu_type: cpu_type(self.arch, guest),
            features,
        };
        Ok((cpu, warnings))
    }
}

impl Cpu {
    /// The number of threads.
    pub open spec fn spec_threads(&self) -> nat {
        if self.smt { 2 * (self.phys_cores as nat) } else { self.phys_cores as nat }
    }
}

/// The guest's processors fit the host's threads: without a configured
/// count, the guest runs as many threads as the host has logical CPUs
/// (cores times threads per core, the cores rounded down where threads
/// are paired); with a count of at least two, cores times threads per
/// core is that count rounded down to whole cores, never more; and threads
/// are paired exactly where the host has more logical than physical CPUs.
/// The `-smp` option says so: `cores=<cores>,threads=<threads per core>`.
pub proof fn law_guest_threads_fit_host(threads: Option<usize>, physical: usize, logical: usize, cpu: Cpu)
    requires
        cpu.phys_cores == spec_cores(threads, physical, logical).0,
        cpu.smt == spec_cores(threads, physical, logical).1,
    ensures
        ({
            let base: int = match threads { Some(t) => t as int, None => logical as int };
            let tpc: int = if cpu.smt { 2 } else { 1 };
            let cores = cpu.phys_cores as int;
            &&& cpu.smt == (logical > physical)
            &&& cores >= 1
            &&& base >= 2 ==> cores * tpc <= base && base < cores * tpc + tpc
            &&& threads is None && logical >= 1 && (logical <= physical || logical % 2 == 0) ==> cores * tpc == logical
            &&& cpu.spec_qemu_args()[0] == "-smp"@
            &&& cpu.spec_qemu_args()[1] == "cores="@ + decimal(cores as nat) + ",threads="@ + decimal(tpc as nat) + ",sockets="@
                + decimal(cpu.unique_cpus@.len())
        }),
{
}

impl EmulatorArgs for Cpu {
    open spec fn spec_display(&self) -> Seq<(Seq<char>, Seq<char>)> {
        let sockets = self.unique_cpus@.len();
        let cores = self.phys_cores as nat;
        let threads = self.spec_threads();
        seq![("CPU"@, decimal(sockets) + " socket"@ + (if sockets > 1 { "s"@ } else { ""@ })
            + " ("@ + seq_join(views(self.unique_cpus@), ", "@) + "), "@
            + decimal(cores) + " core"@ + (if cores > 1 { "s"@ } else { ""@ }) + ", "@
            + decimal(threads) + " thread"@ + (if threads > 1 { "s"@ } else { ""@ }))]
    }

    open spec fn spec_qemu_args(&self) -> Seq<Seq<char>> {
        seq!["-smp"@, "cores="@ + decimal(self.phys_cores as nat) + ",threads="@ + decimal(if self.smt { 2 } else { 1 })
            + ",sockets="@ + decimal(self.unique_cpus@.len())]
            + (match self.cpu_type {
                Some(t) => seq!["-cpu"@, spec_cpu_model(t, self.guest_tweaks.hw_virt, self.features)
                    + (if self.any_amd { ",topoext"@ } else { ""@ })],
                None => seq![],
            })
            + self.guest_tweaks.spec_qemu_args()
    }

    fn display(&self) -> (r: Vec<ArgDisplay>) {
        let sockets = self.unique_cpus.len();
        let threads: u128 = if self.smt { (self.phys_cores as u128) * 2 } else { self.phys_cores as u128 };
        let mut v = usize_to_string(sockets);
        v.append(" socket");
        v.append(plural_if(sockets > 1));
        v.append(" (");
        let list = join(&self.unique_cpus, ", ");
        v.append(list.as_str());
        v.append("), ");
        let c = usize_to_string(self.phys_cores);
        v.append(c.as_str());
        v.append(" core");
        v.append(plural_if(self.phys_cores > 1));
        v.append(", ");
        let t = u128_to_string(threads);
        v.append(t.as_str());
        v.append(" thread");
        v.append(plural_if(threads > 1));
        let mut r: Vec<ArgDisplay> = Vec::new();
        r.push(ArgDisplay::new("CPU", v));
        proof {
            reveal_strlit("s");
            reveal_strlit("");
        }
        assert(lines(r@) =~= self.spec_display());
        r
    }

    fn qemu_args(&self) -> (r: Vec<String>) {
        let mut a: Vec<String> = Vec::new();
        push_arg(&mut a, "-smp");
        let mut smp = String::from_str("cores=");
        let c = usize_to_string(self.phys_cores);
        smp.append(c.as_str());
        smp.append(",threads=");
        let t = usize_to_string(if self.smt { 2 } else { 1 });
        smp.append(t.as_str());
        smp.append(",sockets=");
        let s = usize_to_string(self.unique_cpus.len());
        smp.append(s.as_str());
        push_string(&mut a, smp);
        let ghost s1 = views(a@);
        match self.cpu_type {
            Some(t) => {
                push_arg(&mut a, "-cpu");
                let mut m = cpu_model(t, self.guest_tweaks.hw_virt, &self.features);
                if self.any_amd {
                    m.append(",topoext");
                } else {
                    proof { reveal_strlit(""); }
                    assert(m@ =~= m@ + ""@);
                }
                push_string(&mut a, m);
            },
            None => {},
        }
        let ghost s2 = views(a@);
        let tw = self.guest_tweaks.qemu_args();
        crate::text::extend_args(&mut a, &tw);
        proof {
            assert(s2 =~= s1 + (match self.cpu_type {
                Some(t) => seq!["-cpu"@, spec_cpu_model(t, self.guest_tweaks.hw_virt, self.features)
                    + (if self.any_amd { ",topoext"@ } else { ""@ })],
                None => seq![],
            }));
            assert(views(a@) =~= self.spec_qemu_args());
        }
        a
    }
}

} // verus!
