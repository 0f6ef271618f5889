//! The memory of the guest.

use vstd::prelude::*;
use crate::data::guest::GuestOS;
use crate::data::machine::Machine;
use crate::error::{Error, Warning};
use crate::text::{i64_to_string, push_arg, push_string, signed_decimal, views};
use crate::units::{size_bytes, size_from_i64, size_from_u64, size_text, size_to_string};
use crate::utils::{lines, ArgDisplay, EmulatorArgs};

verus! {

/// One gibibyte.
pub const GIB: i64 = 1073741824;

/// The least memory that a guest gets without a configured amount: 4 GiB.
pub const MIN_MACOS_WINDOWS_RAM: i64 = 4294967296;

/// The memory that a guest gets by default, from the host's total: a
/// quarter of it, in steps (32 GiB from 128 GiB on, 16 GiB from 64, 8 GiB
/// from 16, 4 GiB from 8, 2 GiB from 4, else 1 GiB).
pub open spec fn spec_default_ram(total: int) -> int {
    let g = total / (GIB as int);
    (if g >= 128 { 32int } else if g >= 64 { 16 } else if g >= 16 { 8 } else if g >= 8 { 4 } else if g >= 4 { 2 } else { 1 }) * GIB
}

/// The memory of a guest with a host of `total` bytes (both as the `size`
/// crate keeps them): what the configuration sets (read as `i64`), else the
/// default; where that is below 4 GiB, a configured amount stays and is
/// warned about, a default is raised to 4 GiB, and a host with less than
/// 4 GiB is refused.
pub open spec fn spec_ram(configured: Option<u64>, total: int) -> Option<int> {
    let ram = match configured { Some(r) => (r as i64) as int, None => spec_default_ram(total) };
    if ram < MIN_MACOS_WINDOWS_RAM && configured is None {
        if total < MIN_MACOS_WINDOWS_RAM { None } else { Some(MIN_MACOS_WINDOWS_RAM as int) }
    } else {
        Some(ram)
    }
}

/// More host memory never gives a guest less memory by default.
pub proof fn law_default_ram_monotone(smaller: int, larger: int)
    requires
        0 <= smaller <= larger,
    ensures
        spec_default_ram(smaller) <= spec_default_ram(larger),
{
    vstd::arithmetic::div_mod::lemma_div_is_ordered(smaller, larger, GIB as int);
}

/// Once the host has 4 GiB, the memory a guest gets by default is at most
/// half of the host's.
pub proof fn law_default_ram_at_most_half(total: int)
    requires
        total >= MIN_MACOS_WINDOWS_RAM,
    ensures
        2 * spec_default_ram(total) <= total,
{
    let g = total / (GIB as int);
    vstd::arithmetic::div_mod::lemma_fundamental_div_mod(total, GIB as int);
    assert(g >= 4) by {
        vstd::arithmetic::div_mod::lemma_div_is_ordered(MIN_MACOS_WINDOWS_RAM as int, total, GIB as int);
    }
    assert(g * (GIB as int) <= total) by {
        vstd::arithmetic::div_mod::lemma_mod_bound(total, GIB as int);
    }
    if g >= 128 {
        assert(64 * (GIB as int) <= g * (GIB as int)) by (nonlinear_arith) requires g >= 128;
    } else if g >= 64 {
        assert(32 * (GIB as int) <= g * (GIB as int)) by (nonlinear_arith) requires g >= 64;
    } else if g >= 16 {
        assert(16 * (GIB as int) <= g * (GIB as int)) by (nonlinear_arith) requires g >= 16;
    } else if g >= 8 {
        assert(8 * (GIB as int) <= g * (GIB as int)) by (nonlinear_arith) requires g >= 8;
    } else {
        assert(4 * (GIB as int) <= g * (GIB as int)) by (nonlinear_arith) requires g >= 4;
    }
}

/// A guest without a configured amount of memory gets at least 4 GiB, or
/// none at all; a configured amount is taken as it is.
pub proof fn law_ram_floor(configured: Option<u64>, total: int)
    ensures
        configured is None ==> (spec_ram(configured, total) matches Some(r) ==> r >= MIN_MACOS_WINDOWS_RAM),
        configured matches Some(c) ==> spec_ram(configured, total) == Some((c as i64) as int),
{
}

/// The memory of the guest and of the host, in bytes.
#[derive(Debug, Clone, Copy, PartialEq, Eq, Structural)]
pub struct Ram {
    pub ram: i64,
    pub total_ram: i64,
    pub free_ram: i64,
}

impl Machine {
    /// The memory of the guest, given the host's total and available
    /// memory in bytes. A configured amount below 4 GiB comes with a
    /// warning that names the host's total memory; without a configured
    /// amount, a host with less than 4 GiB is refused.
    pub fn ram_args(&self, guest: GuestOS, total_memory: u64, available_memory: u64)
        -> (r: Result<(Ram, Option<Warning>), Error>)
        ensures
            ({
                let total = size_bytes(total_memory as int);
                match spec_ram(self.ram, total) {
                    None => r == Err::<(Ram, Option<Warning>), Error>(Error::InsufficientRam(total as i64, guest)),
                    Some(ram) => r matches Ok((v, w)) && {
                        &&& v.ram == size_bytes(ram)
                        &&& v.total_ram == total
                        &&& v.free_ram == size_bytes(available_memory as int)
                        &&& w == (if self.ram is Some && ram < MIN_MACOS_WINDOWS_RAM {
                            Some(Warning::InsufficientRamConfiguration(total as i64, guest))
                        } else {
                            None
                        })
                    },
                }
            }),
    {
        let free_ram = size_from_u64(available_memory);
        let total_ram = size_from_u64(total_memory);
        let mut warning = None;
        let mut ram: i64 = match self.ram {
            Some(r) => r as i64,
            None => {
                let g = total_ram / GIB;
                let n: i64 = if g >= 128 {
                    32
                } else if g >= 64 {
                    16
                } else if g >= 16 {
                    8
                } else if g >= 8 {
                    4
                } else if g >= 4 {
                    2
                } else {
                    1
                };
                n * GIB
            },
        };
        if ram < MIN_MACOS_WINDOWS_RAM {
            if self.ram.is_some() {
                warning = Some(Warning::InsufficientRamConfiguration(total_ram, guest));
            } else if total_ram < MIN_MACOS_WINDOWS_RAM {
                return Err(Error::InsufficientRam(total_ram, guest));
            } else {
                ram = MIN_MACOS_WINDOWS_RAM;
            }
        }
        let ram = size_from_i64(ram);
        Ok((Ram { ram, total_ram, free_ram }, warning))
    }
}

impl EmulatorArgs for Ram {
    open spec fn spec_display(&self) -> Seq<(Seq<char>, Seq<char>)> {
        seq![("RAM"@, size_text(self.ram as int) + " ("@ + size_text(self.free_ram as int) + " / "@
            + size_text(self.total_ram as int) + " available)"@)]
    }

    open spec fn spec_qemu_args(&self) -> Seq<Seq<char>> {
        seq!["-m"@, signed_decimal(self.ram as int) + "b"@]
    }

    fn display(&self) -> (r: Vec<ArgDisplay>) {
        let mut v = size_to_string(self.ram);
        v.append(" (");
        let f = size_to_string(self.free_ram);
        v.append(f.as_str());
        v.append(" / ");
        let t = size_to_string(self.total_ram);
        v.append(t.as_str());
        v.append(" available)");
        let mut r: Vec<ArgDisplay> = Vec::new();
        r.push(ArgDisplay::new("RAM", v));
        assert(lines(r@) =~= self.spec_display());
        r
    }

    fn qemu_args(&self) -> (r: Vec<String>) {
        let mut a: Vec<String> = Vec::new();
        push_arg(&mut a, "-m");
        let mut m = i64_to_string(self.ram);
        m.append("b");
        push_string(&mut a, m);
        assert(views(a@) =~= self.spec_qemu_args());
        a
    }
}

} // verus!
