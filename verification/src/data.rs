//! The configuration of a virtual machine.

use vstd::prelude::*;

pub mod display;
pub mod guest;
pub mod image;
pub mod io;
pub mod machine;
pub mod network;

use self::image::{DiskFormat, PreAlloc};
use vstd::std_specs::cmp::PartialEqSpec;

verus! {

/// Whether a value equals its type's default value, as `==` decides.
pub fn is_default<T: Default + PartialEq>(input: &T) -> (r: bool)
    ensures
        exists|d: T| #[trigger] call_ensures(T::default, (), d) && (T::obeys_eq_spec() ==> r == input.eq_spec(&d)),
{
    let d = T::default();
    let r = input.eq(&d);
    assert(call_ensures(T::default, (), d));
    assert(T::obeys_eq_spec() ==> r == input.eq_spec(&d));
    r
}

/// Whether a flag is set.
pub fn is_true(input: &bool) -> (r: bool)
    ensures
        r == *input,
{
    *input
}

/// How the guest boots.
#[derive(Debug, Clone, Copy, PartialEq, Eq, Structural)]
pub enum BootType {
    Efi { secure_boot: bool },
    Legacy,
}

impl Default for BootType {
    fn default() -> (r: Self)
        ensures
            r == (BootType::Efi { secure_boot: false }),
    {
        BootType::Efi { secure_boot: false }
    }
}

/// A disk of the guest with its allocation mode and, where it is set, its
/// format.
#[derive(Debug, Clone, PartialEq)]
pub struct DiskImage {
    pub path: String,
    pub size: Option<u64>,
    pub preallocation: PreAlloc,
    pub format: Option<DiskFormat>,
}

} // verus!
