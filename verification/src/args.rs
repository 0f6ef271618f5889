//! The QEMU arguments of each part of a virtual machine.

use vstd::prelude::*;

pub mod arch;
pub mod guest;
pub mod images;
pub mod io;
pub mod machine;
pub mod network;

verus! {

} // verus!
