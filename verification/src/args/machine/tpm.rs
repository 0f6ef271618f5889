//! The software TPM: `swtpm` runs beside QEMU and QEMU connects to its
//! socket.

use vstd::prelude::*;
use crate::error::Error;
use crate::text::{decimal, join_path, path_join, push_arg, push_string, u64_to_string, views};
use crate::utils::ArgDisplay;

verus! {

/// The socket of the TPM of a virtual machine: `<vm_dir>/<vm_name>.swtpm-sock`.
pub open spec fn spec_tpm_socket(vm_dir: Seq<char>, vm_name: Seq<char>) -> Seq<char> {
    join_path(vm_dir, vm_name + ".swtpm-sock"@)
}

/// How `swtpm` is started for a virtual machine.
#[derive(Debug, Clone, PartialEq)]
pub struct Tpm {
    pub binary: String,
    pub ctrl: String,
    pub tpmstate: String,
    pub socket: String,
}

impl Tpm {
    /// The TPM of the virtual machine in `vm_dir`, given where `swtpm` was
    /// found (or why it was not).
    pub fn new(vm_dir: &str, vm_name: &str, swtpm: Result<String, String>) -> (r: Result<Tpm, Error>)
        ensures
            match swtpm {
                Err(e) => r == Err::<Tpm, Error>(Error::Which(e)),
                Ok(b) => r matches Ok(t) && {
                    &&& t.binary@ == b@
                    &&& t.socket@ == spec_tpm_socket(vm_dir@, vm_name@)
                    &&& t.ctrl@ == "type=unixio,path="@ + spec_tpm_socket(vm_dir@, vm_name@)
                    &&& t.tpmstate@ == "dir="@ + vm_dir@
                },
            },
    {
        let binary = match swtpm {
            Ok(b) => b,
            Err(e) => return Err(Error::Which(e)),
        };
        let mut name = String::from_str(vm_name);
        name.append(".swtpm-sock");
        let socket = path_join(vm_dir, name.as_str());
        let mut ctrl = String::from_str("type=unixio,path=");
        ctrl.append(socket.as_str());
        let mut tpmstate = String::from_str("dir=");
        tpmstate.append(vm_dir);
        Ok(Tpm { binary, ctrl, tpmstate, socket })
    }

    /// The arguments that `swtpm` is started with.
    pub open spec fn spec_swtpm_args(&self) -> Seq<Seq<char>> {
        seq!["socket"@, "--ctrl"@, self.ctrl@, "--terminate"@, "--tpmstate"@, self.tpmstate@, "--tpm2"@]
    }

    /// The arguments that `swtpm` is started with.
    pub fn swtpm_args(&self) -> (r: Vec<String>)
        ensures
            views(r@) == self.spec_swtpm_args(),
    {
        let mut a: Vec<String> = Vec::new();
        push_arg(&mut a, "socket");
        push_arg(&mut a, "--ctrl");
        push_arg(&mut a, self.ctrl.as_str());
        push_arg(&mut a, "--terminate");
        push_arg(&mut a, "--tpmstate");
        push_arg(&mut a, self.tpmstate.as_str());
        push_arg(&mut a, "--tpm2");
        assert(views(a@) =~= self.spec_swtpm_args());
        a
    }

    /// The QEMU arguments once `swtpm` runs.
    pub open spec fn spec_launch_qemu_args(&self) -> Seq<Seq<char>> {
        seq!["-chardev"@, self.socket@, "-tpmdev"@, "emulator,id=tpm0,chardev=chrtpm"@, "-device"@, "tpm-tis,tpmdev=tpm0"@]
    }

    /// The QEMU arguments once `swtpm` runs.
    pub fn launch_qemu_args(&self) -> (r: Vec<String>)
        ensures
            views(r@) == self.spec_launch_qemu_args(),
    {
        let mut a: Vec<String> = Vec::new();
        push_arg(&mut a, "-chardev");
        push_arg(&mut a, self.socket.as_str());
        push_arg(&mut a, "-tpmdev");
        push_arg(&mut a, "emulator,id=tpm0,chardev=chrtpm");
        push_arg(&mut a, "-device");
        push_arg(&mut a, "tpm-tis,tpmdev=tpm0");
        assert(views(a@) =~= self.spec_launch_qemu_args());
        a
    }

    /// The description line once `swtpm` runs with process id `pid`.
    pub fn launch_display(&self, pid: u32) -> (r: ArgDisplay)
        ensures
            r.view() == ("TPM"@, self.socket@ + " (pid: "@ + decimal(pid as nat) + ")"@),
    {
        let mut v = self.socket.clone();
        v.append(" (pid: ");
        let p = u64_to_string(pid as u64);
        v.append(p.as_str());
        v.append(")");
        ArgDisplay::new("TPM", v)
    }
}

} // verus!
