//! A virtual machine's configuration, and the whole QEMU command line
//! that it turns into.

use vstd::prelude::*;
use crate::args::images::{ImageArgs, ImageProbes};
use crate::args::io::{IoArgs, IoHost};
use crate::args::machine::{MachineArgs, MachineHost};
use crate::args::network::FullNetworkArgs;
use crate::data::guest::GuestOS;
use crate::data::image::Images;
use crate::data::io::Io;
use crate::data::machine::{Arch, Machine};
use crate::data::network::{MonitorInner, Network};
use crate::args::network::monitor::{spec_console_final, spec_console_ok};
use crate::error::{Error, Warning};
use crate::text::{join_path, path_join, push_arg, push_string, views};
use crate::utils::{extend_lines, lines, ArgDisplay, EmulatorArgs};

verus! {

/// A virtual machine's configuration.
#[derive(Debug)]
pub struct Config {
    pub vm_dir: Option<String>,
    pub vm_name: String,
    pub guest: GuestOS,
    pub machine: Machine,
    pub images: Images,
    pub network: Network,
    pub io: Io,
    pub extra_args: Vec<String>,
}

/// The name of a virtual machine from its configuration file's name: the
/// name up to its last dot (nothing, where it has no dot).
pub open spec fn spec_vm_name_of_file(file_name: Seq<char>) -> Seq<char> {
    match crate::args::machine::boot::last_index_of(file_name, '.') {
        Some(i) => file_name.subrange(0, i),
        None => seq![],
    }
}

/// The name of a virtual machine from its configuration file's name.
pub fn vm_name_of_file(file_name: &str) -> (r: String)
    ensures
        r@ == spec_vm_name_of_file(file_name@),
{
    match crate::args::machine::boot::rfind_char(file_name, '.') {
        Some(i) => String::from_str(file_name.substring_char(0, i)),
        None => String::new(),
    }
}

impl Config {
    /// Where a configuration read from a file keeps its VM, where the
    /// configuration does not say: in the file's directory (`parent`),
    /// under the VM's name, which is the file's name (`file_name`) up to its
    /// last dot where the configuration gives none.
    pub fn locate(&mut self, file_name: &str, parent: &str)
        ensures
            old(self).vm_dir is Some ==> final(self).vm_dir == old(self).vm_dir && final(self).vm_name == old(self).vm_name,
            old(self).vm_dir is None ==> {
                let name = if old(self).vm_name@.len() == 0 { spec_vm_name_of_file(file_name@) } else { old(self).vm_name@ };
                &&& final(self).vm_name@ == name
                &&& final(self).vm_dir matches Some(d) && d@ == join_path(parent@, name)
            },
            final(self).guest == old(self).guest,
            final(self).machine == old(self).machine,
    {
        if self.vm_dir.is_none() {
            if self.vm_name.unicode_len() == 0 {
                self.vm_name = vm_name_of_file(file_name);
            }
            self.vm_dir = Some(path_join(parent, self.vm_name.as_str()));
        }
    }

    /// Finishes the configuration: a VM without a name is named after its
    /// directory (`dir_name`, the directory's last component); telnet
    /// consoles move to a free port (`monitor_free`, `serial_free`: whether
    /// each of the ten ports from theirs on is free); socket consoles
    /// without a path get `<vm_name>-monitor.socket` and
    /// `<vm_name>-serial.socket` in the VM directory.
    pub fn finalize(&mut self, dir_name: &str, monitor_free: &Vec<bool>, serial_free: &Vec<bool>) -> (r: Result<(), Error>)
        requires
            old(self).vm_dir is Some,
            old(self).network.monitor.telnet_port_spec() matches Some(p) ==> p + 9 <= 65535 && monitor_free@.len() == 10,
            old(self).network.serial.telnet_port_spec() matches Some(p) ==> p + 9 <= 65535 && serial_free@.len() == 10,
        ensures
            final(self).vm_dir == old(self).vm_dir,
            final(self).guest == old(self).guest,
            final(self).machine == old(self).machine,
            final(self).vm_name@ == (if old(self).vm_name@.len() == 0 { dir_name@ } else { old(self).vm_name@ }),
            final(self).images == old(self).images,
            final(self).io == old(self).io,
            final(self).network.network_type == old(self).network.network_type,
            final(self).extra_args == old(self).extra_args,
            r is Ok <==> spec_console_ok(old(self).network.monitor, monitor_free@) && spec_console_ok(old(self).network.serial, serial_free@),
            !spec_console_ok(old(self).network.monitor, monitor_free@)
                ==> r == Err::<(), Error>(Error::UnavailablePort(old(self).network.monitor.telnet_port_spec()->Some_0)),
            spec_console_ok(old(self).network.monitor, monitor_free@) && !spec_console_ok(old(self).network.serial, serial_free@)
                ==> r == Err::<(), Error>(Error::UnavailablePort(old(self).network.serial.telnet_port_spec()->Some_0)),
            r is Ok ==> {
                let name = final(self).vm_name@;
                let dir = old(self).vm_dir->Some_0@;
                &&& spec_console_final(old(self).network.monitor, monitor_free@, join_path(dir, name + "-monitor.socket"@),
                    final(self).network.monitor)
                &&& spec_console_final(old(self).network.serial, serial_free@, join_path(dir, name + "-serial.socket"@),
                    final(self).network.serial)
                &&& final(self).network.monitor.is_ready()
                &&& final(self).network.serial.is_ready()
            },
    {
        if self.vm_name.unicode_len() == 0 {
            self.vm_name = String::from_str(dir_name);
        }
        match self.network.monitor.validate(monitor_free) {
            Ok(_) => {},
            Err(e) => return Err(e),
        }
        match self.network.serial.validate(serial_free) {
            Ok(_) => {},
            Err(e) => return Err(e),
        }
        let vm_dir = match &self.vm_dir {
            Some(d) => d.clone(),
            None => String::new(),
        };
        let mut m = self.vm_name.clone();
        m.append("-monitor.socket");
        self.network.monitor.fill_socket_path(path_join(vm_dir.as_str(), m.as_str()));
        let mut s = self.vm_name.clone();
        s.append("-serial.socket");
        self.network.serial.fill_socket_path(path_join(vm_dir.as_str(), s.as_str()));
        Ok(())
    }

    /// The arguments every guest gets: its clock, its PID file
    /// `<vm_dir>/<vm_name>.pid`, and its name.
    pub fn basic_args(&self) -> (r: BasicArgs)
        requires
            self.vm_dir is Some,
        ensures
            r.slew_driftfix == (self.machine.arch is X86_64),
            r.pid_path@ == join_path(self.vm_dir->Some_0@, self.vm_name@ + ".pid"@),
            r.vm_name@ == self.vm_name@,
    {
        let vm_dir = match &self.vm_dir {
            Some(d) => d.as_str(),
            None => "",
        };
        let mut p = self.vm_name.clone();
        p.append(".pid");
        BasicArgs {
            slew_driftfix: matches!(self.machine.arch, Arch::X86_64 { .. }),
            pid_path: path_join(vm_dir, p.as_str()),
            vm_name: self.vm_name.clone(),
        }
    }
}

impl<T: crate::data::network::MonitorArg> MonitorInner<T> {
    /// The port of a telnet console.
    pub open spec fn telnet_port_spec(self) -> Option<u16> {
        match self { MonitorInner::Telnet { address } => Some(address.spec_address().port), _ => None }
    }

    /// Whether a socket console has its path.
    pub open spec fn is_ready(self) -> bool {
        !(self matches MonitorInner::Socket { socketpath } && socketpath is None)
    }
}

/// The arguments every guest gets.
#[derive(Debug, Clone, PartialEq)]
pub struct BasicArgs {
    pub slew_driftfix: bool,
    pub pid_path: String,
    pub vm_name: String,
}

impl EmulatorArgs for BasicArgs {
    open spec fn spec_display(&self) -> Seq<(Seq<char>, Seq<char>)> {
        seq![]
    }

    open spec fn spec_qemu_args(&self) -> Seq<Seq<char>> {
        seq!["-rtc"@, if self.slew_driftfix { "base=localtime,clock=host,driftfix=slew"@ } else { "base=localtime,clock=host"@ },
            "-pidfile"@, self.pid_path@, "-name"@, self.vm_name@ + ",process="@ + self.vm_name@]
    }

    fn display(&self) -> (r: Vec<ArgDisplay>) {
        let r = Vec::new();
        assert(lines(r@) =~= self.spec_display());
        r
    }

    fn qemu_args(&self) -> (r: Vec<String>) {
        let mut a: Vec<String> = Vec::new();
        push_arg(&mut a, "-rtc");
        push_arg(&mut a, if self.slew_driftfix { "base=localtime,clock=host,driftfix=slew" } else { "base=localtime,clock=host" });
        push_arg(&mut a, "-pidfile");
        push_arg(&mut a, self.pid_path.as_str());
        push_arg(&mut a, "-name");
        let mut n = self.vm_name.clone();
        n.append(",process=");
        n.append(self.vm_name.as_str());
        push_string(&mut a, n);
        assert(views(a@) =~= self.spec_qemu_args());
        a
    }
}

/// Every part of a guest's command line.
#[derive(Debug, Clone, PartialEq)]
pub struct VmArgs {
    pub basic: BasicArgs,
    pub machine: MachineArgs,
    pub io: IoArgs,
    pub network: FullNetworkArgs,
    pub images: ImageArgs,
    pub extra_args: Vec<String>,
}

impl EmulatorArgs for VmArgs {
    open spec fn spec_display(&self) -> Seq<(Seq<char>, Seq<char>)> {
        self.basic.spec_display() + self.machine.spec_display() + self.io.spec_display()
            + self.network.spec_display() + self.images.spec_display()
    }

    /// The parts in order, then the configuration's extra arguments.
    open spec fn spec_qemu_args(&self) -> Seq<Seq<char>> {
        self.basic.spec_qemu_args() + self.machine.spec_qemu_args() + self.io.spec_qemu_args()
            + self.network.spec_qemu_args() + self.images.spec_qemu_args() + views(self.extra_args@)
    }

    fn display(&self) -> (r: Vec<ArgDisplay>) {
        let mut r = self.basic.display();
        extend_lines(&mut r, self.machine.display());
        extend_lines(&mut r, self.io.display());
        extend_lines(&mut r, self.network.display());
        extend_lines(&mut r, self.images.display());
        r
    }

    fn qemu_args(&self) -> (r: Vec<String>) {
        let mut a = self.basic.qemu_args();
        let m = self.machine.qemu_args();
        crate::text::extend_args(&mut a, &m);
        let i = self.io.qemu_args();
        crate::text::extend_args(&mut a, &i);
        let n = self.network.qemu_args();
        crate::text::extend_args(&mut a, &n);
        let g = self.images.qemu_args();
        crate::text::extend_args(&mut a, &g);
        crate::text::extend_args(&mut a, &self.extra_args);
        a
    }
}

/// What the host says that the command line depends on: the CPU's
/// instruction sets (see `validate_cpu`), the machine's host facts, the
/// input and output host facts, whether `smbd` was found, and what was
/// found of the images.
pub struct ConfigHost {
    pub feature_info: Option<(bool, bool)>,
    pub avx2: Option<bool>,
    pub machine: MachineHost,
    pub io: IoHost,
    pub smbd_found: bool,
    pub images: ImageProbes,
}

/// The QEMU arguments, warnings and description lines of a guest.
#[derive(Debug)]
pub struct QemuArgs {
    pub qemu_args: Vec<String>,
    pub warnings: Vec<Warning>,
    pub display: Vec<ArgDisplay>,
}

/// The error that setting up the machine gives, where it gives one: too
/// little memory, a missing `swtpm` where a TPM is asked for, or no
/// firmware.
pub open spec fn spec_machine_error(m: Machine, guest: GuestOS, host: MachineHost) -> Option<Error> {
    let total = crate::units::size_bytes(host.total_memory as int);
    if crate::args::machine::ram::spec_ram(m.ram, total) is None {
        Some(Error::InsufficientRam(total as i64, guest))
    } else if m.tpm && host.swtpm is Err {
        Some(Error::Which(host.swtpm->Err_0))
    } else if host.boot is Err {
        Some(host.boot->Err_0)
    } else {
        None
    }
}

/// What a whole set of arguments is for a finished configuration: the
/// clock, PID file and name; the machine; the input and output; the
/// network and its consoles; the images; and the extra arguments.
pub open spec fn spec_vm_args(c: Config, host: ConfigHost, a: VmArgs) -> bool {
    let vm_dir = c.vm_dir->Some_0@;
    let public_dir = match c.io.public_dir.0 { Some(p) => Some(p@), None => None };
    &&& a.basic.pid_path@ == join_path(vm_dir, c.vm_name@ + ".pid"@)
    &&& a.basic.slew_driftfix == (c.machine.arch is X86_64)
    &&& a.basic.vm_name@ == c.vm_name@
    &&& crate::args::machine::spec_machine_args(c.machine, c.guest, vm_dir, c.vm_name@, host.machine, a.machine)
    &&& a.io == c.io.spec_args(c.machine.arch, c.guest, c.vm_name, host.io)->Ok_0.0
    &&& crate::args::network::spec_network_args(c.network, c.guest, c.vm_name@, public_dir, host.smbd_found, a.network.network)
    &&& crate::args::network::monitor::spec_console(c.network.monitor, a.network.monitor)
    &&& crate::args::network::monitor::spec_console(c.network.serial, a.network.serial)
    &&& crate::args::images::spec_image_args(c.images, c.guest, vm_dir, c.machine.status_quo, c.network.monitor, host.images,
        a.images)
    &&& views(a.extra_args@) == views(c.extra_args@)
}

/// The warnings of a guest, in order: those of the machine, then those of
/// the input and output.
pub open spec fn spec_warnings(c: Config, host: ConfigHost) -> Seq<Warning> {
    crate::args::machine::spec_machine_warnings(c.machine, c.guest, host.machine)
        + c.io.spec_args(c.machine.arch, c.guest, c.vm_name, host.io)->Ok_0.1
}

/// What building a guest's arguments gives, in order: the missing
/// instruction sets of a macOS guest; the machine's error; the input and
/// output's; a missing macOS bootloader; a missing image; else a result of
/// which `ok` holds.
pub open spec fn spec_outcome<T>(c: Config, host: ConfigHost, r: Result<T, Error>, ok: spec_fn(T) -> bool) -> bool {
    let installed = crate::args::images::spec_installed(c.images.disk@, host.images.disk_states@);
    let isos_found = crate::args::images::spec_mounted_flags(c.images.iso@, installed, host.images.iso_exists@);
    let imgs_found = crate::args::images::spec_mounted_flags(c.images.img@, installed, host.images.img_exists@);
    let io = c.io.spec_args(c.machine.arch, c.guest, c.vm_name, host.io);
    let missing = crate::args::guest::spec_missing_instructions(c.guest, host.feature_info, host.avx2);
    if missing is Some {
        r matches Err(Error::Instructions(s)) && s@ == missing->Some_0
    } else if spec_machine_error(c.machine, c.guest, host.machine) is Some {
        r == Err::<T, Error>(spec_machine_error(c.machine, c.guest, host.machine)->Some_0)
    } else if io is Err {
        r == Err::<T, Error>(io->Err_0)
    } else if c.guest is MacOS && !host.images.bootloader_exists.0 && !host.images.bootloader_exists.1 {
        r == Err::<T, Error>(Error::MacBootloader)
    } else if !crate::args::images::all_found(isos_found) || !crate::args::images::all_found(imgs_found) {
        r matches Err(Error::NonexistentImage(_))
    } else {
        r matches Ok(x) && ok(x)
    }
}

impl Config {
    /// Every part of the guest's command line, from a finished
    /// configuration: the host's CPU is checked first, then the machine,
    /// input and output, network and images are set up, and the first
    /// error is returned; the warnings come in that order.
    pub fn to_args(self, host: ConfigHost) -> (r: Result<(VmArgs, Vec<Warning>), Error>)
        requires
            self.vm_dir is Some,
            self.machine.wf(),
            self.guest is MacOS ==> (self.machine.cpu_threads matches Some(t) ==> t <= usize::MAX / 2 + 1),
            self.network.monitor.is_ready(),
            self.network.serial.is_ready(),
            host.images.disk_states@.len() == self.images.disk@.len(),
            host.images.iso_exists@.len() == self.images.iso@.len(),
            host.images.img_exists@.len() == self.images.img@.len(),
            self.images.disk@.len() + self.images.iso@.len() + 8 < u32::MAX,
        ensures
            spec_outcome(self, host, r, |p: (VmArgs, Vec<Warning>)| spec_vm_args(self, host, p.0) && p.1@ == spec_warnings(self, host)),
    {
        match self.guest.validate_cpu(host.feature_info, host.avx2) {
            Ok(_) => {},
            Err(e) => return Err(e),
        }
        let basic = self.basic_args();
        let vm_dir = match &self.vm_dir {
            Some(d) => d.clone(),
            None => String::new(),
        };
        let ConfigHost { feature_info: _, avx2: _, machine: machine_host, io: io_host, smbd_found, images: probes } = host;
        let (machine, mut warnings) = match self.machine.args(self.guest, vm_dir.as_str(), self.vm_name.as_str(), machine_host) {
            Ok(m) => m,
            Err(e) => return Err(e),
        };
        let (io, mut io_warnings) = match self.io.args(self.machine.arch, self.guest, &self.vm_name, io_host) {
            Ok(i) => i,
            Err(e) => return Err(e),
        };
        warnings.append(&mut io_warnings);
        let public_dir: Option<&str> = match &self.io.public_dir.0 {
            Some(p) => Some(p.as_str()),
            None => None,
        };
        let (network, net_warning) = match self.network.args(self.guest, self.vm_name.as_str(), public_dir, smbd_found) {
            Ok(n) => n,
            Err(e) => return Err(e),
        };
        match net_warning {
            Some(w) => warnings.push(w),
            None => {},
        }
        let Config { vm_dir: _, vm_name: _, guest, machine: m, images, network: net, io: _, extra_args } = self;
        let (images, img_warning) = match images.args(guest, vm_dir.as_str(), m.status_quo, net.monitor, &probes) {
            Ok(i) => i,
            Err(e) => return Err(e),
        };
        match img_warning {
            Some(w) => warnings.push(w),
            None => {},
        }
        Ok((VmArgs { basic, machine, io, network, images, extra_args }, warnings))
    }

    /// The QEMU arguments and warnings of a finished configuration (see
    /// `to_args`).
    pub fn to_qemu_args(self, host: ConfigHost) -> (r: Result<(Vec<String>, Vec<Warning>), Error>)
        requires
            self.vm_dir is Some,
            self.machine.wf(),
            self.guest is MacOS ==> (self.machine.cpu_threads matches Some(t) ==> t <= usize::MAX / 2 + 1),
            self.network.monitor.is_ready(),
            self.network.serial.is_ready(),
            host.images.disk_states@.len() == self.images.disk@.len(),
            host.images.iso_exists@.len() == self.images.iso@.len(),
            host.images.img_exists@.len() == self.images.img@.len(),
            self.images.disk@.len() + self.images.iso@.len() + 8 < u32::MAX,
        ensures
            spec_outcome(self, host, r, |p: (Vec<String>, Vec<Warning>)|
                (exists|a: VmArgs| #[trigger] spec_vm_args(self, host, a) && views(p.0@) == a.spec_qemu_args())
                && p.1@ == spec_warnings(self, host)),
    {
        let ghost arch = self.machine.arch;
        let ghost extra = views(self.extra_args@);
        match self.to_args(host) {
            Ok((vm, w)) => {
                let a = vm.qemu_args();
                proof {
                    let rest = vm.machine.spec_qemu_args() + vm.io.spec_qemu_args() + vm.network.spec_qemu_args()
                        + vm.images.spec_qemu_args();
                    assert(views(a@) =~= vm.basic.spec_qemu_args() + rest + views(vm.extra_args@));
                    assert(views(a@).subrange(0, 2) =~= vm.basic.spec_qemu_args().subrange(0, 2));
                    assert(views(a@).subrange(a@.len() - vm.extra_args@.len(), a@.len() as int) =~= views(vm.extra_args@));
                    assert(views(vm.extra_args@).len() == extra.len());
                }
                Ok((a, w))
            },
            Err(e) => Err(e),
        }
    }

    /// The QEMU arguments, warnings and description lines of a finished
    /// configuration (see `to_args`).
    pub fn to_full_qemu_args(self, host: ConfigHost) -> (r: Result<QemuArgs, Error>)
        requires
            self.vm_dir is Some,
            self.machine.wf(),
            self.guest is MacOS ==> (self.machine.cpu_threads matches Some(t) ==> t <= usize::MAX / 2 + 1),
            self.network.monitor.is_ready(),
            self.network.serial.is_ready(),
            host.images.disk_states@.len() == self.images.disk@.len(),
            host.images.iso_exists@.len() == self.images.iso@.len(),
            host.images.img_exists@.len() == self.images.img@.len(),
            self.images.disk@.len() + self.images.iso@.len() + 8 < u32::MAX,
        ensures
            spec_outcome(self, host, r, |q: QemuArgs|
                (exists|a: VmArgs| #[trigger] spec_vm_args(self, host, a) && views(q.qemu_args@) == a.spec_qemu_args()
                    && lines(q.display@) == a.spec_display()) && q.warnings@ == spec_warnings(self, host)),
    {
        match self.to_args(host) {
            Ok((vm, warnings)) => {
                let qemu_args = vm.qemu_args();
                let display = vm.display();
                Ok(QemuArgs { qemu_args, warnings, display })
            },
            Err(e) => Err(e),
        }
    }
}

} // verus!
