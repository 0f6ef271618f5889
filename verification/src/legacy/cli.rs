//! The command line of the first-generation program: what it is asked to
//! do, which configuration file it reads, and how the file's settings and
//! the command line's are merged.

use vstd::prelude::*;
use crate::args::network::monitor::find_port;
use crate::data::network::SocketAddress;
use crate::legacy::config::{Access, ActionType, ConfigFile, CpuCores, Display, GuestOS, Keyboard, Monitor, Mouse, PublicDir,
    Resolution, Snapshot, SoundCard, USBController, Viewer};
use crate::legacy::validate::spec_is_keyboard_layout;
use crate::data::io::opt_view;
use crate::legacy::config_parse::{default_ram, keyboard_layout, spec_cpu_cores, spec_default_ram};
use crate::legacy::launch::Args;
use crate::text::{ends_with, join_path, path_join, str_eq, views};

verus! {

/// The options of the command line.
#[derive(Debug)]
pub struct CliSettings {
    pub access: Option<String>,
    pub braille: bool,
    pub delete_disk: bool,
    pub delete_vm: bool,
    pub display: Option<Display>,
    pub edit_config: bool,
    pub width: Option<u32>,
    pub height: Option<u32>,
    pub screen: Option<String>,
    pub screenpct: Option<u32>,
    pub snapshot: Option<Vec<String>>,
    pub status_quo: bool,
    pub viewer: Option<Viewer>,
    pub ssh_port: Option<u16>,
    pub spice_port: Option<u16>,
    pub public_dir: Option<String>,
    pub monitor: Option<String>,
    pub monitor_telnet_host: Option<String>,
    pub monitor_telnet_port: Option<u16>,
    pub monitor_cmd: Option<String>,
    pub serial: Option<String>,
    pub serial_telnet_host: Option<String>,
    pub serial_telnet_port: Option<u16>,
    pub keyboard: Option<Keyboard>,
    pub keyboard_layout: Option<String>,
    pub mouse: Option<Mouse>,
    pub sound_card: Option<SoundCard>,
    pub fullscreen: bool,
    pub usb_controller: Option<USBController>,
    pub extra_args: Vec<String>,
    pub config_file: Vec<String>,
    pub migrate_config: bool,
    pub kill: bool,
}

/// Whether snapshot arguments are accepted: `apply`, `create` or `delete`
/// with a tag, or `info` alone.
pub open spec fn spec_snapshot_args_ok(a: Seq<Seq<char>>) -> bool {
    ||| (a[0] == "apply"@ || a[0] == "create"@ || a[0] == "delete"@) && a.len() == 2
    ||| a[0] == "info"@ && a.len() == 1
}

/// Whether a snapshot operation is the one that the arguments name.
pub open spec fn spec_snapshot_is(a: Seq<Seq<char>>, s: Snapshot) -> bool {
    match s {
        Snapshot::Apply(t) => a[0] == "apply"@ && t@ == a[1],
        Snapshot::Create(t) => a[0] == "create"@ && t@ == a[1],
        Snapshot::Delete(t) => a[0] == "delete"@ && t@ == a[1],
        Snapshot::Info => a[0] == "info"@,
    }
}


impl CliSettings {
    /// What the program is asked to do: the first of killing, migrating
    /// the configuration, deleting the VM, deleting the disk, editing the
    /// configuration and a snapshot operation that is set; else starting.
    pub fn get_action_type(&self) -> (r: Result<ActionType, String>)
        requires
            self.snapshot matches Some(v) ==> v@.len() >= 1,
        ensures
            self.kill ==> r == Ok::<ActionType, String>(ActionType::Kill),
            !self.kill && self.migrate_config ==> r == Ok::<ActionType, String>(ActionType::MigrateConfig),
            !self.kill && !self.migrate_config && self.delete_vm ==> r == Ok::<ActionType, String>(ActionType::DeleteVM),
            !self.kill && !self.migrate_config && !self.delete_vm && self.delete_disk ==> r == Ok::<ActionType, String>(ActionType::DeleteDisk),
            !self.kill && !self.migrate_config && !self.delete_vm && !self.delete_disk && self.edit_config
                ==> r == Ok::<ActionType, String>(ActionType::EditConfig),
            !self.kill && !self.migrate_config && !self.delete_vm && !self.delete_disk && !self.edit_config && self.snapshot is None
                ==> r == Ok::<ActionType, String>(ActionType::Launch),
            r matches Ok(ActionType::Snapshot(_)) ==> self.snapshot is Some,
            !self.kill && !self.migrate_config && !self.delete_vm && !self.delete_disk && !self.edit_config
                && self.snapshot is Some ==> {
                let a = views(self.snapshot->Some_0@);
                &&& (r is Ok <==> spec_snapshot_args_ok(a))
                &&& (r matches Ok(t) ==> t matches ActionType::Snapshot(s) && spec_snapshot_is(a, s))
            },
    {
        if self.kill {
            Ok(ActionType::Kill)
        } else if self.migrate_config {
            Ok(ActionType::MigrateConfig)
        } else if self.delete_vm {
            Ok(ActionType::DeleteVM)
        } else if self.delete_disk {
            Ok(ActionType::DeleteDisk)
        } else if self.edit_config {
            Ok(ActionType::EditConfig)
        } else {
            match &self.snapshot {
                Some(s) => match Snapshot::from_args(s) {
                    Ok(snap) => Ok(ActionType::Snapshot(snap)),
                    Err(e) => Err(e),
                },
                None => Ok(ActionType::Launch),
            }
        }
    }
}

/// Whether the `i`th argument names a configuration file: it ends in
/// `.toml` and exists, or it exists with `.toml` added.
pub open spec fn spec_names_config(args: Seq<String>, exists: Seq<bool>, toml_exists: Seq<bool>, i: int) -> bool {
    (spec_ends_toml(args[i]@) && exists[i]) || toml_exists[i]
}

/// Whether a text ends with `.toml`.
pub open spec fn spec_ends_toml(s: Seq<char>) -> bool {
    5 <= s.len() && s.subrange(s.len() - 5, s.len() as int) == ".toml"@
}

/// An argument as an old configuration file: with `.conf` added where it
/// lacks it.
pub open spec fn spec_conf_name(arg: Seq<char>) -> Seq<char> {
    if 5 <= arg.len() && arg.subrange(arg.len() - 5, arg.len() as int) == ".conf"@ { arg } else { arg + ".conf"@ }
}

/// The advice to migrate an old configuration file to TOML.
pub open spec fn spec_migrate_advice(conf: Seq<char>) -> Seq<char> {
    "quickemu no longer supports '.conf' configuration files.\nPlease convert your configuration file to the TOML format using `quickemu --migrate-config "@
        + conf + " "@ + spec_conf_to_toml(conf) + "`."@
}

/// A text with every `.conf` in it, from the left, turned into `.toml`.
pub open spec fn spec_conf_to_toml(s: Seq<char>) -> Seq<char>
    decreases s.len(),
{
    if s.len() < 5 {
        s
    } else if s.subrange(0, 5) == ".conf"@ {
        ".toml"@ + spec_conf_to_toml(s.subrange(5, s.len() as int))
    } else {
        seq![s[0]] + spec_conf_to_toml(s.subrange(1, s.len() as int))
    }
}

/// A text with every `.conf` in it turned into `.toml`.
pub fn conf_to_toml(s: &str) -> (r: String)
    ensures
        r@ == spec_conf_to_toml(s@),
{
    proof {
        reveal_strlit(".conf");
        reveal_strlit(".toml");
    }
    let n = s.unicode_len();
    let mut out = String::new();
    let mut i: usize = 0;
    assert(out@ + spec_conf_to_toml(s@.subrange(0, n as int)) =~= spec_conf_to_toml(s@)) by {
        assert(s@.subrange(0, n as int) =~= s@);
    }
    while i < n
        invariant
            i <= n == s@.len(),
            ".conf"@.len() == 5,
            out@ + spec_conf_to_toml(s@.subrange(i as int, n as int)) == spec_conf_to_toml(s@),
        decreases n - i,
    {
        let ghost t = s@.subrange(i as int, n as int);
        if n - i >= 5 && str_eq(s.substring_char(i, i + 5), ".conf") {
            proof {
                assert(t.subrange(0, 5) =~= s@.subrange(i as int, i + 5));
                assert(t.subrange(5, t.len() as int) =~= s@.subrange(i + 5, n as int));
            }
            out.append(".toml");
            i = i + 5;
        } else {
            proof {
                if t.len() >= 5 {
                    assert(t.subrange(0, 5) =~= s@.subrange(i as int, i + 5));
                }
                assert(t.subrange(1, t.len() as int) =~= s@.subrange(i + 1, n as int));
            }
            out.append(s.substring_char(i, i + 1));
            proof {
                assert(s@.subrange(i as int, i + 1) =~= seq![t[0]]);
            }
            i = i + 1;
        }
    }
    proof {
        assert(s@.subrange(n as int, n as int) =~= Seq::<char>::empty());
    }
    out
}

/// Which configuration file the program reads: the first argument that
/// names one (`exists[i]` and `toml_exists[i]`: whether the argument, and
/// the argument with `.toml` added, exist), with `.toml` added where it
/// lacks it. Where none does, an argument that names an old `.conf` file
/// (`conf_exists[i]`: whether the argument, with `.conf` added where it
/// lacks it, exists) is refused with advice to migrate it, and otherwise a
/// file is asked for.
pub fn choose_config_file(args: &Vec<String>, exists: &Vec<bool>, toml_exists: &Vec<bool>, conf_exists: &Vec<bool>)
    -> (r: Result<String, String>)
    requires
        exists@.len() == args@.len(),
        toml_exists@.len() == args@.len(),
        conf_exists@.len() == args@.len(),
    ensures
        (exists|i: int| 0 <= i < args@.len() && #[trigger] spec_names_config(args@, exists@, toml_exists@, i)) ==> (r matches Ok(f)
            && exists|i: int| 0 <= i < args@.len() && #[trigger] spec_names_config(args@, exists@, toml_exists@, i)
                && (forall|j: int| 0 <= j < i ==> !spec_names_config(args@, exists@, toml_exists@, j))
                && f@ == (if spec_ends_toml(args@[i]@) { args@[i]@ } else { args@[i]@ + ".toml"@ })),
        !(exists|i: int| 0 <= i < args@.len() && #[trigger] spec_names_config(args@, exists@, toml_exists@, i)) ==> (r matches Err(m)
            && if exists|k: int| 0 <= k < args@.len() && #[trigger] conf_exists@[k] {
                exists|k: int| 0 <= k < args@.len() && #[trigger] conf_exists@[k] && (forall|j: int| 0 <= j < k ==> !conf_exists@[j])
                    && m@ == spec_migrate_advice(spec_conf_name(args@[k]@))
            } else {
                m@ == "You are required to input a valid configuration file."@
            }),
{
    proof {
        reveal_strlit(".toml");
    }
    assert(".toml"@.len() == 5);
    let n = args.len();
    let mut i: usize = 0;
    while i < n
        invariant
            n == args@.len() == exists@.len() == toml_exists@.len() == conf_exists@.len(),
            i <= n,
            forall|j: int| 0 <= j < i ==> !spec_names_config(args@, exists@, toml_exists@, j),
        decreases n - i,
    {
        proof {
            reveal_strlit(".toml");
        }
        let t = ends_with(args[i].as_str(), ".toml");
        if (t && exists[i]) || toml_exists[i] {
            assert(spec_names_config(args@, exists@, toml_exists@, i as int));
            let f = if t {
                args[i].clone()
            } else {
                let mut f = args[i].clone();
                f.append(".toml");
                f
            };
            return Ok(f);
        }
        i = i + 1;
    }
    let mut k: usize = 0;
    while k < n
        invariant
            n == conf_exists@.len() == args@.len() == exists@.len() == toml_exists@.len(),
            k <= n,
            forall|j: int| 0 <= j < n ==> !spec_names_config(args@, exists@, toml_exists@, j),
            forall|j: int| 0 <= j < k ==> !conf_exists@[j],
        decreases n - k,
    {
        if conf_exists[k] {
            proof {
                reveal_strlit(".conf");
            }
            let conf = if ends_with(args[k].as_str(), ".conf") {
                args[k].clone()
            } else {
                let mut c = args[k].clone();
                c.append(".conf");
                c
            };
            let mut m = String::from_str("quickemu no longer supports '.conf' configuration files.\nPlease convert your configuration file to the TOML format using `quickemu --migrate-config ");
            m.append(conf.as_str());
            m.append(" ");
            let toml = conf_to_toml(conf.as_str());
            m.append(toml.as_str());
            m.append("`.");
            assert(conf@ == spec_conf_name(args@[k as int]@));
            assert(m@ =~= spec_migrate_advice(spec_conf_name(args@[k as int]@)));
            assert(conf_exists@[k as int]);
            return Err(m);
        }
        k = k + 1;
    }
    Err(String::from_str("You are required to input a valid configuration file."))
}

/// What the settings of a guest are, from the command line, the
/// configuration file (`conf_file`, whose name without `.toml` is the VM
/// directory), the VM's name and what the host says (see
/// `Args::from_settings`): they are given exactly where the CPU count, the
/// keyboard layout and both consoles are acceptable.
pub open spec fn spec_settings_args(cli: CliSettings, conf_file: Seq<char>, conf: ConfigFile, vm_name: Seq<char>, logical: usize,
    physical: usize, total_memory: u64, spice_free: Seq<bool>, monitor_address: Result<SocketAddress, String>,
    serial_address: Result<SocketAddress, String>, r: Result<Args, String>) -> bool {
    &&& ({
        let layout = match cli.keyboard_layout { Some(l) => Some(l), None => conf.keyboard_layout };
        &&& spec_cpu_cores(conf.cpu_cores, logical, physical) is Some
        &&& (layout matches Some(l) ==> spec_is_keyboard_layout(l@))
        &&& Monitor::spec_settings_ok(conf.monitor, cli.monitor, cli.monitor_telnet_host, cli.monitor_telnet_port, monitor_address)
        &&& Monitor::spec_settings_ok(conf.serial, cli.serial, cli.serial_telnet_host, cli.serial_telnet_port, serial_address)
    }) <==> r is Ok
    &&& r matches Ok(a) ==> {
        &&& a.arch == conf.arch
        &&& a.boot == conf.boot_type
        &&& a.disk_images == conf.disk_images
        &&& a.accelerated == conf.accelerated
        &&& a.image_files == conf.image_files
        &&& a.guest_os == conf.guest_os
        &&& a.network == conf.network
        &&& a.port_forwards == conf.port_forwards
        &&& a.tpm == conf.tpm
        &&& a.usb_devices == conf.usb_devices
        &&& a.monitor_cmd == cli.monitor_cmd
        &&& a.viewer == (match cli.viewer { Some(v) => Some(v), None => conf.viewer })
        &&& a.screenpct == (match cli.screenpct { Some(p) => Some(p), None => conf.screenpct })
        &&& a.resolution == (match (cli.width, cli.height, cli.screen) {
            (Some(w), Some(h), _) => Resolution::Custom { width: w, height: h },
            (_, _, Some(s)) => Resolution::Display(s),
            _ => conf.resolution,
        })
        &&& a.usb_controller == (match cli.usb_controller { Some(u) => u, None => match conf.usb_controller {
            Some(u) => u,
            None => USBController::spec_for_guest(conf.guest_os),
        } })
        &&& a.mouse == (match cli.mouse { Some(m) => m, None => match conf.mouse {
            Some(m) => m,
            None => (if conf.guest_os == GuestOS::FreeBSD || conf.guest_os == GuestOS::GhostBSD { Mouse::Usb } else { Mouse::Tablet }),
        } })
        &&& opt_view(&a.keyboard_layout) == opt_view(&(match cli.keyboard_layout { Some(l) => Some(l), None => conf.keyboard_layout }))
        &&& ({
            let base: u16 = match cli.spice_port { Some(p) => p, None => conf.spice_port };
            match a.spice_port {
                Some(p) => base <= p <= base + 9 && spice_free[p - base] && forall|j: int| 0 <= j < p - base ==> !spice_free[j],
                None => forall|j: int| 0 <= j < 10 ==> !spice_free[j],
            }
        })
        &&& a.vm_dir@ == conf_file.subrange(0, conf_file.len() - 5)
        &&& a.vm_name@ == vm_name
        &&& a.access == Access::spec_from_text(cli.access, conf.access)
        &&& a.braille == (cli.braille || conf.braille)
        &&& a.status_quo == (cli.status_quo || conf.status_quo)
        &&& a.fullscreen == (cli.fullscreen || conf.fullscreen)
        &&& a.ram == (match conf.ram { Some(x) => x, None => spec_default_ram(total_memory) })
        &&& a.display == (match cli.display { Some(d) => d, None => conf.display })
        &&& a.keyboard == (match cli.keyboard { Some(k) => k, None => conf.keyboard })
        &&& a.sound_card == (match cli.sound_card { Some(s) => s, None => conf.soundcard })
        &&& a.ssh_port == (match cli.ssh_port { Some(p) => p, None => conf.ssh_port })
        &&& views(a.extra_args@) == views(conf.extra_args@) + views(cli.extra_args@)
        &&& a.public_dir == PublicDir::spec_from_settings(conf.public_dir, cli.public_dir)
        &&& (spec_cpu_cores(conf.cpu_cores, logical, physical) matches Some((cores, smt))
            && a.cpu_cores == (CpuCores { cores, smt }))
    }
}

/// The VM directory that a configuration file names: its name without
/// `.toml`.
pub open spec fn spec_vm_dir(conf_file: Seq<char>) -> Seq<char> {
    conf_file.subrange(0, conf_file.len() - 5)
}

/// What `std::path::Path::file_name` gives for a path: its final
/// component, if it has one.
pub uninterp spec fn std_file_name(path: Seq<char>) -> Option<Seq<char>>;

/// `std::path::Path::file_name`, as text. Its documentation gives the
/// final component of the path; where the text after the last `/` (the
/// whole text, where it has none) is not empty, `.` or `..`, that text is
/// the final component. The other cases are only named.
#[verifier::external_body]
fn path_file_name(path: &str) -> (r: Option<String>)
    ensures
        opt_view(&r) == std_file_name(path@),
        ({
            let last = crate::args::machine::boot::file_name(path@);
            last.len() > 0 && last != "."@ && last != ".."@ ==> opt_view(&r) == Some(last)
        }),
{
    std::path::Path::new(path).file_name().map(|n| n.to_string_lossy().into_owned())
}

impl Args {
    /// The settings of a guest named `vm_name` (see `from_settings`).
    fn with_name(cli: CliSettings, conf_file: &str, conf: ConfigFile, vm_name: String, logical: usize, physical: usize,
        total_memory: u64, spice_free: &Vec<bool>, monitor_address: Result<SocketAddress, String>,
        serial_address: Result<SocketAddress, String>) -> (r: Result<Args, String>)
        requires
            spec_ends_toml(conf_file@),
            (match cli.spice_port { Some(p) => p, None => conf.spice_port }) + 9 <= 65535,
            spice_free@.len() == 10,
        ensures
            spec_settings_args(cli, conf_file@, conf, vm_name@, logical, physical, total_memory, spice_free@, monitor_address,
                serial_address, r),
    {
        let n = conf_file.unicode_len();
        let vm_dir = String::from_str(conf_file.substring_char(0, n - 5));
        let mut ms = vm_name.clone();
        ms.append("-monitor.socket");
        let monitor_socketpath = path_join(vm_dir.as_str(), ms.as_str());
        let mut ss = vm_name.clone();
        ss.append("-serial.socket");
        let serial_socketpath = path_join(vm_dir.as_str(), ss.as_str());
        let spice_base = match cli.spice_port {
            Some(p) => p,
            None => conf.spice_port,
        };
        let spice_port = find_port(spice_base, 9, spice_free);
        let CliSettings { access, braille, delete_disk: _, delete_vm: _, display, edit_config: _, width, height, screen, screenpct,
            snapshot: _, status_quo, viewer, ssh_port, spice_port: _, public_dir, monitor, monitor_telnet_host, monitor_telnet_port,
            monitor_cmd, serial, serial_telnet_host, serial_telnet_port, keyboard, keyboard_layout: cli_layout, mouse, sound_card,
            fullscreen, usb_controller, extra_args, config_file: _, migrate_config: _, kill: _ } = cli;
        let ConfigFile { guest_os, arch, boot_type, cpu_cores, display: conf_display, disk_images, accelerated, image_files,
            network, port_forwards, public_dir: conf_public_dir, ram, tpm, keyboard: conf_keyboard, keyboard_layout: conf_layout,
            monitor: conf_monitor, serial: conf_serial, soundcard, mouse: conf_mouse, resolution, usb_controller: conf_usb,
            spice_port: _, ssh_port: conf_ssh, usb_devices, extra_args: conf_extra, fullscreen: conf_fullscreen,
            screenpct: conf_screenpct, viewer: conf_viewer, status_quo: conf_status_quo, braille: conf_braille,
            access: conf_access } = conf;
        let cores = match CpuCores::from_host(cpu_cores, logical, physical) {
            Ok(c) => c,
            Err(e) => return Err(e),
        };
        let mut all_extra = crate::legacy::launch::copy_args(&conf_extra);
        crate::text::extend_args(&mut all_extra, &extra_args);
        let layout = match keyboard_layout(conf_layout, cli_layout) {
            Ok(l) => l,
            Err(e) => return Err(e),
        };
        let monitor = match Monitor::from_settings(conf_monitor, monitor, monitor_telnet_host, monitor_telnet_port,
            monitor_socketpath, monitor_address) {
            Ok(m) => m,
            Err(e) => return Err(e),
        };
        let serial = match Monitor::from_settings(conf_serial, serial, serial_telnet_host, serial_telnet_port,
            serial_socketpath, serial_address) {
            Ok(m) => m,
            Err(e) => return Err(e),
        };
        let ram = match ram {
            Some(x) => x,
            None => default_ram(total_memory),
        };
        Ok(Args {
            access: Access::from_setting(access, conf_access),
            arch,
            braille: braille || conf_braille,
            boot: boot_type,
            cpu_cores: cores,
            disk_images,
            display: match display {
                Some(d) => d,
                None => conf_display,
            },
            accelerated,
            extra_args: all_extra,
            image_files,
            guest_os,
            status_quo: status_quo || conf_status_quo,
            network,
            port_forwards,
            public_dir: PublicDir::from_settings(conf_public_dir, public_dir),
            ram,
            tpm,
            usb_devices,
            viewer: match viewer {
                Some(v) => Some(v),
                None => conf_viewer,
            },
            ssh_port: match ssh_port {
                Some(p) => p,
                None => conf_ssh,
            },
            spice_port,
            monitor,
            monitor_cmd,
            resolution: Resolution::from_settings(resolution, width, height, screen),
            screenpct: match screenpct {
                Some(p) => Some(p),
                None => conf_screenpct,
            },
            serial,
            usb_controller: match usb_controller {
                Some(u) => u,
                None => match conf_usb {
                    Some(u) => u,
                    None => USBController::for_guest(&guest_os),
                },
            },
            keyboard: match keyboard {
                Some(k) => k,
                None => conf_keyboard,
            },
            keyboard_layout: layout,
            mouse: match mouse {
                Some(m) => m,
                None => match conf_mouse {
                    Some(m) => m,
                    None => Mouse::for_guest(&guest_os),
                },
            },
            sound_card: match sound_card {
                Some(s) => s,
                None => soundcard,
            },
            fullscreen: fullscreen || conf_fullscreen,
            vm_dir,
            vm_name,
        })
    }

    /// The settings a guest starts with, from the command line, the
    /// configuration file (`conf_file`, ending in `.toml`, whose name
    /// without it is the VM directory, whose final component names the
    /// VM) and what the host says: its logical and physical CPUs, its
    /// memory, which of the ten ports from the Spice port on are free, and
    /// what the monitor's and serial console's telnet addresses read as.
    /// The command line's settings win over the file's.
    pub fn from_settings(cli: CliSettings, conf_file: &str, conf: ConfigFile, logical: usize, physical: usize,
        total_memory: u64, spice_free: &Vec<bool>, monitor_address: Result<SocketAddress, String>,
        serial_address: Result<SocketAddress, String>) -> (r: Result<Args, String>)
        requires
            spec_ends_toml(conf_file@),
            (match cli.spice_port { Some(p) => p, None => conf.spice_port }) + 9 <= 65535,
            spice_free@.len() == 10,
            std_file_name(spec_vm_dir(conf_file@)) is Some,
        ensures
            spec_settings_args(cli, conf_file@, conf, std_file_name(spec_vm_dir(conf_file@))->Some_0, logical, physical,
                total_memory, spice_free@, monitor_address, serial_address, r),
    {
        let n = conf_file.unicode_len();
        let vm_dir = conf_file.substring_char(0, n - 5);
        match path_file_name(vm_dir) {
            Some(vm_name) => Args::with_name(cli, conf_file, conf, vm_name, logical, physical, total_memory, spice_free,
                monitor_address, serial_address),
            None => Err(String::from_str("Unable to find the VM name.")),
        }
    }

    /// The settings of a guest (see `from_settings`), where the VM
    /// directory has a final component to name the guest after; `None`
    /// where it has none.
    pub fn try_from_settings(cli: CliSettings, conf_file: &str, conf: ConfigFile, logical: usize, physical: usize,
        total_memory: u64, spice_free: &Vec<bool>, monitor_address: Result<SocketAddress, String>,
        serial_address: Result<SocketAddress, String>) -> (r: Option<Result<Args, String>>)
        requires
            spec_ends_toml(conf_file@),
            (match cli.spice_port { Some(p) => p, None => conf.spice_port }) + 9 <= 65535,
            spice_free@.len() == 10,
        ensures
            r is None <==> std_file_name(spec_vm_dir(conf_file@)) is None,
            r matches Some(x) ==> spec_settings_args(cli, conf_file@, conf, std_file_name(spec_vm_dir(conf_file@))->Some_0,
                logical, physical, total_memory, spice_free@, monitor_address, serial_address, x),
    {
        let n = conf_file.unicode_len();
        match path_file_name(conf_file.substring_char(0, n - 5)) {
            Some(_) => Some(Args::from_settings(cli, conf_file, conf, logical, physical, total_memory, spice_free,
                monitor_address, serial_address)),
            None => None,
        }
    }
}

impl CliSettings {
    /// Command line options that set nothing.
    pub fn empty() -> (r: CliSettings)
        ensures
            r.access is None && r.display is None && r.keyboard is None && r.sound_card is None && r.ssh_port is None
                && r.spice_port is None && r.public_dir is None && r.keyboard_layout is None && r.mouse is None
                && r.usb_controller is None && r.monitor is None && r.serial is None && r.viewer is None,
            r.width is None && r.height is None && r.screen is None && r.screenpct is None && r.monitor_cmd is None
                && r.monitor_telnet_host is None && r.monitor_telnet_port is None && r.serial_telnet_host is None
                && r.serial_telnet_port is None,
            !r.braille && !r.status_quo && !r.fullscreen,
            r.extra_args@.len() == 0,
    {
        CliSettings {
            access: None,
            braille: false,
            delete_disk: false,
            delete_vm: false,
            display: None,
            edit_config: false,
            width: None,
            height: None,
            screen: None,
            screenpct: None,
            snapshot: None,
            status_quo: false,
            viewer: None,
            ssh_port: None,
            spice_port: None,
            public_dir: None,
            monitor: None,
            monitor_telnet_host: None,
            monitor_telnet_port: None,
            monitor_cmd: None,
            serial: None,
            serial_telnet_host: None,
            serial_telnet_port: None,
            keyboard: None,
            keyboard_layout: None,
            mouse: None,
            sound_card: None,
            fullscreen: false,
            usb_controller: None,
            extra_args: Vec::new(),
            config_file: Vec::new(),
            migrate_config: false,
            kill: false,
        }
    }
}

impl Args {
    /// The settings a guest starts with from a configuration file alone,
    /// kept in `vm_dir` under `vm_name` (see `from_settings`).
    pub fn from_config(conf: ConfigFile, vm_dir: &str, vm_name: String, logical: usize, physical: usize, total_memory: u64,
        spice_free: &Vec<bool>, monitor_address: Result<SocketAddress, String>, serial_address: Result<SocketAddress, String>)
        -> (r: Result<Args, String>)
        requires
            conf.spice_port + 9 <= 65535,
            spice_free@.len() == 10,
        ensures
            ({
                let layout = conf.keyboard_layout;
                &&& spec_cpu_cores(conf.cpu_cores, logical, physical) is Some
                &&& (layout matches Some(l) ==> spec_is_keyboard_layout(l@))
                &&& Monitor::spec_settings_ok(conf.monitor, None, None, None, monitor_address)
                &&& Monitor::spec_settings_ok(conf.serial, None, None, None, serial_address)
            }) <==> r is Ok,
            r matches Ok(a) ==> {
                &&& a.arch == conf.arch
                &&& a.boot == conf.boot_type
                &&& a.disk_images == conf.disk_images
                &&& a.accelerated == conf.accelerated
                &&& a.image_files == conf.image_files
                &&& a.guest_os == conf.guest_os
                &&& a.network == conf.network
                &&& a.port_forwards == conf.port_forwards
                &&& a.tpm == conf.tpm
                &&& a.usb_devices == conf.usb_devices
                &&& a.monitor_cmd is None
                &&& a.viewer == conf.viewer
                &&& a.screenpct == conf.screenpct
                &&& a.resolution == conf.resolution
                &&& a.usb_controller == (match conf.usb_controller {
                    Some(u) => u,
                    None => USBController::spec_for_guest(conf.guest_os),
                })
                &&& a.mouse == (match conf.mouse {
                    Some(m) => m,
                    None => (if conf.guest_os == GuestOS::FreeBSD || conf.guest_os == GuestOS::GhostBSD { Mouse::Usb } else { Mouse::Tablet }),
                })
                &&& opt_view(&a.keyboard_layout) == opt_view(&conf.keyboard_layout)
                &&& ({
                    let base: u16 = conf.spice_port;
                    match a.spice_port {
                        Some(p) => base <= p <= base + 9 && spice_free@[p - base] && forall|j: int| 0 <= j < p - base ==> !spice_free@[j],
                        None => forall|j: int| 0 <= j < 10 ==> !spice_free@[j],
                    }
                })
                &&& a.vm_dir@ == vm_dir@
                &&& a.vm_name@ == vm_name@
                &&& a.access == conf.access
                &&& a.ram == (match conf.ram { Some(x) => x, None => spec_default_ram(total_memory) })
                &&& a.display == conf.display
                &&& views(a.extra_args@) == views(conf.extra_args@)
            },
    {
        let mut file = String::from_str(vm_dir);
        file.append(".toml");
        proof {
            reveal_strlit(".toml");
            assert(file@.subrange(file@.len() - 5, file@.len() as int) =~= ".toml"@);
            assert(file@.subrange(0, file@.len() - 5) =~= vm_dir@);
        }
        let cli = CliSettings::empty();
        let r = Args::with_name(cli, file.as_str(), conf, vm_name, logical, physical, total_memory, spice_free,
            monitor_address, serial_address);
        proof {
            if r is Ok {
                assert(views(r->Ok_0.extra_args@) =~= views(conf.extra_args@));
            }
        }
        r
    }
}

} // verus!
