use quickemu::args::images::ImageProbes;
use quickemu::args::io::audio::SoundServers;
use quickemu::args::io::IoHost;
use quickemu::args::machine::boot::BootArgs;
use quickemu::args::machine::cpu::{CpuFeatures, CpuHost};
use quickemu::args::machine::MachineHost;
use quickemu::cli::{edit_config, DisplayOptions, IoOptions, ResolutionOptions};
use quickemu::config::{Config, ConfigHost};
use quickemu::data::display::{Accelerated, Display, DisplayType, Resolution};
use quickemu::data::guest::{GuestOS, MacOSRelease};
use quickemu::data::image::Images;
use quickemu::data::io::{Io, Keyboard, KeyboardLayout, PublicDir};
use quickemu::data::machine::{Arch, BootType, Machine, X86_64Machine};
use quickemu::data::network::{MonitorAddr, MonitorInner, Network, NetworkType, SSHPort, SocketAddress};
use quickemu::error::Error;

const GIB: u64 = 1 << 30;

fn config(guest: GuestOS, tpm: bool) -> Config {
    Config {
        vm_dir: None,
        vm_name: String::new(),
        guest,
        machine: Machine {
            cpu_threads: None,
            arch: Arch::X86_64 { machine: X86_64Machine::Standard },
            boot: BootType::Efi { secure_boot: false },
            tpm,
            ram: None,
            status_quo: false,
        },
        images: Images { disk: vec![], iso: vec![], img: vec![] },
        network: Network {
            network_type: NetworkType::Nat { port_forwards: vec![], ssh_port: SSHPort(Some(22220)), restrict: false },
            monitor: MonitorInner::Socket { socketpath: None },
            serial: MonitorInner::Socket { socketpath: None },
        },
        io: Io {
            usb_controller: None,
            keyboard: None,
            keyboard_layout: KeyboardLayout::AmericanEnglish,
            mouse: None,
            soundcard: None,
            display: Display {
                display_type: DisplayType::Sdl,
                resolution: Resolution::Default,
                accelerated: Accelerated(true),
                braille: false,
            },
            public_dir: PublicDir(None),
        },
        extra_args: vec!["-snapshot".to_string()],
    }
}

fn host(feature_info: Option<(bool, bool)>) -> ConfigHost {
    ConfigHost {
        feature_info,
        avx2: Some(true),
        machine: MachineHost {
            cpu: CpuHost {
                physical: 4,
                logical: 8,
                brands: vec!["Intel Core".to_string()],
                vendors: vec!["GenuineIntel".to_string()],
            },
            hw_virt: Ok(true),
            features: CpuFeatures {
                macos_host: false,
                mac_feature_info: None,
                mac_extended_feature_info: None,
                mac_extended_processor: None,
                mac_extended_state: None,
                mac_thermal_power: None,
                legacy_feature_info: None,
                legacy_extended_processor: None,
            },
            total_memory: 16 * GIB,
            available_memory: 8 * GIB,
            swtpm: Err("swtpm: not found".to_string()),
            boot: Ok(BootArgs::X86_64Bios),
        },
        io: IoHost {
            sound_servers: SoundServers { pipewire: false, pulseaudio: true, alsa: true },
            spice_port: None,
            public_dir_readonly: false,
        },
        smbd_found: false,
        images: ImageProbes {
            bootloader_exists: (false, false),
            disk_states: vec![],
            unattended_exists: false,
            iso_exists: vec![],
            img_exists: vec![],
        },
    }
}

fn located(guest: GuestOS, tpm: bool) -> Config {
    let mut c = config(guest, tpm);
    c.locate("debian.toml", "/vms");
    assert_eq!(c.vm_dir, Some("/vms/debian".to_string()));
    assert_eq!(c.vm_name, "debian");
    assert_eq!(c.finalize("debian", &vec![], &vec![]), Ok(()));
    c
}

#[test]
fn sockets_get_their_paths() {
    let c = located(GuestOS::Linux, false);
    assert_eq!(c.network.monitor, MonitorInner::Socket { socketpath: Some("/vms/debian/debian-monitor.socket".to_string()) });
    assert_eq!(c.network.serial, MonitorInner::Socket { socketpath: Some("/vms/debian/debian-serial.socket".to_string()) });
}

#[test]
fn busy_telnet_consoles_are_refused() {
    let mut c = config(GuestOS::Linux, false);
    c.locate("debian.toml", "/vms");
    c.network.monitor = MonitorInner::Telnet { address: MonitorAddr(SocketAddress { host: "127.0.0.1".to_string(), port: 4440 }) };
    assert_eq!(c.finalize("debian", &vec![false; 10], &vec![]), Err(Error::UnavailablePort(4440)));
}

#[test]
fn full_command_line_of_a_linux_guest() {
    let q = located(GuestOS::Linux, false).to_full_qemu_args(host(Some((true, true)))).unwrap();
    let a = &q.qemu_args;
    assert_eq!(a[0..6], ["-rtc", "base=localtime,clock=host,driftfix=slew", "-pidfile", "/vms/debian/debian.pid", "-name", "debian,process=debian"]);
    assert_eq!(a.last().unwrap(), "-snapshot");
    let m = a.iter().position(|x| x == "-m").unwrap();
    assert_eq!(a[m + 1], "8589934592b");
    let ram = q.display.iter().find(|d| d.name == "RAM").unwrap();
    assert_eq!(ram.value, "8.00 GiB (8.00 GiB / 16.0 GiB available)");
}

#[test]
fn macos_without_sse41_is_refused_first() {
    let r = located(GuestOS::MacOS { release: MacOSRelease::Sonoma }, true).to_full_qemu_args(host(Some((false, true))));
    assert_eq!(r.unwrap_err(), Error::Instructions("SSE4.1".to_string()));
}

#[test]
fn a_tpm_without_swtpm_is_refused() {
    let r = located(GuestOS::Linux, true).to_full_qemu_args(host(Some((true, true))));
    assert_eq!(r.unwrap_err(), Error::Which("swtpm: not found".to_string()));
}

fn no_options() -> IoOptions {
    IoOptions {
        display: DisplayOptions { display: None, access: None, spice_port: None, viewer: None, resolution: None },
        keyboard: None,
        keyboard_layout: None,
        mouse: None,
        soundcard: None,
        public_dir: None,
        usb_controller: None,
    }
}

#[test]
fn law_empty_options_change_nothing() {
    let mut c = config(GuestOS::Linux, false);
    let before_display = c.io.display.clone();
    edit_config(no_options(), false, vec![], &mut c);
    assert_eq!(c.io.display, before_display);
    assert_eq!(c.io.keyboard, None);
    assert!(!c.machine.status_quo);
    assert_eq!(c.extra_args, vec!["-snapshot".to_string()]);
}

#[test]
fn options_override_the_configuration() {
    let mut c = config(GuestOS::Linux, false);
    let mut o = no_options();
    o.keyboard = Some(Keyboard::Virtio);
    o.display.resolution = Some(ResolutionOptions { width: Some(1920), height: Some(1080), fullscreen: false });
    edit_config(o, true, vec!["-full-screen".to_string()], &mut c);
    assert_eq!(c.io.keyboard, Some(Keyboard::Virtio));
    assert_eq!(c.io.display.resolution, Resolution::Custom { width: 1920, height: 1080 });
    assert!(c.machine.status_quo);
    assert_eq!(c.extra_args, vec!["-snapshot".to_string(), "-full-screen".to_string()]);
}
