use quickemu::args::machine::cpu::CpuFeatures;
use quickemu::legacy::config::{
    Access, Arch, BootType, CpuCores, DiskFormat, DiskImage, Display, GuestOS, Image, Keyboard, Monitor, Mouse, Network, PreAlloc,
    PublicDir, Resolution, SoundCard, USBController,
};
use quickemu::legacy::launch::{Args, LaunchHost, LaunchPlan, PrintLine};
use quickemu::legacy::qemu_args::images::LegacyDiskState;

fn strings(a: &[&str]) -> Vec<String> {
    a.iter().map(|s| s.to_string()).collect()
}

fn no_features() -> CpuFeatures {
    CpuFeatures {
        macos_host: false,
        mac_feature_info: None,
        mac_extended_feature_info: None,
        mac_extended_processor: None,
        mac_extended_state: None,
        mac_thermal_power: None,
        legacy_feature_info: None,
        legacy_extended_processor: None,
    }
}

fn linux_args(guest: GuestOS, ram: u64) -> Args {
    Args {
        access: Access::Local,
        arch: Arch::x86_64,
        braille: false,
        boot: BootType::Efi { secure_boot: false },
        cpu_cores: CpuCores { cores: 4, smt: true },
        disk_images: vec![DiskImage {
            path: "/vm/linux/disk.qcow2".to_string(),
            size: None,
            preallocation: PreAlloc::Off,
            format: Some(DiskFormat::Qcow2),
        }],
        display: Display::Sdl,
        accelerated: true,
        extra_args: strings(&["-full-screen"]),
        image_files: Some(vec![Image::Iso("/isos/x.iso".to_string())]),
        guest_os: guest,
        status_quo: false,
        network: Network::Nat,
        port_forwards: None,
        public_dir: PublicDir::Disabled,
        ram,
        tpm: false,
        usb_devices: None,
        viewer: None,
        ssh_port: 22220,
        spice_port: None,
        monitor: Monitor::Disabled,
        monitor_cmd: None,
        resolution: Resolution::Default,
        screenpct: None,
        serial: Monitor::Disabled,
        usb_controller: USBController::Ehci,
        keyboard: Keyboard::Usb,
        keyboard_layout: None,
        mouse: Mouse::Tablet,
        sound_card: SoundCard::IntelHDA,
        fullscreen: false,
        vm_dir: "/vm/linux".to_string(),
        vm_name: "linux".to_string(),
    }
}

fn host(pid_exists: bool) -> LaunchHost {
    LaunchHost {
        pid_exists,
        hw_virt: true,
        matches_host: true,
        vendor: "GenuineIntel".to_string(),
        features: no_features(),
        brands: strings(&["Intel Core", "Intel Core"]),
        ssh_port: Some(22220),
        smbd_found: false,
        bridge_exists: false,
        publicdir: None,
        username: "user".to_string(),
        publicdir_readonly: false,
        tpm_pid: 0,
        boot: ("Boot: EFI".to_string(), Some(strings(&["-bios", "/fw.fd"]))),
        disk_states: vec![LegacyDiskState::Created],
        bootloader_exists: (false, false),
        unattended_exists: false,
        smartcard: Some(false),
        audio: strings(&["-audiodev", "pa,id=audio0"]),
        spice: None,
        display_args: (strings(&["-display", "sdl"]), vec![]),
        sound: (strings(&["-device", "intel-hda"]), vec![]),
        monitor_args: (strings(&["-monitor", "none"]), vec![]),
        serial_args: (strings(&["-serial", "none"]), vec![]),
    }
}

#[test]
fn whole_command_line_of_a_linux_guest() {
    let plan = linux_args(GuestOS::Linux, 4 * 1_073_741_824).launch_args(host(false)).unwrap();
    let LaunchPlan::Start { qemu_args, print } = plan else { panic!("the guest should start") };
    let expected = strings(&[
        "-pidfile", "/vm/linux/linux.pid", "-machine", "q35,smm=off,vmport=off", "-rtc", "base=localtime,clock=host,driftfix=slew",
        "-name", "linux,process=linux", "-accel", "kvm",
        "-audiodev", "pa,id=audio0",
        "-smp", "cores=2,threads=2,sockets=1", "-m", "4294967296b", "-device", "virtio-balloon",
        "-cpu", "host",
        "-netdev", "user,hostname=linux,hostfwd=tcp::22220-:22,id=nic", "-device", "virtio-net,netdev=nic",
        "-display", "sdl", "-device", "intel-hda",
        "-bios", "/fw.fd",
        "-device", "virtio-blk-pci,drive=SystemDisk", "-drive", "id=SystemDisk,if=none,format=qcow2,file=/vm/linux/disk.qcow2",
        "-drive", "media=cdrom,index=0,file=/isos/x.iso",
        "-device", "virtio-rng-pci,rng=rng0", "-object", "rng-random,id=rng0,filename=/dev/urandom",
        "-device", "qemu-xhci,id=spicepass",
        "-chardev", "spicevmc,id=usbredirchardev1,name=usbredir", "-device", "usb-redir,chardev=usbredirchardev1,id=usbredirdev1",
        "-chardev", "spicevmc,id=usbredirchardev2,name=usbredir", "-device", "usb-redir,chardev=usbredirchardev2,id=usbredirdev2",
        "-chardev", "spicevmc,id=usbredirchardev3,name=usbredir", "-device", "usb-redir,chardev=usbredirchardev3,id=usbredirdev3",
        "-device", "pci-ohci,id=smartpass", "-device", "usb-ccid",
        "-device", "usb-ehci,id=input",
        "-device", "usb-kbd,bus=input.0",
        "-device", "usb-tablet,bus=input.0",
        "-monitor", "none", "-serial", "none",
        "-full-screen",
    ]);
    assert_eq!(qemu_args, expected);
    assert_eq!(
        print,
        vec![
            PrintLine::CpuRam("Using 2 cores and 4 threads, ".to_string()),
            PrintLine::Text("Network: User (virtio-net), SSH (On host): ssh {user}@localhost -p 22220".to_string()),
            PrintLine::Text("Boot: EFI".to_string()),
            PrintLine::DiskCreated {
                format: DiskFormat::Qcow2,
                path: "/vm/linux/disk.qcow2".to_string(),
                size: 32 * 1_073_741_824,
                preallocation: PreAlloc::Off,
            },
            PrintLine::Text("Booting from ISO: /isos/x.iso".to_string()),
        ]
    );
}

#[test]
fn a_running_guest_is_not_started_again() {
    let plan = linux_args(GuestOS::Linux, 4 * 1_073_741_824).launch_args(host(true)).unwrap();
    assert!(matches!(plan, LaunchPlan::AlreadyRunning));
}

#[test]
fn windows_with_too_little_memory_is_refused() {
    assert!(linux_args(GuestOS::Windows, 2 * 1_073_741_824).launch_args(host(false)).is_err());
}

#[test]
fn a_missing_bridge_is_refused() {
    let mut args = linux_args(GuestOS::Linux, 4 * 1_073_741_824);
    args.network = Network::Bridged { bridge: "br0".to_string(), mac_addr: None };
    assert!(args.launch_args(host(false)).is_err());
}
