use quickemu::args::arch::HostArch;
use quickemu::args::machine::boot::{macos_firmware, pick_firmware, riscv64_bootloader, BootArgs, BootPlan};
use quickemu::data::io::{SoundCard, USBController};
use quickemu::data::machine::BootType as MBoot;
use quickemu::data::machine::Riscv64Machine;
use quickemu::args::images::disks::DiskState;
use quickemu::args::images::ImageProbes;
use quickemu::args::network::monitor::find_port;
use quickemu::args::network::NetDevice;
use quickemu::cli::{get_action, Action};
use quickemu::config::vm_name_of_file;
use quickemu::data::guest::{GuestOS, MacOSRelease};
use quickemu::data::image::{DiskFormat, DiskImage, Images, MountedImage, PreAlloc};
use quickemu::data::machine::{AArch64Machine, Arch, Machine, X86_64Machine};
use quickemu::data::network::{MonitorInner, MonitorAddr, SocketAddress};
use quickemu::data::{is_default, is_true, BootType};
use quickemu::error::{Error, Warning};
use quickemu::utils::EmulatorArgs;

const GIB: u64 = 1 << 30;

fn x86() -> Arch {
    Arch::X86_64 { machine: X86_64Machine::Standard }
}

fn machine(ram: Option<u64>) -> Machine {
    Machine { cpu_threads: None, arch: x86(), boot: quickemu::data::machine::BootType::Efi { secure_boot: false }, tpm: false, ram, status_quo: false }
}

fn disk(path: &str) -> DiskImage {
    DiskImage { path: path.to_string(), size: None, format: DiskFormat::Qcow2 { preallocation: PreAlloc::Off } }
}

fn iso(path: &str) -> MountedImage {
    MountedImage { path: path.to_string(), always_mount: false }
}

#[test]
fn default_values_are_recognised() {
    assert!(is_default(&0u16));
    assert!(!is_default(&5u16));
    assert!(is_default(&BootType::Efi { secure_boot: false }));
    assert!(!is_default(&BootType::Legacy));
    assert!(is_true(&true));
    assert!(!is_true(&false));
}

#[test]
fn preallocation_options() {
    assert_eq!(
        DiskFormat::Qcow2 { preallocation: PreAlloc::Full }.prealloc_arg(),
        "lazy_refcounts=on,preallocation=full,nocow=on"
    );
    assert_eq!(DiskFormat::Raw { preallocation: PreAlloc::Falloc }.prealloc_arg(), "preallocation=falloc");
    assert_eq!(DiskFormat::Vdi.prealloc_arg(), "preallocation=off");
    assert_eq!(DiskFormat::Qcow2 { preallocation: PreAlloc::Off }.as_str(), "qcow2");
    assert!(DiskFormat::Raw { preallocation: PreAlloc::Metadata }.prealloc_enabled());
    assert!(!DiskFormat::Qed.prealloc_enabled());
}

#[test]
fn hardware_virtualization() {
    let arm = Arch::AArch64 { machine: AArch64Machine::Standard };
    assert_eq!(x86().enable_hw_virt(HostArch::X86_64, true, Some("GenuineIntel")), Ok(true));
    assert_eq!(arm.enable_hw_virt(HostArch::X86_64, true, None), Ok(false));
    assert_eq!(
        x86().enable_hw_virt(HostArch::X86_64, false, Some("AuthenticAMD")),
        Err(Warning::HwVirt(" (AMD-V)".to_string()))
    );
    assert_eq!(arm.enable_hw_virt(HostArch::AArch64, false, None), Err(Warning::HwVirt(String::new())));
}

#[test]
fn network_cards() {
    assert_eq!(NetDevice::for_guest(GuestOS::ReactOS), NetDevice::E1000);
    assert_eq!(NetDevice::for_guest(GuestOS::Linux), NetDevice::VirtIONet);
    assert_eq!(NetDevice::for_guest(GuestOS::MacOS { release: MacOSRelease::Catalina }), NetDevice::VMXNET3);
    assert_eq!(NetDevice::for_guest(GuestOS::MacOS { release: MacOSRelease::Sonoma }), NetDevice::VirtIONet);
    assert_eq!(NetDevice::for_guest(GuestOS::Haiku), NetDevice::RTL8139);
}

#[test]
fn default_memory_by_host() {
    let (ram, w) = machine(None).ram_args(GuestOS::Linux, 16 * GIB, 2 * GIB).unwrap();
    assert_eq!(ram.ram, (8 * GIB) as i64);
    assert_eq!(ram.total_ram, (16 * GIB) as i64);
    assert_eq!(ram.free_ram, (2 * GIB) as i64);
    assert_eq!(w, None);
    assert_eq!(ram.qemu_args(), vec!["-m".to_string(), "8589934592b".to_string()]);
    let shown = ram.display();
    assert_eq!(shown[0].name, "RAM");
    assert_eq!(shown[0].value, "8.00 GiB (2.00 GiB / 16.0 GiB available)");
}

#[test]
fn small_hosts_get_four_gib_or_are_refused() {
    let (ram, _) = machine(None).ram_args(GuestOS::Windows, 6 * GIB, GIB).unwrap();
    assert_eq!(ram.ram, (4 * GIB) as i64);
    assert_eq!(
        machine(None).ram_args(GuestOS::Windows, 3 * GIB, GIB),
        Err(Error::InsufficientRam((3 * GIB) as i64, GuestOS::Windows))
    );
}

#[test]
fn configured_memory_below_four_gib_is_warned_about() {
    let (ram, w) = machine(Some(2 * GIB)).ram_args(GuestOS::Linux, 3 * GIB, GIB).unwrap();
    assert_eq!(ram.ram, (2 * GIB) as i64);
    assert_eq!(w, Some(Warning::InsufficientRamConfiguration((3 * GIB) as i64, GuestOS::Linux)));
}

#[test]
fn law_default_memory_monotone_and_at_most_half() {
    let mut last = 0i64;
    for g in 4u64..300 {
        let total = g * GIB / 2 + 4 * GIB;
        let (ram, _) = machine(None).ram_args(GuestOS::Linux, total, 0).unwrap();
        assert!(ram.ram >= last);
        if total >= 8 * GIB {
            assert!(2 * ram.ram <= total as i64);
        }
        assert!(ram.ram >= (4 * GIB) as i64);
        last = ram.ram;
    }
}

#[test]
fn law_first_free_port_is_taken() {
    assert_eq!(find_port(5000, 3, &vec![false, false, true, true]), Some(5002));
    assert_eq!(find_port(5000, 3, &vec![true, false, true, true]), Some(5000));
    assert_eq!(find_port(5000, 3, &vec![false, false, false, false]), None);
}

#[test]
fn telnet_monitor_moves_to_a_free_port() {
    let mut m: MonitorInner<MonitorAddr> =
        MonitorInner::Telnet { address: MonitorAddr(SocketAddress { host: "127.0.0.1".to_string(), port: 4440 }) };
    let mut free = vec![false; 10];
    free[3] = true;
    assert_eq!(m.validate(&free), Ok(()));
    assert_eq!(m.telnet_port(), Some(4443));
    let mut busy: MonitorInner<MonitorAddr> =
        MonitorInner::Telnet { address: MonitorAddr(SocketAddress { host: "127.0.0.1".to_string(), port: 4440 }) };
    assert_eq!(busy.validate(&vec![false; 10]), Err(Error::UnavailablePort(4440)));
    assert_eq!(busy.telnet_port(), Some(4440));
}

#[test]
fn actions_depend_on_whether_the_vm_runs() {
    assert_eq!(get_action(false, false), Ok(Action::Launch));
    assert_eq!(get_action(true, true), Ok(Action::Kill));
    assert!(get_action(true, false).is_err());
    assert!(get_action(false, true).is_err());
}

#[test]
fn vm_names_from_file_names() {
    assert_eq!(vm_name_of_file("ubuntu-24.04.toml"), "ubuntu-24.04");
    assert_eq!(vm_name_of_file("windows.conf"), "windows");
    assert_eq!(vm_name_of_file("plain"), "");
}

#[test]
fn default_disk_sizes() {
    assert_eq!(GuestOS::Windows.default_disk_size(), 64 * GIB);
    assert_eq!(GuestOS::MacOS { release: MacOSRelease::Ventura }.default_disk_size(), 96 * GIB);
    assert_eq!(GuestOS::KolibriOS.default_disk_size(), 16 * GIB);
    assert_eq!(GuestOS::Linux.default_disk_size(), 32 * GIB);
}

fn probes(disks: usize, isos: usize, unattended: bool) -> ImageProbes {
    ImageProbes {
        bootloader_exists: (false, false),
        disk_states: (0..disks).map(|_| DiskState::Created).collect(),
        unattended_exists: unattended,
        iso_exists: vec![true; isos],
        img_exists: vec![],
    }
}

#[test]
fn law_drive_indices_are_distinct() {
    let images = Images { disk: vec![disk("a.qcow2"), disk("b.qcow2"), disk("c.qcow2")], iso: vec![iso("x.iso"), iso("y.iso")], img: vec![] };
    let (a, _) = images.args(GuestOS::Windows, "/vm", false, MonitorInner::Disabled, &probes(3, 2, true)).unwrap();
    let disk_idx: Vec<u32> = a.disks.mounted_disks.iter().map(|d| d.index).collect();
    assert_eq!(disk_idx, vec![1, 3, 4]);
    let iso_idx: Vec<u32> = a.isos.images.iter().map(|m| m.index).collect();
    assert_eq!(iso_idx, vec![2, 0, 5]);
    assert_eq!(a.isos.images[0].path, "/vm/unattended.iso");
    let cmds = a.monitor_cmds.as_ref().unwrap();
    assert_eq!(cmds.cmds.len(), 5);
    assert!(cmds.cmds.iter().all(|c| c.wait_before_secs == 1 && c.command == "sendkey ret"));

    let (b, _) = images.args(GuestOS::Linux, "/vm", false, MonitorInner::Disabled, &probes(3, 2, false)).unwrap();
    let disk_idx: Vec<u32> = b.disks.mounted_disks.iter().map(|d| d.index).collect();
    assert_eq!(disk_idx, vec![1, 2, 3]);
    let iso_idx: Vec<u32> = b.isos.images.iter().map(|m| m.index).collect();
    assert_eq!(iso_idx, vec![0, 4]);
    assert!(b.monitor_cmds.is_none());
}

#[test]
fn missing_media_and_bootloaders_are_errors() {
    let images = Images { disk: vec![disk("a.qcow2")], iso: vec![iso("x.iso")], img: vec![] };
    let mut p = probes(1, 1, false);
    p.iso_exists = vec![false];
    assert_eq!(
        images.args(GuestOS::Linux, "/vm", false, MonitorInner::Disabled, &p),
        Err(Error::NonexistentImage("/vm/x.iso".to_string()))
    );
    assert_eq!(
        images.args(GuestOS::MacOS { release: MacOSRelease::Sonoma }, "/vm", false, MonitorInner::Disabled, &probes(1, 1, false)),
        Err(Error::MacBootloader)
    );
}

#[test]
fn usb_audio_needs_xhci() {
    assert_eq!(SoundCard::USBAudio.validate(USBController::Ehci), Err(Error::ConflictingSoundUsb));
    assert_eq!(SoundCard::USBAudio.validate(USBController::Xhci), Ok(()));
    assert_eq!(SoundCard::IntelHDA.validate(USBController::Ehci), Ok(()));
}

#[test]
fn boot_plans_and_firmware_errors() {
    let arm = Machine { arch: Arch::AArch64 { machine: AArch64Machine::Standard }, boot: MBoot::Legacy, ..machine(None) };
    assert_eq!(arm.boot_plan(GuestOS::Linux), Err(Error::LegacyBoot));
    let mac = Machine { boot: MBoot::Efi { secure_boot: true }, ..machine(None) };
    assert_eq!(mac.boot_plan(GuestOS::MacOS { release: MacOSRelease::Sonoma }), Err(Error::UnsupportedBootCombination));
    assert_eq!(machine(None).boot_plan(GuestOS::MacOS { release: MacOSRelease::Sonoma }), Ok(BootPlan::MacOS));
    let bios = Machine { boot: MBoot::Legacy, ..machine(None) };
    assert_eq!(bios.boot_plan(GuestOS::Linux), Ok(BootPlan::X86_64Bios));
    let riscv = Machine { arch: Arch::Riscv64 { machine: Riscv64Machine::Standard }, ..machine(None) };
    assert_eq!(riscv.boot_plan(GuestOS::Linux), Ok(BootPlan::Riscv64));
    assert_eq!(riscv64_bootloader(&vec!["/vm/a.img".to_string()], false), Err(Error::Riscv64Bootloader));
    assert_eq!(
        riscv64_bootloader(&vec!["/vm/a.img".to_string(), "/vm/boot/u.bin".to_string()], true),
        Ok(BootArgs::Riscv64Efi("/vm/boot/u.bin".to_string()))
    );
    assert_eq!(macos_firmware("/vm", false, true, true), Err(Error::Ovmf));
    assert_eq!(macos_firmware("/vm", true, false, false), Err(Error::Ovmf));
    let candidates = vec![("/c1".to_string(), "/v1".to_string()), ("/c2".to_string(), "/v2".to_string())];
    assert_eq!(pick_firmware("/vm", &candidates, &vec![false, false], false, false), Err(Error::Ovmf));
    let pick = pick_firmware("/vm", &candidates, &vec![false, true], true, false).unwrap();
    assert_eq!((pick.code.as_str(), pick.vars_source.as_str(), pick.vm_vars.as_str(), pick.copy_vars), ("/c2", "/v2", "/vm/OVMF_VARS.fd", false));
}

#[test]
fn macos_hosts_keep_1gib_pages_from_guests() {
    assert_eq!(quickemu::args::machine::cpu::default_cpu(true, true), "host,-pdpe1gb");
    assert_eq!(quickemu::args::machine::cpu::default_cpu(true, false), "host");
    assert_eq!(quickemu::args::machine::cpu::default_cpu(false, true), "max");
}

#[test]
fn law_layout_codes_distinct() {
    use_layouts();
}

fn use_layouts() {
    let layouts = [
        quickemu::data::io::KeyboardLayout::French,
        quickemu::data::io::KeyboardLayout::FrenchCanadian,
        quickemu::data::io::KeyboardLayout::SwissFrench,
        quickemu::data::io::KeyboardLayout::BelgianFrench,
        quickemu::data::io::KeyboardLayout::Norwegian,
        quickemu::data::io::KeyboardLayout::NorwegianBokmal,
        quickemu::data::io::KeyboardLayout::Portuguese,
        quickemu::data::io::KeyboardLayout::BrazilianPortuguese,
    ];
    for (i, a) in layouts.iter().enumerate() {
        for (j, b) in layouts.iter().enumerate() {
            assert_eq!(i == j, a.as_str() == b.as_str());
        }
    }
}
