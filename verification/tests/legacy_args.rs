use quickemu::legacy::cli::CliSettings;
use quickemu::legacy::config::BootType;
use quickemu::legacy::config::ConfigFile;
use quickemu::legacy::config::DiskFormat;
use quickemu::legacy::launch::Args;
use quickemu::legacy::qemu_args::images::disk_img_args;
use quickemu::legacy::qemu_args::images::{image_args, LegacyDiskState};
use quickemu::legacy::qemu_args::info::qemu_version_check;
use quickemu::legacy::cli::choose_config_file;
use quickemu::legacy::config::{Arch, GuestOS, Image, MacOSRelease, PreAlloc};
use quickemu::args::arch::HostArch;
use quickemu::legacy::qemu_args::images::{find_next_index, image_file_args, iso_arg};
use quickemu::legacy::qemu_args::info::parse_virtual_size;
use quickemu::legacy::qemu_args::{find_riscv_bios, guest_cores, smp_text, tpm_args, Relativize};

fn strings(a: &[&str]) -> Vec<String> {
    a.iter().map(|s| s.to_string()).collect()
}

#[test]
fn machine_types() {
    assert_eq!(Arch::x86_64.machine_type(&GuestOS::Windows), "q35,hpet=off,smm=on,vmport=off");
    assert_eq!(Arch::x86_64.machine_type(&GuestOS::Linux), "q35,smm=off,vmport=off");
    assert_eq!(Arch::x86_64.machine_type(&GuestOS::FreeDOS), "pc,smm=on,vmport=off");
    assert_eq!(Arch::aarch64.machine_type(&GuestOS::Linux), "virt,virtualization=on,pflash0=rom,pflash1=efivars");
}

#[test]
fn hardware_virtualization_only_on_the_host_architecture() {
    assert!(Arch::x86_64.enable_hw_virt(HostArch::X86_64, true));
    assert!(!Arch::x86_64.enable_hw_virt(HostArch::X86_64, false));
    assert!(!Arch::aarch64.enable_hw_virt(HostArch::X86_64, true));
    assert!(Arch::aarch64.matches_host(HostArch::AArch64));
}

#[test]
fn guest_network_cards_and_disk_sizes() {
    assert_eq!(GuestOS::ReactOS.net_device(), "e1000");
    assert_eq!(GuestOS::Linux.net_device(), "virtio-net");
    assert_eq!(GuestOS::MacOS { release: MacOSRelease::Mojave }.net_device(), "vmxnet3");
    assert_eq!(GuestOS::MacOS { release: MacOSRelease::Monterey }.net_device(), "virtio-net");
    assert_eq!(GuestOS::FreeDOS.net_device(), "rtl8139");
    assert_eq!(GuestOS::Windows.disk_size(), 64 * 1_073_741_824);
    assert_eq!(GuestOS::Linux.disk_size(), 32 * 1_073_741_824);
}

#[test]
fn macos_cores_are_rounded_to_a_power_of_two() {
    let mac = GuestOS::MacOS { release: MacOSRelease::Ventura };
    assert_eq!(guest_cores(6, &mac), 4);
    assert_eq!(guest_cores(8, &mac), 8);
    assert_eq!(guest_cores(6, &GuestOS::Linux), 6);
}

#[test]
fn smp_values() {
    assert_eq!(smp_text(8, true, 1), ("cores=4,threads=2,sockets=1".to_string(), "4 cores and 8 threads".to_string()));
    assert_eq!(smp_text(2, true, 1), ("cores=1,threads=2,sockets=1".to_string(), "1 core and 2 threads".to_string()));
    assert_eq!(smp_text(1, false, 2), ("cores=1,threads=1,sockets=2".to_string(), "1 core".to_string()));
    assert_eq!(smp_text(4, false, 1), ("cores=4,threads=1,sockets=1".to_string(), "4 cores".to_string()));
}

#[test]
fn tpm_arguments() {
    let (args, note) = tpm_args("/vm", "debian", 42);
    assert_eq!(
        args,
        strings(&["-chardev", "socket,id=chrtpm,path=/vm/debian.swtpm-sock", "-tpmdev", "emulator,id=tpm0,chardev=chrtpm",
            "-device", "tpm-tis,tpmdev=tpm0"])
    );
    assert_eq!(note, "TPM: /vm/debian.swtpm-sock (pid: 42)");
}

#[test]
fn riscv_bootloaders() {
    assert_eq!(find_riscv_bios(&strings(&["a.img", "boot.bin"]), true), Ok(Some("boot.bin".to_string())));
    assert_eq!(
        find_riscv_bios(&strings(&["a.img"]), true),
        Ok(Some("/usr/lib/u-boot/qemu-riscv64_smode/u-boot.bin".to_string()))
    );
    assert_eq!(find_riscv_bios(&strings(&["a.img"]), false), Ok(None));
    assert!(find_riscv_bios(&strings(&["a.bin", "b.bin"]), false).is_err());
}

#[test]
fn virtual_size_of_qemu_img_info() {
    let info = "image: disk.qcow2\nfile format: qcow2\nvirtual size: 64 GiB (68719476736 bytes)\ndisk size: 1.2 GiB\n";
    assert_eq!(parse_virtual_size(info), Some("64 GiB".to_string()));
    assert_eq!(parse_virtual_size("file format: raw\n"), None);
}

#[test]
fn configuration_file_choice() {
    let args = strings(&["--display", "ubuntu", "other.toml"]);
    assert_eq!(
        choose_config_file(&args, &vec![false, false, true], &vec![false, true, false], &vec![false, false, false]),
        Ok("ubuntu.toml".to_string())
    );
    assert_eq!(
        choose_config_file(&args, &vec![false, false, true], &vec![false, false, false], &vec![false, false, false]),
        Ok("other.toml".to_string())
    );
    assert!(choose_config_file(&args, &vec![false; 3], &vec![false; 3], &vec![false; 3]).is_err());
}

#[test]
fn next_free_index() {
    let mut used: Vec<u8> = vec![0, 1, 3];
    assert_eq!(find_next_index(0, &mut used), 2);
    assert_eq!(used, vec![0, 1, 3, 2]);
    assert_eq!(find_next_index(0, &mut used), 4);
    let mut high: Vec<u8> = vec![255, 0];
    assert_eq!(find_next_index(0, &mut high), 1);
}

#[test]
fn law_image_indices_are_distinct() {
    let images = vec![
        Image::Iso("/isos/win.iso".to_string()),
        Image::FixedIso("/isos/virtio.iso".to_string()),
        Image::Iso("/isos/tools.iso".to_string()),
    ];
    let mut used: Vec<u8> = Vec::new();
    let (args, notes) = image_file_args(&images, &GuestOS::Windows, "/vm", true, &mut used);
    assert_eq!(used, vec![0, 2, 1, 3, 4]);
    let mut sorted = used.clone();
    sorted.sort();
    sorted.dedup();
    assert_eq!(sorted.len(), used.len());
    assert_eq!(args[1], iso_arg("/isos/win.iso", 0));
    assert_eq!(args[3], "media=cdrom,index=2,file=/vm/unattended.iso");
    assert_eq!(notes.len(), 3);
}

#[test]
fn paths_relative_to_the_current_directory() {
    assert_eq!("/home/u/vm/disk.qcow2".to_string().relativize("/home/u"), "vm/disk.qcow2");
    assert_eq!("/home/u/vm".to_string().relativize("/srv"), "../home/u/vm");
    assert_eq!("disk.qcow2".to_string().relativize("/home/u"), "disk.qcow2");
}

#[test]
fn preallocation_for_qemu_img() {
    assert_eq!(PreAlloc::Off.qemu_img_arg(&quickemu::legacy::config::DiskFormat::Qcow2), Ok(Some("lazy_refcounts=on,preallocation=off,nocow=on")));
    assert!(PreAlloc::Metadata.qemu_img_arg(&quickemu::legacy::config::DiskFormat::Raw).is_err());
}

fn reactos_disk(p: &str) -> quickemu::legacy::config::DiskImage {
    quickemu::legacy::config::DiskImage {
        path: p.to_string(),
        size: None,
        preallocation: PreAlloc::Off,
        format: Some(quickemu::legacy::config::DiskFormat::Qcow2),
    }
}

#[test]
fn reactos_disks_keep_their_indices_from_the_images() {
    let disks = vec![reactos_disk("/vm/a"), reactos_disk("/vm/b"), reactos_disk("/vm/c")];
    let states = vec![LegacyDiskState::Created, LegacyDiskState::Created, LegacyDiskState::Created];
    let images = vec![Image::FixedIso("/isos/fixed.iso".to_string())];
    let (args, _) = image_args("/vm", Some(images), &disks, &GuestOS::ReactOS, false, &states, (false, false), false).unwrap();
    assert_eq!(
        args,
        strings(&[
            "-drive",
            "if=ide,index=0,media=disk,file=/vm/a",
            "-drive",
            "if=ide,index=1,media=disk,file=/vm/b",
            "-drive",
            "if=ide,index=3,media=disk,file=/vm/c",
            "-drive",
            "media=cdrom,index=2,file=/isos/fixed.iso",
        ])
    );
}

#[test]
fn law_snapshot_after_each_disk() {
    let disks = vec![reactos_disk("/vm/a"), reactos_disk("/vm/b")];
    let (kept, _) = disk_img_args(&disks, &GuestOS::Linux, "/vm", true, (false, false)).unwrap();
    let (plain, _) = disk_img_args(&disks, &GuestOS::Linux, "/vm", false, (false, false)).unwrap();
    assert_eq!(kept.iter().filter(|a| a.as_str() == "-snapshot").count(), 2);
    assert_eq!(kept[4], "-snapshot");
    assert_eq!(kept[9], "-snapshot");
    let without: Vec<String> = kept.into_iter().filter(|a| a.as_str() != "-snapshot").collect();
    assert_eq!(without, plain);
}

fn boot_host(present: Vec<bool>) -> quickemu::legacy::qemu_args::LegacyBootHost {
    quickemu::legacy::qemu_args::LegacyBootHost {
        riscv_files: vec![],
        uboot_exists: false,
        mac_code_exists: true,
        mac_vars_exist: (false, true),
        firmware_present: present,
        firmware_code: Ok("/usr/share/OVMF/OVMF_CODE_4M.fd".to_string()),
    }
}

#[test]
fn boot_arguments_by_boot_type() {
    let host = boot_host(vec![true]);
    assert_eq!(
        BootType::Legacy.to_args("/vm", &GuestOS::Linux, &Arch::x86_64, &host),
        Ok(("Boot: Legacy/BIOS".to_string(), None))
    );
    assert_eq!(
        BootType::Legacy.to_args("/vm", &GuestOS::MacOS { release: MacOSRelease::Sonoma }, &Arch::x86_64, &host),
        Err("macOS guests require EFI boot.".to_string())
    );
    let (text, args) = BootType::Efi { secure_boot: false }.to_args("/vm", &GuestOS::Linux, &Arch::x86_64, &host).unwrap();
    assert_eq!(text, "Boot: EFI (x86_64), OVMF: /usr/share/OVMF/OVMF_CODE_4M.fd, Secure Boot: Disabled");
    assert_eq!(args.unwrap()[5], "if=pflash,format=raw,unit=1,file=/vm/OVMF_VARS.fd");
    assert_eq!(
        BootType::Efi { secure_boot: true }.to_args("/vm", &GuestOS::Linux, &Arch::x86_64, &boot_host(vec![false, false])),
        Err("Secure Boot capable firmware could not be found.".to_string())
    );
    let (mac, _) = BootType::Efi { secure_boot: false }
        .to_args("/vm", &GuestOS::MacOS { release: MacOSRelease::Sonoma }, &Arch::x86_64, &host)
        .unwrap();
    assert_eq!(mac, "Boot: EFI (x86_64), OVMF: /vm/OVMF_CODE.fd, Secure Boot: Disabled");
}

#[test]
fn qemu_versions() {
    assert_eq!(qemu_version_check("QEMU emulator version 8.2.2 (Debian)\n"), Ok("8.2.2".to_string()));
    assert_eq!(
        qemu_version_check("QEMU emulator version 6.2.0\n"),
        Err("QEMU version 7.0.0 or higher is required. Found version 6.2.0.".to_string())
    );
    assert_eq!(qemu_version_check("QEMU"), Err("Failed to get QEMU version.".to_string()));
    assert_eq!(qemu_version_check("QEMU emulator version x.1"), Err("invalid digit found in string".to_string()));
}

#[test]
fn old_configuration_files_get_migration_advice() {
    let args = strings(&["debian.conf"]);
    assert_eq!(
        choose_config_file(&args, &vec![false], &vec![false], &vec![true]),
        Err("quickemu no longer supports '.conf' configuration files.\nPlease convert your configuration file to the TOML format using `quickemu --migrate-config debian.conf debian.toml`.".to_string())
    );
}

#[test]
fn error_messages() {
    assert_eq!(
        PreAlloc::Metadata.qemu_img_arg(&DiskFormat::Raw),
        Err("`raw` disk images do not support the metadata preallocation type.".to_string())
    );
    assert_eq!(
        PreAlloc::Off.qemu_img_arg(&DiskFormat::Vdi),
        Err("Preallocation is not supported for disk format vdi. Only `raw` and `qcow2` images have support for the feature".to_string())
    );
}

#[test]
fn the_vm_is_named_after_its_directory() {
    let free = vec![true; 10];
    let a = Args::from_settings(CliSettings::empty(), "/vms/debian-12.toml", ConfigFile::new_default(), 4, 2, 16 << 30, &free,
        Err("unused".to_string()), Err("unused".to_string()))
    .unwrap();
    assert_eq!(a.vm_dir, "/vms/debian-12");
    assert_eq!(a.vm_name, "debian-12");
    assert!(Args::try_from_settings(CliSettings::empty(), "/vms/...toml", ConfigFile::new_default(), 4, 2, 16 << 30, &free,
        Err("unused".to_string()), Err("unused".to_string()))
    .is_none());
}

#[test]
fn macos_without_bootloader_is_refused_before_the_disks_are_read() {
    let disk = quickemu::legacy::config::DiskImage { path: "/vm/disk.qcow2".to_string(), size: None, preallocation: PreAlloc::Off, format: None };
    let r = disk_img_args(&vec![disk], &GuestOS::MacOS { release: MacOSRelease::Sonoma }, "/vm", false, (false, false));
    assert_eq!(
        r,
        Err("Could not find macOS bootloader. Please ensure that `OpenCore.qcow2` or `ESP.qcow2` is located within your VM directory.".to_string())
    );
}

#[test]
fn up_to_254_disks() {
    let disks: Vec<_> = (0..254).map(|i| reactos_disk(&format!("/vm/d{i}"))).collect();
    let (args, _) = disk_img_args(&disks, &GuestOS::Linux, "/vm", false, (false, false)).unwrap();
    assert_eq!(args.len(), 4 * 254);
    assert_eq!(args[4 * 253 + 1], "virtio-blk-pci,drive=Disk254");
    let (reactos, taken) = disk_img_args(&disks, &GuestOS::ReactOS, "/vm", false, (false, false)).unwrap();
    assert_eq!(reactos.len(), 2 * 254);
    assert_eq!(taken[253], 254);
}
