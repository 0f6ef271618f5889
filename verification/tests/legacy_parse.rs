use quickemu::legacy::config::{
    Access, Arch, BootType, Display, GuestOS, Keyboard, MacOSRelease, Network, PreAlloc, PublicDir, Snapshot, SoundCard,
};
use quickemu::legacy::config_parse::{cpu_cores, default_ram, keyboard_layout, parse_optional_bool};
use quickemu::legacy::validate::validate_keyboard_layout;

const GB: u64 = 1_000_000_000;
const GIB: u64 = 1_073_741_824;

#[test]
fn access_from_option_defaults_to_local() {
    assert_eq!(Access::from_option(None), Access::Local);
    assert_eq!(Access::from_option(Some("remote".to_string())), Access::Remote);
    assert_eq!(Access::from_option(Some("10.0.0.1".to_string())), Access::Address("10.0.0.1".to_string()));
}

#[test]
fn default_cores_follow_logical_cpus() {
    assert_eq!(cpu_cores(None, 64, 32), Ok((16, true)));
    assert_eq!(cpu_cores(None, 32, 32), Ok((16, false)));
    assert_eq!(cpu_cores(None, 16, 8), Ok((8, true)));
    assert_eq!(cpu_cores(None, 12, 12), Ok((4, false)));
    assert_eq!(cpu_cores(None, 4, 2), Ok((2, true)));
    assert_eq!(cpu_cores(None, 2, 2), Ok((1, false)));
    assert_eq!(cpu_cores(Some(3), 16, 8), Ok((3, true)));
}

#[test]
fn more_physical_than_logical_cores_is_refused() {
    assert!(cpu_cores(None, 4, 8).is_err());
    assert_eq!(cpu_cores(Some(2), 4, 8), Ok((2, false)));
}

#[test]
fn law_default_cores_power_of_two_at_most_half() {
    for logical in 2usize..70 {
        let (c, _) = cpu_cores(None, logical, logical).unwrap();
        assert!(c.is_power_of_two());
        assert!(2 * c <= logical);
    }
}

#[test]
fn default_ram_steps() {
    assert_eq!(default_ram(256 * GB), 32 * GIB);
    assert_eq!(default_ram(128 * GB), 32 * GIB);
    assert_eq!(default_ram(100 * GB), 16 * GIB);
    assert_eq!(default_ram(32 * GB), 8 * GIB);
    assert_eq!(default_ram(8 * GB), 4 * GIB);
    assert_eq!(default_ram(6 * GB), 6 * GB);
}

#[test]
fn law_default_ram_never_exceeds_host() {
    for g in 0u64..300 {
        let host = g * GB / 2 + 12345;
        let r = default_ram(host);
        assert!(r <= host);
        assert!(r <= 32 * GIB);
    }
}

#[test]
fn optional_bool_words() {
    assert_eq!(parse_optional_bool(Some("on".to_string()), false), Ok(true));
    assert_eq!(parse_optional_bool(Some("true".to_string()), false), Ok(true));
    assert_eq!(parse_optional_bool(Some("off".to_string()), true), Ok(false));
    assert_eq!(parse_optional_bool(Some("false".to_string()), true), Ok(false));
    assert_eq!(parse_optional_bool(None, true), Ok(true));
    assert!(parse_optional_bool(Some("yes".to_string()), true).is_err());
}

#[test]
fn law_arch_name_reads_back() {
    for arch in [Arch::x86_64, Arch::aarch64, Arch::riscv64] {
        assert_eq!(Arch::from_setting(Some(arch.as_str().to_string())), Ok(arch));
    }
    assert_eq!(Arch::from_setting(None), Ok(Arch::x86_64));
    assert!(Arch::from_setting(Some("mips".to_string())).is_err());
}

#[test]
fn keyboard_layouts_are_checked() {
    assert_eq!(validate_keyboard_layout("en-us".to_string()), Ok("en-us".to_string()));
    assert_eq!(validate_keyboard_layout("de-ch".to_string()), Ok("de-ch".to_string()));
    assert!(validate_keyboard_layout("xx-yy".to_string()).is_err());
    assert_eq!(keyboard_layout(Some("fr".to_string()), Some("de".to_string())), Ok(Some("de".to_string())));
    assert_eq!(keyboard_layout(Some("fr".to_string()), None), Ok(Some("fr".to_string())));
    assert_eq!(keyboard_layout(None, None), Ok(None));
    assert!(keyboard_layout(Some("zz".to_string()), None).is_err());
}

#[test]
fn snapshot_arguments() {
    let v = |a: &[&str]| a.iter().map(|s| s.to_string()).collect::<Vec<String>>();
    assert_eq!(Snapshot::from_args(&v(&["apply", "one"])), Ok(Snapshot::Apply("one".to_string())));
    assert_eq!(Snapshot::from_args(&v(&["create", "two"])), Ok(Snapshot::Create("two".to_string())));
    assert_eq!(Snapshot::from_args(&v(&["delete", "three"])), Ok(Snapshot::Delete("three".to_string())));
    assert_eq!(Snapshot::from_args(&v(&["info"])), Ok(Snapshot::Info));
    assert_eq!(
        Snapshot::from_args(&v(&["apply"])),
        Err("Invalid parameters to argument --snapshot: apply".to_string())
    );
    assert!(Snapshot::from_args(&v(&["info", "x"])).is_err());
}

#[test]
fn public_dir_settings() {
    assert_eq!(PublicDir::from_settings(None, None), PublicDir::Default);
    assert_eq!(PublicDir::from_settings(Some("none".to_string()), None), PublicDir::Disabled);
    assert_eq!(PublicDir::from_settings(Some("none".to_string()), Some("/srv".to_string())), PublicDir::Custom("/srv".to_string()));
    assert_eq!(PublicDir::from_settings(Some("default".to_string()), None), PublicDir::Default);
}

#[test]
fn network_settings_read_in_lower_case() {
    assert_eq!(Network::from_settings(None, None), Ok(Network::Nat));
    assert_eq!(Network::from_settings(Some("NAT".to_string()), None), Ok(Network::Nat));
    assert_eq!(Network::from_settings(Some("Restrict".to_string()), None), Ok(Network::Restrict));
    assert_eq!(Network::from_settings(Some("none".to_string()), None), Ok(Network::Disabled));
    assert_eq!(
        Network::from_settings(Some("BR0".to_string()), Some("52:54:00:12:34:56".to_string())),
        Ok(Network::Bridged { bridge: "br0".to_string(), mac_addr: Some("52:54:00:12:34:56".to_string()) })
    );
    assert!(Network::from_settings(Some("nat".to_string()), Some("52:54:00:12:34:56".to_string())).is_err());
}

#[test]
fn enumerated_settings() {
    assert_eq!(PreAlloc::from_setting(None), Ok(PreAlloc::Off));
    assert_eq!(PreAlloc::from_setting(Some("full".to_string())), Ok(PreAlloc::Full));
    assert!(PreAlloc::from_setting(Some("sparse".to_string())).is_err());
    assert_eq!(Display::from_setting(None), Ok(Display::Sdl));
    assert_eq!(Display::from_setting(Some("spice-app".to_string())), Ok(Display::SpiceApp));
    assert!(Display::from_setting(Some("vnc".to_string())).is_err());
    assert_eq!(Keyboard::from_setting(None), Ok(Keyboard::Usb));
    assert_eq!(Keyboard::from_setting(Some("ps2".to_string())), Ok(Keyboard::PS2));
    assert_eq!(SoundCard::from_setting(None), Ok(SoundCard::IntelHDA));
    assert_eq!(SoundCard::from_setting(Some("none".to_string())), Ok(SoundCard::Disabled));
    assert_eq!(MacOSRelease::from_setting(Some("big-sur".to_string())), Ok(MacOSRelease::BigSur));
    assert!(MacOSRelease::from_setting(None).is_err());
}

#[test]
fn boot_and_guest_settings() {
    assert_eq!(BootType::from_settings(None, None), Ok(BootType::Efi { secure_boot: false }));
    assert_eq!(BootType::from_settings(Some("efi".to_string()), Some("on".to_string())), Ok(BootType::Efi { secure_boot: true }));
    assert_eq!(BootType::from_settings(Some("legacy".to_string()), None), Ok(BootType::Legacy));
    assert!(BootType::from_settings(Some("legacy".to_string()), Some("on".to_string())).is_err());
    assert_eq!(GuestOS::from_settings(Some("Linux".to_string()), None), Ok(GuestOS::Linux));
    assert_eq!(
        GuestOS::from_settings(Some("macos".to_string()), Some("ventura".to_string())),
        Ok(GuestOS::MacOS { release: MacOSRelease::Ventura })
    );
    assert!(GuestOS::from_settings(Some("linux".to_string()), Some("ventura".to_string())).is_err());
}
