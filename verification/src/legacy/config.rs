//! The settings of the first-generation configuration format: a flat
//! TOML file, read together with the command line.

use vstd::prelude::*;
use crate::data::network::SocketAddress;

verus! {

/// Who may connect to the Spice server.
#[derive(Debug, Clone, PartialEq)]
pub enum Access {
    Remote,
    Local,
    Address(String),
}

impl Default for Access {
    fn default() -> (r: Self)
        ensures
            r == Access::Local,
    {
        Access::Local
    }
}

/// The architecture of the guest.
#[allow(non_camel_case_types)]
#[derive(Debug, Clone, Copy, PartialEq, Eq, Structural)]
pub enum Arch {
    x86_64,
    aarch64,
    riscv64,
}

impl Default for Arch {
    fn default() -> (r: Self)
        ensures
            r == Arch::x86_64,
    {
        Arch::x86_64
    }
}

impl Arch {
    /// The name of the architecture.
    pub open spec fn spec_as_str(self) -> Seq<char> {
        match self {
            Arch::x86_64 => "x86_64"@,
            Arch::aarch64 => "aarch64"@,
            Arch::riscv64 => "riscv64"@,
        }
    }

    /// The name of the architecture.
    pub fn as_str(&self) -> (r: &'static str)
        ensures
            r@ == self.spec_as_str(),
    {
        match self {
            Arch::x86_64 => "x86_64",
            Arch::aarch64 => "aarch64",
            Arch::riscv64 => "riscv64",
        }
    }
}

/// How the guest boots.
#[derive(Debug, Clone, Copy, PartialEq, Eq, Structural)]
pub enum BootType {
    Efi { secure_boot: bool },
    Legacy,
}

impl Default for BootType {
    fn default() -> (r: Self)
        ensures
            r == (BootType::Efi { secure_boot: false }),
    {
        BootType::Efi { secure_boot: false }
    }
}

/// The number of cores the guest gets, and whether the host pairs
/// threads.
#[derive(Debug, Clone, Copy, PartialEq, Eq, Structural)]
pub struct CpuCores {
    pub cores: usize,
    pub smt: bool,
}

/// The format of a disk image.
#[derive(Debug, Clone, Copy, PartialEq, Eq, Structural)]
pub enum DiskFormat {
    Qcow2,
    Raw,
    Qed,
    Qcow,
    Vdi,
    Vpc,
    Vhdx,
}

impl Default for DiskFormat {
    fn default() -> (r: Self)
        ensures
            r == DiskFormat::Qcow2,
    {
        DiskFormat::Qcow2
    }
}

impl DiskFormat {
    /// The name QEMU knows the format by.
    pub open spec fn spec_as_str(self) -> Seq<char> {
        match self {
            DiskFormat::Qcow2 => "qcow2"@,
            DiskFormat::Raw => "raw"@,
            DiskFormat::Qed => "qed"@,
            DiskFormat::Qcow => "qcow"@,
            DiskFormat::Vdi => "vdi"@,
            DiskFormat::Vpc => "vpc"@,
            DiskFormat::Vhdx => "vhdx"@,
        }
    }

    /// The name QEMU knows the format by.
    pub fn as_str(&self) -> (r: &'static str)
        ensures
            r@ == self.spec_as_str(),
    {
        match self {
            DiskFormat::Qcow2 => "qcow2",
            DiskFormat::Raw => "raw",
            DiskFormat::Qed => "qed",
            DiskFormat::Qcow => "qcow",
            DiskFormat::Vdi => "vdi",
            DiskFormat::Vpc => "vpc",
            DiskFormat::Vhdx => "vhdx",
        }
    }
}

/// How the space of a new disk image is allocated.
#[derive(Debug, Clone, Copy, PartialEq, Eq, Structural)]
pub enum PreAlloc {
    Off,
    Metadata,
    Falloc,
    Full,
}

impl Default for PreAlloc {
    fn default() -> (r: Self)
        ensures
            r == PreAlloc::Off,
    {
        PreAlloc::Off
    }
}

impl PreAlloc {
    /// The name the mode is shown with.
    pub open spec fn spec_text(self) -> Seq<char> {
        match self {
            PreAlloc::Off => "Disabled"@,
            PreAlloc::Metadata => "metadata"@,
            PreAlloc::Falloc => "falloc"@,
            PreAlloc::Full => "full"@,
        }
    }

    /// The name the mode is shown with.
    pub fn text(&self) -> (r: &'static str)
        ensures
            r@ == self.spec_text(),
    {
        match self {
            PreAlloc::Off => "Disabled",
            PreAlloc::Metadata => "metadata",
            PreAlloc::Falloc => "falloc",
            PreAlloc::Full => "full",
        }
    }

    /// The `qemu-img` option of the mode for a disk format: `raw` and
    /// `qcow2` images support it, except metadata preallocation of `raw`
    /// images; a `qcow2` image also gets lazy reference counts and no
    /// copy-on-write.
    pub open spec fn spec_qemu_img_arg(self, format: DiskFormat) -> Result<Seq<char>, Seq<char>> {
        match (self, format) {
            (PreAlloc::Off, DiskFormat::Qcow2) => Ok("lazy_refcounts=on,preallocation=off,nocow=on"@),
            (PreAlloc::Off, DiskFormat::Raw) => Ok("preallocation=off"@),
            (PreAlloc::Metadata, DiskFormat::Qcow2) => Ok("lazy_refcounts=on,preallocation=metadata,nocow=on"@),
            (PreAlloc::Falloc, DiskFormat::Qcow2) => Ok("lazy_refcounts=on,preallocation=falloc,nocow=on"@),
            (PreAlloc::Falloc, DiskFormat::Raw) => Ok("preallocation=falloc"@),
            (PreAlloc::Full, DiskFormat::Qcow2) => Ok("lazy_refcounts=on,preallocation=full,nocow=on"@),
            (PreAlloc::Full, DiskFormat::Raw) => Ok("preallocation=full"@),
            (PreAlloc::Metadata, DiskFormat::Raw) => Err("`raw` disk images do not support the metadata preallocation type."@),
            _ => Err("Preallocation is not supported for disk format "@ + format.spec_as_str()
                + ". Only `raw` and `qcow2` images have support for the feature"@),
        }
    }

    /// The `qemu-img` option of the mode for a disk format, or why the
    /// format does not support the mode.
    pub fn qemu_img_arg(&self, disk_format: &DiskFormat) -> (r: Result<Option<&'static str>, String>)
        ensures
            match self.spec_qemu_img_arg(*disk_format) {
                Ok(s) => r matches Ok(Some(a)) && a@ == s,
                Err(m) => r matches Err(e) && e@ == m,
            },
    {
        match (self, disk_format) {
            (PreAlloc::Off, DiskFormat::Qcow2) => Ok(Some("lazy_refcounts=on,preallocation=off,nocow=on")),
            (PreAlloc::Off, DiskFormat::Raw) => Ok(Some("preallocation=off")),
            (PreAlloc::Metadata, DiskFormat::Qcow2) => Ok(Some("lazy_refcounts=on,preallocation=metadata,nocow=on")),
            (PreAlloc::Falloc, DiskFormat::Qcow2) => Ok(Some("lazy_refcounts=on,preallocation=falloc,nocow=on")),
            (PreAlloc::Falloc, DiskFormat::Raw) => Ok(Some("preallocation=falloc")),
            (PreAlloc::Full, DiskFormat::Qcow2) => Ok(Some("lazy_refcounts=on,preallocation=full,nocow=on")),
            (PreAlloc::Full, DiskFormat::Raw) => Ok(Some("preallocation=full")),
            (PreAlloc::Metadata, DiskFormat::Raw) =>
                Err(String::from_str("`raw` disk images do not support the metadata preallocation type.")),
            _ => {
                let mut m = String::from_str("Preallocation is not supported for disk format ");
                m.append(disk_format.as_str());
                m.append(". Only `raw` and `qcow2` images have support for the feature");
                Err(m)
            },
        }
    }
}

/// A disk of the guest.
#[derive(Debug, Clone, PartialEq)]
pub struct DiskImage {
    pub path: String,
    pub size: Option<u64>,
    pub preallocation: PreAlloc,
    pub format: Option<DiskFormat>,
}

/// How the display is shown on the host.
#[derive(Debug, Clone, Copy, PartialEq, Eq, Structural)]
pub enum Display {
    Disabled,
    Sdl,
    Gtk,
    Spice,
    SpiceApp,
}

impl Default for Display {
    fn default() -> (r: Self)
        ensures
            r == Display::Sdl,
    {
        Display::Sdl
    }
}

impl Display {
    /// The name the display is shown with.
    pub open spec fn spec_name(self) -> Seq<char> {
        match self {
            Display::Disabled => "None"@,
            Display::Sdl => "SDL"@,
            Display::Gtk => "GTK"@,
            Display::Spice => "Spice"@,
            Display::SpiceApp => "Spice App"@,
        }
    }

    /// The name the display is shown with.
    pub fn name(&self) -> (r: &'static str)
        ensures
            r@ == self.spec_name(),
    {
        match self {
            Display::Disabled => "None",
            Display::Sdl => "SDL",
            Display::Gtk => "GTK",
            Display::Spice => "Spice",
            Display::SpiceApp => "Spice App",
        }
    }
}

/// A release of macOS, oldest first.
#[derive(Debug, Clone, Copy, PartialEq, Eq, Structural)]
pub enum MacOSRelease {
    HighSierra,
    Mojave,
    Catalina,
    BigSur,
    Monterey,
    Ventura,
    Sonoma,
}

impl MacOSRelease {
    /// The place of the release in time, oldest first.
    pub open spec fn spec_rank(self) -> nat {
        match self {
            MacOSRelease::HighSierra => 0,
            MacOSRelease::Mojave => 1,
            MacOSRelease::Catalina => 2,
            MacOSRelease::BigSur => 3,
            MacOSRelease::Monterey => 4,
            MacOSRelease::Ventura => 5,
            MacOSRelease::Sonoma => 6,
        }
    }

    /// Whether this release is `other` or newer.
    pub fn at_least(&self, other: MacOSRelease) -> (r: bool)
        ensures
            r == (self.spec_rank() >= other.spec_rank()),
    {
        let a: u8 = match self {
            MacOSRelease::HighSierra => 0,
            MacOSRelease::Mojave => 1,
            MacOSRelease::Catalina => 2,
            MacOSRelease::BigSur => 3,
            MacOSRelease::Monterey => 4,
            MacOSRelease::Ventura => 5,
            MacOSRelease::Sonoma => 6,
        };
        let b: u8 = match other {
            MacOSRelease::HighSierra => 0,
            MacOSRelease::Mojave => 1,
            MacOSRelease::Catalina => 2,
            MacOSRelease::BigSur => 3,
            MacOSRelease::Monterey => 4,
            MacOSRelease::Ventura => 5,
            MacOSRelease::Sonoma => 6,
        };
        a >= b
    }
}

/// The operating system of the guest.
#[derive(Debug, Clone, Copy, PartialEq, Eq, Structural)]
pub enum GuestOS {
    Linux,
    LinuxOld,
    Windows,
    WindowsServer,
    MacOS { release: MacOSRelease },
    FreeBSD,
    GhostBSD,
    DragonFlyBSD,
    FreeDOS,
    Haiku,
    Solaris,
    KolibriOS,
    ReactOS,
    Batocera,
}

impl Default for GuestOS {
    fn default() -> (r: Self)
        ensures
            r == GuestOS::Linux,
    {
        GuestOS::Linux
    }
}

impl GuestOS {
    /// The name the guest is shown with.
    pub open spec fn spec_name(self) -> Seq<char> {
        match self {
            GuestOS::Linux => "Linux"@,
            GuestOS::LinuxOld => "Linux (Old)"@,
            GuestOS::Windows => "Windows"@,
            GuestOS::WindowsServer => "Windows Server"@,
            GuestOS::MacOS { .. } => "macOS"@,
            GuestOS::FreeBSD => "FreeBSD"@,
            GuestOS::GhostBSD => "GhostBSD"@,
            GuestOS::DragonFlyBSD => "DragonFlyBSD"@,
            GuestOS::FreeDOS => "FreeDOS"@,
            GuestOS::Haiku => "Haiku"@,
            GuestOS::Solaris => "Solaris"@,
            GuestOS::KolibriOS => "KolibriOS"@,
            GuestOS::ReactOS => "ReactOS"@,
            GuestOS::Batocera => "Batocera"@,
        }
    }

    /// The name the guest is shown with.
    pub fn name(&self) -> (r: &'static str)
        ensures
            r@ == self.spec_name(),
    {
        match self {
            GuestOS::Linux => "Linux",
            GuestOS::LinuxOld => "Linux (Old)",
            GuestOS::Windows => "Windows",
            GuestOS::WindowsServer => "Windows Server",
            GuestOS::MacOS { .. } => "macOS",
            GuestOS::FreeBSD => "FreeBSD",
            GuestOS::GhostBSD => "GhostBSD",
            GuestOS::DragonFlyBSD => "DragonFlyBSD",
            GuestOS::FreeDOS => "FreeDOS",
            GuestOS::Haiku => "Haiku",
            GuestOS::Solaris => "Solaris",
            GuestOS::KolibriOS => "KolibriOS",
            GuestOS::ReactOS => "ReactOS",
            GuestOS::Batocera => "Batocera",
        }
    }
}

/// How the guest is connected to the network.
#[derive(Debug, Clone, PartialEq)]
pub enum Network {
    Disabled,
    Restrict,
    Bridged { bridge: String, mac_addr: Option<String> },
    Nat,
}

impl Default for Network {
    fn default() -> (r: Self)
        ensures
            r == Network::Nat,
    {
        Network::Nat
    }
}

/// An image that the guest boots from or has attached.
#[derive(Debug, Clone, PartialEq)]
pub enum Image {
    Iso(String),
    FixedIso(String),
    Floppy(String),
    Img(String),
}

impl Image {
    /// The description of the image.
    pub open spec fn spec_text(self) -> Seq<char> {
        match self {
            Image::Iso(p) => "Booting from ISO: "@ + p@,
            Image::Img(p) => "Booting from IMG: "@ + p@,
            Image::FixedIso(p) => "Fixed ISO (CD-ROM): "@ + p@,
            Image::Floppy(p) => "Floppy: "@ + p@,
        }
    }

    /// The description of the image.
    pub fn text(&self) -> (r: String)
        ensures
            r@ == self.spec_text(),
    {
        let (head, p): (&str, &String) = match self {
            Image::Iso(p) => ("Booting from ISO: ", p),
            Image::Img(p) => ("Booting from IMG: ", p),
            Image::FixedIso(p) => ("Fixed ISO (CD-ROM): ", p),
            Image::Floppy(p) => ("Floppy: ", p),
        };
        let mut r = String::from_str(head);
        r.append(p.as_str());
        r
    }
}

/// A host port that is forwarded to a guest port.
#[derive(Debug, Clone, Copy, PartialEq, Eq, Structural)]
pub struct PortForward {
    pub host: u16,
    pub guest: u16,
}

/// The directory shared with the guest.
#[derive(Debug, Clone, PartialEq)]
pub enum PublicDir {
    Disabled,
    Default,
    Custom(String),
}

/// A snapshot operation.
#[derive(Debug, Clone, PartialEq)]
pub enum Snapshot {
    Apply(String),
    Create(String),
    Delete(String),
    Info,
}

/// The Spice viewer that is started.
#[derive(Debug, Clone, Copy, PartialEq, Eq, Structural)]
pub enum Viewer {
    Disabled,
    Spicy,
    Remote,
}

impl Default for Viewer {
    fn default() -> (r: Self)
        ensures
            r == Viewer::Spicy,
    {
        Viewer::Spicy
    }
}

/// A console of the guest.
#[derive(Debug, Clone, PartialEq)]
pub enum Monitor {
    Disabled,
    Telnet { address: SocketAddress },
    Socket { socketpath: String },
}

/// A console as the configuration file writes it.
#[derive(Debug, Clone, PartialEq)]
pub struct SerdeMonitor {
    pub kind: String,
    pub telnet_host: Option<String>,
    pub telnet_port: Option<u16>,
}

impl Default for SerdeMonitor {
    fn default() -> (r: Self)
        ensures
            r.kind@ == "socket"@,
            r.telnet_host is None,
            r.telnet_port is None,
    {
        SerdeMonitor { kind: String::from_str("socket"), telnet_host: None, telnet_port: None }
    }
}

/// The resolution of the display.
#[derive(Debug, Clone, PartialEq)]
pub enum Resolution {
    Default,
    Display(String),
    Custom { width: u32, height: u32 },
}

/// The USB controller of the guest.
#[derive(Debug, Clone, Copy, PartialEq, Eq, Structural)]
pub enum USBController {
    Disabled,
    Ehci,
    Xhci,
}

/// The keyboard of the guest.
#[derive(Debug, Clone, Copy, PartialEq, Eq, Structural)]
pub enum Keyboard {
    Usb,
    Virtio,
    PS2,
}

impl Default for Keyboard {
    fn default() -> (r: Self)
        ensures
            r == Keyboard::Usb,
    {
        Keyboard::Usb
    }
}

/// The pointing device of the guest.
#[derive(Debug, Clone, Copy, PartialEq, Eq, Structural)]
pub enum Mouse {
    Usb,
    Tablet,
    Virtio,
    PS2,
}

/// The sound card of the guest.
#[derive(Debug, Clone, Copy, PartialEq, Eq, Structural)]
pub enum SoundCard {
    Disabled,
    IntelHDA,
    AC97,
    ES1370,
    SB16,
}

impl Default for SoundCard {
    fn default() -> (r: Self)
        ensures
            r == SoundCard::IntelHDA,
    {
        SoundCard::IntelHDA
    }
}

/// What the program is asked to do.
#[derive(Debug, Clone, PartialEq)]
pub enum ActionType {
    Launch,
    Kill,
    MigrateConfig,
    DeleteDisk,
    DeleteVM,
    Snapshot(Snapshot),
    EditConfig,
}

/// Shows a flag as `Enabled` or `Disabled`.
pub trait BooleanDisplay {
    /// The text of the flag.
    spec fn spec_as_str(&self) -> Seq<char>;

    /// The text of the flag.
    fn as_str(&self) -> (r: &'static str)
        ensures
            r@ == self.spec_as_str();
}

impl BooleanDisplay for bool {
    open spec fn spec_as_str(&self) -> Seq<char> {
        if *self { "Enabled"@ } else { "Disabled"@ }
    }

    fn as_str(&self) -> (r: &'static str) {
        if *self {
            "Enabled"
        } else {
            "Disabled"
        }
    }
}

/// The first Spice port that is tried.
pub fn default_spice_port() -> (r: u16)
    ensures
        r == 5930,
{
    5930
}

/// The first host port that is tried for SSH.
pub fn default_ssh_port() -> (r: u16)
    ensures
        r == 22220,
{
    22220
}

/// Whether a port is the default SSH port.
pub fn is_default_ssh(input: &u16) -> (r: bool)
    ensures
        r == (*input == 22220),
{
    *input == default_ssh_port()
}

/// Whether a port is the default Spice port.
pub fn is_default_spice(input: &u16) -> (r: bool)
    ensures
        r == (*input == 5930),
{
    *input == default_spice_port()
}

/// Whether a console kind is the default, `socket`.
pub fn is_socket(input: &str) -> (r: bool)
    ensures
        r == (input@ == "socket"@),
{
    crate::text::str_eq(input, "socket")
}

/// A configuration file of the first-generation format.
#[derive(Debug, Clone, PartialEq)]
pub struct ConfigFile {
    pub guest_os: GuestOS,
    pub arch: Arch,
    pub boot_type: BootType,
    pub cpu_cores: Option<usize>,
    pub display: Display,
    pub disk_images: Vec<DiskImage>,
    pub accelerated: bool,
    pub image_files: Option<Vec<Image>>,
    pub network: Network,
    pub port_forwards: Option<Vec<PortForward>>,
    pub public_dir: Option<String>,
    pub ram: Option<u64>,
    pub tpm: bool,
    pub keyboard: Keyboard,
    pub keyboard_layout: Option<String>,
    pub monitor: SerdeMonitor,
    pub serial: SerdeMonitor,
    pub soundcard: SoundCard,
    pub mouse: Option<Mouse>,
    pub resolution: Resolution,
    pub usb_controller: Option<USBController>,
    pub spice_port: u16,
    pub ssh_port: u16,
    pub usb_devices: Option<Vec<String>>,
    pub extra_args: Vec<String>,
    pub fullscreen: bool,
    pub screenpct: Option<u32>,
    pub viewer: Option<Viewer>,
    pub status_quo: bool,
    pub braille: bool,
    pub access: Access,
}

impl ConfigFile {
    /// What a file that sets nothing but the guest holds.
    pub open spec fn spec_is_default(c: ConfigFile) -> bool {
        &&& c.guest_os == GuestOS::Linux
        &&& c.arch == Arch::x86_64
        &&& c.boot_type == (BootType::Efi { secure_boot: false })
        &&& c.cpu_cores is None
        &&& c.display == Display::Sdl
        &&& c.disk_images@.len() == 0
        &&& c.accelerated
        &&& c.image_files is None
        &&& c.network == Network::Nat
        &&& c.port_forwards is None
        &&& c.public_dir is None
        &&& c.ram is None
        &&& !c.tpm
        &&& c.keyboard == Keyboard::Usb
        &&& c.keyboard_layout is None
        &&& c.monitor.kind@ == "socket"@ && c.monitor.telnet_host is None && c.monitor.telnet_port is None
        &&& c.serial.kind@ == "socket"@ && c.serial.telnet_host is None && c.serial.telnet_port is None
        &&& c.soundcard == SoundCard::IntelHDA
        &&& c.mouse is None
        &&& c.resolution == Resolution::Default
        &&& c.usb_controller is None
        &&& c.spice_port == 5930
        &&& c.ssh_port == 22220
        &&& c.usb_devices is None
        &&& c.extra_args@.len() == 0
        &&& !c.fullscreen
        &&& c.screenpct is None
        &&& c.viewer is None
        &&& !c.status_quo
        &&& !c.braille
        &&& c.access == Access::Local
    }

    /// The settings a file has where it sets nothing.
    pub fn new_default() -> (r: ConfigFile)
        ensures
            Self::spec_is_default(r),
    {
        ConfigFile {
            guest_os: GuestOS::default(),
            arch: Arch::default(),
            boot_type: BootType::default(),
            cpu_cores: None,
            display: Display::default(),
            disk_images: Vec::new(),
            accelerated: crate::data::display::default_accel(),
            image_files: None,
            network: Network::default(),
            port_forwards: None,
            public_dir: None,
            ram: None,
            tpm: false,
            keyboard: Keyboard::default(),
            keyboard_layout: None,
            monitor: SerdeMonitor::default(),
            serial: SerdeMonitor::default(),
            soundcard: SoundCard::default(),
            mouse: None,
            resolution: Resolution::Default,
            usb_controller: None,
            spice_port: default_spice_port(),
            ssh_port: default_ssh_port(),
            usb_devices: None,
            extra_args: Vec::new(),
            fullscreen: false,
            screenpct: None,
            viewer: None,
            status_quo: false,
            braille: false,
            access: Access::default(),
        }
    }
}

} // verus!
