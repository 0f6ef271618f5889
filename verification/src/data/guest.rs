//! Guest operating systems.

use vstd::prelude::*;

verus! {

/// A release of macOS, oldest first.
#[derive(Debug, Clone, Copy, PartialEq, Eq, Structural)]
pub enum MacOSRelease {
    HighSierra,
    Mojave,
    Catalina,
    BigSur,
    Monterey,
    Ventura,
    Sonoma,
    Sequoia,
}

impl MacOSRelease {
    /// The position of the release in time, oldest at 0.
    pub open spec fn spec_rank(self) -> nat {
        match self {
            MacOSRelease::HighSierra => 0,
            MacOSRelease::Mojave => 1,
            MacOSRelease::Catalina => 2,
            MacOSRelease::BigSur => 3,
            MacOSRelease::Monterey => 4,
            MacOSRelease::Ventura => 5,
            MacOSRelease::Sonoma => 6,
            MacOSRelease::Sequoia => 7,
        }
    }

    /// The position of the release in time, oldest at 0.
    pub fn rank(&self) -> (r: u8)
        ensures
            r == self.spec_rank(),
    {
        match self {
            MacOSRelease::HighSierra => 0,
            MacOSRelease::Mojave => 1,
            MacOSRelease::Catalina => 2,
            MacOSRelease::BigSur => 3,
            MacOSRelease::Monterey => 4,
            MacOSRelease::Ventura => 5,
            MacOSRelease::Sonoma => 6,
            MacOSRelease::Sequoia => 7,
        }
    }

    /// Whether this release is `other` or newer.
    pub fn at_least(&self, other: MacOSRelease) -> (r: bool)
        ensures
            r == (self.spec_rank() >= other.spec_rank()),
    {
        self.rank() >= other.rank()
    }

    /// The name that the release is shown with.
    pub open spec fn spec_name(self) -> Seq<char> {
        match self {
            MacOSRelease::HighSierra => "HighSierra"@,
            MacOSRelease::Mojave => "Mojave"@,
            MacOSRelease::Catalina => "Catalina"@,
            MacOSRelease::BigSur => "BigSur"@,
            MacOSRelease::Monterey => "Monterey"@,
            MacOSRelease::Ventura => "Ventura"@,
            MacOSRelease::Sonoma => "Sonoma"@,
            MacOSRelease::Sequoia => "Sequoia"@,
        }
    }

    /// The name that the release is shown with.
    pub fn name(&self) -> (r: &'static str)
        ensures
            r@ == self.spec_name(),
    {
        match self {
            MacOSRelease::HighSierra => "HighSierra",
            MacOSRelease::Mojave => "Mojave",
            MacOSRelease::Catalina => "Catalina",
            MacOSRelease::BigSur => "BigSur",
            MacOSRelease::Monterey => "Monterey",
            MacOSRelease::Ventura => "Ventura",
            MacOSRelease::Sonoma => "Sonoma",
            MacOSRelease::Sequoia => "Sequoia",
        }
    }
}

/// The operating system that runs inside the virtual machine.
#[derive(Debug, Clone, Copy, PartialEq, Eq, Structural)]
pub enum GuestOS {
    Linux,
    LinuxOld,
    Windows,
    WindowsServer,
    MacOS { release: MacOSRelease },
    FreeBSD,
    GhostBSD,
    GenericBSD,
    FreeDOS,
    Haiku,
    Solaris,
    KolibriOS,
    ReactOS,
    Batocera,
}

impl GuestOS {
    /// Whether the guest is macOS of at least the given release.
    pub open spec fn spec_macos_at_least(self, r: MacOSRelease) -> bool {
        self matches GuestOS::MacOS { release } && release.spec_rank() >= r.spec_rank()
    }

    /// Whether the guest is macOS of at least the given release.
    pub fn macos_at_least(&self, r: MacOSRelease) -> (b: bool)
        ensures
            b == self.spec_macos_at_least(r),
    {
        match self {
            GuestOS::MacOS { release } => release.at_least(r),
            _ => false,
        }
    }

    /// The name that the guest is shown with.
    pub open spec fn spec_name(self) -> Seq<char> {
        match self {
            GuestOS::Linux => "Linux"@,
            GuestOS::LinuxOld => "Linux (Old)"@,
            GuestOS::Windows => "Windows"@,
            GuestOS::WindowsServer => "WindowsServer"@,
            GuestOS::MacOS { release } => release.spec_name(),
            GuestOS::FreeBSD => "FreeBSD"@,
            GuestOS::GhostBSD => "GhostBSD"@,
            GuestOS::GenericBSD => "GenericBSD"@,
            GuestOS::FreeDOS => "FreeDOS"@,
            GuestOS::Haiku => "Haiku"@,
            GuestOS::Solaris => "Solaris"@,
            GuestOS::KolibriOS => "KolibriOS"@,
            GuestOS::ReactOS => "ReactOS"@,
            GuestOS::Batocera => "Batocera"@,
        }
    }

    /// The name that the guest is shown with.
    pub fn name(&self) -> (r: &'static str)
        ensures
            r@ == self.spec_name(),
    {
        match self {
            GuestOS::Linux => "Linux",
            GuestOS::LinuxOld => "Linux (Old)",
            GuestOS::Windows => "Windows",
            GuestOS::WindowsServer => "WindowsServer",
            GuestOS::MacOS { release } => release.name(),
            GuestOS::FreeBSD => "FreeBSD",
            GuestOS::GhostBSD => "GhostBSD",
            GuestOS::GenericBSD => "GenericBSD",
            GuestOS::FreeDOS => "FreeDOS",
            GuestOS::Haiku => "Haiku",
            GuestOS::Solaris => "Solaris",
            GuestOS::KolibriOS => "KolibriOS",
            GuestOS::ReactOS => "ReactOS",
            GuestOS::Batocera => "Batocera",
        }
    }
}

impl Default for GuestOS {
    fn default() -> (r: Self)
        ensures
            r == GuestOS::Linux,
    {
        GuestOS::Linux
    }
}

} // verus!
