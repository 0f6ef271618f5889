//! How the guest's screen is shown.

use vstd::prelude::*;

verus! {

/// Whether the display is drawn with OpenGL acceleration.
#[derive(Debug, Clone, Copy, PartialEq, Eq, Structural)]
pub struct Accelerated(pub bool);

impl Accelerated {
    /// The default: acceleration is on (it is off only on macOS hosts,
    /// which this library does not target).
    pub fn default_value() -> (r: Accelerated)
        ensures
            r.0 == true,
    {
        Accelerated(default_accel())
    }

    /// The value that QEMU's `gl=` options take.
    pub fn as_str(&self) -> (r: &'static str)
        ensures
            r@ == (if self.0 { "on"@ } else { "off"@ }),
    {
        if self.0 {
            "on"
        } else {
            "off"
        }
    }

    /// The text that the setting is shown with.
    pub fn text(&self) -> (r: &'static str)
        ensures
            r@ == (if self.0 { "Enabled"@ } else { "Disabled"@ }),
    {
        if self.0 {
            "Enabled"
        } else {
            "Disabled"
        }
    }
}

/// Whether display acceleration is on when the configuration says nothing.
pub fn default_accel() -> (r: bool)
    ensures
        r == true,
{
    true
}

/// The size of the guest's screen.
#[derive(Debug, Clone, Copy, PartialEq, Eq, Structural)]
pub enum Resolution {
    Default,
    Custom { width: u32, height: u32 },
    FullScreen,
}

/// The program that shows a Spice display on the host.
#[derive(Debug, Clone, Copy, PartialEq, Eq, Structural)]
pub enum Viewer {
    Disabled,
    Spicy,
    Remote,
}

impl Viewer {
    /// The name that the viewer is shown with.
    pub fn name(&self) -> (r: &'static str)
        ensures
            r@ == (match *self {
                Viewer::Disabled => "None"@,
                Viewer::Spicy => "Spicy"@,
                Viewer::Remote => "Remote"@,
            }),
    {
        match self {
            Viewer::Disabled => "None",
            Viewer::Spicy => "Spicy",
            Viewer::Remote => "Remote",
        }
    }
}

/// The host address on which a Spice display listens: an IP address in
/// its canonical text, or none (any address, for remote access).
#[derive(Debug, Clone, PartialEq)]
pub struct Access(pub Option<String>);

impl Access {
    /// The text of the loopback address.
    pub open spec fn spec_localhost() -> Seq<char> {
        "127.0.0.1"@
    }

    /// A copy of the setting.
    pub fn duplicate(&self) -> (r: Access)
        ensures
            r == *self,
    {
        Access(crate::text::clone_opt(&self.0))
    }

    /// Only the host itself can connect.
    pub fn local() -> (r: Access)
        ensures
            r.0 matches Some(a) && a@ == Self::spec_localhost(),
    {
        Access(Some(String::from_str("127.0.0.1")))
    }

    /// Reads the setting of a configuration file: `remote` listens on all
    /// addresses, `local` on the loopback address, anything else must be
    /// an IP address; `parsed` is the canonical text of `value` read as an
    /// IP address, or none where it is not one.
    pub fn from_setting(value: &str, parsed: Option<String>) -> (r: Result<Access, String>)
        ensures
            value@ == "remote"@ ==> (r matches Ok(a) && a.0 is None),
            value@ == "local"@ ==> (r matches Ok(a) && a.0 matches Some(s) && s@ == Self::spec_localhost()),
            value@ != "remote"@ && value@ != "local"@ ==> match parsed {
                Some(t) => (r matches Ok(a) && a.0 matches Some(s) && s@ == t@),
                None => r is Err,
            },
    {
        proof {
            reveal_strlit("remote");
            reveal_strlit("local");
        }
        assert("remote"@.len() == 6);
        assert("local"@.len() == 5);
        if crate::text::str_eq(value, "remote") {
            Ok(Access(None))
        } else if crate::text::str_eq(value, "local") {
            Ok(Access::local())
        } else {
            match parsed {
                Some(a) => Ok(Access(Some(a))),
                None => {
                    let mut msg = String::from_str("invalid IP address syntax: ");
                    msg.append(value);
                    Err(msg)
                },
            }
        }
    }
}

/// How the display is shown on the host.
#[derive(Debug, Clone, PartialEq)]
pub enum DisplayType {
    Disabled,
    Sdl,
    Gtk,
    Spice { access: Access, viewer: Viewer, spice_port: u16 },
    SpiceApp,
}

impl DisplayType {
    /// A copy of the display type.
    pub fn duplicate(&self) -> (r: DisplayType)
        ensures
            r == *self,
    {
        match self {
            DisplayType::Disabled => DisplayType::Disabled,
            DisplayType::Sdl => DisplayType::Sdl,
            DisplayType::Gtk => DisplayType::Gtk,
            DisplayType::Spice { access, viewer, spice_port } =>
                DisplayType::Spice { access: access.duplicate(), viewer: *viewer, spice_port: *spice_port },
            DisplayType::SpiceApp => DisplayType::SpiceApp,
        }
    }

    /// The name that the display type is shown with.
    pub open spec fn spec_name(&self) -> Seq<char> {
        match *self {
            DisplayType::Disabled => "None"@,
            DisplayType::Sdl => "SDL"@,
            DisplayType::Gtk => "GTK"@,
            DisplayType::Spice { .. } => "Spice"@,
            DisplayType::SpiceApp => "Spice App"@,
        }
    }

    /// The name that the display type is shown with.
    pub fn name(&self) -> (r: &'static str)
        ensures
            r@ == self.spec_name(),
    {
        match self {
            DisplayType::Disabled => "None",
            DisplayType::Sdl => "SDL",
            DisplayType::Gtk => "GTK",
            DisplayType::Spice { .. } => "Spice",
            DisplayType::SpiceApp => "Spice App",
        }
    }
}

/// The port that a Spice display listens on by default.
pub fn default_spice_port() -> (r: u16)
    ensures
        r == 5930,
{
    5930
}

/// Whether a Spice port is the default one.
pub fn is_default_spice(input: &u16) -> (r: bool)
    ensures
        r == (*input == 5930),
{
    *input == default_spice_port()
}

/// The display settings of a virtual machine.
#[derive(Debug, Clone, PartialEq)]
pub struct Display {
    pub display_type: DisplayType,
    pub resolution: Resolution,
    pub accelerated: Accelerated,
    pub braille: bool,
}

} // verus!
