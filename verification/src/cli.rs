//! The options of the command line and how they change a configuration.

use vstd::prelude::*;
use crate::config::Config;
use crate::data::display::{default_spice_port, Access, Display, DisplayType, Resolution, Viewer};
use crate::data::io::{Io, Keyboard, KeyboardLayout, Mouse, PublicDir, SoundCard, USBController};
use crate::data::machine::Machine;

verus! {

/// A keyboard layout named on the command line.
#[derive(Debug, Clone, Copy, PartialEq, Eq, Structural)]
pub enum CliKeyboardLayout {
    Arabic,
    SwissGerman,
    Spanish,
    Faroese,
    FrenchCanadian,
    Hungarian,
    Japanese,
    Macedonian,
    Norwegian,
    BrazilianPortuguese,
    Swedish,
    Danish,
    BritishEnglish,
    Estonian,
    French,
    SwissFrench,
    Icelandic,
    Lithuanian,
    Dutch,
    Polish,
    Russian,
    Thai,
    German,
    AmericanEnglish,
    Finnish,
    BelgianFrench,
    Croatian,
    Italian,
    Latvian,
    NorwegianBokmal,
    Portuguese,
    Slovenian,
    Turkish,
}

impl CliKeyboardLayout {
    /// The layout that a command line name stands for.
    pub open spec fn spec_layout(self) -> KeyboardLayout {
        match self {
            CliKeyboardLayout::Arabic => KeyboardLayout::Arabic,
            CliKeyboardLayout::SwissGerman => KeyboardLayout::SwissGerman,
            CliKeyboardLayout::Spanish => KeyboardLayout::Spanish,
            CliKeyboardLayout::Faroese => KeyboardLayout::Faroese,
            CliKeyboardLayout::FrenchCanadian => KeyboardLayout::FrenchCanadian,
            CliKeyboardLayout::Hungarian => KeyboardLayout::Hungarian,
            CliKeyboardLayout::Japanese => KeyboardLayout::Japanese,
            CliKeyboardLayout::Macedonian => KeyboardLayout::Macedonian,
            CliKeyboardLayout::Norwegian => KeyboardLayout::Norwegian,
            CliKeyboardLayout::BrazilianPortuguese => KeyboardLayout::BrazilianPortuguese,
            CliKeyboardLayout::Swedish => KeyboardLayout::Swedish,
            CliKeyboardLayout::Danish => KeyboardLayout::Danish,
            CliKeyboardLayout::BritishEnglish => KeyboardLayout::BritishEnglish,
            CliKeyboardLayout::Estonian => KeyboardLayout::Estonian,
            CliKeyboardLayout::French => KeyboardLayout::French,
            CliKeyboardLayout::SwissFrench => KeyboardLayout::SwissFrench,
            CliKeyboardLayout::Icelandic => KeyboardLayout::Icelandic,
            CliKeyboardLayout::Lithuanian => KeyboardLayout::Lithuanian,
            CliKeyboardLayout::Dutch => KeyboardLayout::Dutch,
            CliKeyboardLayout::Polish => KeyboardLayout::Polish,
            CliKeyboardLayout::Russian => KeyboardLayout::Russian,
            CliKeyboardLayout::Thai => KeyboardLayout::Thai,
            CliKeyboardLayout::German => KeyboardLayout::German,
            CliKeyboardLayout::AmericanEnglish => KeyboardLayout::AmericanEnglish,
            CliKeyboardLayout::Finnish => KeyboardLayout::Finnish,
            CliKeyboardLayout::BelgianFrench => KeyboardLayout::BelgianFrench,
            CliKeyboardLayout::Croatian => KeyboardLayout::Croatian,
            CliKeyboardLayout::Italian => KeyboardLayout::Italian,
            CliKeyboardLayout::Latvian => KeyboardLayout::Latvian,
            CliKeyboardLayout::NorwegianBokmal => KeyboardLayout::NorwegianBokmal,
            CliKeyboardLayout::Portuguese => KeyboardLayout::Portuguese,
            CliKeyboardLayout::Slovenian => KeyboardLayout::Slovenian,
            CliKeyboardLayout::Turkish => KeyboardLayout::Turkish,
        }
    }
}

impl From<CliKeyboardLayout> for KeyboardLayout {
    fn from(value: CliKeyboardLayout) -> (r: KeyboardLayout) {
        match value {
            CliKeyboardLayout::Arabic => KeyboardLayout::Arabic,
            CliKeyboardLayout::SwissGerman => KeyboardLayout::SwissGerman,
            CliKeyboardLayout::Spanish => KeyboardLayout::Spanish,
            CliKeyboardLayout::Faroese => KeyboardLayout::Faroese,
            CliKeyboardLayout::FrenchCanadian => KeyboardLayout::FrenchCanadian,
            CliKeyboardLayout::Hungarian => KeyboardLayout::Hungarian,
            CliKeyboardLayout::Japanese => KeyboardLayout::Japanese,
            CliKeyboardLayout::Macedonian => KeyboardLayout::Macedonian,
            CliKeyboardLayout::Norwegian => KeyboardLayout::Norwegian,
            CliKeyboardLayout::BrazilianPortuguese => KeyboardLayout::BrazilianPortuguese,
            CliKeyboardLayout::Swedish => KeyboardLayout::Swedish,
            CliKeyboardLayout::Danish => KeyboardLayout::Danish,
            CliKeyboardLayout::BritishEnglish => KeyboardLayout::BritishEnglish,
            CliKeyboardLayout::Estonian => KeyboardLayout::Estonian,
            CliKeyboardLayout::French => KeyboardLayout::French,
            CliKeyboardLayout::SwissFrench => KeyboardLayout::SwissFrench,
            CliKeyboardLayout::Icelandic => KeyboardLayout::Icelandic,
            CliKeyboardLayout::Lithuanian => KeyboardLayout::Lithuanian,
            CliKeyboardLayout::Dutch => KeyboardLayout::Dutch,
            CliKeyboardLayout::Polish => KeyboardLayout::Polish,
            CliKeyboardLayout::Russian => KeyboardLayout::Russian,
            CliKeyboardLayout::Thai => KeyboardLayout::Thai,
            CliKeyboardLayout::German => KeyboardLayout::German,
            CliKeyboardLayout::AmericanEnglish => KeyboardLayout::AmericanEnglish,
            CliKeyboardLayout::Finnish => KeyboardLayout::Finnish,
            CliKeyboardLayout::BelgianFrench => KeyboardLayout::BelgianFrench,
            CliKeyboardLayout::Croatian => KeyboardLayout::Croatian,
            CliKeyboardLayout::Italian => KeyboardLayout::Italian,
            CliKeyboardLayout::Latvian => KeyboardLayout::Latvian,
            CliKeyboardLayout::NorwegianBokmal => KeyboardLayout::NorwegianBokmal,
            CliKeyboardLayout::Portuguese => KeyboardLayout::Portuguese,
            CliKeyboardLayout::Slovenian => KeyboardLayout::Slovenian,
            CliKeyboardLayout::Turkish => KeyboardLayout::Turkish,
        }
    }
}

impl vstd::std_specs::convert::FromSpecImpl<CliKeyboardLayout> for KeyboardLayout {
    open spec fn obeys_from_spec() -> bool {
        true
    }

    open spec fn from_spec(v: CliKeyboardLayout) -> KeyboardLayout {
        v.spec_layout()
    }
}

/// A display type named on the command line.
#[derive(Debug, Clone, Copy, PartialEq, Eq, Structural)]
pub enum CliDisplayType {
    Disabled,
    Sdl,
    Gtk,
    Spice,
    SpiceApp,
}

impl CliDisplayType {
    /// The display that a command line name stands for; Spice with local
    /// access, the Spicy viewer and the default port.
    pub fn display_type(self) -> (r: DisplayType)
        ensures
            match self {
                CliDisplayType::Disabled => r == DisplayType::Disabled,
                CliDisplayType::Sdl => r == DisplayType::Sdl,
                CliDisplayType::Gtk => r == DisplayType::Gtk,
                CliDisplayType::SpiceApp => r == DisplayType::SpiceApp,
                CliDisplayType::Spice => r matches DisplayType::Spice { access, viewer, spice_port }
                    && access.0 matches Some(a) && a@ == Access::spec_localhost()
                    && viewer == Viewer::Spicy && spice_port == 5930,
            },
    {
        match self {
            CliDisplayType::Disabled => DisplayType::Disabled,
            CliDisplayType::Sdl => DisplayType::Sdl,
            CliDisplayType::Gtk => DisplayType::Gtk,
            CliDisplayType::Spice => DisplayType::Spice {
                access: Access::local(),
                viewer: Viewer::Spicy,
                spice_port: default_spice_port(),
            },
            CliDisplayType::SpiceApp => DisplayType::SpiceApp,
        }
    }
}

/// A resolution given on the command line: full screen, or a width and a
/// height.
#[derive(Debug, Clone, Copy, PartialEq, Eq, Structural)]
pub struct ResolutionOptions {
    pub width: Option<u32>,
    pub height: Option<u32>,
    pub fullscreen: bool,
}

impl ResolutionOptions {
    /// The resolution that the options stand for.
    pub open spec fn spec_resolution(self) -> Resolution {
        if self.fullscreen {
            Resolution::FullScreen
        } else {
            Resolution::Custom { width: self.width->Some_0, height: self.height->Some_0 }
        }
    }

    /// The resolution: full screen, or the width and height (the command
    /// line gives both or neither).
    pub fn resolution(self) -> (r: Resolution)
        requires
            self.fullscreen || (self.width is Some && self.height is Some),
        ensures
            r == self.spec_resolution(),
    {
        if self.fullscreen {
            Resolution::FullScreen
        } else {
            match (self.width, self.height) {
                (Some(width), Some(height)) => Resolution::Custom { width, height },
                _ => Resolution::FullScreen,
            }
        }
    }
}

/// The display options of the command line.
#[derive(Debug)]
pub struct DisplayOptions {
    pub display: Option<CliDisplayType>,
    pub access: Option<Access>,
    pub spice_port: Option<u16>,
    pub viewer: Option<Viewer>,
    pub resolution: Option<ResolutionOptions>,
}

impl DisplayOptions {
    /// How the options change the display settings (see `edit_config`).
    pub open spec fn spec_edited(self, before: Display, after: Display) -> bool {
        &&& (after.accelerated == before.accelerated)
        &&& (after.braille == before.braille)
        &&& (after.resolution == (match self.resolution { Some(r) => r.spec_resolution(), None => before.resolution }))
        &&& (self.display is None ==> match before.display_type {
            DisplayType::Spice { access, viewer, spice_port } => after.display_type == (DisplayType::Spice {
                access: match self.access { Some(a) => a, None => access },
                viewer: match self.viewer { Some(v) => v, None => viewer },
                spice_port: match self.spice_port { Some(p) => p, None => spice_port },
            }),
            other => after.display_type == other,
        })
        &&& (self.display == Some(CliDisplayType::Disabled) ==> after.display_type == DisplayType::Disabled)
        &&& (self.display == Some(CliDisplayType::Sdl) ==> after.display_type == DisplayType::Sdl)
        &&& (self.display == Some(CliDisplayType::Gtk) ==> after.display_type == DisplayType::Gtk)
        &&& (self.display == Some(CliDisplayType::SpiceApp) ==> after.display_type == DisplayType::SpiceApp)
        &&& (self.display == Some(CliDisplayType::Spice) ==> (after.display_type matches DisplayType::Spice { access, viewer, spice_port }
            && (match self.access { Some(a) => access == a, None => access.0 matches Some(l) && l@ == Access::spec_localhost() })
            && viewer == (match self.viewer { Some(v) => v, None => Viewer::Spicy })
            && spice_port == (match self.spice_port { Some(p) => p, None => 5930u16 })))
    }

    /// Changes the display settings: the display type; for a Spice display
    /// the access, viewer and port; the resolution.
    pub fn edit_config(self, config: &mut Display)
        requires
            self.resolution matches Some(r) ==> r.fullscreen || (r.width is Some && r.height is Some),
        ensures
            self.spec_edited(*old(config), *final(config)),
    {
        if let Some(d) = self.display {
            config.display_type = d.display_type();
        }
        if let DisplayType::Spice { access, viewer, spice_port } = &mut config.display_type {
            if let Some(a) = self.access {
                *access = a;
            }
            if let Some(v) = self.viewer {
                *viewer = v;
            }
            if let Some(p) = self.spice_port {
                *spice_port = p;
            }
        }
        if let Some(r) = self.resolution {
            config.resolution = r.resolution();
        }
    }
}

/// The input and output options of the command line.
#[derive(Debug)]
pub struct IoOptions {
    pub display: DisplayOptions,
    pub keyboard: Option<Keyboard>,
    pub keyboard_layout: Option<CliKeyboardLayout>,
    pub mouse: Option<Mouse>,
    pub soundcard: Option<SoundCard>,
    pub public_dir: Option<PublicDir>,
    pub usb_controller: Option<USBController>,
}

impl IoOptions {
    /// How the options change the input and output settings (see
    /// `edit_config`).
    pub open spec fn spec_edited(self, before: Io, after: Io) -> bool {
        &&& after.keyboard == (match self.keyboard { Some(k) => Some(k), None => before.keyboard })
        &&& after.keyboard_layout == (match self.keyboard_layout { Some(l) => l.spec_layout(), None => before.keyboard_layout })
        &&& after.mouse == (match self.mouse { Some(m) => Some(m), None => before.mouse })
        &&& after.soundcard == (match self.soundcard { Some(s) => Some(s), None => before.soundcard })
        &&& after.usb_controller == (match self.usb_controller { Some(u) => Some(u), None => before.usb_controller })
        &&& after.public_dir == (match self.public_dir { Some(p) => p, None => before.public_dir })
        &&& self.display.spec_edited(before.display, after.display)
    }

    /// Changes the input and output settings to those given.
    pub fn edit_config(self, config: &mut Io)
        requires
            self.display.resolution matches Some(r) ==> r.fullscreen || (r.width is Some && r.height is Some),
        ensures
            self.spec_edited(*old(config), *final(config)),
    {
        let IoOptions { display, keyboard, keyboard_layout, mouse, soundcard, public_dir, usb_controller } = self;
        if let Some(k) = keyboard {
            config.keyboard = Some(k);
        }
        if let Some(l) = keyboard_layout {
            config.keyboard_layout = KeyboardLayout::from(l);
        }
        if let Some(m) = mouse {
            config.mouse = Some(m);
        }
        if let Some(s) = soundcard {
            config.soundcard = Some(s);
        }
        if let Some(u) = usb_controller {
            config.usb_controller = Some(u);
        }
        if let Some(p) = public_dir {
            config.public_dir = p;
        }
        display.edit_config(&mut config.display);
    }
}

/// Command line options that set nothing leave the input and output
/// settings as the configuration file has them.
pub proof fn law_empty_options_change_nothing(o: IoOptions, before: Io, after: Io)
    requires
        o.keyboard is None && o.keyboard_layout is None && o.mouse is None && o.soundcard is None,
        o.public_dir is None && o.usb_controller is None,
        o.display.display is None && o.display.access is None && o.display.spice_port is None,
        o.display.viewer is None && o.display.resolution is None,
        o.spec_edited(before, after),
    ensures
        after == before,
{
    assert(after.display == before.display);
}

/// What the program is asked to do.
#[derive(Debug, Clone, Copy, PartialEq, Eq, Structural)]
pub enum Action {
    Launch,
    Kill,
}

/// What the program does, given whether it was asked to kill the VM and
/// whether the VM runs: a running VM can only be killed, and one that does
/// not run only started.
pub fn get_action(kill: bool, running: bool) -> (r: Result<Action, String>)
    ensures
        kill && running ==> r == Ok::<Action, String>(Action::Kill),
        !kill && !running ==> r == Ok::<Action, String>(Action::Launch),
        kill != running ==> r is Err,
{
    match (kill, running) {
        (true, true) => Ok(Action::Kill),
        (false, false) => Ok(Action::Launch),
        (true, false) => Err(String::from_str("Requested to kill VM, but it isn't running")),
        (false, true) => Err(String::from_str("VM is already running")),
    }
}

/// Changes the machine settings: the guest's disks can be left as they
/// are.
pub fn edit_machine(status_quo: bool, config: &mut Machine)
    ensures
        *final(config) == (Machine { status_quo: old(config).status_quo || status_quo, ..*old(config) }),
{
    if status_quo {
        config.status_quo = true;
    }
}

/// Changes a configuration to the command line's options, and adds its
/// extra QEMU arguments.
pub fn edit_config(io: IoOptions, status_quo: bool, extra_args: Vec<String>, config: &mut Config)
    requires
        io.display.resolution matches Some(r) ==> r.fullscreen || (r.width is Some && r.height is Some),
    ensures
        crate::text::views(final(config).extra_args@) == crate::text::views(old(config).extra_args@) + crate::text::views(extra_args@),
        final(config).machine == (Machine { status_quo: old(config).machine.status_quo || status_quo, ..old(config).machine }),
        io.spec_edited(old(config).io, final(config).io),
        final(config).vm_dir == old(config).vm_dir,
        final(config).vm_name == old(config).vm_name,
        final(config).guest == old(config).guest,
        final(config).images == old(config).images,
        final(config).network == old(config).network,
{
    io.edit_config(&mut config.io);
    edit_machine(status_quo, &mut config.machine);
    crate::text::extend_args(&mut config.extra_args, &extra_args);
}

} // verus!
