//! Input and output devices: display, sound, keyboard, mouse, USB,
//! shared directories and Spice.

use vstd::prelude::*;

pub mod audio;
pub mod display;
pub mod keyboard;
pub mod mouse;
pub mod public_dir;
pub mod spice;
pub mod usb;

use self::audio::{Audio, SoundServers};
use self::display::DisplayArgs;
use self::public_dir::PublicDirArgs;
use self::spice::SpiceArgs;
use self::usb::USBArgs;
use crate::data::display::DisplayType;
use crate::data::guest::GuestOS;
use crate::data::io::{Io, Keyboard, KeyboardLayout, Mouse, SoundCard, USBController};
use crate::data::machine::Arch;
use crate::error::{Error, Warning};
use crate::text::{clone_opt, extend_args, views};
use crate::utils::{extend_lines, lines, ArgDisplay, EmulatorArgs};

verus! {

/// What the host tells about input and output: the sound servers that
/// run, the first free Spice port from the configured one on, and whether
/// the shared directory is read-only.
#[derive(Debug, Clone, Copy, PartialEq, Eq, Structural)]
pub struct IoHost {
    pub sound_servers: SoundServers,
    pub spice_port: Option<u16>,
    pub public_dir_readonly: bool,
}

/// The input and output setup of a guest.
#[derive(Debug, Clone, PartialEq)]
pub struct IoArgs {
    pub display: DisplayArgs,
    pub audio: Audio,
    pub mouse: Mouse,
    pub usb: USBArgs,
    pub keyboard: Keyboard,
    pub keyboard_layout: KeyboardLayout,
    pub spice: Option<SpiceArgs>,
    pub public_dir_args: Option<PublicDirArgs>,
}

impl Io {
    /// The USB controller: the configured one, or the guest's default.
    pub open spec fn spec_usb_controller(&self, guest: GuestOS) -> USBController {
        match self.usb_controller { Some(c) => c, None => guest.spec_default_usb_controller() }
    }

    /// The sound card: the configured one, or the guest's default.
    pub open spec fn spec_soundcard(&self, guest: GuestOS) -> SoundCard {
        match self.soundcard { Some(c) => c, None => guest.spec_default_soundcard() }
    }

    /// Whether the display is one of the Spice displays.
    pub open spec fn spec_uses_spice(&self) -> bool {
        self.display.display_type is Spice || self.display.display_type is SpiceApp
    }

    /// The input and output setup: configured devices, or the guest's
    /// defaults. USB audio without an XHCI controller is refused, and so
    /// is a Spice server without a free port.
    pub open spec fn spec_args(&self, arch: Arch, guest: GuestOS, vm_name: String, host: IoHost) -> Result<(IoArgs, Seq<Warning>), Error> {
        let soundcard = self.spec_soundcard(guest);
        let usb_controller = self.spec_usb_controller(guest);
        let (audio, warning) = self.display.spec_audio(soundcard, host.sound_servers);
        let spice = self.display.spec_spice_args(vm_name, guest, self.public_dir.0, host.spice_port);
        if soundcard == SoundCard::USBAudio && usb_controller != USBController::Xhci {
            Err(Error::ConflictingSoundUsb)
        } else if self.spec_uses_spice() && spice is Err {
            Err(spice->Err_0)
        } else {
            Ok((IoArgs {
                display: self.display.spec_args(guest, arch),
                audio,
                mouse: match self.mouse {
                    Some(m) => m,
                    None => if guest == GuestOS::FreeBSD || guest == GuestOS::GhostBSD { Mouse::Usb } else { Mouse::Tablet },
                },
                usb: USBArgs { controller: usb_controller, passthrough_controller: usb_controller.spec_passthrough(guest) },
                keyboard: match self.keyboard {
                    Some(k) => k,
                    None => if guest == GuestOS::ReactOS { Keyboard::PS2 } else { Keyboard::Usb },
                },
                keyboard_layout: self.keyboard_layout,
                spice: if self.spec_uses_spice() { Some(spice->Ok_0) } else { None },
                public_dir_args: match self.public_dir.0 {
                    Some(d) => Some(PublicDirArgs { path: d, guest, readonly: host.public_dir_readonly }),
                    None => None,
                },
            }, match warning { Some(w) => seq![w], None => seq![] }))
        }
    }

    /// The input and output setup of a guest.
    pub fn args(&self, arch: Arch, guest: GuestOS, vm_name: &String, host: IoHost) -> (r: Result<(IoArgs, Vec<Warning>), Error>)
        ensures
            match self.spec_args(arch, guest, *vm_name, host) {
                Ok((a, w)) => r matches Ok((b, v)) && b == a && v@ == w,
                Err(e) => r == Err::<(IoArgs, Vec<Warning>), Error>(e),
            },
    {
        let mut warnings = Vec::new();
        let keyboard = match self.keyboard {
            Some(k) => k,
            None => guest.default_keyboard(),
        };
        let usb_controller = match self.usb_controller {
            Some(c) => c,
            None => guest.default_usb_controller(),
        };
        let soundcard = match self.soundcard {
            Some(c) => c,
            None => guest.default_soundcard(),
        };
        soundcard.validate(usb_controller)?;
        let (audio, audio_warning) = self.display.audio(soundcard, host.sound_servers)?;
        let ghost aw = audio_warning;
        if let Some(w) = audio_warning {
            warnings.push(w);
        }
        let display = self.display.args(guest, arch);
        let public_dir_args = match &self.public_dir.0 {
            Some(d) => Some(PublicDirArgs::new(d.clone(), guest, host.public_dir_readonly)),
            None => None,
        };
        let spice = if matches!(self.display.display_type, DisplayType::Spice { .. } | DisplayType::SpiceApp) {
            Some(self.display.spice_args(vm_name, guest, clone_opt(&self.public_dir.0), host.spice_port)?)
        } else {
            None
        };
        let mouse = match self.mouse {
            Some(m) => m,
            None => guest.default_mouse(),
        };
        let usb = usb_controller.usb_args(guest);
        let r = IoArgs {
            display,
            audio,
            mouse,
            usb,
            keyboard,
            keyboard_layout: self.keyboard_layout,
            spice,
            public_dir_args,
        };
        proof {
            let w = match aw { Some(w) => seq![w], None => seq![] };
            assert(warnings@ =~= w);
        }
        Ok((r, warnings))
    }
}

impl EmulatorArgs for IoArgs {
    /// Display, sound, mouse, USB, keyboard and layout, shared directory,
    /// then Spice.
    open spec fn spec_display(&self) -> Seq<(Seq<char>, Seq<char>)> {
        self.display.spec_display() + self.audio.spec_display() + self.mouse.spec_display()
            + self.usb.spec_display() + self.keyboard.spec_display() + self.keyboard_layout.spec_display()
            + match self.public_dir_args { Some(d) => d.spec_display(), None => seq![] }
            + match self.spice { Some(s) => s.spec_display(), None => seq![] }
    }

    /// USB, display, sound, mouse, keyboard and layout, shared directory,
    /// then Spice.
    open spec fn spec_qemu_args(&self) -> Seq<Seq<char>> {
        self.usb.spec_qemu_args() + self.display.spec_qemu_args() + self.audio.spec_qemu_args()
            + self.mouse.spec_qemu_args() + self.keyboard.spec_qemu_args() + self.keyboard_layout.spec_qemu_args()
            + match self.public_dir_args { Some(d) => d.spec_qemu_args(), None => seq![] }
            + match self.spice { Some(s) => s.spec_qemu_args(), None => seq![] }
    }

    fn display(&self) -> (r: Vec<ArgDisplay>) {
        let mut r = Vec::new();
        extend_lines(&mut r, self.display.display());
        extend_lines(&mut r, self.audio.display());
        extend_lines(&mut r, self.mouse.display());
        extend_lines(&mut r, self.usb.display());
        extend_lines(&mut r, self.keyboard.display());
        extend_lines(&mut r, self.keyboard_layout.display());
        let ghost before = lines(r@);
        if let Some(d) = &self.public_dir_args {
            extend_lines(&mut r, d.display());
        }
        assert(lines(r@) =~= before + match self.public_dir_args { Some(d) => d.spec_display(), None => seq![] });
        let ghost before2 = lines(r@);
        if let Some(s) = &self.spice {
            extend_lines(&mut r, s.display());
        }
        assert(lines(r@) =~= before2 + match self.spice { Some(s) => s.spec_display(), None => seq![] });
        assert(lines(r@) =~= self.spec_display());
        r
    }

    fn qemu_args(&self) -> (r: Vec<String>) {
        let mut r = Vec::new();
        extend_args(&mut r, &self.usb.qemu_args());
        extend_args(&mut r, &self.display.qemu_args());
        extend_args(&mut r, &self.audio.qemu_args());
        extend_args(&mut r, &self.mouse.qemu_args());
        extend_args(&mut r, &self.keyboard.qemu_args());
        extend_args(&mut r, &self.keyboard_layout.qemu_args());
        let ghost before = views(r@);
        if let Some(d) = &self.public_dir_args {
            extend_args(&mut r, &d.qemu_args());
        }
        assert(views(r@) =~= before + match self.public_dir_args { Some(d) => d.spec_qemu_args(), None => seq![] });
        let ghost before2 = views(r@);
        if let Some(s) = &self.spice {
            extend_args(&mut r, &s.qemu_args());
        }
        assert(views(r@) =~= before2 + match self.spice { Some(s) => s.spec_qemu_args(), None => seq![] });
        assert(views(r@) =~= self.spec_qemu_args());
        r
    }
}

} // verus!
