//! Sound: the sound card and the host audio backend.

use vstd::prelude::*;
use crate::data::display::{Display, DisplayType};
use crate::data::guest::{GuestOS, MacOSRelease};
use crate::data::io::{SoundCard, USBController};
use crate::error::{Error, Warning};
use crate::text::{push_arg, views};
use crate::utils::{lines, push_line, ArgDisplay, EmulatorArgs};

verus! {

impl GuestOS {
    /// The sound card a guest gets when none is configured.
    pub open spec fn spec_default_soundcard(self) -> SoundCard {
        match self {
            GuestOS::FreeDOS => SoundCard::SB16,
            GuestOS::Solaris => SoundCard::AC97,
            _ => if self.spec_macos_at_least(MacOSRelease::BigSur) {
                SoundCard::USBAudio
            } else {
                SoundCard::IntelHDA
            },
        }
    }

    /// The sound card a guest gets when none is configured: a Sound Blaster
    /// 16 for FreeDOS, AC97 for Solaris, USB audio for macOS Big Sur and
    /// newer, Intel HDA otherwise.
    pub fn default_soundcard(&self) -> (r: SoundCard)
        ensures
            r == self.spec_default_soundcard(),
    {
        match self {
            GuestOS::FreeDOS => SoundCard::SB16,
            GuestOS::Solaris => SoundCard::AC97,
            _ => if self.macos_at_least(MacOSRelease::BigSur) {
                SoundCard::USBAudio
            } else {
                SoundCard::IntelHDA
            },
        }
    }
}

impl SoundCard {
    /// USB audio needs an XHCI controller.
    pub fn validate(&self, usb_controller: USBController) -> (r: Result<(), Error>)
        ensures
            r is Err <==> (*self == SoundCard::USBAudio && usb_controller != USBController::Xhci),
            r matches Err(e) ==> e == Error::ConflictingSoundUsb,
    {
        if *self == SoundCard::USBAudio && usb_controller != USBController::Xhci {
            return Err(Error::ConflictingSoundUsb);
        }
        Ok(())
    }
}

/// The sound servers that run on the host.
#[derive(Debug, Clone, Copy, PartialEq, Eq, Structural)]
pub struct SoundServers {
    pub pipewire: bool,
    pub pulseaudio: bool,
    pub alsa: bool,
}

/// Where QEMU sends the guest's sound.
#[derive(Debug, Clone, Copy, PartialEq, Eq, Structural)]
pub enum AudioBackend {
    Disabled,
    Spice,
    PipeWire,
    PulseAudio,
    Alsa,
}

/// The sound card and where its sound goes.
#[derive(Debug, Clone, Copy, PartialEq, Eq, Structural)]
pub struct Audio {
    pub sound_card: SoundCard,
    pub backend: AudioBackend,
}

impl Display {
    /// The backend a sound card gets: none without a sound card, Spice for
    /// the Spice displays and for no display, otherwise the first sound
    /// server that runs of PipeWire, PulseAudio and ALSA.
    pub open spec fn spec_audio_backend(&self, sound_card: SoundCard, servers: SoundServers) -> AudioBackend {
        if sound_card == SoundCard::Disabled {
            AudioBackend::Disabled
        } else {
            match self.display_type {
                DisplayType::Spice { .. } | DisplayType::SpiceApp | DisplayType::Disabled => AudioBackend::Spice,
                _ => if servers.pipewire {
                    AudioBackend::PipeWire
                } else if servers.pulseaudio {
                    AudioBackend::PulseAudio
                } else if servers.alsa {
                    AudioBackend::Alsa
                } else {
                    AudioBackend::Disabled
                },
            }
        }
    }

    /// The sound setup, and a warning when a sound card has nowhere to send
    /// its sound.
    pub open spec fn spec_audio(&self, sound_card: SoundCard, servers: SoundServers) -> (Audio, Option<Warning>) {
        let backend = self.spec_audio_backend(sound_card, servers);
        let warn = sound_card != SoundCard::Disabled && !(self.display_type is Spice
            || self.display_type is SpiceApp || self.display_type is Disabled)
            && !servers.pipewire && !servers.pulseaudio && !servers.alsa;
        (Audio { sound_card, backend }, if warn { Some(Warning::AudioBackend) } else { None })
    }

    /// Chooses where the guest's sound goes; warns when a sound card has
    /// nowhere to send it.
    pub fn audio(&self, sound_card: SoundCard, servers: SoundServers) -> (r: Result<(Audio, Option<Warning>), Error>)
        ensures
            r == Ok::<(Audio, Option<Warning>), Error>(self.spec_audio(sound_card, servers)),
    {
        let mut warning = None;
        let backend = if sound_card == SoundCard::Disabled {
            AudioBackend::Disabled
        } else {
            match self.display_type {
                DisplayType::Spice { .. } | DisplayType::SpiceApp | DisplayType::Disabled => AudioBackend::Spice,
                _ => if servers.pipewire {
                    AudioBackend::PipeWire
                } else if servers.pulseaudio {
                    AudioBackend::PulseAudio
                } else if servers.alsa {
                    AudioBackend::Alsa
                } else {
                    warning = Some(Warning::AudioBackend);
                    AudioBackend::Disabled
                },
            }
        };
        Ok((Audio { sound_card, backend }, warning))
    }
}

impl Audio {
    /// The name that a sound card is shown with.
    pub open spec fn spec_card_name(card: SoundCard) -> Seq<char> {
        match card {
            SoundCard::Disabled => "Disabled"@,
            SoundCard::AC97 => "AC97"@,
            SoundCard::ES1370 => "ES1370"@,
            SoundCard::SB16 => "Sound Blaster 16"@,
            SoundCard::IntelHDA => "Intel HDA"@,
            SoundCard::USBAudio => "USB Audio"@,
        }
    }

    /// The `-audiodev` value of a backend.
    pub open spec fn spec_backend_arg(backend: AudioBackend) -> Seq<char> {
        match backend {
            AudioBackend::Disabled => "none,id=audio0"@,
            AudioBackend::Spice => "spice,id=audio0"@,
            AudioBackend::PipeWire => "pipewire,id=audio0"@,
            AudioBackend::PulseAudio => "pulse,id=audio0"@,
            AudioBackend::Alsa => "alsa,id=audio0"@,
        }
    }

    /// The devices that a sound card is added with.
    pub open spec fn spec_card_args(card: SoundCard) -> Seq<Seq<char>> {
        match card {
            SoundCard::Disabled => seq![],
            SoundCard::AC97 => seq!["-device"@, "ac97,audiodev=audio0"@],
            SoundCard::ES1370 => seq!["-device"@, "es1370,audiodev=audio0"@],
            SoundCard::SB16 => seq!["-device"@, "sb16,audiodev=audio0"@],
            SoundCard::USBAudio => seq!["-device"@, "usb-audio,audiodev=audio0"@],
            SoundCard::IntelHDA => seq!["-device"@, "intel-hda"@, "-device"@, "hda-duplex,audiodev=audio0"@],
        }
    }
}

impl EmulatorArgs for Audio {
    open spec fn spec_display(&self) -> Seq<(Seq<char>, Seq<char>)> {
        seq![("Sound"@, Audio::spec_card_name(self.sound_card))]
    }

    open spec fn spec_qemu_args(&self) -> Seq<Seq<char>> {
        seq!["-audiodev"@, Audio::spec_backend_arg(self.backend)] + Audio::spec_card_args(self.sound_card)
    }

    fn display(&self) -> (r: Vec<ArgDisplay>) {
        let value = match self.sound_card {
            SoundCard::Disabled => "Disabled",
            SoundCard::AC97 => "AC97",
            SoundCard::ES1370 => "ES1370",
            SoundCard::SB16 => "Sound Blaster 16",
            SoundCard::IntelHDA => "Intel HDA",
            SoundCard::USBAudio => "USB Audio",
        };
        let mut r = Vec::new();
        push_line(&mut r, ArgDisplay::new("Sound", String::from_str(value)));
        assert(lines(r@) =~= self.spec_display());
        r
    }

    fn qemu_args(&self) -> (r: Vec<String>) {
        let backend = match self.backend {
            AudioBackend::Disabled => "none,id=audio0",
            AudioBackend::Spice => "spice,id=audio0",
            AudioBackend::PipeWire => "pipewire,id=audio0",
            AudioBackend::PulseAudio => "pulse,id=audio0",
            AudioBackend::Alsa => "alsa,id=audio0",
        };
        let mut args = Vec::new();
        push_arg(&mut args, "-audiodev");
        push_arg(&mut args, backend);
        match self.sound_card {
            SoundCard::Disabled => {},
            SoundCard::AC97 => {
                push_arg(&mut args, "-device");
                push_arg(&mut args, "ac97,audiodev=audio0");
            },
            SoundCard::ES1370 => {
                push_arg(&mut args, "-device");
                push_arg(&mut args, "es1370,audiodev=audio0");
            },
            SoundCard::SB16 => {
                push_arg(&mut args, "-device");
                push_arg(&mut args, "sb16,audiodev=audio0");
            },
            SoundCard::USBAudio => {
                push_arg(&mut args, "-device");
                push_arg(&mut args, "usb-audio,audiodev=audio0");
            },
            SoundCard::IntelHDA => {
                push_arg(&mut args, "-device");
                push_arg(&mut args, "intel-hda");
                push_arg(&mut args, "-device");
                push_arg(&mut args, "hda-duplex,audiodev=audio0");
            },
        }
        assert(views(args@) =~= self.spec_qemu_args());
        args
    }
}

} // verus!
