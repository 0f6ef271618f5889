//! The keyboard and its layout.

use vstd::prelude::*;
use crate::data::guest::GuestOS;
use crate::data::io::{Keyboard, KeyboardLayout};
use crate::text::{push_arg, views};
use crate::utils::{lines, ArgDisplay, EmulatorArgs};

verus! {

impl GuestOS {
    /// The keyboard a guest gets when none is configured: PS/2 for ReactOS,
    /// USB otherwise.
    pub fn default_keyboard(&self) -> (r: Keyboard)
        ensures
            r == (if *self == GuestOS::ReactOS { Keyboard::PS2 } else { Keyboard::Usb }),
    {
        match self {
            GuestOS::ReactOS => Keyboard::PS2,
            _ => Keyboard::Usb,
        }
    }
}

impl EmulatorArgs for Keyboard {
    open spec fn spec_display(&self) -> Seq<(Seq<char>, Seq<char>)> {
        seq![]
    }

    open spec fn spec_qemu_args(&self) -> Seq<Seq<char>> {
        match *self {
            Keyboard::PS2 => seq![],
            Keyboard::Usb => seq!["-device"@, "usb-kbd,bus=input.0"@],
            Keyboard::Virtio => seq!["-device"@, "virtio-keyboard"@],
        }
    }

    fn display(&self) -> (r: Vec<ArgDisplay>) {
        let r = Vec::new();
        assert(lines(r@) =~= self.spec_display());
        r
    }

    fn qemu_args(&self) -> (r: Vec<String>) {
        let mut args = Vec::new();
        match self {
            Keyboard::PS2 => {},
            Keyboard::Usb => {
                push_arg(&mut args, "-device");
                push_arg(&mut args, "usb-kbd,bus=input.0");
            },
            Keyboard::Virtio => {
                push_arg(&mut args, "-device");
                push_arg(&mut args, "virtio-keyboard");
            },
        }
        assert(views(args@) =~= self.spec_qemu_args());
        args
    }
}

impl EmulatorArgs for KeyboardLayout {
    open spec fn spec_display(&self) -> Seq<(Seq<char>, Seq<char>)> {
        seq![]
    }

    open spec fn spec_qemu_args(&self) -> Seq<Seq<char>> {
        seq!["-k"@, self.spec_str()]
    }

    fn display(&self) -> (r: Vec<ArgDisplay>) {
        let r = Vec::new();
        assert(lines(r@) =~= self.spec_display());
        r
    }

    fn qemu_args(&self) -> (r: Vec<String>) {
        let mut args = Vec::new();
        push_arg(&mut args, "-k");
        push_arg(&mut args, self.as_str());
        assert(views(args@) =~= self.spec_qemu_args());
        args
    }
}

} // verus!
