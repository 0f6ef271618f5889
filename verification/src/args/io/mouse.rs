//! The pointing device.

use vstd::prelude::*;
use crate::data::guest::GuestOS;
use crate::data::io::Mouse;
use crate::text::{push_arg, views};
use crate::utils::{lines, ArgDisplay, EmulatorArgs};

verus! {

impl GuestOS {
    /// The mouse a guest gets when none is configured: USB for FreeBSD and
    /// GhostBSD, a USB tablet otherwise.
    pub fn default_mouse(&self) -> (r: Mouse)
        ensures
            r == (if *self == GuestOS::FreeBSD || *self == GuestOS::GhostBSD { Mouse::Usb } else { Mouse::Tablet }),
    {
        match self {
            GuestOS::FreeBSD | GuestOS::GhostBSD => Mouse::Usb,
            _ => Mouse::Tablet,
        }
    }
}

impl EmulatorArgs for Mouse {
    open spec fn spec_display(&self) -> Seq<(Seq<char>, Seq<char>)> {
        seq![]
    }

    open spec fn spec_qemu_args(&self) -> Seq<Seq<char>> {
        match *self {
            Mouse::PS2 => seq![],
            Mouse::Usb => seq!["-device"@, "usb-mouse,bus=input.0"@],
            Mouse::Tablet => seq!["-device"@, "usb-tablet,bus=input.0"@],
            Mouse::Virtio => seq!["-device"@, "virtio-mouse"@],
        }
    }

    fn display(&self) -> (r: Vec<ArgDisplay>) {
        let r = Vec::new();
        assert(lines(r@) =~= self.spec_display());
        r
    }

    fn qemu_args(&self) -> (r: Vec<String>) {
        let mut args = Vec::new();
        match self {
            Mouse::PS2 => {},
            Mouse::Usb => {
                push_arg(&mut args, "-device");
                push_arg(&mut args, "usb-mouse,bus=input.0");
            },
            Mouse::Tablet => {
                push_arg(&mut args, "-device");
                push_arg(&mut args, "usb-tablet,bus=input.0");
            },
            Mouse::Virtio => {
                push_arg(&mut args, "-device");
                push_arg(&mut args, "virtio-mouse");
            },
        }
        assert(views(args@) =~= self.spec_qemu_args());
        args
    }
}

} // verus!
