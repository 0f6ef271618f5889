//! The USB controller and USB passthrough.

use vstd::prelude::*;
use crate::data::guest::{GuestOS, MacOSRelease};
use crate::data::io::USBController;
use crate::text::{push_arg, views};
use crate::utils::{lines, ArgDisplay, EmulatorArgs};

verus! {

impl GuestOS {
    /// The USB controller a guest gets when none is configured: XHCI for
    /// Solaris and for macOS Big Sur and newer, EHCI otherwise.
    pub open spec fn spec_default_usb_controller(self) -> USBController {
        if self == GuestOS::Solaris || self.spec_macos_at_least(MacOSRelease::BigSur) {
            USBController::Xhci
        } else {
            USBController::Ehci
        }
    }

    /// The USB controller a guest gets when none is configured.
    pub fn default_usb_controller(&self) -> (r: USBController)
        ensures
            r == self.spec_default_usb_controller(),
    {
        match self {
            GuestOS::Solaris => USBController::Xhci,
            _ => if self.macos_at_least(MacOSRelease::BigSur) {
                USBController::Xhci
            } else {
                USBController::Ehci
            },
        }
    }
}

/// The controller through which Spice passes host USB devices on.
#[derive(Debug, Clone, Copy, PartialEq, Eq, Structural)]
pub enum PassthroughController {
    NecUsbXhci,
    UsbEhci,
    QemuXhci,
}

impl PassthroughController {
    /// The QEMU device of the controller.
    pub open spec fn spec_arg(self) -> Seq<char> {
        match self {
            PassthroughController::NecUsbXhci => "nec-usb-xhci,id=spicepass"@,
            PassthroughController::UsbEhci => "usb-ehci,id=spicepass"@,
            PassthroughController::QemuXhci => "qemu-xhci,id=spicepass"@,
        }
    }

    /// The QEMU device of the controller.
    pub fn spice_arg(&self) -> (r: &'static str)
        ensures
            r@ == self.spec_arg(),
    {
        match self {
            PassthroughController::NecUsbXhci => "nec-usb-xhci,id=spicepass",
            PassthroughController::UsbEhci => "usb-ehci,id=spicepass",
            PassthroughController::QemuXhci => "qemu-xhci,id=spicepass",
        }
    }
}

/// The USB controller and the passthrough controller of a guest.
#[derive(Debug, Clone, Copy, PartialEq, Eq, Structural)]
pub struct USBArgs {
    pub controller: USBController,
    pub passthrough_controller: Option<PassthroughController>,
}

impl USBController {
    /// The passthrough controller that goes with a USB controller: EHCI
    /// for EHCI, an NEC XHCI for macOS Big Sur and newer and QEMU's XHCI
    /// for other guests with XHCI, none without a controller.
    pub open spec fn spec_passthrough(self, guest: GuestOS) -> Option<PassthroughController> {
        match self {
            USBController::Ehci => Some(PassthroughController::UsbEhci),
            USBController::Xhci => if guest.spec_macos_at_least(MacOSRelease::BigSur) {
                Some(PassthroughController::NecUsbXhci)
            } else {
                Some(PassthroughController::QemuXhci)
            },
            USBController::Disabled => None,
        }
    }

    /// The USB setup of a guest with this controller.
    pub fn usb_args(&self, guest: GuestOS) -> (r: USBArgs)
        ensures
            r.controller == *self,
            r.passthrough_controller == self.spec_passthrough(guest),
    {
        let passthrough_controller = match self {
            USBController::Ehci => Some(PassthroughController::UsbEhci),
            USBController::Xhci => if guest.macos_at_least(MacOSRelease::BigSur) {
                Some(PassthroughController::NecUsbXhci)
            } else {
                Some(PassthroughController::QemuXhci)
            },
            USBController::Disabled => None,
        };
        USBArgs { controller: *self, passthrough_controller }
    }
}

impl USBArgs {
    /// The Spice redirection channels and smartcard reader that come with
    /// a passthrough controller.
    pub open spec fn spec_redirection() -> Seq<Seq<char>> {
        seq![
            "-chardev"@, "spicevmc,id=usbredirchardev1,name=usbredir"@,
            "-device"@, "usb-redir,chardev=usbredirchardev1,id=usbredirdev1"@,
            "-chardev"@, "spicevmc,id=usbredirchardev2,name=usbredir"@,
            "-device"@, "usb-redir,chardev=usbredirchardev2,id=usbredirdev2"@,
            "-chardev"@, "spicevmc,id=usbredirchardev3,name=usbredir"@,
            "-device"@, "usb-redir,chardev=usbredirchardev3,id=usbredirdev3"@,
            "-device"@, "pci-ohci,id=smartpass"@,
            "-device"@, "usb-ccid"@,
        ]
    }

    /// The device of the USB controller itself.
    pub open spec fn spec_controller_args(c: USBController) -> Seq<Seq<char>> {
        match c {
            USBController::Ehci => seq!["-device"@, "usb-ehci,id=input"@],
            USBController::Xhci => seq!["-device"@, "qemu-xhci,id=input"@],
            USBController::Disabled => seq![],
        }
    }
}

impl EmulatorArgs for USBArgs {
    open spec fn spec_display(&self) -> Seq<(Seq<char>, Seq<char>)> {
        seq![]
    }

    /// A random number generator, then the passthrough controller with its
    /// redirection channels, then the USB controller.
    open spec fn spec_qemu_args(&self) -> Seq<Seq<char>> {
        seq!["-device"@, "virtio-rng-pci"@, "-object"@, "rng-random,id=rng0,filename=/dev/urandom"@]
            + match self.passthrough_controller {
                Some(p) => seq!["-device"@, p.spec_arg()] + USBArgs::spec_redirection(),
                None => seq![],
            }
            + USBArgs::spec_controller_args(self.controller)
    }

    fn display(&self) -> (r: Vec<ArgDisplay>) {
        let r = Vec::new();
        assert(lines(r@) =~= self.spec_display());
        r
    }

    fn qemu_args(&self) -> (r: Vec<String>) {
        let mut args = Vec::new();
        push_arg(&mut args, "-device");
        push_arg(&mut args, "virtio-rng-pci");
        push_arg(&mut args, "-object");
        push_arg(&mut args, "rng-random,id=rng0,filename=/dev/urandom");
        let ghost base = views(args@);
        if let Some(p) = &self.passthrough_controller {
            push_arg(&mut args, "-device");
            push_arg(&mut args, p.spice_arg());
            push_arg(&mut args, "-chardev");
            push_arg(&mut args, "spicevmc,id=usbredirchardev1,name=usbredir");
            push_arg(&mut args, "-device");
            push_arg(&mut args, "usb-redir,chardev=usbredirchardev1,id=usbredirdev1");
            push_arg(&mut args, "-chardev");
            push_arg(&mut args, "spicevmc,id=usbredirchardev2,name=usbredir");
            push_arg(&mut args, "-device");
            push_arg(&mut args, "usb-redir,chardev=usbredirchardev2,id=usbredirdev2");
            push_arg(&mut args, "-chardev");
            push_arg(&mut args, "spicevmc,id=usbredirchardev3,name=usbredir");
            push_arg(&mut args, "-device");
            push_arg(&mut args, "usb-redir,chardev=usbredirchardev3,id=usbredirdev3");
            push_arg(&mut args, "-device");
            push_arg(&mut args, "pci-ohci,id=smartpass");
            push_arg(&mut args, "-device");
            push_arg(&mut args, "usb-ccid");
        }
        let ghost mid = views(args@);
        match self.controller {
            USBController::Ehci => {
                push_arg(&mut args, "-device");
                push_arg(&mut args, "usb-ehci,id=input");
            },
            USBController::Xhci => {
                push_arg(&mut args, "-device");
                push_arg(&mut args, "qemu-xhci,id=input");
            },
            USBController::Disabled => {},
        }
        proof {
            let pt = match self.passthrough_controller {
                Some(p) => seq!["-device"@, p.spec_arg()] + USBArgs::spec_redirection(),
                None => seq![],
            };
            assert(mid =~= base + pt);
            assert(views(args@) =~= mid + USBArgs::spec_controller_args(self.controller));
        }
        args
    }
}

} // verus!
