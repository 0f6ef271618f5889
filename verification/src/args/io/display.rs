//! The display device and how it is shown.

use vstd::prelude::*;
use crate::data::display::{Accelerated, Display, DisplayType, Resolution};
use crate::data::guest::GuestOS;
use crate::data::machine::Arch;
use crate::text::{decimal, push_arg, push_string, u64_to_string, views};
use crate::utils::{lines, push_line, ArgDisplay, EmulatorArgs};

verus! {

/// The emulated graphics card.
#[derive(Debug, Clone, Copy, PartialEq, Eq, Structural)]
pub enum GpuType {
    VirtIOVGA,
    VirtIOGPU,
    VMwareSVGA,
    Qxl,
}

impl GpuType {
    /// The name that the card is shown with.
    pub open spec fn spec_name(self) -> Seq<char> {
        match self {
            GpuType::VirtIOVGA => "VirtIO VGA"@,
            GpuType::VirtIOGPU => "VirtIO GPU"@,
            GpuType::VMwareSVGA => "VMware SVGA"@,
            GpuType::Qxl => "QXL"@,
        }
    }

    /// The name that the card is shown with.
    pub fn name(&self) -> (r: &'static str)
        ensures
            r@ == self.spec_name(),
    {
        match self {
            GpuType::VirtIOVGA => "VirtIO VGA",
            GpuType::VirtIOGPU => "VirtIO GPU",
            GpuType::VMwareSVGA => "VMware SVGA",
            GpuType::Qxl => "QXL",
        }
    }
}

/// The display setup of a guest.
#[derive(Debug, Clone, PartialEq)]
pub struct DisplayArgs {
    pub res: Option<(u32, u32)>,
    pub fullscreen: bool,
    pub accelerated: Accelerated,
    pub gpu: GpuType,
    pub display: DisplayType,
    pub braille: bool,
}

/// The resolution used when none is configured.
pub open spec fn spec_default_resolution() -> (u32, u32) {
    (1280, 800)
}

impl Display {
    /// The graphics card of a guest: on x86_64, a VirtIO GPU for Linux
    /// without a display or with Spice and VirtIO VGA for Linux otherwise,
    /// VirtIO VGA for Windows with SDL or a Spice app, VMware SVGA for
    /// Solaris and old Linux, QXL for the rest; a VirtIO GPU on AArch64,
    /// VirtIO VGA on RISC-V 64.
    pub open spec fn spec_gpu(&self, guest: GuestOS, arch: Arch) -> GpuType {
        match arch {
            Arch::X86_64 { .. } => match guest {
                GuestOS::Linux => match self.display_type {
                    DisplayType::Disabled | DisplayType::Spice { .. } | DisplayType::SpiceApp => GpuType::VirtIOGPU,
                    _ => GpuType::VirtIOVGA,
                },
                GuestOS::Windows | GuestOS::WindowsServer => match self.display_type {
                    DisplayType::Sdl | DisplayType::SpiceApp => GpuType::VirtIOVGA,
                    _ => GpuType::Qxl,
                },
                GuestOS::Solaris | GuestOS::LinuxOld => GpuType::VMwareSVGA,
                _ => GpuType::Qxl,
            },
            Arch::AArch64 { .. } => GpuType::VirtIOGPU,
            Arch::Riscv64 { .. } => GpuType::VirtIOVGA,
        }
    }

    /// The display setup of a guest: its graphics card, full screen or a
    /// resolution (the configured one, or 1280x800 by default), and the
    /// settings that pass through.
    pub open spec fn spec_args(&self, guest: GuestOS, arch: Arch) -> DisplayArgs {
        DisplayArgs {
            gpu: self.spec_gpu(guest, arch),
            fullscreen: self.resolution == Resolution::FullScreen,
            res: match self.resolution {
                Resolution::FullScreen => None,
                Resolution::Default => Some(spec_default_resolution()),
                Resolution::Custom { width, height } => Some((width, height)),
            },
            accelerated: self.accelerated,
            display: self.display_type,
            braille: self.braille,
        }
    }

    /// The display setup of a guest.
    pub fn args(&self, guest: GuestOS, arch: Arch) -> (r: DisplayArgs)
        ensures
            r == self.spec_args(guest, arch),
    {
        let gpu = match arch {
            Arch::X86_64 { .. } => match guest {
                GuestOS::Linux => match self.display_type {
                    DisplayType::Disabled | DisplayType::Spice { .. } | DisplayType::SpiceApp => GpuType::VirtIOGPU,
                    _ => GpuType::VirtIOVGA,
                },
                GuestOS::Windows | GuestOS::WindowsServer => match self.display_type {
                    DisplayType::Sdl | DisplayType::SpiceApp => GpuType::VirtIOVGA,
                    _ => GpuType::Qxl,
                },
                GuestOS::Solaris | GuestOS::LinuxOld => GpuType::VMwareSVGA,
                _ => GpuType::Qxl,
            },
            Arch::AArch64 { .. } => GpuType::VirtIOGPU,
            Arch::Riscv64 { .. } => GpuType::VirtIOVGA,
        };
        let (fullscreen, res) = match self.resolution {
            Resolution::FullScreen => (true, None),
            Resolution::Default => (false, Some((1280u32, 800u32))),
            Resolution::Custom { width, height } => (false, Some((width, height))),
        };
        DisplayArgs {
            fullscreen,
            res,
            accelerated: self.accelerated,
            gpu,
            display: self.display_type.duplicate(),
            braille: self.braille,
        }
    }
}

/// `XxY` for a resolution.
pub open spec fn spec_res_text(res: (u32, u32)) -> Seq<char> {
    decimal(res.0 as nat) + "x"@ + decimal(res.1 as nat)
}

impl DisplayArgs {
    /// Whether the resolution is passed to the graphics card.
    pub open spec fn spec_shows_res(&self) -> bool {
        self.gpu != GpuType::VMwareSVGA && !self.fullscreen && self.res is Some
    }

    /// The `-display` value.
    pub open spec fn spec_display_type_arg(&self) -> Seq<char> {
        let gl = if self.accelerated.0 { "on"@ } else { "off"@ };
        match self.display {
            DisplayType::Gtk => "gtk,grab-on-hover=on,zoom-to-fit=off,gl="@ + gl,
            DisplayType::Disabled => "none"@,
            DisplayType::Sdl => "sdl,gl="@ + gl,
            DisplayType::Spice { .. } => "none"@,
            DisplayType::SpiceApp => "spice-app,gl="@ + gl,
        }
    }

    /// The graphics card device.
    pub open spec fn spec_device_arg(&self) -> Seq<char> {
        match self.gpu {
            GpuType::VirtIOGPU => "virtio-gpu"@,
            GpuType::VirtIOVGA => if self.accelerated.0 { "virtio-vga-gl"@ } else { "virtio-vga"@ },
            GpuType::VMwareSVGA => "vmware-svga,vgamem_mb=256"@,
            GpuType::Qxl => "qxl-vga,ram_size=65536,vram_size=65536,vgamem_mb=64"@,
        }
    }

    /// The graphics card device with the resolution, where it is given.
    pub open spec fn spec_device_with_res(&self) -> Seq<char> {
        if self.fullscreen || self.gpu == GpuType::VMwareSVGA || self.res is None {
            self.spec_device_arg()
        } else {
            self.spec_device_arg() + ",xres="@ + decimal(self.res.unwrap().0 as nat) + ",yres="@
                + decimal(self.res.unwrap().1 as nat)
        }
    }
}

impl EmulatorArgs for DisplayArgs {
    /// `Display`: the display type, the card and whether it is accelerated,
    /// and the resolution where it is passed to the card.
    open spec fn spec_display(&self) -> Seq<(Seq<char>, Seq<char>)> {
        let res_text = if self.spec_shows_res() {
            ", Resolution: "@ + spec_res_text(self.res.unwrap())
        } else {
            ""@
        };
        let gl = if self.accelerated.0 { "Enabled"@ } else { "Disabled"@ };
        seq![("Display"@, self.display.spec_name() + ", Device: "@ + self.gpu.spec_name() + ", GL: "@ + gl + res_text)]
    }

    /// The display, no VGA card, the graphics card, full screen where it is
    /// asked for, and a braille display where it is asked for.
    open spec fn spec_qemu_args(&self) -> Seq<Seq<char>> {
        seq!["-display"@, self.spec_display_type_arg(), "-vga"@, "none"@, "-device"@, self.spec_device_with_res()]
            + (if self.fullscreen { seq!["-full-screen"@] } else { seq![] })
            + (if self.braille {
                seq!["-chardev"@, "braille,id=brltty"@, "-device"@, "usb-braille,id=usbbrl,chardev=brltty"@]
            } else {
                seq![]
            })
    }

    fn display(&self) -> (r: Vec<ArgDisplay>) {
        let mut value = String::from_str(self.display.name());
        value.append(", Device: ");
        value.append(self.gpu.name());
        value.append(", GL: ");
        value.append(self.accelerated.text());
        let ghost prefix = value@;
        if self.gpu != GpuType::VMwareSVGA && !self.fullscreen && self.res.is_some() {
            let (x, y) = self.res.unwrap();
            value.append(", Resolution: ");
            let xs = u64_to_string(x as u64);
            value.append(xs.as_str());
            value.append("x");
            let ys = u64_to_string(y as u64);
            value.append(ys.as_str());
            assert(value@ =~= prefix + (", Resolution: "@ + spec_res_text(self.res.unwrap())));
        } else {
            proof { reveal_strlit(""); }
            assert(value@ =~= prefix + ""@);
        }
        let mut r = Vec::new();
        push_line(&mut r, ArgDisplay::new("Display", value));
        proof {
            let res_text = if self.spec_shows_res() {
                ", Resolution: "@ + spec_res_text(self.res.unwrap())
            } else {
                ""@
            };
            let gl = if self.accelerated.0 { "Enabled"@ } else { "Disabled"@ };
            assert(value@ =~= self.display.spec_name() + ", Device: "@ + self.gpu.spec_name() + ", GL: "@ + gl + res_text);
        }
        assert(lines(r@) =~= self.spec_display());
        r
    }

    fn qemu_args(&self) -> (r: Vec<String>) {
        let device = match self.gpu {
            GpuType::VirtIOGPU => "virtio-gpu",
            GpuType::VirtIOVGA => if self.accelerated.0 { "virtio-vga-gl" } else { "virtio-vga" },
            GpuType::VMwareSVGA => "vmware-svga,vgamem_mb=256",
            GpuType::Qxl => "qxl-vga,ram_size=65536,vram_size=65536,vgamem_mb=64",
        };
        let gl = self.accelerated.as_str();
        let display_type_arg = match &self.display {
            DisplayType::Gtk => {
                let mut s = String::from_str("gtk,grab-on-hover=on,zoom-to-fit=off,gl=");
                s.append(gl);
                s
            },
            DisplayType::Disabled => String::from_str("none"),
            DisplayType::Sdl => {
                let mut s = String::from_str("sdl,gl=");
                s.append(gl);
                s
            },
            DisplayType::Spice { .. } => String::from_str("none"),
            DisplayType::SpiceApp => {
                let mut s = String::from_str("spice-app,gl=");
                s.append(gl);
                s
            },
        };
        let mut args = Vec::new();
        push_arg(&mut args, "-display");
        push_string(&mut args, display_type_arg);
        push_arg(&mut args, "-vga");
        push_arg(&mut args, "none");
        let device_arg = if self.fullscreen || self.gpu == GpuType::VMwareSVGA || self.res.is_none() {
            String::from_str(device)
        } else {
            let (x, y) = self.res.unwrap();
            let mut s = String::from_str(device);
            s.append(",xres=");
            let xs = u64_to_string(x as u64);
            s.append(xs.as_str());
            s.append(",yres=");
            let ys = u64_to_string(y as u64);
            s.append(ys.as_str());
            s
        };
        assert(device_arg@ =~= self.spec_device_with_res());
        push_arg(&mut args, "-device");
        push_string(&mut args, device_arg);
        let ghost base = views(args@);
        if self.fullscreen {
            push_arg(&mut args, "-full-screen");
        }
        let ghost mid = views(args@);
        if self.braille {
            push_arg(&mut args, "-chardev");
            push_arg(&mut args, "braille,id=brltty");
            push_arg(&mut args, "-device");
            push_arg(&mut args, "usb-braille,id=usbbrl,chardev=brltty");
        }
        proof {
            assert(mid =~= base + (if self.fullscreen { seq!["-full-screen"@] } else { seq![] }));
            assert(views(args@) =~= mid + (if self.braille {
                seq!["-chardev"@, "braille,id=brltty"@, "-device"@, "usb-braille,id=usbbrl,chardev=brltty"@]
            } else {
                seq![]
            }));
        }
        assert(views(args@) =~= self.spec_qemu_args());
        args
    }
}

} // verus!
