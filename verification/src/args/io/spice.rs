//! The Spice display server and its viewer.

use vstd::prelude::*;
use crate::data::display::{Accelerated, Access, Display, DisplayType, Resolution, Viewer};
use crate::data::guest::GuestOS;
use crate::data::io::opt_view;
use crate::error::Error;
use crate::text::{clone_opt, decimal, push_arg, push_string, u64_to_string, views};
use crate::utils::{lines, push_line, ArgDisplay, EmulatorArgs};

verus! {

/// A Spice display: either QEMU's own Spice app, or a Spice server that a
/// viewer on the host connects to.
#[derive(Debug, Clone, PartialEq)]
pub enum SpiceArgs {
    SpiceApp { accelerated: Accelerated },
    Spice {
        fullscreen: bool,
        vm_name: String,
        port: u16,
        access: Access,
        public_dir: Option<String>,
        viewer: Viewer,
    },
}

impl Display {
    /// The Spice setup of a Spice display. `port` is the first free port
    /// from the configured one on (the nine after it are tried), if any;
    /// without one there is no Spice server. The shared directory is not
    /// offered to macOS guests.
    pub open spec fn spec_spice_args(&self, vm_name: String, guest: GuestOS, public_dir: Option<String>, port: Option<u16>) -> Result<SpiceArgs, Error> {
        match self.display_type {
            DisplayType::Spice { access, viewer, spice_port } => match port {
                None => Err(Error::UnavailablePort(spice_port)),
                Some(p) => Ok(SpiceArgs::Spice {
                    fullscreen: self.resolution == Resolution::FullScreen,
                    vm_name,
                    port: p,
                    access,
                    public_dir: if guest is MacOS { None } else { public_dir },
                    viewer,
                }),
            },
            _ => Ok(SpiceArgs::SpiceApp { accelerated: self.accelerated }),
        }
    }

    /// The Spice setup of a Spice display.
    pub fn spice_args(&self, vm_name: &String, guest: GuestOS, public_dir: Option<String>, port: Option<u16>) -> (r: Result<SpiceArgs, Error>)
        requires
            self.display_type is Spice || self.display_type is SpiceApp,
        ensures
            r == self.spec_spice_args(*vm_name, guest, public_dir, port),
    {
        match &self.display_type {
            DisplayType::SpiceApp => Ok(SpiceArgs::SpiceApp { accelerated: self.accelerated }),
            DisplayType::Spice { access, viewer, spice_port } => {
                let port = match port {
                    Some(p) => p,
                    None => return Err(Error::UnavailablePort(*spice_port)),
                };
                let public_dir = if matches!(guest, GuestOS::MacOS { .. }) {
                    None
                } else {
                    public_dir
                };
                let fullscreen = self.resolution == Resolution::FullScreen;
                Ok(SpiceArgs::Spice {
                    fullscreen,
                    vm_name: vm_name.clone(),
                    port,
                    access: access.duplicate(),
                    public_dir,
                    viewer: *viewer,
                })
            },
            _ => {
                assert(false);
                Err(Error::UnsupportedBootCombination)
            },
        }
    }
}

impl SpiceArgs {
    /// The command that shows the display on the host, as its user would
    /// type it.
    pub open spec fn spec_viewer_text(vm_name: Seq<char>, port: u16, viewer: Viewer, public_dir: Option<Seq<char>>, fullscreen: bool) -> Seq<char> {
        (if viewer == Viewer::Spicy {
            "spicy --title \""@ + vm_name + "\" --port "@ + decimal(port as nat)
        } else {
            "remote-viewer --title \""@ + vm_name + "\" \"spice://localhost:"@ + decimal(port as nat) + "\""@
        }) + match public_dir {
            Some(d) => " --spice-shared-dir "@ + d,
            None => ""@,
        } + (if fullscreen { " --full-screen"@ } else { ""@ })
    }

    /// The viewer program and its arguments, if a viewer is to be started.
    pub open spec fn spec_viewer_command(&self) -> Option<(Seq<char>, Seq<Seq<char>>)> {
        match *self {
            SpiceArgs::SpiceApp { .. } => None,
            SpiceArgs::Spice { fullscreen, vm_name, port, public_dir, viewer, .. } => match viewer {
                Viewer::Disabled => None,
                Viewer::Spicy => Some(("spicy"@, seq!["--title"@, vm_name@, "--port"@, decimal(port as nat)]
                    + match opt_view(&public_dir) { Some(d) => seq!["--spice-shared-dir"@, d], None => seq![] }
                    + (if fullscreen { seq!["--full-screen"@] } else { seq![] }))),
                Viewer::Remote => Some(("remote-viewer"@, seq!["--title"@, vm_name@, "spice://localhost:"@ + decimal(port as nat)]
                    + match opt_view(&public_dir) { Some(d) => seq!["--spice-shared-dir"@, d], None => seq![] }
                    + (if fullscreen { seq!["--full-screen"@] } else { seq![] }))),
            },
        }
    }

    /// The viewer program and its arguments, if a viewer is to be started
    /// once QEMU runs.
    pub fn viewer_command(&self) -> (r: Option<(String, Vec<String>)>)
        ensures
            match r {
                Some((p, a)) => self.spec_viewer_command() == Some((p@, views(a@))),
                None => self.spec_viewer_command() is None,
            },
    {
        match self {
            SpiceArgs::SpiceApp { .. } => None,
            SpiceArgs::Spice { fullscreen, vm_name, port, public_dir, viewer, .. } => {
                let mut args = Vec::new();
                let program = match viewer {
                    Viewer::Disabled => return None,
                    Viewer::Spicy => {
                        push_arg(&mut args, "--title");
                        push_arg(&mut args, vm_name.as_str());
                        push_arg(&mut args, "--port");
                        push_string(&mut args, u64_to_string(*port as u64));
                        String::from_str("spicy")
                    },
                    Viewer::Remote => {
                        push_arg(&mut args, "--title");
                        push_arg(&mut args, vm_name.as_str());
                        let mut url = String::from_str("spice://localhost:");
                        let p = u64_to_string(*port as u64);
                        url.append(p.as_str());
                        push_string(&mut args, url);
                        String::from_str("remote-viewer")
                    },
                };
                let ghost base = views(args@);
                if let Some(d) = public_dir {
                    push_arg(&mut args, "--spice-shared-dir");
                    push_arg(&mut args, d.as_str());
                }
                let ghost mid = views(args@);
                if *fullscreen {
                    push_arg(&mut args, "--full-screen");
                }
                proof {
                    assert(mid =~= base + match opt_view(&public_dir) { Some(d) => seq!["--spice-shared-dir"@, d], None => seq![] });
                    assert(views(args@) =~= mid + (if *fullscreen { seq!["--full-screen"@] } else { seq![] }));
                    if *viewer == Viewer::Spicy {
                        assert(base =~= seq!["--title"@, vm_name@, "--port"@, decimal(*port as nat)]);
                    } else {
                        assert(base =~= seq!["--title"@, vm_name@, "spice://localhost:"@ + decimal(*port as nat)]);
                    }
                }
                Some((program, args))
            },
        }
    }
}

impl EmulatorArgs for SpiceArgs {
    /// `Spice: Enabled` for the Spice app; for a Spice server the viewer
    /// command, unless no viewer is wanted.
    open spec fn spec_display(&self) -> Seq<(Seq<char>, Seq<char>)> {
        match *self {
            SpiceArgs::SpiceApp { .. } => seq![("Spice"@, "Enabled"@)],
            SpiceArgs::Spice { fullscreen, vm_name, port, public_dir, viewer, .. } => if viewer == Viewer::Disabled {
                seq![]
            } else {
                seq![("Viewer (On host)"@, SpiceArgs::spec_viewer_text(vm_name@, port, viewer, opt_view(&public_dir), fullscreen))]
            },
        }
    }

    /// `-spice` without tickets, with the GL setting for the Spice app, or
    /// with the port and, where access is limited, the address.
    open spec fn spec_qemu_args(&self) -> Seq<Seq<char>> {
        seq!["-spice"@, "disable-ticketing=on"@ + match *self {
            SpiceArgs::SpiceApp { accelerated } => ",gl="@ + (if accelerated.0 { "on"@ } else { "off"@ }),
            SpiceArgs::Spice { port, access, .. } => ",port="@ + decimal(port as nat) + match opt_view(&access.0) {
                Some(a) => ",addr="@ + a,
                None => ""@,
            },
        }]
    }

    fn display(&self) -> (r: Vec<ArgDisplay>) {
        let mut r = Vec::new();
        proof { reveal_strlit(""); }
        match self {
            SpiceArgs::SpiceApp { .. } => {
                push_line(&mut r, ArgDisplay::new("Spice", String::from_str("Enabled")));
            },
            SpiceArgs::Spice { vm_name, port, public_dir, viewer, fullscreen, .. } => {
                let ps = u64_to_string(*port as u64);
                let mut msg = match viewer {
                    Viewer::Disabled => {
                        assert(lines(r@) =~= self.spec_display());
                        return r;
                    },
                    Viewer::Spicy => {
                        let mut m = String::from_str("spicy --title \"");
                        m.append(vm_name.as_str());
                        m.append("\" --port ");
                        m.append(ps.as_str());
                        m
                    },
                    Viewer::Remote => {
                        let mut m = String::from_str("remote-viewer --title \"");
                        m.append(vm_name.as_str());
                        m.append("\" \"spice://localhost:");
                        m.append(ps.as_str());
                        m.append("\"");
                        m
                    },
                };
                let ghost m0 = msg@;
                if let Some(d) = public_dir {
                    msg.append(" --spice-shared-dir ");
                    msg.append(d.as_str());
                }
                let ghost m1 = msg@;
                if *fullscreen {
                    msg.append(" --full-screen");
                }
                proof {
                    assert(m1 =~= m0 + match opt_view(public_dir) {
                        Some(d) => " --spice-shared-dir "@ + d,
                        None => ""@,
                    });
                    assert(msg@ =~= m1 + (if *fullscreen { " --full-screen"@ } else { ""@ }));
                    assert(msg@ =~= SpiceArgs::spec_viewer_text(vm_name@, *port, *viewer, opt_view(public_dir), *fullscreen));
                }
                push_line(&mut r, ArgDisplay::new("Viewer (On host)", msg));
            },
        }
        assert(lines(r@) =~= self.spec_display());
        r
    }

    fn qemu_args(&self) -> (r: Vec<String>) {
        let mut arg = String::from_str("disable-ticketing=on");
        let ghost a0 = arg@;
        proof { reveal_strlit(""); }
        match self {
            SpiceArgs::SpiceApp { accelerated } => {
                arg.append(",gl=");
                arg.append(accelerated.as_str());
                assert(arg@ =~= a0 + (",gl="@ + (if accelerated.0 { "on"@ } else { "off"@ })));
            },
            SpiceArgs::Spice { port, access, .. } => {
                arg.append(",port=");
                let ps = u64_to_string(*port as u64);
                arg.append(ps.as_str());
                let ghost a1 = arg@;
                if let Some(address) = &access.0 {
                    arg.append(",addr=");
                    arg.append(address.as_str());
                }
                assert(arg@ =~= a1 + match opt_view(&access.0) {
                    Some(a) => ",addr="@ + a,
                    None => ""@,
                });
                assert(arg@ =~= a0 + (",port="@ + decimal(*port as nat) + match opt_view(&access.0) {
                    Some(a) => ",addr="@ + a,
                    None => ""@,
                }));
            },
        }
        let mut args = Vec::new();
        push_arg(&mut args, "-spice");
        push_string(&mut args, arg);
        assert(views(args@) =~= self.spec_qemu_args());
        args
    }
}

} // verus!
