//! Sharing a host directory with the guest.

use vstd::prelude::*;
use crate::data::guest::GuestOS;
use crate::text::{push_arg, push_string, views};
use crate::utils::{lines, push_line, ArgDisplay, EmulatorArgs};

verus! {

/// A shared directory, the guest it is shared with, and whether the host
/// directory is read-only.
#[derive(Debug, Clone, PartialEq)]
pub struct PublicDirArgs {
    pub path: String,
    pub guest: GuestOS,
    pub readonly: bool,
}

impl PublicDirArgs {
    /// The sharing of `path` with `guest`.
    pub fn new(path: String, guest: GuestOS, readonly: bool) -> (r: PublicDirArgs)
        ensures
            r.path == path,
            r.guest == guest,
            r.readonly == readonly,
    {
        PublicDirArgs { path, guest, readonly }
    }
}

impl EmulatorArgs for PublicDirArgs {
    /// How to reach the directory from the guest: over WebDAV (macOS
    /// guests first need a WebDAV daemon), and over 9P on macOS and Linux,
    /// where macOS needs a writable directory.
    open spec fn spec_display(&self) -> Seq<(Seq<char>, Seq<char>)> {
        let is_mac = self.guest is MacOS;
        (if is_mac {
            seq![("WebDAV (Guest)"@, "first, build spice-webdavd (https://gitlab.gnome.org/GNOME/phodav/-/merge_requests/24)"@)]
        } else {
            seq![]
        }) + seq![("WebDAV (Guest)"@, "dav://localhost:9843/"@)] + (if is_mac {
            (if self.readonly {
                seq![("9P (Host)"@, "`sudo chmod -r 777 "@ + self.path@ + "`"@)]
            } else {
                seq![]
            }) + seq![("9P (Guest)"@, "sudo mount_9p Public-quickemu ~/Public"@)]
        } else if self.guest == GuestOS::Linux || self.guest == GuestOS::LinuxOld {
            seq![("9P (Guest)"@, "`sudo mount -t 9p -o trans=virtio,version=9p2000.L,msize=104857600 Public-quickemu ~/Public`"@)]
        } else {
            seq![]
        })
    }

    /// A 9P file system device, except for Windows guests.
    open spec fn spec_qemu_args(&self) -> Seq<Seq<char>> {
        if self.guest == GuestOS::Windows || self.guest == GuestOS::WindowsServer {
            seq![]
        } else {
            seq![
                "-fsdev"@,
                "local,id=fsdev0,path="@ + self.path@ + ",security_model=mapped-xattr"@,
                "-device"@,
                "virtio-9p-pci,fsdev=fsdev0,mount_tag=Public-quickemu"@,
            ]
        }
    }

    fn display(&self) -> (r: Vec<ArgDisplay>) {
        let mut r = Vec::new();
        let is_mac = matches!(self.guest, GuestOS::MacOS { .. });
        if is_mac {
            push_line(&mut r, ArgDisplay::new("WebDAV (Guest)", String::from_str("first, build spice-webdavd (https://gitlab.gnome.org/GNOME/phodav/-/merge_requests/24)")));
        }
        let ghost first = lines(r@);
        push_line(&mut r, ArgDisplay::new("WebDAV (Guest)", String::from_str("dav://localhost:9843/")));
        let ghost second = lines(r@);
        if is_mac {
            if self.readonly {
                let mut v = String::from_str("`sudo chmod -r 777 ");
                v.append(self.path.as_str());
                v.append("`");
                push_line(&mut r, ArgDisplay::new("9P (Host)", v));
            }
            push_line(&mut r, ArgDisplay::new("9P (Guest)", String::from_str("sudo mount_9p Public-quickemu ~/Public")));
        } else if self.guest == GuestOS::Linux || self.guest == GuestOS::LinuxOld {
            push_line(&mut r, ArgDisplay::new("9P (Guest)", String::from_str("`sudo mount -t 9p -o trans=virtio,version=9p2000.L,msize=104857600 Public-quickemu ~/Public`")));
        }
        proof {
            let s = self.spec_display();
            assert(first =~= (if is_mac {
                seq![("WebDAV (Guest)"@, "first, build spice-webdavd (https://gitlab.gnome.org/GNOME/phodav/-/merge_requests/24)"@)]
            } else {
                seq![]
            }));
            assert(lines(r@) =~= s);
        }
        r
    }

    fn qemu_args(&self) -> (r: Vec<String>) {
        let mut args = Vec::new();
        if self.guest == GuestOS::Windows || self.guest == GuestOS::WindowsServer {
            assert(views(args@) =~= self.spec_qemu_args());
            return args;
        }
        let mut fs = String::from_str("local,id=fsdev0,path=");
        fs.append(self.path.as_str());
        fs.append(",security_model=mapped-xattr");
        push_arg(&mut args, "-fsdev");
        push_string(&mut args, fs);
        push_arg(&mut args, "-device");
        push_arg(&mut args, "virtio-9p-pci,fsdev=fsdev0,mount_tag=Public-quickemu");
        assert(views(args@) =~= self.spec_qemu_args());
        args
    }
}

} // verus!
