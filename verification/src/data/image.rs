//! Disk images and installation media.

use vstd::prelude::*;

verus! {

/// An image file that is attached to the guest.
#[derive(Debug, Clone, PartialEq)]
pub enum Image {
    Iso(String),
    FixedIso(String),
    Floppy(String),
    Img(String),
}

/// How much of a new disk image is allocated up front.
#[derive(Debug, Clone, Copy, PartialEq, Eq, Structural)]
pub enum PreAlloc {
    Off,
    Metadata,
    Falloc,
    Full,
}

impl Default for PreAlloc {
    fn default() -> (r: Self)
        ensures
            r == PreAlloc::Off,
    {
        PreAlloc::Off
    }
}

impl PreAlloc {
    /// The name of the allocation mode in `qemu-img` options.
    pub open spec fn spec_mode(self) -> Seq<char> {
        match self {
            PreAlloc::Off => "off"@,
            PreAlloc::Metadata => "metadata"@,
            PreAlloc::Falloc => "falloc"@,
            PreAlloc::Full => "full"@,
        }
    }
}

/// The format of a disk image.
#[derive(Debug, Clone, Copy, PartialEq, Eq, Structural)]
pub enum DiskFormat {
    Qcow2 { preallocation: PreAlloc },
    Raw { preallocation: PreAlloc },
    Qed,
    Qcow,
    Vdi,
    Vpc,
    Vhdx,
}

impl Default for DiskFormat {
    fn default() -> (r: Self)
        ensures
            r == (DiskFormat::Qcow2 { preallocation: PreAlloc::Off }),
    {
        DiskFormat::Qcow2 { preallocation: PreAlloc::Off }
    }
}

impl DiskFormat {
    /// The `-o` options that `qemu-img create` gets for this format:
    /// qcow2 images get lazy refcounts and no copy-on-write besides their
    /// allocation mode, raw images their allocation mode, other formats no
    /// allocation.
    pub open spec fn spec_prealloc_arg(self) -> Seq<char> {
        match self {
            DiskFormat::Qcow2 { preallocation } =>
                "lazy_refcounts=on,preallocation="@ + preallocation.spec_mode() + ",nocow=on"@,
            DiskFormat::Raw { preallocation } => "preallocation="@ + preallocation.spec_mode(),
            _ => "preallocation=off"@,
        }
    }

    /// The `-o` options that `qemu-img create` gets for this format.
    pub fn prealloc_arg(&self) -> (r: &'static str)
        ensures
            r@ == self.spec_prealloc_arg(),
    {
        proof {
            reveal_strlit("lazy_refcounts=on,preallocation=off,nocow=on");
            reveal_strlit("lazy_refcounts=on,preallocation=metadata,nocow=on");
            reveal_strlit("lazy_refcounts=on,preallocation=falloc,nocow=on");
            reveal_strlit("lazy_refcounts=on,preallocation=full,nocow=on");
            reveal_strlit("lazy_refcounts=on,preallocation=");
            reveal_strlit(",nocow=on");
            reveal_strlit("preallocation=off");
            reveal_strlit("preallocation=metadata");
            reveal_strlit("preallocation=falloc");
            reveal_strlit("preallocation=full");
            reveal_strlit("preallocation=");
            reveal_strlit("off");
            reveal_strlit("metadata");
            reveal_strlit("falloc");
            reveal_strlit("full");
        }
        let r = match self {
            DiskFormat::Qcow2 { preallocation } => match preallocation {
                PreAlloc::Off => "lazy_refcounts=on,preallocation=off,nocow=on",
                PreAlloc::Metadata => "lazy_refcounts=on,preallocation=metadata,nocow=on",
                PreAlloc::Falloc => "lazy_refcounts=on,preallocation=falloc,nocow=on",
                PreAlloc::Full => "lazy_refcounts=on,preallocation=full,nocow=on",
            },
            DiskFormat::Raw { preallocation } => match preallocation {
                PreAlloc::Off => "preallocation=off",
                PreAlloc::Metadata => "preallocation=metadata",
                PreAlloc::Falloc => "preallocation=falloc",
                PreAlloc::Full => "preallocation=full",
            },
            _ => "preallocation=off",
        };
        assert(r@ =~= self.spec_prealloc_arg());
        r
    }

    /// Whether space for the image is allocated up front.
    pub open spec fn spec_prealloc_enabled(self) -> bool {
        match self {
            DiskFormat::Qcow2 { preallocation } => preallocation != PreAlloc::Off,
            DiskFormat::Raw { preallocation } => preallocation != PreAlloc::Off,
            _ => false,
        }
    }

    /// Whether space for the image is allocated up front.
    pub fn prealloc_enabled(&self) -> (r: bool)
        ensures
            r == self.spec_prealloc_enabled(),
    {
        match self {
            DiskFormat::Qcow2 { preallocation } => *preallocation != PreAlloc::Off,
            DiskFormat::Raw { preallocation } => *preallocation != PreAlloc::Off,
            _ => false,
        }
    }

    /// The name by which QEMU knows the format.
    pub open spec fn spec_str(self) -> Seq<char> {
        match self {
            DiskFormat::Qcow2 { .. } => "qcow2"@,
            DiskFormat::Raw { .. } => "raw"@,
            DiskFormat::Qed => "qed"@,
            DiskFormat::Qcow => "qcow"@,
            DiskFormat::Vdi => "vdi"@,
            DiskFormat::Vpc => "vpc"@,
            DiskFormat::Vhdx => "vhdx"@,
        }
    }

    /// The name by which QEMU knows the format.
    pub fn as_str(&self) -> (r: &'static str)
        ensures
            r@ == self.spec_str(),
    {
        match self {
            DiskFormat::Qcow2 { .. } => "qcow2",
            DiskFormat::Raw { .. } => "raw",
            DiskFormat::Qed => "qed",
            DiskFormat::Qcow => "qcow",
            DiskFormat::Vdi => "vdi",
            DiskFormat::Vpc => "vpc",
            DiskFormat::Vhdx => "vhdx",
        }
    }
}

/// A disk of the guest: a path (relative paths are taken from the VM
/// directory), the size of a disk that is still to be created, and its
/// format.
#[derive(Debug, Clone, PartialEq)]
pub struct DiskImage {
    pub path: String,
    pub size: Option<u64>,
    pub format: DiskFormat,
}

/// An installation or boot medium, mounted until the guest is installed
/// unless it is always to be mounted.
#[derive(Debug, Clone, PartialEq)]
pub struct MountedImage {
    pub path: String,
    pub always_mount: bool,
}

/// The disks and media of a virtual machine.
#[derive(Debug, Clone, PartialEq)]
pub struct Images {
    pub disk: Vec<DiskImage>,
    pub iso: Vec<MountedImage>,
    pub img: Vec<MountedImage>,
}

} // verus!
