//! Raw images that are attached to the guest as disks.

use vstd::prelude::*;
use crate::data::guest::GuestOS;
use crate::data::image::Images;
use crate::error::Error;
use crate::text::{decimal, push_arg, push_string, u64_to_string, views};
use crate::utils::{lines, push_line, ArgDisplay, EmulatorArgs};
use super::iso::{first_missing, lemma_mounted_len, mounted_paths, spec_mounted_paths};

verus! {

/// The raw images of the guest.
#[derive(Debug, Clone, PartialEq)]
pub struct ImgArgs {
    pub images: Vec<String>,
    pub guest: GuestOS,
}

impl Images {
    /// The raw images of the guest: the mounted ones, each of which must
    /// exist (`exists`, one per mounted path).
    pub fn img_args(&self, installed: bool, vm_dir: &str, guest: GuestOS, exists: &Vec<bool>) -> (r: Result<ImgArgs, Error>)
        requires
            exists@.len() == spec_mounted_paths(self.img@, installed, vm_dir@).len(),
        ensures
            ({
                let paths = spec_mounted_paths(self.img@, installed, vm_dir@);
                if exists|k: int| 0 <= k < exists@.len() && !#[trigger] exists@[k] {
                    r matches Err(Error::NonexistentImage(p)) && exists|k: int| 0 <= k < exists@.len() && !exists@[k]
                        && (forall|j: int| 0 <= j < k ==> exists@[j]) && p@ == paths[k]
                } else {
                    r matches Ok(a) && a.guest == guest && views(a.images@) == paths
                }
            }),
    {
        let paths = mounted_paths(&self.img, installed, vm_dir);
        match first_missing(&paths, exists) {
            Some(k) => {
                assert(views(paths@)[k as int] == paths@[k as int]@);
                assert(!exists@[k as int]);
                Err(Error::NonexistentImage(paths[k].clone()))
            },
            None => Ok(ImgArgs { images: paths, guest }),
        }
    }
}

/// The QEMU arguments of a raw image with a drive id.
pub open spec fn spec_img_args(img: Seq<char>, id: Seq<char>, guest: GuestOS) -> Seq<Seq<char>> {
    seq!["-device"@, (if guest is MacOS { "ide-hd,bus=ahci.1,drive="@ } else { "virtio-blk-pci,drive="@ }) + id,
        "-drive"@, "id="@ + id + ",if=none,format=raw,file="@ + img]
}

/// The QEMU arguments of a raw image with a drive id.
pub fn img_args(img: &str, id: &str, guest: GuestOS) -> (r: Vec<String>)
    ensures
        views(r@) == spec_img_args(img@, id@, guest),
{
    let mut drive = String::from_str("id=");
    drive.append(id);
    drive.append(",if=none,format=raw,file=");
    drive.append(img);
    let mut device = String::from_str(if let GuestOS::MacOS { .. } = guest { "ide-hd,bus=ahci.1,drive=" } else { "virtio-blk-pci,drive=" });
    device.append(id);
    let mut a: Vec<String> = Vec::new();
    push_arg(&mut a, "-device");
    push_string(&mut a, device);
    push_arg(&mut a, "-drive");
    push_string(&mut a, drive);
    assert(views(a@) =~= spec_img_args(img@, id@, guest));
    a
}

/// The drive id of the `i`th raw image: the first is the boot disk (the
/// recovery image of macOS guests), the others `Image0`, `Image1`, ...
pub open spec fn spec_img_id(i: int, guest: GuestOS) -> Seq<char> {
    if i == 0 {
        if guest is MacOS { "RecoveryImage"@ } else { "BootDisk"@ }
    } else {
        "Image"@ + decimal((i - 1) as nat)
    }
}

/// The QEMU arguments of the first `n` raw images.
pub open spec fn spec_imgs_args(imgs: Seq<Seq<char>>, guest: GuestOS, n: nat) -> Seq<Seq<char>>
    decreases n,
{
    if n == 0 {
        seq![]
    } else {
        spec_imgs_args(imgs, guest, (n - 1) as nat) + spec_img_args(imgs[n - 1], spec_img_id(n - 1, guest), guest)
    }
}

impl EmulatorArgs for ImgArgs {
    open spec fn spec_display(&self) -> Seq<(Seq<char>, Seq<char>)> {
        self.images@.map_values(|p: String| ("IMG"@, p@))
    }

    open spec fn spec_qemu_args(&self) -> Seq<Seq<char>> {
        spec_imgs_args(views(self.images@), self.guest, self.images@.len())
    }

    fn display(&self) -> (r: Vec<ArgDisplay>) {
        let mut r: Vec<ArgDisplay> = Vec::new();
        let mut i: usize = 0;
        while i < self.images.len()
            invariant
                i <= self.images@.len(),
                lines(r@) == self.images@.subrange(0, i as int).map_values(|p: String| ("IMG"@, p@)),
            decreases self.images.len() - i,
        {
            push_line(&mut r, ArgDisplay::new("IMG", self.images[i].clone()));
            assert(self.images@.subrange(0, i + 1).map_values(|p: String| ("IMG"@, p@))
                =~= self.images@.subrange(0, i as int).map_values(|p: String| ("IMG"@, p@))
                    .push(("IMG"@, self.images@[i as int]@)));
            i = i + 1;
        }
        assert(self.images@.subrange(0, self.images@.len() as int) =~= self.images@);
        r
    }

    fn qemu_args(&self) -> (r: Vec<String>) {
        let mut a: Vec<String> = Vec::new();
        let mut i: usize = 0;
        while i < self.images.len()
            invariant
                i <= self.images@.len(),
                views(a@) == spec_imgs_args(views(self.images@), self.guest, i as nat),
            decreases self.images.len() - i,
        {
            let id = if i == 0 {
                String::from_str(if let GuestOS::MacOS { .. } = self.guest { "RecoveryImage" } else { "BootDisk" })
            } else {
                let mut s = String::from_str("Image");
                let n = u64_to_string((i - 1) as u64);
                s.append(n.as_str());
                s
            };
            assert(id@ == spec_img_id(i as int, self.guest));
            let ia = img_args(self.images[i].as_str(), id.as_str(), self.guest);
            crate::text::extend_args(&mut a, &ia);
            assert(views(self.images@)[i as int] == self.images@[i as int]@);
            i = i + 1;
        }
        a
    }
}

} // verus!
