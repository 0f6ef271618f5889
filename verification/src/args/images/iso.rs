//! Installation media (ISO images) and raw images of the guest.

use vstd::prelude::*;
use crate::data::guest::GuestOS;
use crate::data::image::{Images, MountedImage};
use crate::error::Error;
use crate::text::{decimal, join_path, path_join, push_arg, push_string, u64_to_string, views};
use crate::utils::{lines, push_line, ArgDisplay, EmulatorArgs};
use super::disks::{contains_u32, first_free_index};

verus! {

/// The paths of the images that are mounted: those marked to be mounted
/// always, and all of them while the guest is not installed; each joined
/// to the VM directory unless it is absolute.
pub open spec fn spec_mounted_paths(imgs: Seq<MountedImage>, installed: bool, vm_dir: Seq<char>) -> Seq<Seq<char>>
    decreases imgs.len(),
{
    if imgs.len() == 0 {
        seq![]
    } else {
        let rest = spec_mounted_paths(imgs.drop_last(), installed, vm_dir);
        if imgs.last().always_mount || !installed { rest.push(join_path(vm_dir, imgs.last().path@)) } else { rest }
    }
}

/// At most as many images are mounted as there are.
pub proof fn lemma_mounted_len(imgs: Seq<MountedImage>, installed: bool, vm_dir: Seq<char>)
    ensures
        spec_mounted_paths(imgs, installed, vm_dir).len() <= imgs.len(),
    decreases imgs.len(),
{
    if imgs.len() > 0 {
        lemma_mounted_len(imgs.drop_last(), installed, vm_dir);
    }
}

/// The paths of the images that are mounted.
pub fn mounted_paths(imgs: &Vec<MountedImage>, installed: bool, vm_dir: &str) -> (r: Vec<String>)
    ensures
        views(r@) == spec_mounted_paths(imgs@, installed, vm_dir@),
{
    let mut r: Vec<String> = Vec::new();
    let mut i: usize = 0;
    while i < imgs.len()
        invariant
            i <= imgs@.len(),
            views(r@) == spec_mounted_paths(imgs@.subrange(0, i as int), installed, vm_dir@),
        decreases imgs.len() - i,
    {
        assert(imgs@.subrange(0, i + 1).drop_last() =~= imgs@.subrange(0, i as int));
        if imgs[i].always_mount || !installed {
            crate::text::push_string(&mut r, path_join(vm_dir, imgs[i].path.as_str()));
        }
        i = i + 1;
    }
    assert(imgs@.subrange(0, imgs@.len() as int) =~= imgs@);
    r
}

/// The first path whose image does not exist, if any (`exists[k]` says
/// whether the `k`th does).
pub fn first_missing(paths: &Vec<String>, exists: &Vec<bool>) -> (r: Option<usize>)
    requires
        exists@.len() == paths@.len(),
    ensures
        match r {
            Some(k) => k < exists@.len() && !exists@[k as int] && forall|j: int| 0 <= j < k ==> exists@[j],
            None => forall|j: int| 0 <= j < exists@.len() ==> exists@[j],
        },
{
    let mut k: usize = 0;
    while k < exists.len()
        invariant
            k <= exists@.len(),
            forall|j: int| 0 <= j < k ==> exists@[j],
        decreases exists.len() - k,
    {
        if !exists[k] {
            return Some(k);
        }
        k = k + 1;
    }
    None
}

/// Whether `r` is the first index from `key` on that is not in `used`.
pub open spec fn is_first_free(r: int, key: int, used: Seq<u32>) -> bool {
    &&& key <= r
    &&& !used.contains(r as u32)
    &&& forall|k: int| key <= k < r ==> #[trigger] used.contains(k as u32)
}

/// Whether `idx` are the indices that ISOs get one after the other from
/// `key` on, each the first free one after the one before, with `used`
/// taken already.
pub open spec fn allocated_from(idx: Seq<u32>, key: int, used: Seq<u32>) -> bool
    decreases idx.len(),
{
    if idx.len() == 0 {
        true
    } else {
        allocated_from(idx.drop_last(), key, used)
            && is_first_free(idx.last() as int,
                if idx.len() == 1 { key } else { idx[idx.len() - 2] + 1 },
                used + idx.drop_last())
    }
}

/// A number above every index in use, at least 2, with room for `n` more
/// indices and two spare above it.
pub fn index_bound(used: &Vec<u32>, n: usize) -> (r: u32)
    requires
        forall|j: int| 0 <= j < used@.len() ==> used@[j] + n + 4 < u32::MAX,
        n + 4 < u32::MAX,
    ensures
        2 <= r,
        r + n + 2 < u32::MAX,
        forall|j: int| 0 <= j < used@.len() ==> used@[j] < r,
{
    let mut r: u32 = 2;
    let mut i: usize = 0;
    while i < used.len()
        invariant
            i <= used@.len(),
            2 <= r,
            r + n + 2 < u32::MAX,
            forall|j: int| 0 <= j < used@.len() ==> used@[j] + n + 4 < u32::MAX,
            forall|j: int| 0 <= j < i ==> used@[j] < r,
        decreases used.len() - i,
    {
        if used[i] >= r {
            r = used[i] + 1;
        }
        i = i + 1;
    }
    r
}

/// An installation medium with its drive index.
#[derive(Debug, Clone, PartialEq)]
pub struct MountedIso {
    pub path: String,
    pub index: u32,
}

/// The installation media of the guest.
#[derive(Debug, Clone, PartialEq)]
pub struct IsoArgs {
    pub images: Vec<MountedIso>,
    pub guest: GuestOS,
}

/// The paths of a list of installation media.
pub open spec fn iso_paths_of(v: Seq<MountedIso>) -> Seq<Seq<char>> {
    v.map_values(|m: MountedIso| m.path@)
}

/// The unattended installer of a Windows guest.
pub open spec fn spec_unattended(vm_dir: Seq<char>) -> Seq<char> {
    join_path(vm_dir, "unattended.iso"@)
}

/// The indices of a list of installation media.
pub open spec fn iso_indices(v: Seq<MountedIso>) -> Seq<u32> {
    v.map_values(|m: MountedIso| m.index)
}

impl Images {
    /// The installation media of the guest: a Windows guest's unattended
    /// installer first (where it exists), then the mounted ISO images,
    /// each of which must exist (`exists`, one per mounted path). The
    /// installer gets the first free index from 2 on, the images the first
    /// free ones from 0 on; each index taken is added to `used`.
    pub fn iso_args(&self, installed: bool, guest: GuestOS, vm_dir: &str, unattended_exists: bool, exists: &Vec<bool>, used: &mut Vec<u32>)
        -> (r: Result<IsoArgs, Error>)
        requires
            exists@.len() == spec_mounted_paths(self.iso@, installed, vm_dir@).len(),
            forall|j: int| 0 <= j < old(used)@.len() ==> old(used)@[j] + self.iso@.len() + 4 < u32::MAX,
            self.iso@.len() + 4 < u32::MAX,
        ensures
            ({
                let paths = spec_mounted_paths(self.iso@, installed, vm_dir@);
                let u: int = if guest == GuestOS::Windows && unattended_exists { 1 } else { 0 };
                if exists|k: int| 0 <= k < exists@.len() && !#[trigger] exists@[k] {
                    r matches Err(Error::NonexistentImage(p)) && exists|k: int| 0 <= k < exists@.len() && !exists@[k]
                        && (forall|j: int| 0 <= j < k ==> exists@[j]) && p@ == paths[k]
                } else {
                    r matches Ok(a) && {
                        &&& a.guest == guest
                        &&& a.images@.len() == u + paths.len()
                        &&& (u == 1 ==> a.images@[0].path@ == spec_unattended(vm_dir@)
                            && is_first_free(a.images@[0].index as int, 2, old(used)@))
                        &&& iso_paths_of(a.images@).subrange(u, a.images@.len() as int) == paths
                        &&& allocated_from(iso_indices(a.images@).subrange(u, a.images@.len() as int), 0,
                            old(used)@ + iso_indices(a.images@).subrange(0, u))
                        &&& final(used)@ == old(used)@ + iso_indices(a.images@)
                    }
                }
            }),
    {
        let paths = mounted_paths(&self.iso, installed, vm_dir);
        proof {
            lemma_mounted_len(self.iso@, installed, vm_dir@);
        }
        match first_missing(&paths, exists) {
            Some(k) => {
                assert(views(paths@)[k as int] == paths@[k as int]@);
                assert(!exists@[k as int]);
                return Err(Error::NonexistentImage(paths[k].clone()));
            },
            None => {},
        }
        let ghost used0 = used@;
        let bound = index_bound(used, self.iso.len());
        let mut images: Vec<MountedIso> = Vec::new();
        let mut b: u32 = bound;
        if let GuestOS::Windows = guest {
            if unattended_exists {
                let index = first_free_index(2, used, b);
                used.push(index);
                b = b + 1;
                images.push(MountedIso { path: path_join(vm_dir, "unattended.iso"), index });
            }
        }
        let ghost u: int = images@.len() as int;
        let ghost used1 = used@;
        assert(used1 == used0 + iso_indices(images@).subrange(0, u));
        let mut key: u32 = 0;
        let mut i: usize = 0;
        while i < paths.len()
            invariant
                views(paths@) == spec_mounted_paths(self.iso@, installed, vm_dir@),
                paths@.len() <= self.iso@.len(),
                i <= paths@.len(),
                u == (if guest == GuestOS::Windows && unattended_exists { 1int } else { 0 }),
                images@.len() == u + i,
                used1 == used0 + iso_indices(images@).subrange(0, u),
                used@ == used0 + iso_indices(images@),
                u == 1 ==> images@[0].path@ == spec_unattended(vm_dir@) && is_first_free(images@[0].index as int, 2, used0),
                forall|k: int| 0 <= k < i ==> #[trigger] images@[u + k].path@ == paths@[k]@,
                allocated_from(iso_indices(images@).subrange(u, images@.len() as int), 0, used1),
                key == (if i == 0 { 0 } else { images@[images@.len() - 1].index + 1 }),
                key <= b,
                b == bound + u + i,
                bound + self.iso@.len() + 2 < u32::MAX,
                forall|j: int| 0 <= j < used@.len() ==> used@[j] < b,
            decreases paths.len() - i,
        {
            let ghost before = images@;
            let index = first_free_index(key, used, b);
            used.push(index);
            b = b + 1;
            images.push(MountedIso { path: paths[i].clone(), index });
            proof {
                let s = iso_indices(images@).subrange(u, images@.len() as int);
                assert(s.drop_last() =~= iso_indices(before).subrange(u, before.len() as int));
                assert(used1 + s.drop_last() =~= used0 + iso_indices(before));
                assert(iso_indices(images@).subrange(0, u) =~= iso_indices(before).subrange(0, u));
                assert(used@ =~= used0 + iso_indices(images@));
                if i > 0 {
                    assert(s[s.len() - 2] == before[before.len() - 1].index);
                }
                assert forall|j: int| 0 <= j < used@.len() implies used@[j] < b by {
                    if j < used@.len() - 1 {
                        assert(used@[j] == (used0 + iso_indices(before))[j]);
                    }
                }
                assert forall|k: int| 0 <= k < i + 1 implies #[trigger] images@[u + k].path@ == paths@[k]@ by {
                    if k < i {
                        assert(images@[u + k] == before[u + k]);
                    }
                }
                if u == 1 {
                    assert(images@[0] == before[0]);
                }
            }
            key = index + 1;
            i = i + 1;
        }
        assert(views(paths@).len() == paths@.len());
        assert(iso_paths_of(images@).subrange(u, images@.len() as int) =~= views(paths@)) by {
            assert forall|k: int| 0 <= k < paths@.len() implies
                #[trigger] iso_paths_of(images@).subrange(u, images@.len() as int)[k] == views(paths@)[k] by {
                assert(images@[u + k].path@ == paths@[k]@);
            }
        }
        Ok(IsoArgs { images, guest })
    }
}

/// The QEMU arguments of an installation medium.
pub open spec fn spec_iso_args(m: MountedIso, guest: GuestOS) -> Seq<Seq<char>> {
    seq!["-drive"@, if guest == GuestOS::ReactOS {
        "if=ide,index="@ + decimal(m.index as nat) + ",media=cdrom,file="@ + m.path@
    } else {
        "media=cdrom,index="@ + decimal(m.index as nat) + ",file="@ + m.path@
    }]
}

/// The QEMU arguments of a list of installation media.
pub open spec fn spec_isos_args(v: Seq<MountedIso>, guest: GuestOS) -> Seq<Seq<char>>
    decreases v.len(),
{
    if v.len() == 0 { seq![] } else { spec_isos_args(v.drop_last(), guest) + spec_iso_args(v.last(), guest) }
}

impl MountedIso {
    /// The QEMU arguments of the medium.
    pub fn args(&self, guest: GuestOS) -> (r: Vec<String>)
        ensures
            views(r@) == spec_iso_args(*self, guest),
    {
        let n = u64_to_string(self.index as u64);
        let s = if let GuestOS::ReactOS = guest {
            let mut s = String::from_str("if=ide,index=");
            s.append(n.as_str());
            s.append(",media=cdrom,file=");
            s.append(self.path.as_str());
            s
        } else {
            let mut s = String::from_str("media=cdrom,index=");
            s.append(n.as_str());
            s.append(",file=");
            s.append(self.path.as_str());
            s
        };
        let mut a: Vec<String> = Vec::new();
        push_arg(&mut a, "-drive");
        push_string(&mut a, s);
        assert(views(a@) =~= spec_iso_args(*self, guest));
        a
    }
}

impl EmulatorArgs for IsoArgs {
    open spec fn spec_display(&self) -> Seq<(Seq<char>, Seq<char>)> {
        self.images@.map_values(|m: MountedIso| ("ISO"@, m.path@))
    }

    open spec fn spec_qemu_args(&self) -> Seq<Seq<char>> {
        (match self.guest {
            GuestOS::FreeDOS => seq!["-boot"@, "order=dc"@],
            GuestOS::ReactOS => seq!["-boot"@, "order=d"@],
            _ => seq![],
        }) + spec_isos_args(self.images@, self.guest)
    }

    fn display(&self) -> (r: Vec<ArgDisplay>) {
        let mut r: Vec<ArgDisplay> = Vec::new();
        let mut i: usize = 0;
        while i < self.images.len()
            invariant
                i <= self.images@.len(),
                lines(r@) == self.images@.subrange(0, i as int).map_values(|m: MountedIso| ("ISO"@, m.path@)),
            decreases self.images.len() - i,
        {
            push_line(&mut r, ArgDisplay::new("ISO", self.images[i].path.clone()));
            assert(self.images@.subrange(0, i + 1).map_values(|m: MountedIso| ("ISO"@, m.path@))
                =~= self.images@.subrange(0, i as int).map_values(|m: MountedIso| ("ISO"@, m.path@))
                    .push(("ISO"@, self.images@[i as int].path@)));
            i = i + 1;
        }
        assert(self.images@.subrange(0, self.images@.len() as int) =~= self.images@);
        r
    }

    fn qemu_args(&self) -> (r: Vec<String>) {
        let mut a: Vec<String> = Vec::new();
        match self.guest {
            GuestOS::FreeDOS => {
                push_arg(&mut a, "-boot");
                push_arg(&mut a, "order=dc");
            },
            GuestOS::ReactOS => {
                push_arg(&mut a, "-boot");
                push_arg(&mut a, "order=d");
            },
            _ => {},
        }
        let ghost s0 = views(a@);
        assert(s0 =~= (match self.guest {
            GuestOS::FreeDOS => seq!["-boot"@, "order=dc"@],
            GuestOS::ReactOS => seq!["-boot"@, "order=d"@],
            _ => seq![],
        }));
        let mut i: usize = 0;
        while i < self.images.len()
            invariant
                i <= self.images@.len(),
                views(a@) == s0 + spec_isos_args(self.images@.subrange(0, i as int), self.guest),
            decreases self.images.len() - i,
        {
            let ia = self.images[i].args(self.guest);
            crate::text::extend_args(&mut a, &ia);
            assert(self.images@.subrange(0, i + 1).drop_last() =~= self.images@.subrange(0, i as int));
            assert(views(a@) =~= s0 + spec_isos_args(self.images@.subrange(0, i + 1), self.guest));
            i = i + 1;
        }
        assert(self.images@.subrange(0, self.images@.len() as int) =~= self.images@);
        a
    }
}

} // verus!
