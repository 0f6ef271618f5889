//! The images of the guest: disks, installation media and raw images.

use vstd::prelude::*;
use crate::data::guest::GuestOS;
use crate::data::image::{DiskImage, Images, MountedImage};
use crate::data::network::Monitor;
use crate::error::{Error, Warning};
use crate::utils::{extend_lines, lines, ArgDisplay, EmulatorArgs};
use self::disks::{DiskArgs, DiskState, MountedDisk, MIN_DISK_SIZE, spec_disk_index, spec_disks, spec_reserves_two};
use self::img::ImgArgs;
use self::iso::{allocated_from, is_first_free, iso_indices, IsoArgs, spec_mounted_paths};

pub mod disks;
pub mod iso;
pub mod img;

verus! {

/// Whether each mounted image exists, taken from whether each image does.
pub open spec fn spec_mounted_flags(imgs: Seq<MountedImage>, installed: bool, exists: Seq<bool>) -> Seq<bool>
    decreases imgs.len(),
{
    if imgs.len() == 0 {
        seq![]
    } else {
        let rest = spec_mounted_flags(imgs.drop_last(), installed, exists);
        if imgs.last().always_mount || !installed { rest.push(exists[imgs.len() - 1]) } else { rest }
    }
}

/// Whether each mounted image exists, taken from whether each image does.
pub fn mounted_flags(imgs: &Vec<MountedImage>, installed: bool, exists: &Vec<bool>) -> (r: Vec<bool>)
    requires
        exists@.len() == imgs@.len(),
    ensures
        r@ == spec_mounted_flags(imgs@, installed, exists@),
        r@.len() == spec_mounted_paths(imgs@, installed, seq![]).len(),
{
    let mut r: Vec<bool> = Vec::new();
    let mut i: usize = 0;
    while i < imgs.len()
        invariant
            exists@.len() == imgs@.len(),
            i <= imgs@.len(),
            r@ == spec_mounted_flags(imgs@.subrange(0, i as int), installed, exists@),
            r@.len() == spec_mounted_paths(imgs@.subrange(0, i as int), installed, seq![]).len(),
        decreases imgs.len() - i,
    {
        assert(imgs@.subrange(0, i + 1).drop_last() =~= imgs@.subrange(0, i as int));
        if imgs[i].always_mount || !installed {
            r.push(exists[i]);
        }
        i = i + 1;
    }
    assert(imgs@.subrange(0, imgs@.len() as int) =~= imgs@);
    r
}

/// The mounted images are as many wherever the VM directory is.
pub proof fn lemma_mounted_len_any_dir(imgs: Seq<MountedImage>, installed: bool, a: Seq<char>, b: Seq<char>)
    ensures
        spec_mounted_paths(imgs, installed, a).len() == spec_mounted_paths(imgs, installed, b).len(),
    decreases imgs.len(),
{
    if imgs.len() > 0 {
        lemma_mounted_len_any_dir(imgs.drop_last(), installed, a, b);
    }
}

/// Indices taken one after the other, each the first free one, are all
/// different from each other and from those taken before.
pub proof fn lemma_allocated_distinct(idx: Seq<u32>, key: int, used: Seq<u32>)
    requires
        allocated_from(idx, key, used),
        used.no_duplicates(),
    ensures
        (used + idx).no_duplicates(),
    decreases idx.len(),
{
    if idx.len() > 0 {
        let prev = idx.drop_last();
        lemma_allocated_distinct(prev, key, used);
        let s = used + prev;
        let x = idx.last();
        assert(!s.contains(x));
        assert(used + idx =~= s.push(x));
        assert forall|i: int, j: int| 0 <= i < s.push(x).len() && 0 <= j < s.push(x).len() && i != j
            implies s.push(x)[i] != s.push(x)[j] by {
            if i == s.len() as int {
                assert(s[j] != x);
            } else if j == s.len() as int {
                assert(s[i] != x);
            }
        }
    }
}

/// Whether the guest counts as installed: one of its disks existed
/// already and is preallocated or holds at least `MIN_DISK_SIZE` bytes.
pub open spec fn spec_installed(disks: Seq<DiskImage>, states: Seq<DiskState>) -> bool {
    exists|i: int| 0 <= i < states.len() && (#[trigger] states[i] matches
        DiskState::Existing { actual_size, .. } && (disks[i].format.spec_prealloc_enabled() || actual_size >= MIN_DISK_SIZE))
}

/// Whether `k` is the first of the flags that is false.
pub open spec fn is_first_missing(flags: Seq<bool>, k: int) -> bool {
    &&& 0 <= k < flags.len()
    &&& !flags[k]
    &&& forall|j: int| 0 <= j < k ==> flags[j]
}

/// Whether all the flags are true.
pub open spec fn all_found(flags: Seq<bool>) -> bool {
    forall|k: int| 0 <= k < flags.len() ==> #[trigger] flags[k]
}

/// The drive indices of a list of disks.
pub open spec fn disk_indices(v: Seq<MountedDisk>) -> Seq<u32> {
    v.map_values(|m: MountedDisk| m.index)
}

/// A monitor command, sent after waiting a number of seconds.
#[derive(Debug, Clone, PartialEq)]
pub struct MonitorCmd {
    pub wait_before_secs: u64,
    pub command: String,
}

/// Commands for the monitor once QEMU runs.
#[derive(Debug, Clone, PartialEq)]
pub struct MonitorCmds {
    pub monitor: Monitor,
    pub cmds: Vec<MonitorCmd>,
}

/// The commands that start a Windows installer: five presses of Return,
/// a second apart.
pub fn windows_install_cmds() -> (r: Vec<MonitorCmd>)
    ensures
        r@.len() == 5,
        forall|i: int| 0 <= i < 5 ==> #[trigger] r@[i].wait_before_secs == 1 && r@[i].command@ == "sendkey ret"@,
{
    let mut v: Vec<MonitorCmd> = Vec::new();
    let mut i: usize = 0;
    while i < 5
        invariant
            i <= 5,
            v@.len() == i,
            forall|j: int| 0 <= j < i ==> #[trigger] v@[j].wait_before_secs == 1 && v@[j].command@ == "sendkey ret"@,
        decreases 5 - i,
    {
        v.push(MonitorCmd { wait_before_secs: 1, command: String::from_str("sendkey ret") });
        i = i + 1;
    }
    v
}

/// The images of the guest.
#[derive(Debug, Clone, PartialEq)]
pub struct ImageArgs {
    pub disks: DiskArgs,
    pub isos: IsoArgs,
    pub imgs: ImgArgs,
    pub monitor_cmds: Option<MonitorCmds>,
}

impl EmulatorArgs for ImageArgs {
    open spec fn spec_display(&self) -> Seq<(Seq<char>, Seq<char>)> {
        self.disks.spec_display() + self.isos.spec_display() + self.imgs.spec_display()
    }

    open spec fn spec_qemu_args(&self) -> Seq<Seq<char>> {
        self.disks.spec_qemu_args() + self.isos.spec_qemu_args() + self.imgs.spec_qemu_args()
    }

    fn display(&self) -> (r: Vec<ArgDisplay>) {
        let mut r = self.disks.display();
        extend_lines(&mut r, self.isos.display());
        extend_lines(&mut r, self.imgs.display());
        r
    }

    fn qemu_args(&self) -> (r: Vec<String>) {
        let mut a = self.disks.qemu_args();
        let i = self.isos.qemu_args();
        crate::text::extend_args(&mut a, &i);
        let m = self.imgs.qemu_args();
        crate::text::extend_args(&mut a, &m);
        a
    }
}

/// What was found of the images: which macOS bootloader disks exist, what
/// was found of each disk, whether a Windows guest's unattended installer
/// exists, and whether each ISO and raw image exists.
#[derive(Debug)]
pub struct ImageProbes {
    pub bootloader_exists: (bool, bool),
    pub disk_states: Vec<DiskState>,
    pub unattended_exists: bool,
    pub iso_exists: Vec<bool>,
    pub img_exists: Vec<bool>,
}

/// The images of a guest whose bootloader and media were all found: the
/// disks (see `spec_disks`); a Windows guest's unattended installer first,
/// at the first index from 2 on that no disk has, then the installation
/// media that are mounted, each at the first free index after the one
/// before; the raw images that are mounted; drive indices that all differ;
/// and, for Windows, five presses of Return for the monitor.
pub open spec fn spec_image_args(imgs: Images, guest: GuestOS, vm_dir: Seq<char>, status_quo: bool, monitor: Monitor,
    probes: ImageProbes, a: ImageArgs) -> bool {
    let installed = spec_installed(imgs.disk@, probes.disk_states@);
    let iso_paths = spec_mounted_paths(imgs.iso@, installed, vm_dir);
    let u: int = if guest == GuestOS::Windows && probes.unattended_exists { 1 } else { 0 };
    &&& spec_disks(imgs.disk@, guest, vm_dir, status_quo, probes.bootloader_exists, probes.disk_states@, a.disks)
    &&& a.disks.installed == installed
    &&& a.isos.guest == guest
    &&& a.imgs.guest == guest
    &&& a.isos.images@.len() == u + iso_paths.len()
    &&& (u == 1 ==> a.isos.images@[0].path@ == self::iso::spec_unattended(vm_dir)
        && is_first_free(a.isos.images@[0].index as int, 2, disk_indices(a.disks.mounted_disks@)))
    &&& allocated_from(iso_indices(a.isos.images@).subrange(u, a.isos.images@.len() as int), 0,
        disk_indices(a.disks.mounted_disks@) + iso_indices(a.isos.images@).subrange(0, u))
    &&& self::iso::iso_paths_of(a.isos.images@).subrange(u, a.isos.images@.len() as int) == iso_paths
    &&& crate::text::views(a.imgs.images@) == spec_mounted_paths(imgs.img@, installed, vm_dir)
    &&& (iso_indices(a.isos.images@) + disk_indices(a.disks.mounted_disks@)).no_duplicates()
    &&& match a.monitor_cmds {
        Some(m) => guest == GuestOS::Windows && m.monitor == monitor && m.cmds@.len() == 5
            && forall|i: int| 0 <= i < 5 ==> #[trigger] m.cmds@[i].wait_before_secs == 1 && m.cmds@[i].command@ == "sendkey ret"@,
        None => guest != GuestOS::Windows,
    }
}

impl Images {
    /// The images of the guest: the disks first, then the installation
    /// media and raw images that are mounted (all of them until the guest
    /// is installed). Windows guests get five presses of Return sent to the
    /// monitor to start their installer. The drive indices of the disks and
    /// installation media are all different.
    pub fn args(&self, guest: GuestOS, vm_dir: &str, status_quo: bool, monitor: Monitor, probes: &ImageProbes)
        -> (r: Result<(ImageArgs, Option<Warning>), Error>)
        requires
            probes.disk_states@.len() == self.disk@.len(),
            probes.iso_exists@.len() == self.iso@.len(),
            probes.img_exists@.len() == self.img@.len(),
            self.disk@.len() + self.iso@.len() + 8 < u32::MAX,
        ensures
            ({
                let installed = spec_installed(self.disk@, probes.disk_states@);
                let isos_found = spec_mounted_flags(self.iso@, installed, probes.iso_exists@);
                let imgs_found = spec_mounted_flags(self.img@, installed, probes.img_exists@);
                let iso_paths = spec_mounted_paths(self.iso@, installed, vm_dir@);
                let img_paths = spec_mounted_paths(self.img@, installed, vm_dir@);
                if guest is MacOS && !probes.bootloader_exists.0 && !probes.bootloader_exists.1 {
                    r == Err::<(ImageArgs, Option<Warning>), Error>(Error::MacBootloader)
                } else if !all_found(isos_found) {
                    r matches Err(Error::NonexistentImage(p)) && exists|k: int| is_first_missing(isos_found, k) && p@ == iso_paths[k]
                } else if !all_found(imgs_found) {
                    r matches Err(Error::NonexistentImage(p)) && exists|k: int| is_first_missing(imgs_found, k) && p@ == img_paths[k]
                } else {
                    r matches Ok((a, w)) && w is None && spec_image_args(*self, guest, vm_dir@, status_quo, monitor, *probes, a)
                }
            }),
    {
        let disks = match self.disk_args(guest, vm_dir, status_quo, probes.bootloader_exists, &probes.disk_states) {
            Ok(d) => d,
            Err(e) => return Err(e),
        };
        let installed = disks.installed();
        let mut used: Vec<u32> = Vec::new();
        let mut i: usize = 0;
        while i < disks.mounted_disks.len()
            invariant
                i <= disks.mounted_disks@.len(),
                disks.mounted_disks@.len() == self.disk@.len(),
                self.disk@.len() + self.iso@.len() + 8 < u32::MAX,
                forall|j: int| 0 <= j < disks.mounted_disks@.len() ==>
                    (#[trigger] disks.mounted_disks@[j]).index == spec_disk_index(j, spec_reserves_two(guest)),
                used@ == disk_indices(disks.mounted_disks@).subrange(0, i as int),
            decreases disks.mounted_disks.len() - i,
        {
            used.push(disks.mounted_disks[i].index);
            assert(used@ =~= disk_indices(disks.mounted_disks@).subrange(0, i + 1));
            i = i + 1;
        }
        let ghost used0 = used@;
        proof {
            assert(used0 =~= disk_indices(disks.mounted_disks@));
            assert forall|x: int, y: int| 0 <= x < used0.len() && 0 <= y < used0.len() && x != y
                implies used0[x] != used0[y] by {
                assert(used0[x] == disks.mounted_disks@[x].index);
                assert(used0[y] == disks.mounted_disks@[y].index);
            }
            assert forall|j: int| 0 <= j < used0.len() implies used0[j] + self.iso@.len() + 4 < u32::MAX by {
                assert(used0[j] == disks.mounted_disks@[j].index);
            }
        }
        let iso_flags = mounted_flags(&self.iso, installed, &probes.iso_exists);
        let img_flags = mounted_flags(&self.img, installed, &probes.img_exists);
        proof {
            lemma_mounted_len_any_dir(self.iso@, installed, seq![], vm_dir@);
            lemma_mounted_len_any_dir(self.img@, installed, seq![], vm_dir@);
        }
        let isos = match self.iso_args(installed, guest, vm_dir, probes.unattended_exists, &iso_flags, &mut used) {
            Ok(a) => a,
            Err(e) => return Err(e),
        };
        proof {
            let all = iso_indices(isos.images@);
            let u: int = if guest == GuestOS::Windows && probes.unattended_exists { 1 } else { 0 };
            let used1 = used0 + all.subrange(0, u);
            if u == 1 {
                assert(is_first_free(isos.images@[0].index as int, 2, used0));
                assert(!used0.contains(all[0]));
                assert forall|x: int, y: int| 0 <= x < used1.len() && 0 <= y < used1.len() && x != y
                    implies used1[x] != used1[y] by {
                    if x == used0.len() as int {
                        assert(used1[x] == all[0]);
                        assert(used1[y] == used0[y]);
                    } else if y == used0.len() as int {
                        assert(used1[y] == all[0]);
                        assert(used1[x] == used0[x]);
                    }
                }
            } else {
                assert(used1 =~= used0);
            }
            lemma_allocated_distinct(all.subrange(u, all.len() as int), 0, used1);
            assert(used1 + all.subrange(u, all.len() as int) =~= used0 + all);
            let total = used0 + all;
            assert forall|x: int, y: int| 0 <= x < (all + used0).len() && 0 <= y < (all + used0).len() && x != y
                implies (all + used0)[x] != (all + used0)[y] by {
                let x2 = if x < all.len() { x + used0.len() } else { x - all.len() };
                let y2 = if y < all.len() { y + used0.len() } else { y - all.len() };
                assert((all + used0)[x] == total[x2]);
                assert((all + used0)[y] == total[y2]);
            }
        }
        let imgs = match self.img_args(installed, vm_dir, guest, &img_flags) {
            Ok(a) => a,
            Err(e) => return Err(e),
        };
        let monitor_cmds = if let GuestOS::Windows = guest {
            Some(MonitorCmds { monitor, cmds: windows_install_cmds() })
        } else {
            None
        };
        proof {
            assert(disks.installed == spec_installed(self.disk@, probes.disk_states@));
            assert(forall|i: int| 0 <= i < self.disk@.len() ==>
                (#[trigger] disks.mounted_disks@[i]).index == spec_disk_index(i, spec_reserves_two(guest)));
            assert(crate::text::views(imgs.images@) == spec_mounted_paths(self.img@, installed, vm_dir@));
            assert(all_found(spec_mounted_flags(self.iso@, installed, probes.iso_exists@)));
            assert(all_found(spec_mounted_flags(self.img@, installed, probes.img_exists@)));
            assert(!(guest is MacOS && !probes.bootloader_exists.0 && !probes.bootloader_exists.1));
            assert((iso_indices(isos.images@) + disk_indices(disks.mounted_disks@)).no_duplicates());
        }
        Ok((ImageArgs { disks, isos, imgs, monitor_cmds }, None))
    }
}

} // verus!
