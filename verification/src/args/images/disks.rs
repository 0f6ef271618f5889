//! The disks of the guest: where they are, which are created, and the
//! drive index each one gets.

use vstd::prelude::*;
use crate::data::guest::{GuestOS, MacOSRelease};
use crate::data::image::{DiskFormat, DiskImage, Images, PreAlloc};
use crate::error::Error;
use crate::text::{decimal, join_path, path_join, push_arg, push_string, u64_to_string, views};
use crate::units::{size_from_u64, size_text, size_to_string, size_bytes};
use crate::utils::{lines, push_line, ArgDisplay, EmulatorArgs};
use crate::legacy::qemu_args::images::{is_snapshot, lemma_filter_no_snapshot, lemma_filter_push_snapshot, lemma_not_snapshot_by_first,
    lemma_snapshot_step, not_snapshot};

verus! {

/// A disk that holds less than this (bytes) counts as not installed yet.
pub const MIN_DISK_SIZE: u64 = 1581056;

/// Whether `x` is in the list.
pub fn contains_u32(v: &Vec<u32>, x: u32) -> (r: bool)
    ensures
        r == v@.contains(x),
{
    let mut i: usize = 0;
    while i < v.len()
        invariant
            i <= v@.len(),
            forall|j: int| 0 <= j < i ==> v@[j] != x,
        decreases v.len() - i,
    {
        if v[i] == x {
            assert(v@[i as int] == x);
            return true;
        }
        i = i + 1;
    }
    false
}

/// The first index from `key` on that is not in use. All indices in use,
/// and `key`, are below `bound`, so one at most `bound` is found.
pub fn first_free_index(key: u32, used: &Vec<u32>, bound: u32) -> (r: u32)
    requires
        key <= bound,
        forall|j: int| 0 <= j < used@.len() ==> used@[j] < bound,
    ensures
        key <= r <= bound,
        !used@.contains(r),
        forall|k: u32| key <= k < r ==> used@.contains(k),
{
    let mut k = key;
    while contains_u32(used, k)
        invariant
            key <= k <= bound,
            forall|j: int| 0 <= j < used@.len() ==> used@[j] < bound,
            forall|m: u32| key <= m < k ==> used@.contains(m),
        decreases bound - k,
    {
        proof {
            let j = choose|j: int| 0 <= j < used@.len() && used@[j] == k;
        }
        k = k + 1;
    }
    k
}

/// The size a new disk of a guest gets where none is configured: 64 GiB
/// for Windows, 96 GiB for macOS, 16 GiB for ReactOS and KolibriOS, 32 GiB
/// for the others.
pub open spec fn spec_default_disk_size(guest: GuestOS) -> nat {
    (match guest {
        GuestOS::Windows | GuestOS::WindowsServer => 64nat,
        GuestOS::MacOS { .. } => 96,
        GuestOS::ReactOS | GuestOS::KolibriOS => 16,
        _ => 32,
    }) * 1073741824
}

impl GuestOS {
    /// The size a new disk of the guest gets where none is configured.
    pub fn default_disk_size(&self) -> (r: u64)
        ensures
            r == spec_default_disk_size(*self),
    {
        let gib: u64 = match self {
            GuestOS::Windows | GuestOS::WindowsServer => 64,
            GuestOS::MacOS { .. } => 96,
            GuestOS::ReactOS | GuestOS::KolibriOS => 16,
            _ => 32,
        };
        gib * 1073741824
    }
}

/// What was found of a disk: it did not exist and was created, or it
/// exists, with the bytes it takes and the size the guest sees.
#[derive(Debug, Clone, Copy, PartialEq, Eq, Structural)]
pub enum DiskState {
    Created,
    Existing { actual_size: u64, virtual_size: u64 },
}

/// A disk as it is given to QEMU.
#[derive(Debug, Clone, PartialEq)]
pub struct MountedDisk {
    pub path: String,
    pub format: DiskFormat,
    pub index: u32,
    pub is_new: bool,
    pub size: u64,
}

/// Whether the guest keeps the index 2 free for an installer: ReactOS and
/// Windows do.
pub open spec fn spec_reserves_two(guest: GuestOS) -> bool {
    guest == GuestOS::ReactOS || guest == GuestOS::Windows
}

/// The drive index of the `i`th disk: they count from 1, and where the
/// guest keeps 2 free, they skip it.
pub open spec fn spec_disk_index(i: int, reserve_two: bool) -> int {
    if reserve_two && i >= 1 { i + 2 } else { i + 1 }
}

/// Two disks never share a drive index; none takes index 0 (the macOS
/// bootloader's), and where the guest keeps 2 free, none takes 2.
pub proof fn law_disk_indices_distinct(i: int, j: int, reserve_two: bool)
    requires
        0 <= i,
        0 <= j,
    ensures
        i != j ==> spec_disk_index(i, reserve_two) != spec_disk_index(j, reserve_two),
        spec_disk_index(i, reserve_two) >= 1,
        reserve_two ==> spec_disk_index(i, reserve_two) != 2,
{
}

/// The bootloader disks that a macOS guest looks for, in order.
pub open spec fn spec_mac_bootloaders(vm_dir: Seq<char>) -> (Seq<char>, Seq<char>) {
    (join_path(vm_dir, "OpenCore.qcow2"@), join_path(vm_dir, "ESP.qcow2"@))
}

/// The bootloader disks that a macOS guest looks for, in order.
pub fn mac_bootloaders(vm_dir: &str) -> (r: (String, String))
    ensures
        (r.0@, r.1@) == spec_mac_bootloaders(vm_dir@),
{
    (path_join(vm_dir, "OpenCore.qcow2"), path_join(vm_dir, "ESP.qcow2"))
}

/// The size a disk that did not exist is created with.
pub open spec fn spec_new_disk_size(d: DiskImage, guest: GuestOS) -> nat {
    match d.size { Some(s) => s as nat, None => spec_default_disk_size(guest) }
}

/// The arguments of `qemu-img` that create a disk.
pub open spec fn spec_create_disk_args(path: Seq<char>, size: nat, format: DiskFormat) -> Seq<Seq<char>> {
    seq!["create"@, "-q"@, "-f"@, format.spec_str(), path, decimal(size), "-o"@, format.spec_prealloc_arg()]
}

/// The arguments of `qemu-img` that create a disk.
pub fn create_disk_args(path: &str, size: u64, format: DiskFormat) -> (r: Vec<String>)
    ensures
        views(r@) == spec_create_disk_args(path@, size as nat, format),
{
    let mut a: Vec<String> = Vec::new();
    push_arg(&mut a, "create");
    push_arg(&mut a, "-q");
    push_arg(&mut a, "-f");
    push_arg(&mut a, format.as_str());
    push_arg(&mut a, path);
    push_string(&mut a, u64_to_string(size));
    push_arg(&mut a, "-o");
    push_arg(&mut a, format.prealloc_arg());
    assert(views(a@) =~= spec_create_disk_args(path@, size as nat, format));
    a
}

/// The arguments of `qemu-img` that read a disk's sizes.
pub fn disk_info_args(path: &str) -> (r: Vec<String>)
    ensures
        views(r@) == seq!["info"@, path@, "--output=json"@],
{
    let mut a: Vec<String> = Vec::new();
    push_arg(&mut a, "info");
    push_arg(&mut a, path);
    push_arg(&mut a, "--output=json");
    assert(views(a@) =~= seq!["info"@, path@, "--output=json"@]);
    a
}

/// The disks of a guest whose bootloader (for macOS) was found: each disk
/// in the VM directory with its format, its drive index, whether it was
/// just created and its size (a new disk's configured or default size, an
/// existing one's virtual size); whether the guest counts as installed; and
/// the macOS bootloader disk at index 0.
pub open spec fn spec_disks(disks: Seq<DiskImage>, guest: GuestOS, vm_dir: Seq<char>, status_quo: bool,
    bootloader_exists: (bool, bool), states: Seq<DiskState>, d: DiskArgs) -> bool {
    &&& d.guest == guest
    &&& d.status_quo == status_quo
    &&& d.ahci == (guest is MacOS || guest == GuestOS::KolibriOS)
    &&& d.mounted_disks@.len() == disks.len()
    &&& forall|i: int| 0 <= i < disks.len() ==> {
        let m = #[trigger] d.mounted_disks@[i];
        &&& m.path@ == join_path(vm_dir, disks[i].path@)
        &&& m.format == disks[i].format
        &&& m.index == spec_disk_index(i, spec_reserves_two(guest))
        &&& m.is_new == (states[i] is Created)
        &&& m.size == (match states[i] {
            DiskState::Created => spec_new_disk_size(disks[i], guest),
            DiskState::Existing { virtual_size, .. } => virtual_size as nat,
        })
    }
    &&& d.installed == exists|i: int| 0 <= i < states.len() && (#[trigger] states[i] matches
        DiskState::Existing { actual_size, .. } && (disks[i].format.spec_prealloc_enabled() || actual_size >= MIN_DISK_SIZE))
    &&& (guest is MacOS ==> (d.bootloader matches Some(b) && b.index == 0 && !b.is_new && b.size == 0
        && b.format == (DiskFormat::Qcow2 { preallocation: PreAlloc::Off })
        && b.path@ == (if bootloader_exists.0 { spec_mac_bootloaders(vm_dir).0 } else { spec_mac_bootloaders(vm_dir).1 })))
    &&& (!(guest is MacOS) ==> d.bootloader is None)
}

impl Images {
    /// Where each disk is: its path, joined to the VM directory unless it is
    /// absolute.
    pub fn disk_paths(&self, vm_dir: &str) -> (r: Vec<String>)
        ensures
            r@.len() == self.disk@.len(),
            forall|i: int| 0 <= i < r@.len() ==> #[trigger] r@[i]@ == join_path(vm_dir@, self.disk@[i].path@),
    {
        let mut r: Vec<String> = Vec::new();
        let mut i: usize = 0;
        while i < self.disk.len()
            invariant
                i <= self.disk@.len(),
                r@.len() == i,
                forall|j: int| 0 <= j < i ==> #[trigger] r@[j]@ == join_path(vm_dir@, self.disk@[j].path@),
            decreases self.disk.len() - i,
        {
            r.push(path_join(vm_dir, self.disk[i].path.as_str()));
            i = i + 1;
        }
        r
    }

    /// The size that the `i`th disk is created with where it does not exist.
    pub fn new_disk_size(&self, i: usize, guest: GuestOS) -> (r: u64)
        requires
            i < self.disk@.len(),
        ensures
            r == spec_new_disk_size(self.disk@[i as int], guest),
    {
        match self.disk[i].size {
            Some(s) => s,
            None => guest.default_disk_size(),
        }
    }

    /// The disks of the guest, given what was found of each (`states`, one
    /// per disk) and, for macOS guests, which of the bootloader disks
    /// exist. A macOS guest without a bootloader is refused. The disks get
    /// the drive indices from 1 on (skipping 2 where the guest keeps it
    /// free); the guest counts as installed where an existing disk is
    /// preallocated or holds at least `MIN_DISK_SIZE` bytes.
    pub fn disk_args(&self, guest: GuestOS, vm_dir: &str, status_quo: bool, bootloader_exists: (bool, bool), states: &Vec<DiskState>)
        -> (r: Result<DiskArgs, Error>)
        requires
            states@.len() == self.disk@.len(),
            self.disk@.len() + 4 < u32::MAX,
        ensures
            guest is MacOS && !bootloader_exists.0 && !bootloader_exists.1 ==> r == Err::<DiskArgs, Error>(Error::MacBootloader),
            !(guest is MacOS && !bootloader_exists.0 && !bootloader_exists.1)
                ==> (r matches Ok(d) && spec_disks(self.disk@, guest, vm_dir@, status_quo, bootloader_exists, states@, d)),
    {
        let bootloader = if let GuestOS::MacOS { .. } = guest {
            let (a, b) = mac_bootloaders(vm_dir);
            let path = if bootloader_exists.0 {
                a
            } else if bootloader_exists.1 {
                b
            } else {
                return Err(Error::MacBootloader);
            };
            Some(MountedDisk { path, format: DiskFormat::Qcow2 { preallocation: PreAlloc::Off }, index: 0, is_new: false, size: 0 })
        } else {
            None
        };
        let ahci = matches!(guest, GuestOS::MacOS { .. } | GuestOS::KolibriOS);
        let reserve_two = matches!(guest, GuestOS::ReactOS | GuestOS::Windows);
        let mut used: Vec<u32> = Vec::new();
        if reserve_two {
            used.push(2);
            assert(used@[0] == 2u32);
        }
        let paths = self.disk_paths(vm_dir);
        let mut key: u32 = 1;
        let mut installed = false;
        let mut mounted: Vec<MountedDisk> = Vec::new();
        let n = self.disk.len();
        let mut i: usize = 0;
        while i < n
            invariant
                n == self.disk@.len() == states@.len() == paths@.len(),
                n + 4 < u32::MAX,
                reserve_two == spec_reserves_two(guest),
                i <= n,
                mounted@.len() == i,
                key == (if i == 0 { 1 } else { spec_disk_index(i - 1, reserve_two) + 1 }),
                forall|j: int| 0 <= j < used@.len() ==> used@[j] < key || (reserve_two && used@[j] == 2),
                forall|k: u32| #![trigger used@.contains(k)] 1 <= k < key ==> used@.contains(k),
                reserve_two ==> used@.contains(2),
                forall|j: int| 0 <= j < paths@.len() ==> #[trigger] paths@[j]@ == join_path(vm_dir@, self.disk@[j].path@),
                forall|j: int| 0 <= j < i ==> {
                    let m = #[trigger] mounted@[j];
                    &&& m.path@ == join_path(vm_dir@, self.disk@[j].path@)
                    &&& m.format == self.disk@[j].format
                    &&& m.index == spec_disk_index(j, reserve_two)
                    &&& m.is_new == (states@[j] is Created)
                    &&& m.size == (match states@[j] {
                        DiskState::Created => spec_new_disk_size(self.disk@[j], guest),
                        DiskState::Existing { virtual_size, .. } => virtual_size as nat,
                    })
                },
                installed == exists|j: int| 0 <= j < i && (#[trigger] states@[j] matches
                    DiskState::Existing { actual_size, .. } && (self.disk@[j].format.spec_prealloc_enabled() || actual_size >= MIN_DISK_SIZE)),
            decreases n - i,
        {
            let index = first_free_index(key, &used, key + 2);
            proof {
                if reserve_two && key == 2 {
                    assert(used@.contains(2u32));
                    assert(!used@.contains(3u32)) by {
                        if used@.contains(3u32) {
                            let j = choose|j: int| 0 <= j < used@.len() && used@[j] == 3u32;
                        }
                    }
                    assert(index == 3);
                } else {
                    assert(!used@.contains(key)) by {
                        if used@.contains(key) {
                            let j = choose|j: int| 0 <= j < used@.len() && used@[j] == key;
                        }
                    }
                    assert(index == key);
                }
            }
            let ghost old_used = used@;
            used.push(index);
            proof {
                assert forall|k: u32| 1 <= k < index + 1 implies #[trigger] used@.contains(k) by {
                    if k == index {
                        assert(used@[used@.len() - 1] == k);
                    } else if k < key {
                        assert(old_used.contains(k));
                        let j = choose|j: int| 0 <= j < old_used.len() && old_used[j] == k;
                        assert(used@[j] == k);
                    } else {
                        assert(reserve_two && k == 2);
                        assert(old_used.contains(2u32));
                        let j = choose|j: int| 0 <= j < old_used.len() && old_used[j] == 2u32;
                        assert(used@[j] == k);
                    }
                }
                if reserve_two {
                    let j = choose|j: int| 0 <= j < old_used.len() && old_used[j] == 2u32;
                    assert(used@[j] == 2u32);
                }
                assert forall|j: int| 0 <= j < used@.len() implies used@[j] < index + 1 || (reserve_two && used@[j] == 2) by {
                    if j < old_used.len() {
                        assert(used@[j] == old_used[j]);
                    }
                }
            }
            key = index + 1;
            let format = self.disk[i].format;
            let (is_new, size) = match states[i] {
                DiskState::Created => (true, self.new_disk_size(i, guest)),
                DiskState::Existing { actual_size, virtual_size } => {
                    if format.prealloc_enabled() || actual_size >= MIN_DISK_SIZE {
                        installed = true;
                    }
                    (false, virtual_size)
                },
            };
            mounted.push(MountedDisk { path: paths[i].clone(), format, index, is_new, size });
            i = i + 1;
        }
        Ok(DiskArgs { guest, mounted_disks: mounted, status_quo, ahci, bootloader, installed })
    }
}

/// The disks of the guest.
#[derive(Debug, Clone, PartialEq)]
pub struct DiskArgs {
    pub guest: GuestOS,
    pub mounted_disks: Vec<MountedDisk>,
    pub status_quo: bool,
    pub ahci: bool,
    pub bootloader: Option<MountedDisk>,
    pub installed: bool,
}

impl DiskArgs {
    /// Whether the guest counts as installed.
    pub fn installed(&self) -> (r: bool)
        ensures
            r == self.installed,
    {
        self.installed
    }
}

/// The drive name of a disk: the bootloader at index 0, the system disk at
/// index 1, `Disk<index>` for the others.
pub open spec fn spec_disk_name(index: u32) -> Seq<char> {
    if index == 0 { "Bootloader"@ } else if index == 1 { "SystemDisk"@ } else { "Disk"@ + decimal(index as nat) }
}

/// The QEMU arguments of a disk of a guest.
pub open spec fn spec_disk_args(d: MountedDisk, guest: GuestOS) -> Seq<Seq<char>> {
    if guest == GuestOS::ReactOS {
        seq!["-drive"@, "if=ide,index="@ + decimal(d.index as nat) + ",media=disk,file="@ + d.path@]
    } else {
        let bus = match guest {
            GuestOS::MacOS { release } => if release.spec_rank() < MacOSRelease::Catalina.spec_rank() {
                "ide-hd,bus=ahci.2,drive="@
            } else {
                "virtio-blk-pci,drive="@
            },
            GuestOS::KolibriOS => "ide-hd,bus=ahci.0,drive="@,
            _ => "virtio-blk-pci,drive="@,
        };
        seq!["-device"@, bus + spec_disk_name(d.index), "-drive"@,
            "id="@ + spec_disk_name(d.index) + ",if=none,format="@ + d.format.spec_str() + ",file="@ + d.path@]
    }
}

impl MountedDisk {
    /// The drive name of the disk.
    pub fn disk_name(&self) -> (r: String)
        ensures
            r@ == spec_disk_name(self.index),
    {
        if self.index == 0 {
            String::from_str("Bootloader")
        } else if self.index == 1 {
            String::from_str("SystemDisk")
        } else {
            let mut s = String::from_str("Disk");
            let n = u64_to_string(self.index as u64);
            s.append(n.as_str());
            s
        }
    }

    /// The QEMU arguments of the disk.
    pub fn args(&self, guest: GuestOS) -> (r: Vec<String>)
        ensures
            views(r@) == spec_disk_args(*self, guest),
    {
        let mut a: Vec<String> = Vec::new();
        if let GuestOS::ReactOS = guest {
            let mut s = String::from_str("if=ide,index=");
            let n = u64_to_string(self.index as u64);
            s.append(n.as_str());
            s.append(",media=disk,file=");
            s.append(self.path.as_str());
            push_arg(&mut a, "-drive");
            push_string(&mut a, s);
            assert(views(a@) =~= spec_disk_args(*self, guest));
            return a;
        }
        let bus: &str = match guest {
            GuestOS::MacOS { release } => if !release.at_least(MacOSRelease::Catalina) {
                "ide-hd,bus=ahci.2,drive="
            } else {
                "virtio-blk-pci,drive="
            },
            GuestOS::KolibriOS => "ide-hd,bus=ahci.0,drive=",
            _ => "virtio-blk-pci,drive=",
        };
        let name = self.disk_name();
        let mut device = String::from_str(bus);
        device.append(name.as_str());
        let mut drive = String::from_str("id=");
        drive.append(name.as_str());
        drive.append(",if=none,format=");
        drive.append(self.format.as_str());
        drive.append(",file=");
        drive.append(self.path.as_str());
        push_arg(&mut a, "-device");
        push_string(&mut a, device);
        push_arg(&mut a, "-drive");
        push_string(&mut a, drive);
        assert(views(a@) =~= spec_disk_args(*self, guest));
        a
    }

    /// The description line of the disk.
    pub open spec fn spec_line(self) -> (Seq<char>, Seq<char>) {
        (if self.is_new { "Disk (Created)"@ } else { "Disk"@ }, self.path@ + " ("@ + size_text(size_bytes(self.size as int)) + ")"@)
    }

    /// The description line of the disk.
    pub fn arg_display(&self) -> (r: ArgDisplay)
        ensures
            r.view() == self.spec_line(),
    {
        let name: &str = if self.is_new { "Disk (Created)" } else { "Disk" };
        let mut v = self.path.clone();
        v.append(" (");
        let s = size_to_string(size_from_u64(self.size));
        v.append(s.as_str());
        v.append(")");
        ArgDisplay::new(name, v)
    }
}

/// The QEMU arguments of each disk, each followed by `-snapshot` where
/// the guest's disks are left as they are.
pub open spec fn spec_disks_args(d: Seq<MountedDisk>, guest: GuestOS, status_quo: bool) -> Seq<Seq<char>>
    decreases d.len(),
{
    if d.len() == 0 {
        seq![]
    } else {
        spec_disks_args(d.drop_last(), guest, status_quo) + spec_disk_args(d.last(), guest)
            + (if status_quo { seq!["-snapshot"@] } else { seq![] })
    }
}

/// The arguments of one disk hold no `-snapshot`.
proof fn lemma_disk_args_no_snapshot(d: MountedDisk, guest: GuestOS)
    ensures
        forall|k: int| 0 <= k < spec_disk_args(d, guest).len() ==> spec_disk_args(d, guest)[k] != "-snapshot"@,
{
    reveal_strlit("-snapshot");
    reveal_strlit("-drive");
    reveal_strlit("-device");
    reveal_strlit("if=ide,index=");
    reveal_strlit("id=");
    reveal_strlit("virtio-blk-pci,drive=");
    reveal_strlit("ide-hd,bus=ahci.2,drive=");
    reveal_strlit("ide-hd,bus=ahci.0,drive=");
    let a = spec_disk_args(d, guest);
    assert("-drive"@.len() != "-snapshot"@.len());
    assert("-device"@.len() != "-snapshot"@.len());
    if guest == GuestOS::ReactOS {
        let x = "if=ide,index="@ + decimal(d.index as nat) + ",media=disk,file="@ + d.path@;
        assert(x[0] == 'i');
        lemma_not_snapshot_by_first(x);
        assert(a[0] != "-snapshot"@ && a[1] != "-snapshot"@);
    } else {
        let bus = match guest {
            GuestOS::MacOS { release } => if release.spec_rank() < MacOSRelease::Catalina.spec_rank() {
                "ide-hd,bus=ahci.2,drive="@
            } else {
                "virtio-blk-pci,drive="@
            },
            GuestOS::KolibriOS => "ide-hd,bus=ahci.0,drive="@,
            _ => "virtio-blk-pci,drive="@,
        };
        let dev = bus + spec_disk_name(d.index);
        let drv = "id="@ + spec_disk_name(d.index) + ",if=none,format="@ + d.format.spec_str() + ",file="@ + d.path@;
        assert(dev[0] == bus[0]);
        lemma_not_snapshot_by_first(dev);
        assert(drv[0] == 'i');
        lemma_not_snapshot_by_first(drv);
        assert(a[0] != "-snapshot"@ && a[1] != "-snapshot"@ && a[2] != "-snapshot"@ && a[3] != "-snapshot"@);
    }
}

/// Adding `-snapshot` as a list of one is pushing it.
proof fn lemma_cat_snapshot(a: Seq<Seq<char>>, f: Seq<Seq<char>>)
    ensures
        a + f + seq!["-snapshot"@] == a + f.push("-snapshot"@),
        a + f + Seq::<Seq<char>>::empty() == a + f,
{
    assert(a + f + seq!["-snapshot"@] =~= a + f.push("-snapshot"@));
    assert(a + f + Seq::<Seq<char>>::empty() =~= a + f);
}

/// The arguments of the disks, one disk more.
proof fn lemma_disks_args_unfold(d: Seq<MountedDisk>, guest: GuestOS)
    requires
        d.len() > 0,
    ensures
        spec_disks_args(d, guest, true) == spec_disks_args(d.drop_last(), guest, true) + spec_disk_args(d.last(), guest)
            .push("-snapshot"@),
        spec_disks_args(d, guest, false) == spec_disks_args(d.drop_last(), guest, false) + spec_disk_args(d.last(), guest),
{
    lemma_cat_snapshot(spec_disks_args(d.drop_last(), guest, true), spec_disk_args(d.last(), guest));
    lemma_cat_snapshot(spec_disks_args(d.drop_last(), guest, false), spec_disk_args(d.last(), guest));
}

/// Counting and removing `-snapshot` in the arguments of the disks.
proof fn lemma_disks_snapshots(d: Seq<MountedDisk>, guest: GuestOS)
    ensures
        spec_disks_args(d, guest, true).filter(is_snapshot()).len() == d.len(),
        spec_disks_args(d, guest, false).filter(is_snapshot()).len() == 0,
        spec_disks_args(d, guest, true).filter(not_snapshot()) == spec_disks_args(d, guest, false),
    decreases d.len(),
{
    if d.len() > 0 {
        let l = d.drop_last();
        lemma_disks_snapshots(l, guest);
        lemma_disk_args_no_snapshot(d.last(), guest);
        lemma_disks_args_unfold(d, guest);
        lemma_snapshot_step(spec_disks_args(l, guest, true), spec_disks_args(l, guest, false), spec_disk_args(d.last(), guest),
            l.len());
    } else {
        lemma_filter_no_snapshot(Seq::<Seq<char>>::empty());
    }
}

/// The disks' arguments without `-snapshot` are kept whole by removing
/// it.
proof fn lemma_disks_no_snapshot(d: Seq<MountedDisk>, guest: GuestOS)
    ensures
        spec_disks_args(d, guest, false).filter(not_snapshot()) == spec_disks_args(d, guest, false),
    decreases d.len(),
{
    if d.len() > 0 {
        let l = d.drop_last();
        lemma_disks_no_snapshot(l, guest);
        lemma_disks_args_unfold(d, guest);
        lemma_disk_args_no_snapshot(d.last(), guest);
        lemma_filter_no_snapshot(spec_disk_args(d.last(), guest));
        Seq::filter_distributes_over_add(spec_disks_args(l, guest, false), spec_disk_args(d.last(), guest), not_snapshot());
    } else {
        lemma_filter_no_snapshot(Seq::<Seq<char>>::empty());
    }
}

/// Counting and removing `-snapshot` over three joined parts.
proof fn lemma_snapshot_three(a: Seq<Seq<char>>, bt: Seq<Seq<char>>, bf: Seq<Seq<char>>, ct: Seq<Seq<char>>,
    cf: Seq<Seq<char>>)
    requires
        a.filter(is_snapshot()).len() == 0,
        a.filter(not_snapshot()) == a,
        bt.filter(not_snapshot()) == bf,
        ct.filter(not_snapshot()) == cf,
    ensures
        (a + bt + ct).filter(is_snapshot()).len() == bt.filter(is_snapshot()).len() + ct.filter(is_snapshot()).len(),
        (a + bt + ct).filter(not_snapshot()) == a + bf + cf,
{
    Seq::filter_distributes_over_add(a + bt, ct, is_snapshot());
    Seq::filter_distributes_over_add(a, bt, is_snapshot());
    Seq::filter_distributes_over_add(a + bt, ct, not_snapshot());
    Seq::filter_distributes_over_add(a, bt, not_snapshot());
}

/// Arguments without `-snapshot`, followed by one.
proof fn lemma_then_snapshot(f: Seq<Seq<char>>)
    requires
        forall|k: int| 0 <= k < f.len() ==> f[k] != "-snapshot"@,
    ensures
        (f + seq!["-snapshot"@]).filter(is_snapshot()).len() == 1,
        (f + seq!["-snapshot"@]).filter(not_snapshot()) == f,
{
    lemma_filter_push_snapshot(f);
    assert(f + seq!["-snapshot"@] =~= f.push("-snapshot"@));
}

/// The bootloader's part of the arguments, counted and without
/// `-snapshot`.
proof fn lemma_bootloader_part(b: Option<MountedDisk>, guest: GuestOS, status_quo: bool)
    ensures
        (match b { Some(d) => spec_disk_args(d, guest) + (if status_quo { seq!["-snapshot"@] } else { seq![] }), None => seq![] })
            .filter(is_snapshot()).len() == (if status_quo && b is Some { 1int } else { 0 }),
        (match b { Some(d) => spec_disk_args(d, guest) + (if status_quo { seq!["-snapshot"@] } else { seq![] }), None => seq![] })
            .filter(not_snapshot())
            == (match b { Some(d) => spec_disk_args(d, guest) + (if false { seq!["-snapshot"@] } else { seq![] }), None => seq![] }),
{
    match b {
        Some(d) => {
            let f = spec_disk_args(d, guest);
            lemma_disk_args_no_snapshot(d, guest);
            let e = Seq::<Seq<char>>::empty();
            assert(f + e =~= f);
            lemma_filter_no_snapshot(f);
            if status_quo {
                lemma_then_snapshot(f);
            }
        },
        None => {
            lemma_filter_no_snapshot(Seq::<Seq<char>>::empty());
        },
    }
}

/// Leaving the disks as they are (`status_quo`) follows the bootloader's
/// and every disk's arguments with `-snapshot`, so that nothing is written
/// to them, and changes nothing else: the arguments hold one `-snapshot`
/// per disk and bootloader, and without them they are the arguments of
/// the same disks written to; otherwise they hold none.
pub proof fn law_status_quo_snapshots(x: DiskArgs)
    ensures
        x.spec_qemu_args().filter(is_snapshot()).len() == (if x.status_quo {
            x.mounted_disks@.len() + (if x.bootloader is Some { 1int } else { 0 })
        } else {
            0
        }),
        x.spec_qemu_args().filter(not_snapshot()) == (DiskArgs { status_quo: false, ..x }).spec_qemu_args(),
{
    let y = DiskArgs { status_quo: false, ..x };
    let ahci: Seq<Seq<char>> = if x.ahci { seq!["-device"@, "ahci,id=ahci"@] } else { seq![] };
    assert forall|k: int| 0 <= k < ahci.len() implies ahci[k] != "-snapshot"@ by {
        reveal_strlit("-snapshot");
        reveal_strlit("-device");
        reveal_strlit("ahci,id=ahci");
        assert("-device"@.len() != "-snapshot"@.len());
        assert("ahci,id=ahci"@.len() != "-snapshot"@.len());
    }
    lemma_filter_no_snapshot(ahci);
    lemma_bootloader_part(x.bootloader, x.guest, x.status_quo);
    let bt = match x.bootloader { Some(d) => spec_disk_args(d, x.guest) + (if x.status_quo { seq!["-snapshot"@] } else { seq![] }),
        None => seq![] };
    let bf = match x.bootloader { Some(d) => spec_disk_args(d, x.guest) + (if false { seq!["-snapshot"@] } else { seq![] }),
        None => seq![] };
    lemma_disks_snapshots(x.mounted_disks@, x.guest);
    let ct = spec_disks_args(x.mounted_disks@, x.guest, x.status_quo);
    let cf = spec_disks_args(x.mounted_disks@, x.guest, false);
    lemma_disks_no_snapshot(x.mounted_disks@, x.guest);
    lemma_snapshot_three(ahci, bt, bf, ct, cf);
}

impl EmulatorArgs for DiskArgs {
    open spec fn spec_display(&self) -> Seq<(Seq<char>, Seq<char>)> {
        self.mounted_disks@.map_values(|m: MountedDisk| m.spec_line())
    }

    open spec fn spec_qemu_args(&self) -> Seq<Seq<char>> {
        (if self.ahci { seq!["-device"@, "ahci,id=ahci"@] } else { seq![] })
            + (match self.bootloader {
                Some(b) => spec_disk_args(b, self.guest) + (if self.status_quo { seq!["-snapshot"@] } else { seq![] }),
                None => seq![],
            })
            + spec_disks_args(self.mounted_disks@, self.guest, self.status_quo)
    }

    fn display(&self) -> (r: Vec<ArgDisplay>) {
        let mut r: Vec<ArgDisplay> = Vec::new();
        let mut i: usize = 0;
        while i < self.mounted_disks.len()
            invariant
                i <= self.mounted_disks@.len(),
                lines(r@) == self.mounted_disks@.subrange(0, i as int).map_values(|m: MountedDisk| m.spec_line()),
            decreases self.mounted_disks.len() - i,
        {
            push_line(&mut r, self.mounted_disks[i].arg_display());
            assert(self.mounted_disks@.subrange(0, i + 1).map_values(|m: MountedDisk| m.spec_line())
                =~= self.mounted_disks@.subrange(0, i as int).map_values(|m: MountedDisk| m.spec_line())
                    .push(self.mounted_disks@[i as int].spec_line()));
            i = i + 1;
        }
        assert(self.mounted_disks@.subrange(0, self.mounted_disks@.len() as int) =~= self.mounted_disks@);
        r
    }

    fn qemu_args(&self) -> (r: Vec<String>) {
        let mut a: Vec<String> = Vec::new();
        if self.ahci {
            push_arg(&mut a, "-device");
            push_arg(&mut a, "ahci,id=ahci");
        }
        let ghost s1 = views(a@);
        match &self.bootloader {
            Some(b) => {
                let ba = b.args(self.guest);
                crate::text::extend_args(&mut a, &ba);
                if self.status_quo {
                    push_arg(&mut a, "-snapshot");
                }
            },
            None => {},
        }
        let ghost s2 = views(a@);
        assert(s1 =~= (if self.ahci { seq!["-device"@, "ahci,id=ahci"@] } else { seq![] }));
        assert(s2 =~= s1 + (match self.bootloader {
            Some(b) => spec_disk_args(b, self.guest) + (if self.status_quo { seq!["-snapshot"@] } else { seq![] }),
            None => seq![],
        }));
        let mut i: usize = 0;
        while i < self.mounted_disks.len()
            invariant
                i <= self.mounted_disks@.len(),
                views(a@) == s2 + spec_disks_args(self.mounted_disks@.subrange(0, i as int), self.guest, self.status_quo),
            decreases self.mounted_disks.len() - i,
        {
            let da = self.mounted_disks[i].args(self.guest);
            crate::text::extend_args(&mut a, &da);
            if self.status_quo {
                push_arg(&mut a, "-snapshot");
            }
            assert(self.mounted_disks@.subrange(0, i + 1).drop_last() =~= self.mounted_disks@.subrange(0, i as int));
            assert(views(a@) =~= s2 + spec_disks_args(self.mounted_disks@.subrange(0, i + 1), self.guest, self.status_quo));
            i = i + 1;
        }
        assert(self.mounted_disks@.subrange(0, self.mounted_disks@.len() as int) =~= self.mounted_disks@);
        a
    }
}

} // verus!
