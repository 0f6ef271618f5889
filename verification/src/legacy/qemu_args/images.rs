//! The disks and images of a guest in the first-generation builder.

use vstd::prelude::*;
use crate::legacy::config::{DiskFormat, DiskImage, GuestOS, Image, MacOSRelease, PreAlloc};
use crate::text::{decimal, join_path, path_join, push_arg, push_string, u64_to_string, views};
use super::info::{parse_virtual_size, spec_virtual_size};

verus! {

/// A disk that holds no more than this (bytes) counts as not installed.
pub const LEGACY_MIN_DISK_SIZE: u64 = 1581056;

/// Whether `r` is the first index from `start` on that is not taken.
pub open spec fn is_first_free_u8(r: int, start: int, used: Seq<u8>) -> bool {
    &&& start <= r <= 255
    &&& !used.contains(r as u8)
    &&& forall|k: int| start <= k < r ==> #[trigger] used.contains(k as u8)
}

/// The first index from `start` on that is not taken.
pub open spec fn first_free_u8(start: int, used: Seq<u8>) -> int {
    choose|r: int| is_first_free_u8(r, start, used)
}

/// There is one first free index.
pub proof fn lemma_first_free_u8_unique(a: int, b: int, start: int, used: Seq<u8>)
    requires
        is_first_free_u8(a, start, used),
        is_first_free_u8(b, start, used),
    ensures
        a == b,
{
    if a < b {
        assert(used.contains(a as u8));
    } else if b < a {
        assert(used.contains(b as u8));
    }
}

/// Whether `x` is in the list.
pub fn contains_u8(v: &Vec<u8>, x: u8) -> (r: bool)
    ensures
        r == v@.contains(x),
{
    let mut i: usize = 0;
    while i < v.len()
        invariant
            i <= v@.len(),
            forall|j: int| 0 <= j < i ==> v@[j] != x,
        decreases v.len() - i,
    {
        if v[i] == x {
            assert(v@[i as int] == x);
            return true;
        }
        i = i + 1;
    }
    false
}

/// Takes the first index from `index` on that is not taken yet; one must
/// be free up to 255.
pub fn find_next_index(index: u8, used: &mut Vec<u8>) -> (r: u8)
    requires
        exists|i: int| index <= i <= 255 && !#[trigger] old(used)@.contains(i as u8),
    ensures
        is_first_free_u8(r as int, index as int, old(used)@),
        r == first_free_u8(index as int, old(used)@),
        final(used)@ == old(used)@.push(r),
{
    let mut k = index;
    while contains_u8(used, k)
        invariant
            index <= k,
            used@ == old(used)@,
            exists|i: int| k <= i <= 255 && !#[trigger] used@.contains(i as u8),
            forall|m: int| index <= m < k ==> #[trigger] used@.contains(m as u8),
        decreases 255 - k,
    {
        proof {
            let i = choose|i: int| k <= i <= 255 && !#[trigger] used@.contains(i as u8);
            assert(i != k);
        }
        k = k + 1;
    }
    proof {
        assert(is_first_free_u8(k as int, index as int, old(used)@));
        let c = first_free_u8(index as int, old(used)@);
        lemma_first_free_u8_unique(c, k as int, index as int, old(used)@);
    }
    used.push(k);
    k
}

/// The drive option of a disk: its id, format and file.
pub open spec fn spec_disk_arg(disk: Seq<char>, id: Seq<char>, format: Seq<char>) -> Seq<char> {
    "id="@ + id + ",if=none,format="@ + format + ",file="@ + disk
}

/// The drive option of a disk.
pub fn disk_arg(disk: &str, id: &str, disk_format: &str) -> (r: String)
    ensures
        r@ == spec_disk_arg(disk@, id@, disk_format@),
{
    let mut a = String::from_str("id=");
    a.append(id);
    a.append(",if=none,format=");
    a.append(disk_format);
    a.append(",file=");
    a.append(disk);
    a
}

/// The name of the disk with key `key`: the system disk first, then
/// `Disk<key>`.
pub open spec fn spec_disk_name(key: nat) -> Seq<char> {
    if key == 1 { "SystemDisk"@ } else { "Disk"@ + decimal(key) }
}

/// The arguments of a disk on a bus, with key `key`.
pub open spec fn spec_handle_disks(disk: Seq<char>, arg: Seq<char>, format: Seq<char>, key: nat) -> Seq<Seq<char>> {
    seq!["-device"@, arg + spec_disk_name(key), "-drive"@, spec_disk_arg(disk, spec_disk_name(key), format)]
}

/// The arguments of a disk on a bus, with key `key`.
pub fn handle_disks(disk: &str, arg: &str, disk_format: &str, key: u8) -> (r: Vec<String>)
    ensures
        views(r@) == spec_handle_disks(disk@, arg@, disk_format@, key as nat),
{
    let name = if key == 1 {
        String::from_str("SystemDisk")
    } else {
        let mut n = String::from_str("Disk");
        let k = u64_to_string(key as u64);
        n.append(k.as_str());
        n
    };
    let mut device = String::from_str(arg);
    device.append(name.as_str());
    let drive = disk_arg(disk, name.as_str(), disk_format);
    let mut a: Vec<String> = Vec::new();
    push_arg(&mut a, "-device");
    push_string(&mut a, device);
    push_arg(&mut a, "-drive");
    push_string(&mut a, drive);
    assert(views(a@) =~= spec_handle_disks(disk@, arg@, disk_format@, key as nat));
    a
}

/// The IDE drive option of a ReactOS file at an index, as a medium.
pub open spec fn spec_reactos_arg(file: Seq<char>, index: nat, media: Seq<char>) -> Seq<char> {
    "if=ide,index="@ + decimal(index) + ",media="@ + media + ",file="@ + file
}

/// The IDE drive option of a ReactOS file at an index, as a medium.
pub fn reactos_arg(file: &str, index: u8, media_type: &str) -> (r: String)
    ensures
        r@ == spec_reactos_arg(file@, index as nat, media_type@),
{
    let mut a = String::from_str("if=ide,index=");
    let i = u64_to_string(index as u64);
    a.append(i.as_str());
    a.append(",media=");
    a.append(media_type);
    a.append(",file=");
    a.append(file);
    a
}

/// The CD-ROM drive option of an ISO image at an index.
pub open spec fn spec_iso_arg(iso: Seq<char>, index: nat) -> Seq<char> {
    "media=cdrom,index="@ + decimal(index) + ",file="@ + iso
}

/// The CD-ROM drive option of an ISO image at an index.
pub fn iso_arg(iso: &str, index: u8) -> (r: String)
    ensures
        r@ == spec_iso_arg(iso@, index as nat),
{
    let mut a = String::from_str("media=cdrom,index=");
    let i = u64_to_string(index as u64);
    a.append(i.as_str());
    a.append(",file=");
    a.append(iso);
    a
}

/// The drive option of a raw image with an id.
pub open spec fn spec_img_arg(img: Seq<char>, id: Seq<char>) -> Seq<char> {
    "id="@ + id + ",if=none,format=raw,file="@ + img
}

/// The drive option of a raw image with an id.
pub fn img_arg(img: &str, id: &str) -> (r: String)
    ensures
        r@ == spec_img_arg(img@, id@),
{
    let mut a = String::from_str("id=");
    a.append(id);
    a.append(",if=none,format=raw,file=");
    a.append(img);
    a
}

/// The drive option of a floppy image.
pub fn floppy_arg(floppy: &str) -> (r: String)
    ensures
        r@ == "if=floppy,format=raw,file="@ + floppy@,
{
    let mut a = String::from_str("if=floppy,format=raw,file=");
    a.append(floppy);
    a
}

/// The bus that the disks of a guest are on: VirtIO for macOS from
/// Catalina on, Batocera and most guests; AHCI port 2 for older macOS;
/// AHCI port 0 for KolibriOS; IDE for Windows Server.
pub open spec fn spec_disk_bus(guest: GuestOS) -> Seq<char> {
    match guest {
        GuestOS::MacOS { release } => if release.spec_rank() >= MacOSRelease::Catalina.spec_rank() {
            "virtio-blk-pci,drive="@
        } else {
            "ide-hd,bus=ahci.2,drive="@
        },
        GuestOS::KolibriOS => "ide-hd,bus=ahci.0,drive="@,
        GuestOS::WindowsServer => "ide-hd,drive="@,
        _ => "virtio-blk-pci,drive="@,
    }
}

/// The index of the `i`th ReactOS disk: 0 and 1, then from 3 on, as 2 is
/// kept for the installer.
pub open spec fn spec_reactos_disk_index(i: int) -> int {
    if i >= 2 { i + 1 } else { i }
}

/// The arguments of the `i`th disk of a guest.
pub open spec fn spec_one_disk(d: DiskImage, i: int, guest: GuestOS, status_quo: bool) -> Seq<Seq<char>> {
    (if guest == GuestOS::ReactOS {
        seq!["-drive"@, spec_reactos_arg(d.path@, spec_reactos_disk_index(i) as nat, "disk"@)]
    } else {
        spec_handle_disks(d.path@, spec_disk_bus(guest), d.format->Some_0.spec_as_str(), (i + 1) as nat)
    }) + (if status_quo { seq!["-snapshot"@] } else { seq![] })
}

/// The arguments of the first `n` disks of a guest.
pub open spec fn spec_disks(disks: Seq<DiskImage>, guest: GuestOS, status_quo: bool, n: nat) -> Seq<Seq<char>>
    decreases n,
{
    if n == 0 {
        seq![]
    } else {
        spec_disks(disks, guest, status_quo, (n - 1) as nat) + spec_one_disk(disks[n - 1], n - 1, guest, status_quo)
    }
}

/// The drive indices that the first `n` disks of a guest take: ReactOS
/// disks are on IDE at 0, 1, 3, 4, ..., other guests' disks take none.
pub open spec fn spec_disk_indices(guest: GuestOS, n: nat) -> Seq<u8> {
    if guest == GuestOS::ReactOS {
        Seq::new(n, |i: int| spec_reactos_disk_index(i) as u8)
    } else {
        seq![]
    }
}

/// Whether an argument is not `-snapshot`.
pub open spec fn not_snapshot() -> spec_fn(Seq<char>) -> bool {
    |x: Seq<char>| x != "-snapshot"@
}

/// Whether an argument is `-snapshot`.
pub open spec fn is_snapshot() -> spec_fn(Seq<char>) -> bool {
    |x: Seq<char>| x == "-snapshot"@
}

/// A list without `-snapshot` keeps all of its arguments under the first
/// filter and none under the second.
pub(crate) proof fn lemma_filter_no_snapshot(s: Seq<Seq<char>>)
    requires
        forall|k: int| 0 <= k < s.len() ==> s[k] != "-snapshot"@,
    ensures
        s.filter(not_snapshot()) == s,
        s.filter(is_snapshot()) == Seq::<Seq<char>>::empty(),
    decreases s.len(),
{
    reveal(Seq::filter);
    if s.len() > 0 {
        lemma_filter_no_snapshot(s.drop_last());
        assert(s.drop_last().push(s.last()) =~= s);
    }
}

/// A text that starts with a character other than `-` is not `-snapshot`.
pub(crate) proof fn lemma_not_snapshot_by_first(x: Seq<char>)
    requires
        x.len() > 0,
        x[0] != '-',
    ensures
        x != "-snapshot"@,
{
    reveal_strlit("-snapshot");
}

/// The arguments of one disk, left as it is, hold no `-snapshot`.
proof fn lemma_one_disk_no_snapshot(d: DiskImage, i: int, guest: GuestOS)
    ensures
        forall|k: int| 0 <= k < spec_one_disk(d, i, guest, false).len() ==> spec_one_disk(d, i, guest, false)[k] != "-snapshot"@,
{
    reveal_strlit("-snapshot");
    reveal_strlit("-drive");
    reveal_strlit("-device");
    reveal_strlit("if=ide,index=");
    reveal_strlit("id=");
    reveal_strlit("virtio-blk-pci,drive=");
    reveal_strlit("ide-hd,bus=ahci.2,drive=");
    reveal_strlit("ide-hd,bus=ahci.0,drive=");
    reveal_strlit("ide-hd,drive=");
    let a = spec_one_disk(d, i, guest, false);
    assert("-drive"@.len() != "-snapshot"@.len());
    assert("-device"@.len() != "-snapshot"@.len());
    if guest == GuestOS::ReactOS {
        let x = spec_reactos_arg(d.path@, spec_reactos_disk_index(i) as nat, "disk"@);
        assert(x[0] == 'i');
        lemma_not_snapshot_by_first(x);
        assert(a =~= seq!["-drive"@, x]);
        assert(a[0] != "-snapshot"@ && a[1] != "-snapshot"@);
    } else {
        let key = (i + 1) as nat;
        let bus = spec_disk_bus(guest);
        let dev = bus + spec_disk_name(key);
        let drv = spec_disk_arg(d.path@, spec_disk_name(key), d.format->Some_0.spec_as_str());
        assert(bus.len() > 0 && (bus[0] == 'v' || bus[0] == 'i'));
        assert(dev[0] == bus[0]);
        lemma_not_snapshot_by_first(dev);
        assert(drv[0] == 'i');
        lemma_not_snapshot_by_first(drv);
        assert(a =~= seq!["-device"@, dev, "-drive"@, drv]);
        assert(a[0] != "-snapshot"@ && a[1] != "-snapshot"@ && a[2] != "-snapshot"@ && a[3] != "-snapshot"@);
    }
}

/// Adding `-snapshot` to a list without one: the first filter gives the
/// list back, the second the one `-snapshot`.
pub(crate) proof fn lemma_filter_push_snapshot(f: Seq<Seq<char>>)
    requires
        forall|k: int| 0 <= k < f.len() ==> f[k] != "-snapshot"@,
    ensures
        f.push("-snapshot"@).filter(not_snapshot()) == f,
        f.push("-snapshot"@).filter(is_snapshot()) == seq!["-snapshot"@],
{
    lemma_filter_no_snapshot(f);
    reveal(Seq::filter);
    assert(f.push("-snapshot"@).drop_last() =~= f);
    assert(Seq::<Seq<char>>::empty().push("-snapshot"@) =~= seq!["-snapshot"@]);
}

/// One disk left as it is has `-snapshot` after its arguments.
proof fn lemma_one_disk_snapshot(d: DiskImage, i: int, guest: GuestOS)
    ensures
        spec_one_disk(d, i, guest, true) == spec_one_disk(d, i, guest, false).push("-snapshot"@),
{
    assert(spec_one_disk(d, i, guest, true) =~= spec_one_disk(d, i, guest, false).push("-snapshot"@));
}

/// Adding one disk's arguments and its `-snapshot` keeps the counts.
pub(crate) proof fn lemma_snapshot_step(pt: Seq<Seq<char>>, pf: Seq<Seq<char>>, f: Seq<Seq<char>>, m: nat)
    requires
        pt.filter(is_snapshot()).len() == m,
        pf.filter(is_snapshot()).len() == 0,
        pt.filter(not_snapshot()) == pf,
        forall|k: int| 0 <= k < f.len() ==> f[k] != "-snapshot"@,
    ensures
        (pt + f.push("-snapshot"@)).filter(is_snapshot()).len() == m + 1,
        (pf + f).filter(is_snapshot()).len() == 0,
        (pt + f.push("-snapshot"@)).filter(not_snapshot()) == pf + f,
{
    let t = f.push("-snapshot"@);
    lemma_filter_no_snapshot(f);
    lemma_filter_push_snapshot(f);
    Seq::filter_distributes_over_add(pt, t, is_snapshot());
    Seq::filter_distributes_over_add(pt, t, not_snapshot());
    Seq::filter_distributes_over_add(pf, f, is_snapshot());
}

/// Counting and removing `-snapshot` in the arguments of the first `n`
/// disks.
proof fn lemma_snapshot_filters(disks: Seq<DiskImage>, guest: GuestOS, n: nat)
    requires
        n <= disks.len(),
    ensures
        spec_disks(disks, guest, true, n).filter(is_snapshot()).len() == n,
        spec_disks(disks, guest, false, n).filter(is_snapshot()).len() == 0,
        spec_disks(disks, guest, true, n).filter(not_snapshot()) == spec_disks(disks, guest, false, n),
    decreases n,
{
    if n > 0 {
        let m = (n - 1) as nat;
        lemma_snapshot_filters(disks, guest, m);
        let d = disks[m as int];
        lemma_one_disk_snapshot(d, m as int, guest);
        lemma_one_disk_no_snapshot(d, m as int, guest);
        lemma_snapshot_step(spec_disks(disks, guest, true, m), spec_disks(disks, guest, false, m),
            spec_one_disk(d, m as int, guest, false), m);
    } else {
        lemma_filter_no_snapshot(Seq::<Seq<char>>::empty());
    }
}

/// Leaving the disks as they are (`status_quo`) puts `-snapshot` after
/// each disk's arguments and changes nothing else: the disks' arguments
/// hold one `-snapshot` per disk, and without them they are the
/// arguments of the disks otherwise.
pub proof fn law_snapshot_after_each_disk(disks: Seq<DiskImage>, guest: GuestOS, n: nat)
    requires
        n <= disks.len(),
    ensures
        forall|i: int| 0 <= i < n ==> #[trigger] spec_one_disk(disks[i], i, guest, true)
            == spec_one_disk(disks[i], i, guest, false).push("-snapshot"@),
        spec_disks(disks, guest, true, n).filter(is_snapshot()).len() == n,
        spec_disks(disks, guest, false, n).filter(is_snapshot()).len() == 0,
        spec_disks(disks, guest, true, n).filter(not_snapshot()) == spec_disks(disks, guest, false, n),
{
    assert forall|i: int| 0 <= i < n implies #[trigger] spec_one_disk(disks[i], i, guest, true)
        == spec_one_disk(disks[i], i, guest, false).push("-snapshot"@) by {
        lemma_one_disk_snapshot(disks[i], i, guest);
    }
    lemma_snapshot_filters(disks, guest, n);
}

/// How many disks a guest can have: a ReactOS guest's disks take the
/// IDE indices up to 255 (but 2), other guests' disks are numbered from 1
/// by a byte, so up to 254.
pub open spec fn spec_disk_limit(guest: GuestOS) -> nat {
    if guest == GuestOS::ReactOS { 255 } else { 254 }
}

/// Why a macOS guest without a bootloader is refused.
pub open spec fn spec_mac_bootloader_error() -> Seq<char> {
    "Could not find macOS bootloader. Please ensure that `OpenCore.qcow2` or `ESP.qcow2` is located within your VM directory."@
}

/// The bootloader disks that a macOS guest looks for, in order.
pub open spec fn spec_legacy_mac_bootloaders(vm_dir: Seq<char>) -> (Seq<char>, Seq<char>) {
    (join_path(vm_dir, "OpenCore.qcow2"@), join_path(vm_dir, "ESP.qcow2"@))
}

/// The arguments of the disks of a guest: macOS guests start with their
/// bootloader on an AHCI controller (the first of `OpenCore.qcow2` and
/// `ESP.qcow2` in the VM directory that exists; none is refused), KolibriOS
/// guests with the controller; then each disk on the guest's bus (ReactOS
/// disks on IDE, skipping index 2), each followed by `-snapshot` where
/// the disks are left as they are. Every disk needs its format. Also
/// gives the drive indices that the disks took.
pub fn disk_img_args(disks: &Vec<DiskImage>, guest_os: &GuestOS, vm_dir: &str, status_quo: bool, bootloader_exists: (bool, bool))
    -> (r: Result<(Vec<String>, Vec<u8>), String>)
    requires
        !(guest_os is MacOS && !bootloader_exists.0 && !bootloader_exists.1) ==> disks@.len() <= spec_disk_limit(*guest_os),
        !(guest_os is MacOS && !bootloader_exists.0 && !bootloader_exists.1)
            ==> forall|i: int| 0 <= i < disks@.len() ==> (#[trigger] disks@[i]).format is Some,
    ensures
        guest_os is MacOS && !bootloader_exists.0 && !bootloader_exists.1
            ==> (r matches Err(m) && m@ == spec_mac_bootloader_error()),
        !(guest_os is MacOS && !bootloader_exists.0 && !bootloader_exists.1) ==> (r matches Ok((a, u))
            && u@ == spec_disk_indices(*guest_os, disks@.len()) && views(a@) == (match *guest_os {
            GuestOS::MacOS { .. } => seq!["-device"@, "ahci,id=ahci"@, "-device"@, "ide-hd,bus=ahci.0,drive=BootLoader,bootindex=0"@,
                "-drive"@, spec_disk_arg(if bootloader_exists.0 { spec_legacy_mac_bootloaders(vm_dir@).0 } else {
                    spec_legacy_mac_bootloaders(vm_dir@).1 }, "BootLoader"@, "qcow2"@)],
            GuestOS::KolibriOS => seq!["-device"@, "ahci,id=ahci"@],
            _ => seq![],
        }) + spec_disks(disks@, *guest_os, status_quo, disks@.len())),
{
    let mut a: Vec<String> = Vec::new();
    match guest_os {
        GuestOS::MacOS { .. } => {
            let bootloader = if bootloader_exists.0 {
                path_join(vm_dir, "OpenCore.qcow2")
            } else if bootloader_exists.1 {
                path_join(vm_dir, "ESP.qcow2")
            } else {
                let m = String::from_str(
                    "Could not find macOS bootloader. Please ensure that `OpenCore.qcow2` or `ESP.qcow2` is located within your VM directory.",
                );
                return Err(m);
            };
            push_arg(&mut a, "-device");
            push_arg(&mut a, "ahci,id=ahci");
            push_arg(&mut a, "-device");
            push_arg(&mut a, "ide-hd,bus=ahci.0,drive=BootLoader,bootindex=0");
            push_arg(&mut a, "-drive");
            push_string(&mut a, disk_arg(bootloader.as_str(), "BootLoader", "qcow2"));
        },
        GuestOS::KolibriOS => {
            push_arg(&mut a, "-device");
            push_arg(&mut a, "ahci,id=ahci");
        },
        _ => {},
    }
    let ghost s0 = views(a@);
    let bus: &str = match guest_os {
        GuestOS::MacOS { release } => if release.at_least(MacOSRelease::Catalina) {
            "virtio-blk-pci,drive="
        } else {
            "ide-hd,bus=ahci.2,drive="
        },
        GuestOS::KolibriOS => "ide-hd,bus=ahci.0,drive=",
        GuestOS::WindowsServer => "ide-hd,drive=",
        _ => "virtio-blk-pci,drive=",
    };
    let mut taken: Vec<u8> = Vec::new();
    let mut i: usize = 0;
    while i < disks.len()
        invariant
            taken@ == spec_disk_indices(*guest_os, i as nat),
            disks@.len() <= spec_disk_limit(*guest_os),
            forall|j: int| 0 <= j < disks@.len() ==> (#[trigger] disks@[j]).format is Some,
            bus@ == spec_disk_bus(*guest_os),
            i <= disks@.len(),
            views(a@) == s0 + spec_disks(disks@, *guest_os, status_quo, i as nat),
        decreases disks.len() - i,
    {
        let fmt = match disks[i].format {
            Some(f) => f,
            None => DiskFormat::Qcow2,
        };
        let ghost before = views(a@);
        if let GuestOS::ReactOS = guest_os {
            let reactos: u8 = if i < 2 { i as u8 } else { (i + 1) as u8 };
            push_arg(&mut a, "-drive");
            push_string(&mut a, reactos_arg(disks[i].path.as_str(), reactos, "disk"));
            taken.push(reactos);
            assert(taken@ =~= spec_disk_indices(*guest_os, (i + 1) as nat));
        } else {
            assert(spec_disk_indices(*guest_os, (i + 1) as nat) =~= taken@);
            let key: u8 = (i + 1) as u8;
            let d = handle_disks(disks[i].path.as_str(), bus, fmt.as_str(), key);
            crate::text::extend_args(&mut a, &d);
        }
        if status_quo {
            push_arg(&mut a, "-snapshot");
        }
        assert(views(a@) =~= before + spec_one_disk(disks@[i as int], i as int, *guest_os, status_quo));
        i = i + 1;
    }
    Ok((a, taken))
}

/// The arguments of one image, with the indices taken so far; gives the
/// arguments and the indices taken after it.
pub open spec fn spec_one_image(img: Image, guest: GuestOS, vm_dir: Seq<char>, unattended_exists: bool, used: Seq<u8>)
    -> (Seq<Seq<char>>, Seq<u8>)
{
    match img {
        Image::Iso(iso) => {
            let start: int = if guest == GuestOS::KolibriOS || guest == GuestOS::ReactOS { 2 } else { 0 };
            let k = first_free_u8(start, used);
            let u1 = used.push(k as u8);
            if guest == GuestOS::FreeDOS {
                (seq!["-boot"@, "order=dc"@, "-drive"@, spec_iso_arg(iso@, k as nat)], u1)
            } else if guest == GuestOS::KolibriOS {
                (seq!["drive"@, spec_iso_arg(iso@, k as nat)], u1)
            } else if guest == GuestOS::ReactOS {
                (seq!["-boot"@, "order=d"@, "-drive"@, spec_reactos_arg(iso@, k as nat, "cdrom"@)], u1)
            } else if guest == GuestOS::Windows && unattended_exists {
                let k2 = first_free_u8(2, u1);
                (seq!["-drive"@, spec_iso_arg(iso@, k as nat), "-drive"@,
                    spec_iso_arg(join_path(vm_dir, "unattended.iso"@), k2 as nat)], u1.push(k2 as u8))
            } else {
                (seq!["-drive"@, spec_iso_arg(iso@, k as nat)], u1)
            }
        },
        Image::Img(img) => if guest is MacOS {
            (seq!["-device"@, "ide-hd,bus=ahci.1,drive=RecoveryImage"@, "-drive"@, spec_img_arg(img@, "RecoveryImage"@)], used)
        } else {
            (seq!["-device"@, "virtio-blk-pci,drive=BootDisk"@, "-drive"@, spec_img_arg(img@, "BootDisk"@)], used)
        },
        Image::FixedIso(iso) => {
            let k = first_free_u8(1, used);
            (seq!["-drive"@, spec_iso_arg(iso@, k as nat)], used.push(k as u8))
        },
        Image::Floppy(f) => (seq!["-drive"@, "if=floppy,format=raw,file="@ + f@], used),
    }
}

/// The arguments of the first `n` images and the indices taken after
/// them.
pub open spec fn spec_images(imgs: Seq<Image>, guest: GuestOS, vm_dir: Seq<char>, unattended_exists: bool, used: Seq<u8>, n: nat)
    -> (Seq<Seq<char>>, Seq<u8>)
    decreases n,
{
    if n == 0 {
        (seq![], used)
    } else {
        let (a, u) = spec_images(imgs, guest, vm_dir, unattended_exists, used, (n - 1) as nat);
        let (b, u2) = spec_one_image(imgs[n - 1], guest, vm_dir, unattended_exists, u);
        (a + b, u2)
    }
}

/// Whether an index from `start` up to 255 is not taken yet.
pub open spec fn has_free_from(start: int, used: Seq<u8>) -> bool {
    exists|i: int| start <= i <= 255 && !#[trigger] used.contains(i as u8)
}

/// Where an index from `start` up to 255 is free, the first free one is
/// found.
proof fn lemma_first_free_of(start: int, used: Seq<u8>)
    requires
        0 <= start,
        has_free_from(start, used),
    ensures
        is_first_free_u8(first_free_u8(start, used), start, used),
        first_free_u8(start, used) <= 255,
{
    let r = choose|i: int| start <= i <= 255 && !#[trigger] used.contains(i as u8);
    lemma_free_below(start, used, r);
    let x = choose|x: int| x <= r && is_first_free_u8(x, start, used);
    lemma_first_free_u8_unique(x, first_free_u8(start, used), start, used);
}

/// Below a free index `r` from `start` on, there is a first free one.
proof fn lemma_free_below(start: int, used: Seq<u8>, r: int)
    requires
        0 <= start <= r <= 255,
        !used.contains(r as u8),
    ensures
        exists|x: int| x <= r && is_first_free_u8(x, start, used),
    decreases r - start,
{
    if forall|k: int| start <= k < r ==> #[trigger] used.contains(k as u8) {
        assert(is_first_free_u8(r, start, used));
    } else {
        let k = choose|k: int| start <= k < r && !#[trigger] used.contains(k as u8);
        lemma_free_below(start, used, k);
    }
}

/// Adding an index that is not taken keeps the indices distinct.
proof fn lemma_push_fresh(used: Seq<u8>, x: u8)
    requires
        used.no_duplicates(),
        !used.contains(x),
    ensures
        used.push(x).no_duplicates(),
{
    let s = used.push(x);
    assert forall|i: int, j: int| 0 <= i < s.len() && 0 <= j < s.len() && i != j implies s[i] != s[j] by {
        if i == used.len() {
            assert(used[j] == s[j]);
        } else if j == used.len() {
            assert(used[i] == s[i]);
        }
    }
}

/// Whether one image finds the free indices it takes (see
/// `spec_one_image`), with `used` taken already.
pub open spec fn spec_one_image_fits(img: Image, guest: GuestOS, unattended_exists: bool, used: Seq<u8>) -> bool {
    match img {
        Image::Iso(_) => {
            let start: int = if guest == GuestOS::KolibriOS || guest == GuestOS::ReactOS { 2 } else { 0 };
            &&& has_free_from(start, used)
            &&& (guest == GuestOS::Windows && unattended_exists
                ==> has_free_from(2, used.push(first_free_u8(start, used) as u8)))
        },
        Image::FixedIso(_) => has_free_from(1, used),
        _ => true,
    }
}

/// Whether the first `n` images all find the free indices they take; the
/// indices go up to 255.
pub open spec fn spec_images_fit(imgs: Seq<Image>, guest: GuestOS, vm_dir: Seq<char>, unattended_exists: bool, used: Seq<u8>, n: nat)
    -> bool
    decreases n,
{
    if n == 0 {
        true
    } else {
        spec_images_fit(imgs, guest, vm_dir, unattended_exists, used, (n - 1) as nat)
            && spec_one_image_fits(imgs[n - 1], guest, unattended_exists,
                spec_images(imgs, guest, vm_dir, unattended_exists, used, (n - 1) as nat).1)
    }
}

/// Where the first `n` images fit, so do the first `k`.
proof fn lemma_fit_prefix(imgs: Seq<Image>, guest: GuestOS, vm_dir: Seq<char>, unattended_exists: bool, used: Seq<u8>, n: nat, k: nat)
    requires
        k <= n,
        spec_images_fit(imgs, guest, vm_dir, unattended_exists, used, n),
    ensures
        spec_images_fit(imgs, guest, vm_dir, unattended_exists, used, k),
    decreases n - k,
{
    if k < n {
        lemma_fit_prefix(imgs, guest, vm_dir, unattended_exists, used, (n - 1) as nat, k);
    }
}

/// One image that fits takes indices that are not taken yet.
proof fn lemma_one_image_fresh(img: Image, guest: GuestOS, vm_dir: Seq<char>, unattended_exists: bool, used: Seq<u8>)
    requires
        used.no_duplicates(),
        spec_one_image_fits(img, guest, unattended_exists, used),
    ensures
        spec_one_image(img, guest, vm_dir, unattended_exists, used).1.no_duplicates(),
{
    let out = spec_one_image(img, guest, vm_dir, unattended_exists, used).1;
    match img {
        Image::Iso(_) => {
            let start: int = if guest == GuestOS::KolibriOS || guest == GuestOS::ReactOS { 2 } else { 0 };
            lemma_first_free_of(start, used);
            let k = first_free_u8(start, used);
            lemma_push_fresh(used, k as u8);
            let u1 = used.push(k as u8);
            if guest != GuestOS::FreeDOS && guest != GuestOS::KolibriOS && guest != GuestOS::ReactOS
                && guest == GuestOS::Windows && unattended_exists {
                lemma_first_free_of(2, u1);
                let k2 = first_free_u8(2, u1);
                lemma_push_fresh(u1, k2 as u8);
                assert(out == u1.push(k2 as u8));
            } else {
                assert(out == u1);
            }
        },
        Image::FixedIso(_) => {
            lemma_first_free_of(1, used);
            let k = first_free_u8(1, used);
            lemma_push_fresh(used, k as u8);
            assert(out == used.push(k as u8));
        },
        _ => {
            assert(out == used);
        },
    }
}

/// Images that fit take indices that are not taken yet, each a new one.
proof fn lemma_images_fresh(imgs: Seq<Image>, guest: GuestOS, vm_dir: Seq<char>, unattended_exists: bool, used: Seq<u8>, n: nat)
    requires
        used.no_duplicates(),
        spec_images_fit(imgs, guest, vm_dir, unattended_exists, used, n),
    ensures
        spec_images(imgs, guest, vm_dir, unattended_exists, used, n).1.no_duplicates(),
    decreases n,
{
    if n > 0 {
        lemma_images_fresh(imgs, guest, vm_dir, unattended_exists, used, (n - 1) as nat);
        let u = spec_images(imgs, guest, vm_dir, unattended_exists, used, (n - 1) as nat).1;
        lemma_one_image_fresh(imgs[n - 1], guest, vm_dir, unattended_exists, u);
    }
}

/// No two drives of a guest share an index: the images take indices that
/// none of the guest's `n_disks` disks has, nor another image, wherever
/// they find free indices at all.
pub proof fn law_image_indices_distinct(imgs: Seq<Image>, guest: GuestOS, vm_dir: Seq<char>, unattended_exists: bool, n_disks: nat)
    requires
        n_disks <= spec_disk_limit(guest),
        spec_images_fit(imgs, guest, vm_dir, unattended_exists, spec_disk_indices(guest, n_disks), imgs.len()),
    ensures
        spec_images(imgs, guest, vm_dir, unattended_exists, spec_disk_indices(guest, n_disks), imgs.len()).1.no_duplicates(),
{
    let d = spec_disk_indices(guest, n_disks);
    assert(d.no_duplicates()) by {
        assert forall|i: int, j: int| 0 <= i < d.len() && 0 <= j < d.len() && i != j implies d[i] != d[j] by {
            assert(d[i] == spec_reactos_disk_index(i) as u8);
            assert(d[j] == spec_reactos_disk_index(j) as u8);
        }
    }
    lemma_images_fresh(imgs, guest, vm_dir, unattended_exists, d, imgs.len());
}

/// The arguments and descriptions of the images of a guest, taking drive
/// indices from `used` (see `spec_one_image`): ISO images from index 0
/// (from 2 for KolibriOS and ReactOS, where ReactOS gets an IDE drive),
/// FreeDOS and ReactOS booting from CD; a Windows guest's unattended
/// installer from index 2 next to its ISO, where it exists; a fixed ISO
/// from index 1; raw images as the boot disk (the recovery image of
/// macOS); floppies as floppies.
pub fn image_file_args(images: &Vec<Image>, guest_os: &GuestOS, vm_dir: &str, unattended_exists: bool, used: &mut Vec<u8>)
    -> (r: (Vec<String>, Vec<String>))
    requires
        spec_images_fit(images@, *guest_os, vm_dir@, unattended_exists, old(used)@, images@.len()),
    ensures
        ({
            let (a, u) = spec_images(images@, *guest_os, vm_dir@, unattended_exists, old(used)@, images@.len());
            views(r.0@) == a && final(used)@ == u
        }),
        views(r.1@) == images@.map_values(|i: Image| i.spec_text()),
{
    let mut a: Vec<String> = Vec::new();
    let mut texts: Vec<String> = Vec::new();
    let mut i: usize = 0;
    while i < images.len()
        invariant
            i <= images@.len(),
            spec_images_fit(images@, *guest_os, vm_dir@, unattended_exists, old(used)@, images@.len()),
            ({
                let (x, u) = spec_images(images@, *guest_os, vm_dir@, unattended_exists, old(used)@, i as nat);
                views(a@) == x && used@ == u
            }),
            views(texts@) == images@.subrange(0, i as int).map_values(|m: Image| m.spec_text()),
        decreases images.len() - i,
    {
        let ghost before = views(a@);
        let ghost u0 = used@;
        proof {
            lemma_fit_prefix(images@, *guest_os, vm_dir@, unattended_exists, old(used)@, images@.len(), (i + 1) as nat);
        }
        push_string(&mut texts, images[i].text());
        assert(images@.subrange(0, i + 1).map_values(|m: Image| m.spec_text())
            =~= images@.subrange(0, i as int).map_values(|m: Image| m.spec_text()).push(images@[i as int].spec_text()));
        match &images[i] {
            Image::Iso(iso) => {
                let start: u8 = if matches!(guest_os, GuestOS::KolibriOS | GuestOS::ReactOS) { 2 } else { 0 };
                let k = find_next_index(start, used);
                if let GuestOS::FreeDOS = guest_os {
                    push_arg(&mut a, "-boot");
                    push_arg(&mut a, "order=dc");
                    push_arg(&mut a, "-drive");
                    push_string(&mut a, iso_arg(iso.as_str(), k));
                } else if let GuestOS::KolibriOS = guest_os {
                    push_arg(&mut a, "drive");
                    push_string(&mut a, iso_arg(iso.as_str(), k));
                } else if let GuestOS::ReactOS = guest_os {
                    push_arg(&mut a, "-boot");
                    push_arg(&mut a, "order=d");
                    push_arg(&mut a, "-drive");
                    push_string(&mut a, reactos_arg(iso.as_str(), k, "cdrom"));
                } else if matches!(guest_os, GuestOS::Windows) && unattended_exists {
                    let unattended = path_join(vm_dir, "unattended.iso");
                    let k2 = find_next_index(2, used);
                    push_arg(&mut a, "-drive");
                    push_string(&mut a, iso_arg(iso.as_str(), k));
                    push_arg(&mut a, "-drive");
                    push_string(&mut a, iso_arg(unattended.as_str(), k2));
                } else {
                    push_arg(&mut a, "-drive");
                    push_string(&mut a, iso_arg(iso.as_str(), k));
                }
            },
            Image::Img(img) => {
                if let GuestOS::MacOS { .. } = guest_os {
                    push_arg(&mut a, "-device");
                    push_arg(&mut a, "ide-hd,bus=ahci.1,drive=RecoveryImage");
                    push_arg(&mut a, "-drive");
                    push_string(&mut a, img_arg(img.as_str(), "RecoveryImage"));
                } else {
                    push_arg(&mut a, "-device");
                    push_arg(&mut a, "virtio-blk-pci,drive=BootDisk");
                    push_arg(&mut a, "-drive");
                    push_string(&mut a, img_arg(img.as_str(), "BootDisk"));
                }
            },
            Image::FixedIso(iso) => {
                let k = find_next_index(1, used);
                push_arg(&mut a, "-drive");
                push_string(&mut a, iso_arg(iso.as_str(), k));
            },
            Image::Floppy(f) => {
                push_arg(&mut a, "-drive");
                push_string(&mut a, floppy_arg(f.as_str()));
            },
        }
        proof {
            let (bb, u2) = spec_one_image(images@[i as int], *guest_os, vm_dir@, unattended_exists, u0);
            assert(views(a@) =~= before + bb);
            assert(used@ =~= u2);
        }
        i = i + 1;
    }
    assert(images@.subrange(0, images@.len() as int) =~= images@);
    (a, texts)
}

/// What was found of a disk: it did not exist and was created; or
/// `qemu-img info` failed on it (it is in use); or it exists, with what
/// `qemu-img info` printed and the length of its file (or why that could
/// not be read).
#[derive(Debug)]
pub enum LegacyDiskState {
    Created,
    InfoFailed,
    Existing { info: String, file_len: Result<u64, String> },
}

/// A note on a disk: it was created (with its format, path, size in
/// bytes and preallocation), or a line of text.
#[derive(Debug, Clone, PartialEq)]
pub enum DiskNote {
    Created { format: DiskFormat, path: String, size: u64, preallocation: PreAlloc },
    Text(String),
}

/// What a note says.
pub enum NoteView {
    Created { format: DiskFormat, path: Seq<char>, size: u64, preallocation: PreAlloc },
    Text(Seq<char>),
}

/// What a note says.
pub open spec fn note_view(n: DiskNote) -> NoteView {
    match n {
        DiskNote::Created { format, path, size, preallocation } => NoteView::Created { format, path: path@, size, preallocation },
        DiskNote::Text(t) => NoteView::Text(t@),
    }
}

/// What a list of notes says.
pub open spec fn note_views(v: Seq<DiskNote>) -> Seq<NoteView> {
    v.map_values(|n: DiskNote| note_view(n))
}

/// The note on a usable disk: one that was created (with the default size
/// of the guest where it has none, as qcow2 where it names no format), or
/// one that exists, with the size that `qemu-img` reports.
pub open spec fn spec_disk_note(d: DiskImage, state: LegacyDiskState, guest: GuestOS) -> NoteView {
    match state {
        LegacyDiskState::Existing { info, .. } =>
            NoteView::Text("Using disk image: "@ + d.path@ + ". Size: "@ + spec_virtual_size(info@)->Some_0),
        _ => NoteView::Created {
            format: match d.format { Some(f) => f, None => DiskFormat::Qcow2 },
            path: d.path@,
            size: match d.size { Some(s) => s, None => guest.spec_disk_size() },
            preallocation: d.preallocation,
        },
    }
}

/// The notes on the first `n` disks.
pub open spec fn spec_disk_notes(disks: Seq<DiskImage>, states: Seq<LegacyDiskState>, guest: GuestOS, n: nat) -> Seq<NoteView> {
    Seq::new(n, |i: int| spec_disk_note(disks[i], states[i], guest))
}

/// Whether the first `n` disks are usable, each given what was found of
/// it: an error, or whether one of them holds an installed guest (it is
/// preallocated, or its file is larger than `LEGACY_MIN_DISK_SIZE`).
pub open spec fn spec_disk_outcome(disks: Seq<DiskImage>, states: Seq<LegacyDiskState>, n: nat) -> Result<bool, Seq<char>>
    decreases n,
{
    if n == 0 {
        Ok(false)
    } else {
        match spec_disk_outcome(disks, states, (n - 1) as nat) {
            Err(e) => Err(e),
            Ok(used) => {
                let d = disks[n - 1];
                match states[n - 1] {
                    LegacyDiskState::Created => Ok(used),
                    LegacyDiskState::InfoFailed => Err("Failed to get write lock on disk image "@ + d.path@
                        + ". Please ensure that the disk image is not already in use."@),
                    LegacyDiskState::Existing { info, file_len } => match spec_virtual_size(info@) {
                        None => Err("Could not read disk size."@),
                        Some(_) => if d.preallocation != PreAlloc::Off {
                            Ok(true)
                        } else {
                            match file_len {
                                Ok(l) => Ok(used || l > LEGACY_MIN_DISK_SIZE),
                                Err(e) => Err("Could not read disk size: "@ + e@),
                            }
                        },
                    },
                }
            },
        }
    }
}

/// Once a disk is refused, so are all the disks.
pub proof fn lemma_outcome_err(disks: Seq<DiskImage>, states: Seq<LegacyDiskState>, i: nat, n: nat)
    requires
        i <= n,
        spec_disk_outcome(disks, states, i) is Err,
    ensures
        spec_disk_outcome(disks, states, n) == spec_disk_outcome(disks, states, i),
    decreases n - i,
{
    if i < n {
        lemma_outcome_err(disks, states, i, (n - 1) as nat);
    }
}

/// Whether a guest's disks hold an installed guest, and their notes,
/// given what was found of each (see `spec_disk_outcome`).
pub fn disk_notes(disks: &Vec<DiskImage>, guest_os: &GuestOS, states: &Vec<LegacyDiskState>) -> (r: Result<(bool, Vec<DiskNote>), String>)
    requires
        states@.len() == disks@.len(),
    ensures
        match spec_disk_outcome(disks@, states@, disks@.len()) {
            Err(e) => r matches Err(m) && m@ == e,
            Ok(used) => r matches Ok((u, notes)) && u == used && notes@.len() == disks@.len()
                && note_views(notes@) == spec_disk_notes(disks@, states@, *guest_os, disks@.len()),
        },
{
    let mut notes: Vec<DiskNote> = Vec::new();
    let mut used = false;
    let mut i: usize = 0;
    while i < disks.len()
        invariant
            states@.len() == disks@.len(),
            i <= disks@.len(),
            notes@.len() == i,
            spec_disk_outcome(disks@, states@, i as nat) == Ok::<bool, Seq<char>>(used),
            note_views(notes@) == spec_disk_notes(disks@, states@, *guest_os, i as nat),
        decreases disks.len() - i,
    {
        let ghost before = notes@;
        let d = &disks[i];
        match &states[i] {
            LegacyDiskState::Created => {
                let size = match d.size {
                    Some(s) => s,
                    None => guest_os.disk_size(),
                };
                notes.push(DiskNote::Created {
                    format: match d.format { Some(f) => f, None => DiskFormat::Qcow2 },
                    path: d.path.clone(),
                    size,
                    preallocation: d.preallocation,
                });
                assert(note_view(notes@[i as int]) == spec_disk_note(disks@[i as int], states@[i as int], *guest_os));
                assert(note_views(notes@) =~= spec_disk_notes(disks@, states@, *guest_os, (i + 1) as nat)) by {
                    assert forall|j: int| 0 <= j < i implies #[trigger] note_views(notes@)[j]
                        == spec_disk_notes(disks@, states@, *guest_os, (i + 1) as nat)[j] by {
                        assert(notes@[j] == before[j]);
                        assert(note_views(before)[j] == spec_disk_notes(disks@, states@, *guest_os, i as nat)[j]);
                    }
                }
            },
            LegacyDiskState::InfoFailed => {
                let mut m = String::from_str("Failed to get write lock on disk image ");
                m.append(d.path.as_str());
                m.append(". Please ensure that the disk image is not already in use.");
                proof {
                    lemma_outcome_err(disks@, states@, (i + 1) as nat, disks@.len());
                }
                return Err(m);
            },
            LegacyDiskState::Existing { info, file_len } => {
                let size = match parse_virtual_size(info.as_str()) {
                    Some(s) => s,
                    None => {
                        proof {
                            lemma_outcome_err(disks@, states@, (i + 1) as nat, disks@.len());
                        }
                        return Err(String::from_str("Could not read disk size."));
                    },
                };
                let mut t = String::from_str("Using disk image: ");
                t.append(d.path.as_str());
                t.append(". Size: ");
                t.append(size.as_str());
                notes.push(DiskNote::Text(t));
                assert(note_view(notes@[i as int]) == spec_disk_note(disks@[i as int], states@[i as int], *guest_os));
                assert(note_views(notes@) =~= spec_disk_notes(disks@, states@, *guest_os, (i + 1) as nat)) by {
                    assert forall|j: int| 0 <= j < i implies #[trigger] note_views(notes@)[j]
                        == spec_disk_notes(disks@, states@, *guest_os, (i + 1) as nat)[j] by {
                        assert(notes@[j] == before[j]);
                        assert(note_views(before)[j] == spec_disk_notes(disks@, states@, *guest_os, i as nat)[j]);
                    }
                }
                if d.preallocation != PreAlloc::Off {
                    used = true;
                } else {
                    match file_len {
                        Ok(l) => {
                            if *l > LEGACY_MIN_DISK_SIZE {
                                used = true;
                            }
                        },
                        Err(e) => {
                            let mut m = String::from_str("Could not read disk size: ");
                            m.append(e.as_str());
                            proof {
                                lemma_outcome_err(disks@, states@, (i + 1) as nat, disks@.len());
                            }
                            return Err(m);
                        },
                    }
                }
            },
        }
        i = i + 1;
    }
    Ok((used, notes))
}

/// The disk and image arguments of a guest (see `image_args`); none where
/// a disk cannot be used or a macOS bootloader is missing.
#[verifier::opaque]
pub open spec fn spec_image_args(vm_dir: Seq<char>, images: Option<Seq<Image>>, disks: Seq<DiskImage>, guest_os: GuestOS,
    status_quo: bool, states: Seq<LegacyDiskState>, bootloader_exists: (bool, bool), unattended_exists: bool) -> Option<Seq<Seq<char>>>
{
    match spec_disk_outcome(disks, states, disks.len()) {
        Err(_) => None,
        Ok(used) => if guest_os is MacOS && !bootloader_exists.0 && !bootloader_exists.1 {
            None
        } else {
            let base = (match guest_os {
                GuestOS::MacOS { .. } => seq!["-device"@, "ahci,id=ahci"@, "-device"@, "ide-hd,bus=ahci.0,drive=BootLoader,bootindex=0"@,
                    "-drive"@, spec_disk_arg(if bootloader_exists.0 { spec_legacy_mac_bootloaders(vm_dir).0 } else {
                        spec_legacy_mac_bootloaders(vm_dir).1 }, "BootLoader"@, "qcow2"@)],
                GuestOS::KolibriOS => seq!["-device"@, "ahci,id=ahci"@],
                _ => seq![],
            }) + spec_disks(disks, guest_os, status_quo, disks.len());
            Some(base + (if used { seq![] } else {
                spec_images(images->Some_0, guest_os, vm_dir, unattended_exists, spec_disk_indices(guest_os, disks.len()),
                    images->Some_0.len()).0
            }))
        },
    }
}

/// Text notes.
pub open spec fn text_notes(v: Seq<Seq<char>>) -> Seq<NoteView> {
    v.map_values(|t: Seq<char>| NoteView::Text(t))
}

/// The notes on images.
pub open spec fn image_notes(v: Seq<Image>) -> Seq<NoteView> {
    v.map_values(|m: Image| NoteView::Text(m.spec_text()))
}

/// The notes on a guest's disks and, while no disk holds an installed
/// guest, on its images (see `image_args`).
pub open spec fn spec_image_notes(images: Option<Seq<Image>>, disks: Seq<DiskImage>, guest_os: GuestOS,
    states: Seq<LegacyDiskState>) -> Seq<NoteView> {
    let used = spec_disk_outcome(disks, states, disks.len())->Ok_0;
    spec_disk_notes(disks, states, guest_os, disks.len()) + (if used { seq![] } else {
        image_notes(images->Some_0)
    })
}

/// What the disks and images of a guest must be where they are reached:
/// once every disk is usable and a macOS guest has its bootloader, the
/// disks are at most `spec_disk_limit` and each has its format, and while
/// no disk holds an installed guest the images are given and find the
/// drive indices they take.
pub open spec fn spec_image_inputs_ok(vm_dir: Seq<char>, images: Option<Seq<Image>>, disks: Seq<DiskImage>, guest: GuestOS,
    states: Seq<LegacyDiskState>, bootloader_exists: (bool, bool), unattended_exists: bool) -> bool {
    let reached = spec_disk_outcome(disks, states, disks.len()) is Ok && !(guest is MacOS && !bootloader_exists.0
        && !bootloader_exists.1);
    &&& reached ==> disks.len() <= spec_disk_limit(guest)
    &&& reached ==> forall|i: int| 0 <= i < disks.len() ==> (#[trigger] disks[i]).format is Some
    &&& reached && spec_disk_outcome(disks, states, disks.len()) == Ok::<bool, Seq<char>>(false) ==> (images is Some
        && spec_images_fit(images->Some_0, guest, vm_dir, unattended_exists, spec_disk_indices(guest, disks.len()),
            images->Some_0.len()))
}

/// The arguments and notes of a guest's disks and images, given what was
/// found of each disk (`states`), which macOS bootloader disks exist, and
/// whether a Windows installer exists. The images are only attached while
/// no disk holds an installed guest.
pub fn image_args(vm_dir: &str, images: Option<Vec<Image>>, disks: &Vec<DiskImage>, guest_os: &GuestOS, status_quo: bool,
    states: &Vec<LegacyDiskState>, bootloader_exists: (bool, bool), unattended_exists: bool) -> (r: Result<(Vec<String>, Vec<DiskNote>), String>)
    requires
        states@.len() == disks@.len(),
        spec_image_inputs_ok(vm_dir@, match images { Some(v) => Some(v@), None => None }, disks@, *guest_os, states@,
            bootloader_exists, unattended_exists),
    ensures
        match spec_image_args(vm_dir@, match images { Some(v) => Some(v@), None => None }, disks@, *guest_os, status_quo, states@,
            bootloader_exists, unattended_exists) {
            Some(s) => r matches Ok((a, _)) && views(a@) == s,
            None => r is Err,
        },
        match spec_image_args(vm_dir@, match images { Some(v) => Some(v@), None => None }, disks@, *guest_os, status_quo, states@,
            bootloader_exists, unattended_exists) {
            Some(s) => r matches Ok((a, notes)) && views(a@) == s
                && note_views(notes@) == spec_image_notes(match images { Some(v) => Some(v@), None => None }, disks@, *guest_os, states@),
            None => r is Err,
        },
        match spec_disk_outcome(disks@, states@, disks@.len()) {
            Err(e) => r matches Err(m) && m@ == e,
            Ok(used) => if guest_os is MacOS && !bootloader_exists.0 && !bootloader_exists.1 {
                r matches Err(m) && m@ == spec_mac_bootloader_error()
            } else {
                r matches Ok((a, notes)) && {
                    let base = (match *guest_os {
                        GuestOS::MacOS { .. } => seq!["-device"@, "ahci,id=ahci"@, "-device"@, "ide-hd,bus=ahci.0,drive=BootLoader,bootindex=0"@,
                            "-drive"@, spec_disk_arg(if bootloader_exists.0 { spec_legacy_mac_bootloaders(vm_dir@).0 } else {
                                spec_legacy_mac_bootloaders(vm_dir@).1 }, "BootLoader"@, "qcow2"@)],
                        GuestOS::KolibriOS => seq!["-device"@, "ahci,id=ahci"@],
                        _ => seq![],
                    }) + spec_disks(disks@, *guest_os, status_quo, disks@.len());
                    &&& views(a@) == base + (if used { seq![] } else {
                        spec_images(images->Some_0@, *guest_os, vm_dir@, unattended_exists,
                            spec_disk_indices(*guest_os, disks@.len()), images->Some_0@.len()).0
                    })
                    &&& notes@.len() == disks@.len() + (if used { 0 } else { images->Some_0@.len() })
                }
            },
        },
{
    proof {
        reveal(spec_image_args);
    }
    let (used, mut notes) = match disk_notes(disks, guest_os, states) {
        Ok(x) => x,
        Err(e) => return Err(e),
    };
    let (mut args, mut indices) = match disk_img_args(disks, guest_os, vm_dir, status_quo, bootloader_exists) {
        Ok(a) => a,
        Err(e) => return Err(e),
    };
    if !used {
        let imgs = match images {
            Some(v) => v,
            None => Vec::new(),
        };
        let (mut ia, texts) = image_file_args(&imgs, guest_os, vm_dir, unattended_exists, &mut indices);
        crate::text::extend_args(&mut args, &ia);
        let mut k: usize = 0;
        let ghost n0 = notes@.len();
        let ghost v0 = note_views(notes@);
        while k < texts.len()
            invariant
                k <= texts@.len(),
                notes@.len() == n0 + k,
                v0.len() == n0,
                note_views(notes@) == v0 + text_notes(views(texts@).subrange(0, k as int)),
            decreases texts.len() - k,
        {
            let ghost before = notes@;
            let t = texts[k].clone();
            assert(t@ == views(texts@)[k as int]);
            notes.push(DiskNote::Text(t));
            assert(note_views(notes@) =~= v0 + text_notes(views(texts@).subrange(0, k + 1))) by {
                assert forall|j: int| 0 <= j < notes@.len() implies #[trigger] note_views(notes@)[j]
                    == (v0 + text_notes(views(texts@).subrange(0, k + 1)))[j] by {
                    if j == before.len() {
                        assert(text_notes(views(texts@).subrange(0, k + 1))[k as int] == NoteView::Text(views(texts@)[k as int]));
                    } else {
                        if j >= n0 {
                            assert(text_notes(views(texts@).subrange(0, k as int))[j - n0] == NoteView::Text(views(texts@)[j - n0]));
                            assert(text_notes(views(texts@).subrange(0, k + 1))[j - n0] == NoteView::Text(views(texts@)[j - n0]));
                        }
                        assert(notes@[j] == before[j]);
                        assert(note_views(before)[j] == (v0 + views(texts@).subrange(0, k as int).map_values(
                            |t: Seq<char>| NoteView::Text(t)))[j]);
                    }
                }
            }
            k = k + 1;
        }
        assert(texts@.len() == imgs@.len()) by {
            assert(views(texts@).len() == imgs@.map_values(|m: Image| m.spec_text()).len());
        }
        assert(text_notes(views(texts@).subrange(0, k as int))
            =~= image_notes(imgs@)) by {
            assert forall|j: int| 0 <= j < imgs@.len() implies #[trigger] image_notes(imgs@)[j]
                == text_notes(views(texts@).subrange(0, k as int))[j] by {
                assert(views(texts@)[j] == imgs@.map_values(|m: Image| m.spec_text())[j]);
            }
        }
    } else {
        assert(note_views(notes@) =~= note_views(notes@) + seq![]);
    }
    Ok((args, notes))
}

} // verus!
