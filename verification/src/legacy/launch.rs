//! The whole QEMU command line of a guest in the first-generation
//! builder, and the settings it comes from.

use vstd::prelude::*;
use crate::args::machine::cpu::CpuFeatures;
use crate::legacy::config::{Access, ActionType, Arch, BootType, CpuCores, DiskFormat, DiskImage, Display, GuestOS, Image,
    Keyboard, Monitor, Mouse, Network, PortForward, PreAlloc, PublicDir, Resolution, Snapshot, SoundCard, USBController, Viewer};
use crate::legacy::qemu_args::{basic_args, cpucores_ram, publicdir_args, spec_basic_args, spec_cpucores_ram_args,
    spec_cpucores_ram_note, spec_legacy_tpm_socket, spec_network_args, spec_publicdir_notes, spec_publicdir_qemu_args, tpm_args};
use crate::text::decimal;
use crate::legacy::qemu_args::images::{image_args, note_view, note_views, spec_image_args, spec_image_notes, DiskNote,
    LegacyDiskState, NoteView};
use crate::data::io::opt_view;
use crate::text::{push_arg, push_string, views};

verus! {

/// Everything a guest is started with.
#[derive(Debug)]
pub struct Args {
    pub access: Access,
    pub arch: Arch,
    pub braille: bool,
    pub boot: BootType,
    pub cpu_cores: CpuCores,
    pub disk_images: Vec<DiskImage>,
    pub display: Display,
    pub accelerated: bool,
    pub extra_args: Vec<String>,
    pub image_files: Option<Vec<Image>>,
    pub guest_os: GuestOS,
    pub status_quo: bool,
    pub network: Network,
    pub port_forwards: Option<Vec<PortForward>>,
    pub public_dir: PublicDir,
    pub ram: u64,
    pub tpm: bool,
    pub usb_devices: Option<Vec<String>>,
    pub viewer: Option<Viewer>,
    pub ssh_port: u16,
    pub spice_port: Option<u16>,
    pub monitor: Monitor,
    pub monitor_cmd: Option<String>,
    pub resolution: Resolution,
    pub screenpct: Option<u32>,
    pub serial: Monitor,
    pub usb_controller: USBController,
    pub keyboard: Keyboard,
    pub keyboard_layout: Option<String>,
    pub mouse: Mouse,
    pub sound_card: SoundCard,
    pub fullscreen: bool,
    pub vm_dir: String,
    pub vm_name: String,
}

/// A line that is printed when the guest starts: text; the note on the
/// processors (the memory amounts follow it); or a disk that was created.
#[derive(Debug, Clone, PartialEq)]
pub enum PrintLine {
    Text(String),
    CpuRam(String),
    DiskCreated { format: DiskFormat, path: String, size: u64, preallocation: PreAlloc },
}

/// What a printed line says.
pub enum PrintView {
    Text(Seq<char>),
    CpuRam(Seq<char>),
    DiskCreated { format: DiskFormat, path: Seq<char>, size: u64, preallocation: PreAlloc },
}

/// What a printed line says.
pub open spec fn print_view(p: PrintLine) -> PrintView {
    match p {
        PrintLine::Text(t) => PrintView::Text(t@),
        PrintLine::CpuRam(t) => PrintView::CpuRam(t@),
        PrintLine::DiskCreated { format, path, size, preallocation } => PrintView::DiskCreated { format, path: path@, size, preallocation },
    }
}

/// What printed lines say.
pub open spec fn print_views(v: Seq<PrintLine>) -> Seq<PrintView> {
    v.map_values(|p: PrintLine| print_view(p))
}

/// Lines of text.
pub open spec fn text_lines(v: Seq<Seq<char>>) -> Seq<PrintView> {
    v.map_values(|t: Seq<char>| PrintView::Text(t))
}

/// The line that a disk note is printed as.
pub open spec fn note_line(n: NoteView) -> PrintView {
    match n {
        NoteView::Created { format, path, size, preallocation } => PrintView::DiskCreated { format, path, size, preallocation },
        NoteView::Text(t) => PrintView::Text(t),
    }
}

/// The lines that disk notes are printed as.
pub open spec fn note_lines(v: Seq<NoteView>) -> Seq<PrintView> {
    v.map_values(|n: NoteView| note_line(n))
}

/// Adding a line adds its view.
proof fn lemma_print_push(before: Seq<PrintLine>, p: PrintLine)
    ensures
        print_views(before.push(p)) == print_views(before).push(print_view(p)),
{
    assert(print_views(before.push(p)) =~= print_views(before).push(print_view(p)));
}

/// What the host says, and what the parts of the command line whose
/// builders are outside this library give: whether the PID file exists,
/// hardware virtualization, the host CPU (whether the guest's architecture
/// is the host's, the first CPU's vendor, CPUID, the CPU brands), the free
/// SSH port, whether `smbd` and a bridge exist, the shared directory (with
/// the user's name and whether it is read-only), the TPM's process id, the
/// boot description and arguments, what was found of the disks and
/// bootloaders and installer, whether QEMU has a smartcard device (where
/// asked), and the audio, Spice, display, sound card, monitor and serial
/// arguments and notes.
pub struct LaunchHost {
    pub pid_exists: bool,
    pub hw_virt: bool,
    pub matches_host: bool,
    pub vendor: String,
    pub features: CpuFeatures,
    pub brands: Vec<String>,
    pub ssh_port: Option<u16>,
    pub smbd_found: bool,
    pub bridge_exists: bool,
    pub publicdir: Option<String>,
    pub username: String,
    pub publicdir_readonly: bool,
    pub tpm_pid: u32,
    pub boot: (String, Option<Vec<String>>),
    pub disk_states: Vec<LegacyDiskState>,
    pub bootloader_exists: (bool, bool),
    pub unattended_exists: bool,
    pub smartcard: Option<bool>,
    pub audio: Vec<String>,
    pub spice: Option<(Vec<String>, Vec<String>)>,
    pub display_args: (Vec<String>, Vec<String>),
    pub sound: (Vec<String>, Vec<String>),
    pub monitor_args: (Vec<String>, Vec<String>),
    pub serial_args: (Vec<String>, Vec<String>),
}

/// What starting a guest comes to: it runs already (its PID file
/// exists), or QEMU's arguments and the lines to print.
#[derive(Debug)]
pub enum LaunchPlan {
    AlreadyRunning,
    Start { qemu_args: Vec<String>, print: Vec<PrintLine> },
}

/// Appends texts as print lines.
fn push_texts(print: &mut Vec<PrintLine>, texts: Vec<String>)
    ensures
        print_views(final(print)@) == print_views(old(print)@) + text_lines(views(texts@)),
{
    let mut i: usize = 0;
    while i < texts.len()
        invariant
            i <= texts@.len(),
            print_views(print@) == print_views(old(print)@) + text_lines(views(texts@).subrange(0, i as int)),
        decreases texts.len() - i,
    {
        let ghost before = print@;
        let t = texts[i].clone();
        assert(t@ == views(texts@)[i as int]);
        print.push(PrintLine::Text(t));
        proof {
            lemma_print_push(before, PrintLine::Text(t));
            assert(text_lines(views(texts@).subrange(0, i + 1)) =~= text_lines(views(texts@).subrange(0, i as int))
                .push(PrintView::Text(views(texts@)[i as int])));
        }
        i = i + 1;
    }
    assert(views(texts@).subrange(0, i as int) =~= views(texts@));
}

/// The CPU model argument of a guest, where it gets one.
pub open spec fn spec_cpu_seg(guest: GuestOS, arch: Arch, matches_host: bool, vendor: Seq<char>, f: CpuFeatures) -> Seq<Seq<char>> {
    match guest.spec_cpu_argument(arch, matches_host, vendor, f) {
        Some(c) => seq!["-cpu"@, c],
        None => seq![],
    }
}

/// The Spice arguments, which only the Spice displays and no display use.
pub open spec fn spec_spice_seg(display: Display, spice: Option<Seq<Seq<char>>>) -> Seq<Seq<char>> {
    if display == Display::Disabled || display == Display::Spice || display == Display::SpiceApp {
        match spice { Some(sa) => sa, None => seq![] }
    } else {
        seq![]
    }
}

/// The TPM arguments, where the guest has a TPM.
pub open spec fn spec_tpm_seg(tpm: bool, vm_dir: Seq<char>, vm_name: Seq<char>) -> Seq<Seq<char>> {
    if tpm {
        seq!["-chardev"@, "socket,id=chrtpm,path="@ + spec_legacy_tpm_socket(vm_dir, vm_name),
            "-tpmdev"@, "emulator,id=tpm0,chardev=chrtpm"@, "-device"@, "tpm-tis,tpmdev=tpm0"@]
    } else {
        seq![]
    }
}

/// The keyboard layout argument, where one is set.
pub open spec fn spec_layout_seg(layout: Option<Seq<char>>) -> Seq<Seq<char>> {
    match layout { Some(l) => seq!["-k"@, l], None => seq![] }
}

/// The braille display arguments, where it is asked for.
pub open spec fn spec_braille_seg(braille: bool) -> Seq<Seq<char>> {
    if braille {
        seq!["-chardev"@, "braille,id=brltty"@, "-device"@, "usb-braille,id=usbbrl,chardev=brltty"@]
    } else {
        seq![]
    }
}

/// The shared directory arguments, where a directory is shared.
pub open spec fn spec_public_seg(publicdir: Option<Seq<char>>, guest: GuestOS, username: Seq<char>) -> Seq<Seq<char>> {
    match publicdir { Some(p) => spec_publicdir_qemu_args(p, guest, username), None => seq![] }
}

/// The views of an optional list of texts.
pub open spec fn opt_views(v: Option<Vec<String>>) -> Option<Seq<Seq<char>>> {
    match v { Some(d) => Some(views(d@)), None => None }
}

/// The arguments from the audio to the Spice display (see `Args::parts`),
/// given the processor and memory arguments.
#[verifier::opaque]
pub open spec fn spec_front_seg(audio: Seq<Seq<char>>, cr: Seq<Seq<char>>, guest: GuestOS, arch: Arch, matches_host: bool,
    vendor: Seq<char>, f: CpuFeatures, display: Display, spice: Option<Seq<Seq<char>>>) -> Seq<Seq<char>> {
    audio + cr + spec_cpu_seg(guest, arch, matches_host, vendor, f) + spec_spice_seg(display, spice)
}

/// The display, sound, TPM and firmware arguments (see `Args::parts`).
#[verifier::opaque]
pub open spec fn spec_middle_seg(display: Seq<Seq<char>>, sound: Seq<Seq<char>>, tpm: bool, vm_dir: Seq<char>, vm_name: Seq<char>,
    boot: Option<Seq<Seq<char>>>) -> Seq<Seq<char>> {
    display + sound + spec_tpm_seg(tpm, vm_dir, vm_name) + (match boot { Some(b) => b, None => seq![] })
}

/// The USB, keyboard, braille, shared directory, mouse, monitor and
/// serial arguments (see `Args::parts`).
#[verifier::opaque]
pub open spec fn spec_tail_seg(usb_controller: USBController, guest: GuestOS, smartcard: Option<bool>,
    usb_devices: Option<Seq<Seq<char>>>, keyboard: Keyboard, keyboard_layout: Option<Seq<char>>, braille: bool,
    publicdir: Option<Seq<char>>, username: Seq<char>, mouse: Mouse, monitor: Seq<Seq<char>>, serial: Seq<Seq<char>>) -> Seq<Seq<char>> {
    usb_controller.spec_to_args(guest, smartcard, usb_devices) + keyboard.spec_to_args() + spec_layout_seg(keyboard_layout)
        + spec_braille_seg(braille) + spec_public_seg(publicdir, guest, username) + mouse.spec_to_args() + monitor + serial
}

/// The lines printed for the processors and the Spice display (see
/// `Args::parts`).
#[verifier::opaque]
pub open spec fn spec_front_lines(cpu: CpuCores, brands: Seq<Seq<char>>, guest: GuestOS, display: Display,
    spice_notes: Option<Seq<Seq<char>>>) -> Seq<PrintView> {
    seq![PrintView::CpuRam(spec_cpucores_ram_note(cpu, brands, guest))] + text_lines(spec_spice_seg(display, spice_notes))
}

/// The lines printed for the display, sound, TPM and firmware (see
/// `Args::parts`).
#[verifier::opaque]
pub open spec fn spec_middle_lines(display_notes: Seq<Seq<char>>, sound_notes: Seq<Seq<char>>, tpm: bool, vm_dir: Seq<char>,
    vm_name: Seq<char>, tpm_pid: u32, boot_text: Seq<char>) -> Seq<PrintView> {
    text_lines(display_notes) + text_lines(sound_notes)
        + (if tpm {
            seq![PrintView::Text("TPM: "@ + spec_legacy_tpm_socket(vm_dir, vm_name) + " (pid: "@ + decimal(tpm_pid as nat) + ")"@)]
        } else {
            seq![]
        })
        + seq![PrintView::Text(boot_text)]
}

/// The lines printed for the shared directory and the consoles (see
/// `Args::parts`).
#[verifier::opaque]
pub open spec fn spec_tail_lines(publicdir: Option<Seq<char>>, guest: GuestOS, username: Seq<char>, readonly: bool,
    monitor_notes: Seq<Seq<char>>, serial_notes: Seq<Seq<char>>) -> Seq<PrintView> {
    text_lines(match publicdir { Some(p) => spec_publicdir_notes(p, guest, username, readonly), None => seq![] })
        + text_lines(monitor_notes) + text_lines(serial_notes)
}

/// The lines printed when a guest starts (see `Args::parts`), where its
/// arguments can be built.
#[verifier::opaque]
pub open spec fn spec_parts_print(a: Args, h: LaunchHost) -> Seq<PrintView> {
    let net = spec_network_args(a.network, a.vm_name@, h.ssh_port, match a.port_forwards { Some(f) => Some(f@), None => None },
        opt_view(&h.publicdir), a.guest_os, h.smbd_found, h.bridge_exists);
    spec_front_lines(a.cpu_cores, views(h.brands@), a.guest_os, a.display, match h.spice { Some((_, n)) => Some(views(n@)), None => None })
        + text_lines(net->Some_0.1)
        + spec_middle_lines(views(h.display_args.1@), views(h.sound.1@), a.tpm, a.vm_dir@, a.vm_name@, h.tpm_pid, h.boot.0@)
        + note_lines(spec_image_notes(match a.image_files { Some(v) => Some(v@), None => None }, a.disk_images@, a.guest_os,
            h.disk_states@))
        + spec_tail_lines(opt_view(&h.publicdir), a.guest_os, h.username@, h.publicdir_readonly, views(h.monitor_args.1@),
            views(h.serial_args.1@))
}

/// The QEMU arguments between the basic and the extra ones (see
/// `Args::parts`); none where the processors and memory, the network or
/// the disks and images are refused.
pub open spec fn spec_parts_args(a: Args, h: LaunchHost) -> Option<Seq<Seq<char>>> {
    let cr = spec_cpucores_ram_args(a.cpu_cores, views(h.brands@), a.ram, a.guest_os);
    let net = spec_network_args(a.network, a.vm_name@, h.ssh_port, match a.port_forwards { Some(f) => Some(f@), None => None },
        opt_view(&h.publicdir), a.guest_os, h.smbd_found, h.bridge_exists);
    let imgs = spec_image_args(a.vm_dir@, match a.image_files { Some(v) => Some(v@), None => None }, a.disk_images@, a.guest_os,
        a.status_quo, h.disk_states@, h.bootloader_exists, h.unattended_exists);
    if cr is None || net is None || imgs is None {
        None
    } else {
        Some(spec_front_seg(views(h.audio@), cr->Some_0, a.guest_os, a.arch, h.matches_host, h.vendor@, h.features, a.display,
                match h.spice { Some((sa, _)) => Some(views(sa@)), None => None })
            + net->Some_0.0
            + spec_middle_seg(views(h.display_args.0@), views(h.sound.0@), a.tpm, a.vm_dir@, a.vm_name@, opt_views(h.boot.1))
            + imgs->Some_0
            + spec_tail_seg(a.usb_controller, a.guest_os, h.smartcard, opt_views(a.usb_devices), a.keyboard,
                opt_view(&a.keyboard_layout), a.braille, opt_view(&h.publicdir), h.username@, a.mouse,
                views(h.monitor_args.0@), views(h.serial_args.0@)))
    }
}

/// The arguments from the audio to the Spice display (see `Args::parts`),
/// with their lines to print.
fn front_args(print: &mut Vec<PrintLine>, audio: &Vec<String>, cpu: CpuCores, brands: &Vec<String>, ram: u64, guest: &GuestOS,
    arch: &Arch, matches_host: bool, vendor: &str, features: &CpuFeatures, display: Display, spice: Option<(Vec<String>, Vec<String>)>)
    -> (r: Result<Vec<String>, String>)
    requires
        1 <= cpu.cores <= usize::MAX / 2 + 1,
    ensures
        match spec_cpucores_ram_args(cpu, views(brands@), ram, *guest) {
            Some(cr) => r matches Ok(a) && views(a@) == spec_front_seg(views(audio@), cr, *guest, *arch, matches_host, vendor@, *features,
                display, match spice { Some((sa, _)) => Some(views(sa@)), None => None })
                && print_views(final(print)@) == print_views(old(print)@) + spec_front_lines(cpu, views(brands@), *guest, display,
                    match spice { Some((_, n)) => Some(views(n@)), None => None }),
            None => r is Err,
        },
{
    let mut a: Vec<String> = Vec::new();
    crate::text::extend_args(&mut a, audio);
    assert(views(a@) =~= views(audio@));
    let ghost p0 = print@;
    match cpucores_ram(cpu, brands, ram, guest) {
        Ok((args, note)) => {
            crate::text::extend_args(&mut a, &args);
            let ghost line = PrintLine::CpuRam(note);
            print.push(PrintLine::CpuRam(note));
            proof {
                lemma_print_push(p0, line);
            }
        },
        Err(e) => return Err(e),
    }
    let ghost p1 = print_views(print@);
    let ghost notes_view = match &spice { Some((_, n)) => Some(views(n@)), None => None };
    let ghost s1 = views(a@);
    match guest.cpu_argument(arch, matches_host, vendor, features) {
        Some(c) => {
            push_arg(&mut a, "-cpu");
            push_string(&mut a, c);
        },
        None => {},
    }
    assert(views(a@) =~= s1 + spec_cpu_seg(*guest, *arch, matches_host, vendor@, *features));
    let ghost s2 = views(a@);
    if matches!(display, Display::Disabled | Display::Spice | Display::SpiceApp) {
        match spice {
            Some((args, notes)) => {
                crate::text::extend_args(&mut a, &args);
                push_texts(print, notes);
            },
            None => {},
        }
    }
    assert(views(a@) =~= s2 + spec_spice_seg(display, match spice { Some((sa, _)) => Some(views(sa@)), None => None }));
    assert(print_views(print@) =~= p1 + text_lines(spec_spice_seg(display, notes_view)));
    proof {
        reveal(spec_front_seg);
        reveal(spec_front_lines);
    }
    Ok(a)
}

/// Appends the display, sound, TPM and firmware arguments (see
/// `Args::parts`), with their lines to print.
fn middle_args(a: &mut Vec<String>, print: &mut Vec<PrintLine>, display_args: (Vec<String>, Vec<String>),
    sound: (Vec<String>, Vec<String>), tpm: bool, vm_dir: &str, vm_name: &str, tpm_pid: u32, boot: (String, Option<Vec<String>>))
    ensures
        views(final(a)@) == views(old(a)@) + spec_middle_seg(views(display_args.0@), views(sound.0@), tpm, vm_dir@, vm_name@,
            opt_views(boot.1)),
        print_views(final(print)@) == print_views(old(print)@) + spec_middle_lines(views(display_args.1@), views(sound.1@), tpm,
            vm_dir@, vm_name@, tpm_pid, boot.0@),
{
    let ghost d0 = display_args.0;
    let ghost s0 = sound.0;
    let ghost dn0 = views(display_args.1@);
    let ghost sn0 = views(sound.1@);
    let ghost p0 = print_views(print@);
    let (da, dn) = display_args;
    crate::text::extend_args(a, &da);
    push_texts(print, dn);
    let (sa, sn) = sound;
    crate::text::extend_args(a, &sa);
    push_texts(print, sn);
    let ghost s1 = views(a@);
    let ghost p1 = print_views(print@);
    let ghost tpm_line = "TPM: "@ + spec_legacy_tpm_socket(vm_dir@, vm_name@) + " (pid: "@ + decimal(tpm_pid as nat) + ")"@;
    if tpm {
        let (ta, tp) = tpm_args(vm_dir, vm_name, tpm_pid);
        crate::text::extend_args(a, &ta);
        let ghost before = print@;
        let ghost line = PrintLine::Text(tp);
        print.push(PrintLine::Text(tp));
        proof {
            lemma_print_push(before, line);
        }
    }
    assert(views(a@) =~= s1 + spec_tpm_seg(tpm, vm_dir@, vm_name@));
    assert(print_views(print@) =~= p1 + (if tpm { seq![PrintView::Text(tpm_line)] } else { seq![] }));
    let ghost s2 = views(a@);
    let ghost p2 = print@;
    let ghost b1 = boot.1;
    let ghost b0 = boot.0@;
    let (bp, ba) = boot;
    let ghost bline = PrintLine::Text(bp);
    print.push(PrintLine::Text(bp));
    proof {
        lemma_print_push(p2, bline);
    }
    match ba {
        Some(args) => crate::text::extend_args(a, &args),
        None => {},
    }
    assert(views(a@) =~= s2 + (match b1 { Some(b) => views(b@), None => seq![] }));
    proof {
        reveal(spec_middle_seg);
        reveal(spec_middle_lines);
        assert(views(a@) =~= views(old(a)@) + spec_middle_seg(views(d0@), views(s0@), tpm, vm_dir@, vm_name@, opt_views(b1)));
        assert(print_views(print@) =~= p0 + spec_middle_lines(dn0, sn0, tpm, vm_dir@, vm_name@, tpm_pid, b0));
    }
}

/// Appends the USB, keyboard, braille, shared directory, mouse, monitor
/// and serial arguments (see `Args::parts`), with their lines to print.
fn tail_args(a: &mut Vec<String>, print: &mut Vec<PrintLine>, usb_controller: USBController, guest: &GuestOS, smartcard: Option<bool>,
    usb_devices: Option<Vec<String>>, keyboard: Keyboard, keyboard_layout: &Option<String>, braille: bool, publicdir: &Option<String>,
    username: &str, publicdir_readonly: bool, mouse: Mouse, monitor_args: (Vec<String>, Vec<String>),
    serial_args: (Vec<String>, Vec<String>))
    ensures
        views(final(a)@) == views(old(a)@) + spec_tail_seg(usb_controller, *guest, smartcard, opt_views(usb_devices), keyboard,
            opt_view(keyboard_layout), braille, opt_view(publicdir), username@, mouse, views(monitor_args.0@), views(serial_args.0@)),
        print_views(final(print)@) == print_views(old(print)@) + spec_tail_lines(opt_view(publicdir), *guest, username@,
            publicdir_readonly, views(monitor_args.1@), views(serial_args.1@)),
{
    let ghost p0 = print_views(print@);
    let ghost mn0 = views(monitor_args.1@);
    let ghost sn0 = views(serial_args.1@);
    let mut t: Vec<String> = usb_controller.to_args(guest, smartcard, usb_devices);
    let kb = keyboard.to_args();
    crate::text::extend_args(&mut t, &kb);
    let ghost s1 = views(t@);
    match keyboard_layout {
        Some(layout) => {
            push_arg(&mut t, "-k");
            push_arg(&mut t, layout.as_str());
        },
        None => {},
    }
    assert(views(t@) =~= s1 + spec_layout_seg(opt_view(keyboard_layout)));
    let ghost s2 = views(t@);
    if braille {
        push_arg(&mut t, "-chardev");
        push_arg(&mut t, "braille,id=brltty");
        push_arg(&mut t, "-device");
        push_arg(&mut t, "usb-braille,id=usbbrl,chardev=brltty");
    }
    assert(views(t@) =~= s2 + spec_braille_seg(braille));
    let ghost s3 = views(t@);
    match publicdir {
        Some(p) => {
            let (pa, pn) = publicdir_args(p.as_str(), guest, username, publicdir_readonly);
            crate::text::extend_args(&mut t, &pa);
            push_texts(print, pn);
        },
        None => {},
    }
    assert(views(t@) =~= s3 + spec_public_seg(opt_view(publicdir), *guest, username@));
    let ghost pd_notes = match opt_view(publicdir) {
        Some(p) => spec_publicdir_notes(p, *guest, username@, publicdir_readonly),
        None => seq![],
    };
    assert(print_views(print@) =~= p0 + text_lines(pd_notes));
    let ghost mon = views(monitor_args.0@);
    let ghost ser = views(serial_args.0@);
    let m = mouse.to_args();
    crate::text::extend_args(&mut t, &m);
    let (ma, mn) = monitor_args;
    crate::text::extend_args(&mut t, &ma);
    push_texts(print, mn);
    let (sea, sen) = serial_args;
    crate::text::extend_args(&mut t, &sea);
    push_texts(print, sen);
    assert(views(t@) == spec_tail_seg(usb_controller, *guest, smartcard, opt_views(usb_devices), keyboard,
        opt_view(keyboard_layout), braille, opt_view(publicdir), username@, mouse, mon, ser)) by {
        reveal(spec_tail_seg);
    }
    assert(print_views(print@) == p0 + spec_tail_lines(opt_view(publicdir), *guest, username@, publicdir_readonly, mn0, sn0)) by {
        reveal(spec_tail_lines);
        assert(print_views(print@) =~= p0 + (text_lines(pd_notes) + text_lines(mn0) + text_lines(sn0)));
    }
    crate::text::extend_args(a, &t);
}

/// Appends the lines of disk notes.
fn push_disk_notes(print: &mut Vec<PrintLine>, notes: &Vec<DiskNote>)
    ensures
        print_views(final(print)@) == print_views(old(print)@) + note_lines(note_views(notes@)),
{
    let mut i: usize = 0;
    while i < notes.len()
        invariant
            i <= notes@.len(),
            print_views(print@) == print_views(old(print)@) + note_lines(note_views(notes@).subrange(0, i as int)),
        decreases notes.len() - i,
    {
        let line = match &notes[i] {
            DiskNote::Created { format, path, size, preallocation } => PrintLine::DiskCreated {
                format: *format,
                path: path.clone(),
                size: *size,
                preallocation: *preallocation,
            },
            DiskNote::Text(t) => PrintLine::Text(t.clone()),
        };
        assert(print_view(line) == note_line(note_view(notes@[i as int])));
        let ghost before = print@;
        let ghost lv = line;
        print.push(line);
        proof {
            lemma_print_push(before, lv);
            assert(note_lines(note_views(notes@).subrange(0, i + 1)) =~= note_lines(note_views(notes@).subrange(0, i as int))
                .push(note_line(note_views(notes@)[i as int])));
        }
        i = i + 1;
    }
    assert(note_views(notes@).subrange(0, i as int) =~= note_views(notes@));
}

impl Args {
    /// The QEMU arguments of the guest, in order: the basic arguments (none
    /// where the guest runs already), then the parts (see `parts`), then
    /// the extra arguments.
    pub fn launch_args(self, host: LaunchHost) -> (r: Result<LaunchPlan, String>)
        requires
            1 <= self.cpu_cores.cores <= usize::MAX / 2 + 1,
            host.disk_states@.len() == self.disk_images@.len(),
            crate::legacy::qemu_args::images::spec_image_inputs_ok(self.vm_dir@, match self.image_files {
                Some(v) => Some(v@), None => None }, self.disk_images@, self.guest_os, host.disk_states@, host.bootloader_exists,
                host.unattended_exists),
        ensures
            host.pid_exists ==> (r matches Ok(LaunchPlan::AlreadyRunning)),
            !host.pid_exists ==> match spec_parts_args(self, host) {
                Some(p) => r matches Ok(LaunchPlan::Start { qemu_args, print }) && views(qemu_args@) == spec_basic_args(self.vm_name@,
                    self.vm_dir@, self.guest_os, self.arch, host.pid_exists, host.hw_virt)->Some_0 + p + views(self.extra_args@)
                    && print_views(print@) == spec_parts_print(self, host),
                None => r is Err,
            },
    {
        let mut a = match basic_args(self.vm_name.as_str(), self.vm_dir.as_str(), &self.guest_os, &self.arch, host.pid_exists, host.hw_virt) {
            Some(b) => b,
            None => return Ok(LaunchPlan::AlreadyRunning),
        };
        let ghost basic = views(a@);
        let extra = crate::legacy::launch::copy_args(&self.extra_args);
        let (middle, print) = match self.parts(host) {
            Ok(p) => p,
            Err(e) => return Err(e),
        };
        crate::text::extend_args(&mut a, &middle);
        crate::text::extend_args(&mut a, &extra);
        assert(views(a@) == basic + views(middle@) + views(extra@));
        Ok(LaunchPlan::Start { qemu_args: a, print })
    }

    /// The parts of the QEMU arguments between the basic and the extra
    /// ones, in order: audio, processors and memory, the CPU model, Spice
    /// (for the Spice displays and none), the network, the display, the
    /// sound card, the TPM, the firmware, the disks and images, USB, the
    /// keyboard and its layout, braille, the shared directory, the mouse,
    /// the monitor and the serial console; with the lines to print.
    #[verifier::rlimit(80)]
    pub fn parts(self, host: LaunchHost) -> (r: Result<(Vec<String>, Vec<PrintLine>), String>)
        requires
            1 <= self.cpu_cores.cores <= usize::MAX / 2 + 1,
            host.disk_states@.len() == self.disk_images@.len(),
            crate::legacy::qemu_args::images::spec_image_inputs_ok(self.vm_dir@, match self.image_files {
                Some(v) => Some(v@), None => None }, self.disk_images@, self.guest_os, host.disk_states@, host.bootloader_exists,
                host.unattended_exists),
        ensures
            match spec_parts_args(self, host) {
                Some(s) => r matches Ok((a, p)) && views(a@) == s && print_views(p@) == spec_parts_print(self, host),
                None => r is Err,
            },
    {
        let ghost old_self = self;
        let ghost old_host = host;
        let LaunchHost { pid_exists: _, hw_virt: _, matches_host, vendor, features, brands, ssh_port, smbd_found, bridge_exists,
            publicdir, username, publicdir_readonly, tpm_pid, boot, disk_states, bootloader_exists, unattended_exists, smartcard,
            audio, spice, display_args, sound, monitor_args, serial_args } = host;
        let mut print: Vec<PrintLine> = Vec::new();
        assert(print_views(print@) =~= seq![]);
        let mut a = match front_args(&mut print, &audio, self.cpu_cores, &brands, self.ram, &self.guest_os, &self.arch, matches_host,
            vendor.as_str(), &features, self.display, spice) {
            Ok(v) => v,
            Err(e) => return Err(e),
        };
        match self.network.into_args(self.vm_name.as_str(), ssh_port, self.port_forwards, crate::text::clone_opt(&publicdir),
            &self.guest_os, smbd_found, bridge_exists) {
            Ok((args, notes)) => {
                crate::text::extend_args(&mut a, &args);
                match notes {
                    Some(n) => push_texts(&mut print, n),
                    None => {},
                }
            },
            Err(e) => return Err(e),
        }
        middle_args(&mut a, &mut print, display_args, sound, self.tpm, self.vm_dir.as_str(), self.vm_name.as_str(), tpm_pid, boot);
        match image_args(self.vm_dir.as_str(), self.image_files, &self.disk_images, &self.guest_os, self.status_quo,
            &disk_states, bootloader_exists, unattended_exists) {
            Ok((args, notes)) => {
                crate::text::extend_args(&mut a, &args);
                push_disk_notes(&mut print, &notes);
            },
            Err(e) => return Err(e),
        }
        tail_args(&mut a, &mut print, self.usb_controller, &self.guest_os, smartcard, self.usb_devices, self.keyboard,
            &self.keyboard_layout, self.braille, &publicdir, username.as_str(), publicdir_readonly, self.mouse, monitor_args,
            serial_args);
        proof {
            reveal(spec_parts_print);
        }
        Ok((a, print))
    }
}

/// A copy of a list of arguments.
pub fn copy_args(v: &Vec<String>) -> (r: Vec<String>)
    ensures
        views(r@) == views(v@),
{
    let mut r: Vec<String> = Vec::new();
    crate::text::extend_args(&mut r, v);
    assert(views(r@) =~= views(v@));
    r
}

/// The script that starts QEMU again: the program and each argument in
/// double quotes, separated by spaces.
pub open spec fn spec_quoted(args: Seq<Seq<char>>) -> Seq<Seq<char>> {
    args.map_values(|a: Seq<char>| "\""@ + a + "\""@)
}

/// The line of the launch script that starts QEMU.
pub fn launch_script_line(qemu_bin: &str, args: &Vec<String>) -> (r: String)
    ensures
        r@ == qemu_bin@ + " "@ + crate::text::seq_join(spec_quoted(views(args@)), " "@),
{
    let mut q: Vec<String> = Vec::new();
    let mut i: usize = 0;
    while i < args.len()
        invariant
            i <= args@.len(),
            views(q@) == spec_quoted(views(args@).subrange(0, i as int)),
        decreases args.len() - i,
    {
        let mut s = String::from_str("\"");
        s.append(args[i].as_str());
        s.append("\"");
        push_string(&mut q, s);
        assert(spec_quoted(views(args@).subrange(0, i + 1)) =~= spec_quoted(views(args@).subrange(0, i as int))
            .push("\""@ + args@[i as int]@ + "\""@));
        i = i + 1;
    }
    assert(views(args@).subrange(0, args@.len() as int) =~= views(args@));
    let j = crate::text::join(&q, " ");
    let mut r = String::from_str(qemu_bin);
    r.append(" ");
    r.append(j.as_str());
    r
}

} // verus!
