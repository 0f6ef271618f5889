//! The network of the guest: its device, how it reaches the network, and
//! the monitor and serial consoles.

use vstd::prelude::*;
use crate::data::guest::{GuestOS, MacOSRelease};
use crate::data::network::{Monitor, Network, NetworkType, PortForward, Serial};
use crate::error::{Error, Warning};
use crate::text::{clone_opt, decimal, has_part, lemma_has_part_extend, lemma_has_part_self, push_arg, push_string, u64_to_string, views};
use crate::utils::{extend_lines, lines, push_line, ArgDisplay, EmulatorArgs};
use self::monitor::Console;

pub mod monitor;

verus! {

/// The network card of the guest.
#[derive(Debug, Clone, Copy, PartialEq, Eq, Structural)]
pub enum NetDevice {
    E1000,
    VMXNET3,
    VirtIONet,
    RTL8139,
}

impl NetDevice {
    /// The card of a guest: ReactOS gets an E1000, macOS a VirtIO card from
    /// Big Sur on (VMXNET3 before), Linux, Solaris and the BSDs a VirtIO
    /// card, the others an RTL 8139.
    pub open spec fn spec_for_guest(guest: GuestOS) -> NetDevice {
        match guest {
            GuestOS::ReactOS => NetDevice::E1000,
            GuestOS::MacOS { release } => if release.spec_rank() >= MacOSRelease::BigSur.spec_rank() {
                NetDevice::VirtIONet
            } else {
                NetDevice::VMXNET3
            },
            GuestOS::Linux | GuestOS::LinuxOld | GuestOS::Solaris | GuestOS::GhostBSD | GuestOS::FreeBSD
            | GuestOS::GenericBSD => NetDevice::VirtIONet,
            _ => NetDevice::RTL8139,
        }
    }

    /// The card of a guest.
    pub fn for_guest(guest: GuestOS) -> (r: NetDevice)
        ensures
            r == Self::spec_for_guest(guest),
    {
        match guest {
            GuestOS::ReactOS => NetDevice::E1000,
            GuestOS::MacOS { release } => if release.at_least(MacOSRelease::BigSur) {
                NetDevice::VirtIONet
            } else {
                NetDevice::VMXNET3
            },
            GuestOS::Linux | GuestOS::LinuxOld | GuestOS::Solaris | GuestOS::GhostBSD | GuestOS::FreeBSD
            | GuestOS::GenericBSD => NetDevice::VirtIONet,
            _ => NetDevice::RTL8139,
        }
    }

    /// The QEMU name of the card.
    pub open spec fn spec_as_str(self) -> Seq<char> {
        match self {
            NetDevice::E1000 => "e1000"@,
            NetDevice::VMXNET3 => "vmxnet3"@,
            NetDevice::VirtIONet => "virtio-net"@,
            NetDevice::RTL8139 => "rtl8139"@,
        }
    }

    /// The QEMU name of the card.
    pub fn as_str(&self) -> (r: &'static str)
        ensures
            r@ == self.spec_as_str(),
    {
        match self {
            NetDevice::E1000 => "e1000",
            NetDevice::VMXNET3 => "vmxnet3",
            NetDevice::VirtIONet => "virtio-net",
            NetDevice::RTL8139 => "rtl8139",
        }
    }

    /// The name the card is shown with.
    pub open spec fn spec_name(self) -> Seq<char> {
        match self {
            NetDevice::E1000 => "E1000"@,
            NetDevice::VMXNET3 => "VMXNET3"@,
            NetDevice::VirtIONet => "VirtIO Net"@,
            NetDevice::RTL8139 => "RTL 8139"@,
        }
    }

    /// The name the card is shown with.
    pub fn name(&self) -> (r: &'static str)
        ensures
            r@ == self.spec_name(),
    {
        match self {
            NetDevice::E1000 => "E1000",
            NetDevice::VMXNET3 => "VMXNET3",
            NetDevice::VirtIONet => "VirtIO Net",
            NetDevice::RTL8139 => "RTL 8139",
        }
    }
}

/// The network of the guest: how it is connected, its card, its host
/// name, and the directory that Samba shares (NAT only).
#[derive(Debug, Clone, PartialEq)]
pub struct NetworkArgs {
    pub network_type: NetworkType,
    pub network_device: NetDevice,
    pub vm_name: String,
    pub samba: Option<String>,
}

/// The forwarding of each port forward, `,hostfwd=tcp::<host>-:<guest>`.
pub open spec fn spec_forwards(f: Seq<PortForward>) -> Seq<char>
    decreases f.len(),
{
    if f.len() == 0 {
        seq![]
    } else {
        spec_forwards(f.drop_last()) + ",hostfwd=tcp::"@ + decimal(f.last().host as nat) + "-:"@
            + decimal(f.last().guest as nat)
    }
}

/// The description line of each port forward.
pub open spec fn spec_forward_lines(f: Seq<PortForward>) -> Seq<(Seq<char>, Seq<char>)> {
    f.map_values(|p: PortForward| ("Port Forward"@, decimal(p.host as nat) + " => "@ + decimal(p.guest as nat)))
}

/// The `-net` option of a NAT network.
pub open spec fn spec_nat_net(vm_name: Seq<char>, ssh: Option<u16>, restrict: bool, samba: Option<Seq<char>>, f: Seq<PortForward>) -> Seq<char> {
    let smb = match samba { Some(s) => ",smb="@ + s, None => seq![] };
    "user,id=nic,hostname="@ + vm_name
        + (match ssh { Some(p) => ",hostfwd=tcp::"@ + decimal(p as nat) + "-:22"@, None => seq![] })
        + (if restrict { ",restrict=y"@ } else { seq![] })
        + smb + spec_forwards(f) + smb
}

/// The forwarding that QEMU gets for one port forward: the host's port
/// before `-:`, the guest's after it.
pub open spec fn hostfwd(p: PortForward) -> Seq<char> {
    ",hostfwd=tcp::"@ + decimal(p.host as nat) + "-:"@ + decimal(p.guest as nat)
}

/// Every port forward is in the forwarding text.
proof fn lemma_forwards_hold(f: Seq<PortForward>)
    ensures
        forall|i: int| 0 <= i < f.len() ==> has_part(spec_forwards(f), #[trigger] hostfwd(f[i])),
    decreases f.len(),
{
    if f.len() > 0 {
        let d = f.drop_last();
        lemma_forwards_hold(d);
        let last = hostfwd(f.last());
        assert(spec_forwards(f) =~= spec_forwards(d) + last);
        assert forall|i: int| 0 <= i < f.len() implies has_part(spec_forwards(f), #[trigger] hostfwd(f[i])) by {
            if i == f.len() - 1 {
                lemma_has_part_self(last);
                lemma_has_part_extend(spec_forwards(d), last, seq![], last);
                assert(spec_forwards(d) + last + Seq::<char>::empty() =~= spec_forwards(f));
            } else {
                assert(f[i] == d[i]);
                lemma_has_part_extend(seq![], spec_forwards(d), last, hostfwd(f[i]));
                assert(Seq::<char>::empty() + spec_forwards(d) + last =~= spec_forwards(f));
            }
        }
    }
}

/// A NAT network forwards every port forward from the host's port to the
/// guest's: its `-net` option holds `,hostfwd=tcp::<host>-:<guest>` for
/// each of them.
pub proof fn law_port_forwards_host_to_guest(n: NetworkArgs)
    requires
        n.network_type is Nat,
    ensures
        n.spec_qemu_args().len() == 4,
        n.spec_qemu_args()[2] == "-net"@,
        forall|i: int| 0 <= i < n.network_type->port_forwards@.len()
            ==> has_part(n.spec_qemu_args()[3], #[trigger] hostfwd(n.network_type->port_forwards@[i])),
        n.network_type->ssh_port.0 matches Some(p)
            ==> has_part(n.spec_qemu_args()[3], ",hostfwd=tcp::"@ + decimal(p as nat) + "-:22"@),
{
    match n.network_type {
        NetworkType::Nat { ssh_port, port_forwards, restrict } => {
            let f = port_forwards@;
            lemma_forwards_hold(f);
            let samba = match n.samba { Some(s) => Some(s@), None => None };
            let smb = match samba { Some(s) => ",smb="@ + s, None => seq![] };
            let front = "user,id=nic,hostname="@ + n.vm_name@
                + (match ssh_port.0 { Some(p) => ",hostfwd=tcp::"@ + decimal(p as nat) + "-:22"@, None => seq![] })
                + (if restrict { ",restrict=y"@ } else { seq![] })
                + smb;
            let net = spec_nat_net(n.vm_name@, ssh_port.0, restrict, samba, f);
            assert(net =~= front + spec_forwards(f) + smb);
            assert forall|i: int| 0 <= i < f.len() implies has_part(net, #[trigger] hostfwd(f[i])) by {
                assert(has_part(spec_forwards(f), hostfwd(f[i])));
                lemma_has_part_extend(front, spec_forwards(f), smb, hostfwd(f[i]));
            }
            if let Some(p) = ssh_port.0 {
                let fw = ",hostfwd=tcp::"@ + decimal(p as nat) + "-:22"@;
                let name = "user,id=nic,hostname="@ + n.vm_name@;
                let rest = (if restrict { ",restrict=y"@ } else { seq![] }) + smb + spec_forwards(f) + smb;
                assert(net =~= name + fw + rest);
                lemma_has_part_self(fw);
                lemma_has_part_extend(name, fw, rest, fw);
            }
        },
        _ => {},
    }
}

impl EmulatorArgs for NetworkArgs {
    open spec fn spec_display(&self) -> Seq<(Seq<char>, Seq<char>)> {
        let network = ("Network"@, match self.network_type {
            NetworkType::Disabled => "Disabled"@,
            NetworkType::Nat { restrict, .. } => (if restrict { "Restricted ("@ } else { "User ("@ })
                + self.network_device.spec_name() + ")"@,
            NetworkType::Bridged { bridge, .. } => "Bridged ("@ + bridge.0@ + ")"@,
        });
        match self.network_type {
            NetworkType::Nat { ssh_port, port_forwards, .. } => seq![network, match ssh_port.0 {
                Some(p) => ("SSH (Host)"@, "ssh {user}@localhost -p "@ + decimal(p as nat)),
                None => ("SSH"@, "All ports exhausted"@),
            }] + (if self.samba is Some { seq![("Samba (Guest)"@, "`smb://10.0.2.4/qemu`"@)] } else { seq![] })
                + spec_forward_lines(port_forwards@),
            _ => seq![network],
        }
    }

    open spec fn spec_qemu_args(&self) -> Seq<Seq<char>> {
        match self.network_type {
            NetworkType::Disabled => seq!["-nic"@, "none"@],
            NetworkType::Bridged { bridge, mac_addr } => seq!["-nic"@, "bridge,br="@ + bridge.0@
                + match mac_addr { Some(m) => ",mac="@ + m@, None => seq![] }],
            NetworkType::Nat { ssh_port, port_forwards, restrict } => seq!["-netdev"@, self.network_device.spec_as_str(), "-net"@,
                spec_nat_net(self.vm_name@, ssh_port.0, restrict,
                    match self.samba { Some(s) => Some(s@), None => None }, port_forwards@)],
        }
    }

    fn display(&self) -> (r: Vec<ArgDisplay>) {
        let value = match &self.network_type {
            NetworkType::Disabled => String::from_str("Disabled"),
            NetworkType::Nat { restrict, .. } => {
                let mut v = String::from_str(if *restrict { "Restricted (" } else { "User (" });
                v.append(self.network_device.name());
                v.append(")");
                v
            },
            NetworkType::Bridged { bridge, .. } => {
                let mut v = String::from_str("Bridged (");
                v.append(bridge.0.as_str());
                v.append(")");
                v
            },
        };
        let mut r: Vec<ArgDisplay> = Vec::new();
        push_line(&mut r, ArgDisplay::new("Network", value));
        match &self.network_type {
            NetworkType::Nat { ssh_port, port_forwards, .. } => {
                match ssh_port.0 {
                    Some(p) => {
                        let mut v = String::from_str("ssh {user}@localhost -p ");
                        let ps = u64_to_string(p as u64);
                        v.append(ps.as_str());
                        push_line(&mut r, ArgDisplay::new("SSH (Host)", v));
                    },
                    None => push_line(&mut r, ArgDisplay::new("SSH", String::from_str("All ports exhausted"))),
                }
                if self.samba.is_some() {
                    push_line(&mut r, ArgDisplay::new("Samba (Guest)", String::from_str("`smb://10.0.2.4/qemu`")));
                }
                let ghost before = lines(r@);
                let mut i: usize = 0;
                while i < port_forwards.len()
                    invariant
                        i <= port_forwards@.len(),
                        lines(r@) == before + spec_forward_lines(port_forwards@.subrange(0, i as int)),
                    decreases port_forwards.len() - i,
                {
                    let f = port_forwards[i];
                    let mut v = u64_to_string(f.host as u64);
                    v.append(" => ");
                    let g = u64_to_string(f.guest as u64);
                    v.append(g.as_str());
                    push_line(&mut r, ArgDisplay::new("Port Forward", v));
                    assert(spec_forward_lines(port_forwards@.subrange(0, i + 1))
                        =~= spec_forward_lines(port_forwards@.subrange(0, i as int)).push(
                            ("Port Forward"@, decimal(f.host as nat) + " => "@ + decimal(f.guest as nat))));
                    i = i + 1;
                }
                assert(port_forwards@.subrange(0, port_forwards@.len() as int) =~= port_forwards@);
            },
            _ => {},
        }
        assert(lines(r@) =~= self.spec_display());
        r
    }

    fn qemu_args(&self) -> (r: Vec<String>) {
        let mut a: Vec<String> = Vec::new();
        match &self.network_type {
            NetworkType::Disabled => {
                push_arg(&mut a, "-nic");
                push_arg(&mut a, "none");
            },
            NetworkType::Bridged { bridge, mac_addr } => {
                let mut nic = String::from_str("bridge,br=");
                nic.append(bridge.0.as_str());
                let ghost base = nic@;
                match mac_addr {
                    Some(m) => {
                        nic.append(",mac=");
                        nic.append(m.as_str());
                    },
                    None => {},
                }
                assert(nic@ =~= base + match mac_addr { Some(m) => ",mac="@ + m@, None => seq![] });
                push_arg(&mut a, "-nic");
                push_string(&mut a, nic);
            },
            NetworkType::Nat { ssh_port, port_forwards, restrict } => {
                let mut net = String::from_str("user,id=nic,hostname=");
                net.append(self.vm_name.as_str());
                let ghost s0 = net@;
                match ssh_port.0 {
                    Some(p) => {
                        net.append(",hostfwd=tcp::");
                        let ps = u64_to_string(p as u64);
                        net.append(ps.as_str());
                        net.append("-:22");
                    },
                    None => {},
                }
                assert(net@ =~= s0 + (match ssh_port.0 { Some(p) => ",hostfwd=tcp::"@ + decimal(p as nat) + "-:22"@, None => seq![] }));
                let ghost s1 = net@;
                if *restrict {
                    net.append(",restrict=y");
                }
                assert(net@ =~= s1 + (if *restrict { ",restrict=y"@ } else { seq![] }));
                let ghost smb = match &self.samba { Some(s) => ",smb="@ + s@, None => seq![] };
                let ghost s2 = net@;
                match &self.samba {
                    Some(s) => {
                        net.append(",smb=");
                        net.append(s.as_str());
                    },
                    None => {},
                }
                assert(net@ =~= s2 + smb);
                let ghost s3 = net@;
                let mut i: usize = 0;
                while i < port_forwards.len()
                    invariant
                        i <= port_forwards@.len(),
                        net@ == s3 + spec_forwards(port_forwards@.subrange(0, i as int)),
                    decreases port_forwards.len() - i,
                {
                    let f = port_forwards[i];
                    net.append(",hostfwd=tcp::");
                    let h = u64_to_string(f.host as u64);
                    net.append(h.as_str());
                    net.append("-:");
                    let g = u64_to_string(f.guest as u64);
                    net.append(g.as_str());
                    assert(port_forwards@.subrange(0, i + 1).drop_last() =~= port_forwards@.subrange(0, i as int));
                    assert(net@ =~= s3 + spec_forwards(port_forwards@.subrange(0, i + 1)));
                    i = i + 1;
                }
                assert(port_forwards@.subrange(0, port_forwards@.len() as int) =~= port_forwards@);
                let ghost s4 = net@;
                match &self.samba {
                    Some(s) => {
                        net.append(",smb=");
                        net.append(s.as_str());
                    },
                    None => {},
                }
                assert(net@ =~= s4 + smb);
                push_arg(&mut a, "-netdev");
                push_arg(&mut a, self.network_device.as_str());
                push_arg(&mut a, "-net");
                push_string(&mut a, net);
            },
        }
        assert(views(a@) =~= self.spec_qemu_args());
        a
    }
}

/// The network of the guest and its consoles.
#[derive(Debug, Clone, PartialEq)]
pub struct FullNetworkArgs {
    pub network: NetworkArgs,
    pub monitor: Console,
    pub serial: Console,
}

impl EmulatorArgs for FullNetworkArgs {
    open spec fn spec_display(&self) -> Seq<(Seq<char>, Seq<char>)> {
        self.network.spec_display() + self.monitor.spec_display() + self.serial.spec_display()
    }

    open spec fn spec_qemu_args(&self) -> Seq<Seq<char>> {
        self.network.spec_qemu_args() + self.monitor.spec_qemu_args() + self.serial.spec_qemu_args()
    }

    fn display(&self) -> (r: Vec<ArgDisplay>) {
        let mut r = self.network.display();
        extend_lines(&mut r, self.monitor.display());
        extend_lines(&mut r, self.serial.display());
        r
    }

    fn qemu_args(&self) -> (r: Vec<String>) {
        let mut a = self.network.qemu_args();
        let m = self.monitor.qemu_args();
        crate::text::extend_args(&mut a, &m);
        let s = self.serial.qemu_args();
        crate::text::extend_args(&mut a, &s);
        a
    }
}

/// The network of a guest: the configured kind of network, the card that
/// suits the guest, the VM's name, and the public directory shared over
/// Samba exactly where the network is NAT and `smbd` was found.
pub open spec fn spec_network_args(net: Network, guest: GuestOS, vm_name: Seq<char>, publicdir: Option<Seq<char>>,
    smbd_found: bool, n: NetworkArgs) -> bool {
    &&& n.network_type.spec_equiv(net.network_type)
    &&& n.network_device == NetDevice::spec_for_guest(guest)
    &&& n.vm_name@ == vm_name
    &&& match n.samba {
        Some(s) => net.network_type is Nat && smbd_found && (publicdir matches Some(p) && s@ == p),
        None => !(net.network_type is Nat && smbd_found && publicdir is Some),
    }
}

impl Network {
    /// The network and consoles of the guest (see `inner_args`); the
    /// socket consoles need their paths, which finishing the
    /// configuration gives them.
    pub fn args(&self, guest: GuestOS, vm_name: &str, publicdir: Option<&str>, smbd_found: bool)
        -> (r: Result<(FullNetworkArgs, Option<Warning>), Error>)
        requires
            !(self.monitor matches crate::data::network::MonitorInner::Socket { socketpath } && socketpath is None),
            !(self.serial matches crate::data::network::MonitorInner::Socket { socketpath } && socketpath is None),
        ensures
            r matches Ok((n, w)) && w is None
                && spec_network_args(*self, guest, vm_name@, match publicdir { Some(p) => Some(p@), None => None }, smbd_found,
                    n.network)
                && self::monitor::spec_console(self.monitor, n.monitor)
                && self::monitor::spec_console(self.serial, n.serial),
    {
        let network = self.inner_args(guest, vm_name, publicdir, smbd_found);
        let monitor = self.monitor.console();
        let serial = self.serial.console();
        Ok((FullNetworkArgs { network, monitor, serial }, None))
    }

    /// The network of the guest: a NAT network shares the public
    /// directory over Samba where `smbd` was found. Socket consoles need
    /// their paths.
    pub fn inner_args(&self, guest: GuestOS, vm_name: &str, publicdir: Option<&str>, smbd_found: bool) -> (r: NetworkArgs)
        ensures
            spec_network_args(*self, guest, vm_name@, match publicdir { Some(p) => Some(p@), None => None }, smbd_found, r),
    {
        let samba = match (&self.network_type, publicdir) {
            (NetworkType::Nat { .. }, Some(p)) => if smbd_found { Some(String::from_str(p)) } else { None },
            _ => None,
        };
        NetworkArgs {
            network_type: self.network_type.duplicate(),
            network_device: NetDevice::for_guest(guest),
            vm_name: String::from_str(vm_name),
            samba,
        }
    }
}

} // verus!
