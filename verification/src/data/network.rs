//! Networking, and the monitor and serial consoles.

use vstd::prelude::*;

verus! {

/// The host port that is forwarded to the guest's SSH port, if a free
/// one was found.
#[derive(Debug, Clone, Copy, PartialEq, Eq, Structural)]
pub struct SSHPort(pub Option<u16>);

impl SSHPort {
    /// The first host port that is tried for SSH; the nine after it are
    /// tried in turn.
    pub fn first_candidate() -> (r: u16)
        ensures
            r == 22220,
    {
        22220
    }
}

/// A network bridge device of the host.
#[derive(Debug, Clone, PartialEq)]
pub struct Bridge(pub String);

/// A host port that is forwarded to a guest port.
#[derive(Debug, Clone, Copy, PartialEq, Eq, Structural)]
pub struct PortForward {
    pub host: u16,
    pub guest: u16,
}

/// How the guest is connected to the network.
#[derive(Debug, Clone, PartialEq)]
pub enum NetworkType {
    Disabled,
    Bridged { bridge: Bridge, mac_addr: Option<String> },
    Nat { port_forwards: Vec<PortForward>, ssh_port: SSHPort, restrict: bool },
}

impl NetworkType {
    /// Whether two settings hold the same values.
    pub open spec fn spec_equiv(self, other: NetworkType) -> bool {
        match (self, other) {
            (NetworkType::Disabled, NetworkType::Disabled) => true,
            (NetworkType::Bridged { bridge: b1, mac_addr: m1 }, NetworkType::Bridged { bridge: b2, mac_addr: m2 }) =>
                b1 == b2 && m1 == m2,
            (NetworkType::Nat { port_forwards: f1, ssh_port: s1, restrict: r1 },
             NetworkType::Nat { port_forwards: f2, ssh_port: s2, restrict: r2 }) => f1@ == f2@ && s1 == s2 && r1 == r2,
            _ => false,
        }
    }

    /// A copy of the setting.
    pub fn duplicate(&self) -> (r: NetworkType)
        ensures
            r.spec_equiv(*self),
    {
        match self {
            NetworkType::Disabled => NetworkType::Disabled,
            NetworkType::Bridged { bridge, mac_addr } => NetworkType::Bridged {
                bridge: Bridge(bridge.0.clone()),
                mac_addr: crate::text::clone_opt(mac_addr),
            },
            NetworkType::Nat { port_forwards, ssh_port, restrict } => {
                let mut f: Vec<PortForward> = Vec::new();
                let mut i: usize = 0;
                while i < port_forwards.len()
                    invariant
                        i <= port_forwards@.len(),
                        f@ == port_forwards@.subrange(0, i as int),
                    decreases port_forwards.len() - i,
                {
                    f.push(port_forwards[i]);
                    assert(f@ =~= port_forwards@.subrange(0, i + 1));
                    i = i + 1;
                }
                assert(f@ =~= port_forwards@);
                NetworkType::Nat { port_forwards: f, ssh_port: *ssh_port, restrict: *restrict }
            },
        }
    }
}

/// A socket address: the host part as it is written in one (an IPv6
/// address in brackets), and a port.
#[derive(Debug, Clone, PartialEq)]
pub struct SocketAddress {
    pub host: String,
    pub port: u16,
}

impl SocketAddress {
    /// The text of the address, `host:port`.
    pub open spec fn spec_text(&self) -> Seq<char> {
        self.host@ + ":"@ + crate::text::decimal(self.port as nat)
    }

    /// The text of the address, `host:port`.
    pub fn text(&self) -> (r: String)
        ensures
            r@ == self.spec_text(),
    {
        let mut r = self.host.clone();
        r.append(":");
        let p = crate::text::u64_to_string(self.port as u64);
        r.append(p.as_str());
        r
    }

    /// The loopback address with the given port.
    pub fn localhost(port: u16) -> (r: SocketAddress)
        ensures
            r.host@ == "127.0.0.1"@,
            r.port == port,
    {
        SocketAddress { host: String::from_str("127.0.0.1"), port }
    }
}

/// What a monitor or serial console needs of its address type: the QEMU
/// option it is given with, the name it is shown with, and the address.
pub trait MonitorArg: Sized {
    /// The QEMU option.
    spec fn spec_arg() -> Seq<char>;

    /// The name that the console is shown with.
    spec fn spec_display() -> Seq<char>;

    /// The address of a telnet console.
    spec fn spec_address(&self) -> SocketAddress;

    /// The QEMU option.
    fn arg() -> (r: &'static str)
        ensures
            r@ == Self::spec_arg();

    /// The name that the console is shown with.
    fn display() -> (r: &'static str)
        ensures
            r@ == Self::spec_display();

    /// The address of a telnet console.
    fn address(&self) -> (r: &SocketAddress)
        ensures
            *r == self.spec_address();

    /// Moves a telnet console to another port.
    fn set_port(&mut self, port: u16)
        ensures
            final(self).spec_address().host == old(self).spec_address().host,
            final(self).spec_address().port == port;

    /// The address a telnet console has when none is configured.
    fn default_address() -> (r: Self);
}

/// A console of the guest: none, a telnet server, or a Unix socket (by
/// default in the VM directory).
#[derive(Debug, Clone, PartialEq)]
pub enum MonitorInner<T: MonitorArg> {
    Disabled,
    Telnet { address: T },
    Socket { socketpath: Option<String> },
}

impl<T: MonitorArg> MonitorInner<T> {
    /// A console is a Unix socket unless configured otherwise.
    pub fn default_console() -> (r: Self)
        ensures
            r matches MonitorInner::Socket { socketpath } && socketpath is None,
    {
        MonitorInner::Socket { socketpath: None }
    }
}

/// The address of the QEMU monitor.
#[derive(Debug, Clone, PartialEq)]
pub struct MonitorAddr(pub SocketAddress);

impl MonitorArg for MonitorAddr {
    open spec fn spec_arg() -> Seq<char> {
        "-monitor"@
    }

    open spec fn spec_display() -> Seq<char> {
        "Monitor"@
    }

    open spec fn spec_address(&self) -> SocketAddress {
        self.0
    }

    fn arg() -> (r: &'static str) {
        "-monitor"
    }

    fn display() -> (r: &'static str) {
        "Monitor"
    }

    fn address(&self) -> (r: &SocketAddress) {
        &self.0
    }

    fn set_port(&mut self, port: u16) {
        self.0.port = port;
    }

    fn default_address() -> (r: Self)
        ensures
            r.0.host@ == "127.0.0.1"@,
            r.0.port == 4440,
    {
        MonitorAddr(SocketAddress::localhost(4440))
    }
}

/// The address of the serial console.
#[derive(Debug, Clone, PartialEq)]
pub struct SerialAddr(pub SocketAddress);

impl MonitorArg for SerialAddr {
    open spec fn spec_arg() -> Seq<char> {
        "-serial"@
    }

    open spec fn spec_display() -> Seq<char> {
        "Serial"@
    }

    open spec fn spec_address(&self) -> SocketAddress {
        self.0
    }

    fn arg() -> (r: &'static str) {
        "-serial"
    }

    fn display() -> (r: &'static str) {
        "Serial"
    }

    fn address(&self) -> (r: &SocketAddress) {
        &self.0
    }

    fn set_port(&mut self, port: u16) {
        self.0.port = port;
    }

    fn default_address() -> (r: Self)
        ensures
            r.0.host@ == "127.0.0.1"@,
            r.0.port == 6660,
    {
        SerialAddr(SocketAddress::localhost(6660))
    }
}

/// The QEMU monitor console.
pub type Monitor = MonitorInner<MonitorAddr>;

/// The serial console.
pub type Serial = MonitorInner<SerialAddr>;

/// The network settings of a virtual machine.
#[derive(Debug, Clone, PartialEq)]
pub struct Network {
    pub network_type: NetworkType,
    pub monitor: Monitor,
    pub serial: Serial,
}

} // verus!
