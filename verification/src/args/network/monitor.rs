//! The monitor and serial consoles: finding a free telnet port, and their
//! QEMU arguments.

use vstd::prelude::*;
use crate::data::network::{MonitorArg, MonitorInner, SocketAddress};
use crate::error::Error;
use crate::text::{push_arg, push_string, views};
use crate::utils::{lines, ArgDisplay, EmulatorArgs};

verus! {

/// The first port from `port` on (up to `port + offset`) that is free;
/// `free[i]` says whether `port + i` is.
pub fn find_port(port: u16, offset: u16, free: &Vec<bool>) -> (r: Option<u16>)
    requires
        port + offset <= 65535,
        free@.len() == offset + 1,
    ensures
        match r {
            Some(p) => port <= p <= port + offset && free@[p - port] && forall|j: int| 0 <= j < p - port ==> !free@[j],
            None => forall|j: int| 0 <= j <= offset ==> !free@[j],
        },
{
    let mut i: u32 = 0;
    while i < offset as u32 + 1
        invariant
            port + offset <= 65535,
            free@.len() == offset + 1,
            i <= offset + 1,
            forall|j: int| 0 <= j < i ==> !free@[j],
        decreases offset + 1 - i,
    {
        if free[i as usize] {
            return Some(port + i as u16);
        }
        i = i + 1;
    }
    None
}

/// Whether a console can be set up: a telnet console needs a free port
/// among the ten from its own on (`free[i]`: whether its port plus `i` is).
pub open spec fn spec_console_ok<T: MonitorArg>(c: MonitorInner<T>, free: Seq<bool>) -> bool {
    c matches MonitorInner::Telnet { .. } ==> exists|j: int| 0 <= j < 10 && #[trigger] free[j]
}

/// What a console becomes once set up: a telnet console moves to the first
/// free port from its own on (keeping its host), a socket console without
/// a path gets `path`, others stay as they are.
pub open spec fn spec_console_final<T: MonitorArg>(c: MonitorInner<T>, free: Seq<bool>, path: Seq<char>, after: MonitorInner<T>) -> bool {
    match c {
        MonitorInner::Telnet { address } => {
            let port = address.spec_address().port;
            after matches MonitorInner::Telnet { address: a }
                && a.spec_address().host == address.spec_address().host
                && port <= a.spec_address().port <= port + 9
                && free[a.spec_address().port - port]
                && forall|j: int| 0 <= j < a.spec_address().port - port ==> !free[j]
        },
        MonitorInner::Socket { socketpath: None } => after matches MonitorInner::Socket { socketpath: Some(p) } && p@ == path,
        _ => after == c,
    }
}

impl<T: MonitorArg> MonitorInner<T> {
    /// The port that a telnet console is configured with.
    pub fn telnet_port(&self) -> (r: Option<u16>)
        ensures
            r == (match self { MonitorInner::Telnet { address } => Some(address.spec_address().port), _ => None::<u16> }),
    {
        match self {
            MonitorInner::Telnet { address } => Some(address.address().port),
            _ => None,
        }
    }

    /// Moves a telnet console to the first free port of the ten from its
    /// own on (`free[i]`: whether its port plus `i` is free); where none is
    /// free, the port it has is refused. Other consoles stay as they are.
    pub fn validate(&mut self, free: &Vec<bool>) -> (r: Result<(), Error>)
        requires
            *old(self) matches MonitorInner::Telnet { address } ==> address.spec_address().port + 9 <= 65535 && free@.len() == 10,
        ensures
            match *old(self) {
                MonitorInner::Telnet { address } => {
                    let port = address.spec_address().port;
                    match r {
                        Ok(_) => *final(self) matches MonitorInner::Telnet { address: a }
                            && a.spec_address().host == address.spec_address().host
                            && port <= a.spec_address().port <= port + 9
                            && free@[a.spec_address().port - port]
                            && forall|j: int| 0 <= j < a.spec_address().port - port ==> !free@[j],
                        Err(e) => e == Error::UnavailablePort(port) && *final(self) == *old(self)
                            && forall|j: int| 0 <= j < 10 ==> !free@[j],
                    }
                },
                _ => r is Ok && *final(self) == *old(self),
            },
    {
        match self {
            MonitorInner::Telnet { address } => {
                let defined = address.address().port;
                match find_port(defined, 9, free) {
                    Some(p) => {
                        address.set_port(p);
                        Ok(())
                    },
                    None => Err(Error::UnavailablePort(defined)),
                }
            },
            _ => Ok(()),
        }
    }

    /// Gives a Unix socket console without a path the given one.
    pub fn fill_socket_path(&mut self, path: String)
        ensures
            (match *old(self) {
                MonitorInner::Socket { socketpath: None } => *final(self) == MonitorInner::<T>::Socket { socketpath: Some(path) },
                _ => *final(self) == *old(self),
            }),
    {
        if let MonitorInner::Socket { socketpath } = self {
            if socketpath.is_none() {
                *socketpath = Some(path);
            }
        }
    }

    /// The console as QEMU gets it; a socket console needs its path.
    pub fn console(&self) -> (r: Console)
        requires
            !(self matches MonitorInner::Socket { socketpath } && socketpath is None),
        ensures
            spec_console(*self, r),
    {
        let target = match self {
            MonitorInner::Disabled => ConsoleTarget::Disabled,
            MonitorInner::Telnet { address } => {
                let a = address.address();
                ConsoleTarget::Telnet(SocketAddress { host: a.host.clone(), port: a.port })
            },
            MonitorInner::Socket { socketpath } => match socketpath {
                Some(p) => ConsoleTarget::Socket(p.clone()),
                None => ConsoleTarget::Disabled,
            },
        };
        Console { arg: T::arg(), name: T::display(), target }
    }
}

/// The console that QEMU gets for a configured one: its argument, its
/// name, and where it is (a socket console's path must be known).
pub open spec fn spec_console<T: crate::data::network::MonitorArg>(m: MonitorInner<T>, c: Console) -> bool {
    &&& c.arg@ == T::spec_arg()
    &&& c.name@ == T::spec_display()
    &&& match m {
        MonitorInner::Disabled => c.target is Disabled,
        MonitorInner::Telnet { address } => c.target matches ConsoleTarget::Telnet(a) && a == address.spec_address(),
        MonitorInner::Socket { socketpath } => c.target matches ConsoleTarget::Socket(p) && p@ == socketpath->Some_0@,
    }
}

/// Where a console is: nowhere, a telnet server, or a Unix socket.
#[derive(Debug, Clone, PartialEq)]
pub enum ConsoleTarget {
    Disabled,
    Telnet(SocketAddress),
    Socket(String),
}

/// A console with the QEMU option and the name it goes by.
#[derive(Debug, Clone, PartialEq)]
pub struct Console {
    pub arg: &'static str,
    pub name: &'static str,
    pub target: ConsoleTarget,
}

impl EmulatorArgs for Console {
    open spec fn spec_display(&self) -> Seq<(Seq<char>, Seq<char>)> {
        seq![(self.name@, match self.target {
            ConsoleTarget::Disabled => "None"@,
            ConsoleTarget::Telnet(a) => "telnet "@ + a.spec_text(),
            ConsoleTarget::Socket(p) => "socket "@ + p@,
        })]
    }

    open spec fn spec_qemu_args(&self) -> Seq<Seq<char>> {
        seq![self.arg@, match self.target {
            ConsoleTarget::Disabled => "none"@,
            ConsoleTarget::Telnet(a) => "telnet:"@ + a.spec_text() + ",server,nowait"@,
            ConsoleTarget::Socket(p) => "unix:"@ + p@ + ",server,nowait"@,
        }]
    }

    fn display(&self) -> (r: Vec<ArgDisplay>) {
        let value = match &self.target {
            ConsoleTarget::Disabled => String::from_str("None"),
            ConsoleTarget::Telnet(a) => {
                let mut v = String::from_str("telnet ");
                let t = a.text();
                v.append(t.as_str());
                v
            },
            ConsoleTarget::Socket(p) => {
                let mut v = String::from_str("socket ");
                v.append(p.as_str());
                v
            },
        };
        let mut r: Vec<ArgDisplay> = Vec::new();
        r.push(ArgDisplay::new(self.name, value));
        assert(lines(r@) =~= self.spec_display());
        r
    }

    fn qemu_args(&self) -> (r: Vec<String>) {
        let value = match &self.target {
            ConsoleTarget::Disabled => String::from_str("none"),
            ConsoleTarget::Telnet(a) => {
                let mut v = String::from_str("telnet:");
                let t = a.text();
                v.append(t.as_str());
                v.append(",server,nowait");
                v
            },
            ConsoleTarget::Socket(p) => {
                let mut v = String::from_str("unix:");
                v.append(p.as_str());
                v.append(",server,nowait");
                v
            },
        };
        let mut a: Vec<String> = Vec::new();
        push_arg(&mut a, self.arg);
        push_string(&mut a, value);
        assert(views(a@) =~= self.spec_qemu_args());
        a
    }
}

} // verus!
