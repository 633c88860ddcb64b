use vstd::prelude::*;

verus! {

/// An IP address held as its numeric value.
#[derive(Clone, Copy, Debug, PartialEq, Eq, Structural)]
pub enum IpAddress {
    V4(u32),
    V6(u128),
}

/// One end of a datagram exchange: an address and a port.
#[derive(Clone, Copy, Debug, PartialEq, Eq, Structural)]
pub struct Endpoint {
    pub ip: IpAddress,
    pub port: u16,
}

impl Endpoint {
    /// The wildcard endpoint of the same address family as `self`: the
    /// unspecified address with port zero, which lets the system pick both.
    pub open spec fn spec_unspecified_like(self) -> Endpoint {
        match self.ip {
            IpAddress::V4(_) => Endpoint { ip: IpAddress::V4(0), port: 0 },
            IpAddress::V6(_) => Endpoint { ip: IpAddress::V6(0), port: 0 },
        }
    }

    /// The local endpoint to bind for talking to the remote `self`.
    pub fn unspecified_like(&self) -> (r: Endpoint)
        ensures
            r == self.spec_unspecified_like(),
    {
        match self.ip {
            IpAddress::V4(_) => Endpoint { ip: IpAddress::V4(0), port: 0 },
            IpAddress::V6(_) => Endpoint { ip: IpAddress::V6(0), port: 0 },
        }
    }
}

/// Why no address can be looked up for a target.
#[derive(Clone, Copy, Debug, PartialEq, Eq, Structural)]
pub enum TargetError {
    /// The target names no port, and its scheme has no known default.
    InvalidPort,
}

pub open spec fn spec_default_host() -> Seq<char> {
    seq!['l', 'o', 'c', 'a', 'l', 'h', 'o', 's', 't']
}

/// The host and port to look up for a target with the given host and port
/// (its explicit port, or its scheme's default): without a port there is
/// nothing to look up; without a host, `localhost` stands in.
pub fn lookup_target(host: Option<&str>, port: Option<u16>) -> (r: Result<(String, u16), TargetError>)
    ensures
        port is None ==> r == Err::<(String, u16), TargetError>(TargetError::InvalidPort),
        port is Some ==> r is Ok && (r->Ok_0).1 == port->0 && (r->Ok_0).0@ == match host {
            Some(h) => h@,
            None => spec_default_host(),
        },
{
    match port {
        None => Err(TargetError::InvalidPort),
        Some(p) => {
            let h = match host {
                Some(h) => h.to_owned(),
                None => {
                    let d = "localhost";
                    proof {
                        reveal_strlit("localhost");
                        assert(d@ =~= spec_default_host());
                    }
                    d.to_owned()
                },
            };
            Ok((h, p))
        },
    }
}

} // verus!
