use vstd::prelude::*;

verus! {

/// An IP address held as its bits: 32 for IPv4, 128 for IPv6.
#[derive(Debug, Clone, Copy, PartialEq, Eq)]
pub enum IpAddress {
    V4(u32),
    V6(u128),
}

/// A CIDR network: an address and a prefix length.
#[derive(Debug, Clone, Copy, PartialEq, Eq)]
pub struct Prefix {
    pub addr: IpAddress,
    pub len: u8,
}

impl IpAddress {
    /// The number of bits in an address of this family.
    pub open spec fn bits(self) -> nat {
        match self {
            IpAddress::V4(_) => 32,
            IpAddress::V6(_) => 128,
        }
    }
}

impl Prefix {
    /// The prefix length fits the address family.
    pub open spec fn wf(self) -> bool {
        self.len as nat <= self.addr.bits()
    }

    /// Whether the prefix length fits the address family.
    pub fn is_valid(&self) -> (r: bool)
        ensures
            r == self.wf(),
    {
        match self.addr {
            IpAddress::V4(_) => self.len <= 32,
            IpAddress::V6(_) => self.len <= 128,
        }
    }
}

/// What `IpAddr`'s `FromStr` gives for a text: the address, or `None` when
/// the text is not one.
pub uninterp spec fn ip_of(s: Seq<char>) -> Option<IpAddress>;

/// What ipnet's `FromStr` for `IpNet` gives for a text.
pub uninterp spec fn prefix_of(s: Seq<char>) -> Option<Prefix>;

/// The text that ipnet's `Display` for `IpNet` writes for a network.
pub uninterp spec fn prefix_text_of(p: Prefix) -> Seq<char>;

/// Relies on `core::net::IpAddr`'s `FromStr`: it parses an IPv4 or IPv6
/// address, and its result depends on the text alone.
#[verifier::external_body]
pub(crate) fn parse_ip(s: &str) -> (r: Option<IpAddress>)
    ensures
        r == ip_of(s@),
{
    match s.parse::<core::net::IpAddr>() {
        Ok(core::net::IpAddr::V4(a)) => Some(IpAddress::V4(u32::from(a))),
        Ok(core::net::IpAddr::V6(a)) => Some(IpAddress::V6(u128::from(a))),
        Err(_) => None,
    }
}

/// Relies on ipnet's `FromStr` for `IpNet`: it parses `addr/len`, and only
/// accepts a length of at most 32 for IPv4 and 128 for IPv6.
#[verifier::external_body]
pub(crate) fn parse_prefix(s: &str) -> (r: Option<Prefix>)
    ensures
        r == prefix_of(s@),
        r matches Some(p) ==> p.wf(),
{
    match s.parse::<ipnet::IpNet>() {
        Ok(ipnet::IpNet::V4(n)) => Some(Prefix { addr: IpAddress::V4(u32::from(n.addr())), len: n.prefix_len() }),
        Ok(ipnet::IpNet::V6(n)) => Some(Prefix { addr: IpAddress::V6(u128::from(n.addr())), len: n.prefix_len() }),
        Err(_) => None,
    }
}

/// Relies on ipnet's `Display` for `IpNet` (`addr/len`), on a network built
/// with `IpNet::new`, which accepts every well-formed prefix.
#[verifier::external_body]
pub(crate) fn prefix_text(p: &Prefix) -> (r: String)
    requires
        p.wf(),
    ensures
        r@ == prefix_text_of(*p),
{
    let ip = match p.addr {
        IpAddress::V4(a) => core::net::IpAddr::V4(core::net::Ipv4Addr::from(a)),
        IpAddress::V6(a) => core::net::IpAddr::V6(core::net::Ipv6Addr::from(a)),
    };
    ipnet::IpNet::new(ip, p.len).unwrap().to_string()
}

} // verus!
