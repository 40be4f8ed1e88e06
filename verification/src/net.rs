//! IP addresses and networks as plain numbers, the trusted-proxy
//! configuration, and the resolution of a request's client address.

use crate::text::{split_by, split_on, trim, trim_ws, views};
use vstd::prelude::*;

verus! {

/// An IP address: an IPv4 address as a `u32`, an IPv6 address as a `u128`,
/// most significant byte first.
#[derive(Debug, Clone, Copy, PartialEq, Eq, Hash, Structural)]
pub enum IpAddress {
    V4(u32),
    V6(u128),
}

/// An IP network: an address and a prefix length of at most 32 (IPv4) or
/// 128 (IPv6) bits. The address may have host bits set.
#[derive(Debug, Clone, Copy)]
pub struct IpNetwork {
    addr: IpAddress,
    prefix_len: u8,
}

/// The IPv4 netmask of a prefix length.
pub open spec fn mask_v4(prefix_len: u8) -> u32 {
    if prefix_len == 0 {
        0
    } else {
        u32::MAX << ((32 - prefix_len) as u32)
    }
}

/// The IPv6 netmask of a prefix length.
pub open spec fn mask_v6(prefix_len: u8) -> u128 {
    if prefix_len == 0 {
        0
    } else {
        u128::MAX << ((128 - prefix_len) as u128)
    }
}

impl IpNetwork {
    #[verifier::type_invariant]
    spec fn well_formed(self) -> bool {
        match self.addr {
            IpAddress::V4(_) => self.prefix_len <= 32,
            IpAddress::V6(_) => self.prefix_len <= 128,
        }
    }

    pub closed spec fn addr_spec(self) -> IpAddress {
        self.addr
    }

    pub closed spec fn prefix_spec(self) -> u8 {
        self.prefix_len
    }

    /// Whether `ip` lies in the network: it is of the same family and lies
    /// between the network address and the broadcast address.
    pub open spec fn contains_spec(self, ip: IpAddress) -> bool {
        match (self.addr_spec(), ip) {
            (IpAddress::V4(a), IpAddress::V4(x)) => (a & mask_v4(self.prefix_spec())) <= x && x <= (a
                | !mask_v4(self.prefix_spec())),
            (IpAddress::V6(a), IpAddress::V6(x)) => (a & mask_v6(self.prefix_spec())) <= x && x <= (a
                | !mask_v6(self.prefix_spec())),
            _ => false,
        }
    }

    /// The network of `addr` with `prefix_len` bits, or `None` when the
    /// prefix is longer than the address.
    pub fn new(addr: IpAddress, prefix_len: u8) -> (r: Option<IpNetwork>)
        ensures
            match r {
                Some(n) => n.addr_spec() == addr && n.prefix_spec() == prefix_len,
                None => match addr {
                    IpAddress::V4(_) => prefix_len > 32,
                    IpAddress::V6(_) => prefix_len > 128,
                },
            },
    {
        let ok = match addr {
            IpAddress::V4(_) => prefix_len <= 32,
            IpAddress::V6(_) => prefix_len <= 128,
        };
        if ok {
            Some(IpNetwork { addr, prefix_len })
        } else {
            None
        }
    }

    /// The address.
    pub fn addr(&self) -> (r: IpAddress)
        ensures
            r == self.addr_spec(),
    {
        self.addr
    }

    /// The prefix length.
    pub fn prefix_len(&self) -> (r: u8)
        ensures
            r == self.prefix_spec(),
    {
        self.prefix_len
    }

    /// Whether `ip` lies in the network.
    pub fn contains(&self, ip: IpAddress) -> (r: bool)
        ensures
            r == self.contains_spec(ip),
    {
        proof {
            use_type_invariant(self);
        }
        match (self.addr, ip) {
            (IpAddress::V4(a), IpAddress::V4(x)) => {
                let p = self.prefix_len;
                let m: u32 = if p == 0 {
                    0
                } else {
                    u32::MAX << ((32 - p) as u32)
                };
                let r = (x ^ a) & m == 0;
                proof {
                    let s = (32 - p) as u32;
                    assert(p == 0 ==> ((((x ^ a) & 0u32) == 0u32) == ((a & 0u32) <= x && x <= (a
                        | !0u32)))) by (bit_vector);
                    assert(p > 0 && s < 32 ==> ((((x ^ a) & (u32::MAX << s)) == 0u32) == ((a & (
                    u32::MAX << s)) <= x && x <= (a | !(u32::MAX << s))))) by (bit_vector);
                }
                r
            },
            (IpAddress::V6(a), IpAddress::V6(x)) => {
                let p = self.prefix_len;
                let m: u128 = if p == 0 {
                    0
                } else {
                    u128::MAX << ((128 - p) as u128)
                };
                let r = (x ^ a) & m == 0;
                proof {
                    let s = (128 - p) as u128;
                    assert(p == 0 ==> ((((x ^ a) & 0u128) == 0u128) == ((a & 0u128) <= x && x <= (a
                        | !0u128)))) by (bit_vector);
                    assert(p > 0 && s < 128 ==> ((((x ^ a) & (u128::MAX << s)) == 0u128) == ((a & (
                    u128::MAX << s)) <= x && x <= (a | !(u128::MAX << s))))) by (bit_vector);
                }
                r
            },
            _ => false,
        }
    }
}

/// The networks whose addresses are trusted proxies.
#[derive(Debug, Clone)]
pub struct ProxyConfig {
    trusted_proxies: Vec<IpNetwork>,
}

/// Whether some network of `nets` contains `ip`.
pub open spec fn trusted_by(nets: Seq<IpNetwork>, ip: IpAddress) -> bool {
    exists|i: int| 0 <= i < nets.len() && (#[trigger] nets[i]).contains_spec(ip)
}

impl ProxyConfig {
    pub closed spec fn networks(&self) -> Seq<IpNetwork> {
        self.trusted_proxies@
    }

    /// Whether `ip` is a trusted proxy.
    pub open spec fn trusts(&self, ip: IpAddress) -> bool {
        trusted_by(self.networks(), ip)
    }

    /// A configuration trusting the addresses of `trusted_proxies`.
    pub fn new(trusted_proxies: Vec<IpNetwork>) -> (r: Self)
        ensures
            r.networks() == trusted_proxies@,
    {
        Self { trusted_proxies }
    }

    /// Whether `ip` lies in one of the trusted networks.
    pub fn is_trusted(&self, ip: IpAddress) -> (r: bool)
        ensures
            r == self.trusts(ip),
    {
        let n = self.trusted_proxies.len();
        for i in 0..n
            invariant
                n == self.networks().len(),
                forall|k: int| 0 <= k < i ==> !(#[trigger] self.networks()[k]).contains_spec(ip),
        {
            if self.trusted_proxies[i].contains(ip) {
                return true;
            }
        }
        false
    }
}

/// Walking `addrs` from the right (the hop closest to this server) toward
/// the left, the first address that is not a trusted proxy.
pub open spec fn rightmost_untrusted(config: ProxyConfig, addrs: Seq<IpAddress>) -> Option<IpAddress>
    decreases addrs.len(),
{
    if addrs.len() == 0 {
        None
    } else if !config.trusts(addrs.last()) {
        Some(addrs.last())
    } else {
        rightmost_untrusted(config, addrs.drop_last())
    }
}

/// The client named by a forwarding chain: the rightmost address that is
/// not a trusted proxy, or the leftmost address when all are trusted, or
/// nothing when the chain is empty.
pub open spec fn forwarded_client_spec(config: ProxyConfig, addrs: Seq<IpAddress>) -> Option<IpAddress> {
    match rightmost_untrusted(config, addrs) {
        Some(a) => Some(a),
        None => if addrs.len() > 0 {
            Some(addrs[0])
        } else {
            None
        },
    }
}

/// The client named by the addresses of `X-Forwarded-For`.
pub fn forwarded_client_ip(config: &ProxyConfig, addrs: &Vec<IpAddress>) -> (r: Option<IpAddress>)
    ensures
        r == forwarded_client_spec(*config, addrs@),
{
    let mut i = addrs.len();
    assert(addrs@.take(i as int) == addrs@);
    while i > 0
        invariant
            i <= addrs@.len(),
            rightmost_untrusted(*config, addrs@) == rightmost_untrusted(*config, addrs@.take(i as int)),
        decreases i,
    {
        assert(addrs@.take(i as int).drop_last() == addrs@.take(i - 1));
        assert(addrs@.take(i as int).last() == addrs@[i - 1]);
        if !config.is_trusted(addrs[i - 1]) {
            return Some(addrs[i - 1]);
        }
        i -= 1;
    }
    if addrs.len() > 0 {
        Some(addrs[0])
    } else {
        None
    }
}

/// The pieces of a forwarding header: split on `,`, each trimmed of white
/// space. Reading each piece as an address is left to the caller.
pub fn forwarded_candidates(header: &str) -> (r: Vec<String>)
    ensures
        r@.len() == split_on(header@, ',').len(),
        forall|i: int| 0 <= i < r@.len() ==> #[trigger] r@[i]@ == trim_ws(split_on(header@, ',')[i]),
{
    let pieces = split_by(header, ',');
    let mut r: Vec<String> = Vec::new();
    for i in 0..pieces.len()
        invariant
            views(pieces@) == split_on(header@, ','),
            r@.len() == i,
            forall|j: int| 0 <= j < i ==> #[trigger] r@[j]@ == trim_ws(split_on(header@, ',')[j]),
    {
        let t = trim(pieces[i].as_str());
        assert(views(pieces@)[i as int] == pieces@[i as int]@);
        r.push(t);
    }
    r
}

/// The client address recorded for a request: none without a peer; the
/// peer itself unless it is a trusted proxy; for a trusted proxy, the
/// client named by `X-Forwarded-For` (`forwarded`, when the header is
/// present and readable), falling back to the peer.
pub open spec fn client_ip_spec(
    config: ProxyConfig,
    peer: Option<IpAddress>,
    forwarded: Option<Seq<IpAddress>>,
) -> Option<IpAddress> {
    match peer {
        None => None,
        Some(p) => if config.trusts(p) {
            match forwarded {
                Some(addrs) => match forwarded_client_spec(config, addrs) {
                    Some(c) => Some(c),
                    None => Some(p),
                },
                None => Some(p),
            }
        } else {
            Some(p)
        },
    }
}

/// The client address recorded for a request.
pub fn resolve_client_ip(
    config: &ProxyConfig,
    peer: Option<IpAddress>,
    forwarded: Option<&Vec<IpAddress>>,
) -> (r: Option<IpAddress>)
    ensures
        r == client_ip_spec(*config, peer, match forwarded {
            Some(v) => Some(v@),
            None => None,
        }),
{
    match peer {
        None => None,
        Some(p) => {
            if config.is_trusted(p) {
                match forwarded {
                    Some(addrs) => match forwarded_client_ip(config, addrs) {
                        Some(c) => Some(c),
                        None => Some(p),
                    },
                    None => Some(p),
                }
            } else {
                Some(p)
            }
        },
    }
}

/// An address from an untrusted peer is taken as it is: no header can
/// change it.
pub proof fn law_untrusted_peer_cannot_spoof(
    config: ProxyConfig,
    peer: IpAddress,
    forwarded: Option<Seq<IpAddress>>,
)
    requires
        !config.trusts(peer),
    ensures
        client_ip_spec(config, Some(peer), forwarded) == Some(peer),
{
}

/// Behind a trusted proxy, when the forwarding chain names an address that
/// is not a trusted proxy, the client is such an address, and no address to
/// its right is untrusted.
pub proof fn law_forwarded_client_is_rightmost_untrusted(
    config: ProxyConfig,
    peer: IpAddress,
    addrs: Seq<IpAddress>,
    i: int,
)
    requires
        config.trusts(peer),
        0 <= i < addrs.len(),
        !config.trusts(addrs[i]),
    ensures
        client_ip_spec(config, Some(peer), Some(addrs)) matches Some(c) && !config.trusts(c)
            && exists|k: int| {
            &&& 0 <= k < addrs.len()
            &&& addrs[k] == c
            &&& forall|m: int| k < m < addrs.len() ==> config.trusts(#[trigger] addrs[m])
        },
    decreases addrs.len(),
{
    lemma_rightmost_untrusted(config, addrs, i);
}

/// `rightmost_untrusted` finds an untrusted address whenever there is one,
/// and everything to its right is trusted.
proof fn lemma_rightmost_untrusted(config: ProxyConfig, addrs: Seq<IpAddress>, i: int)
    requires
        0 <= i < addrs.len(),
        !config.trusts(addrs[i]),
    ensures
        rightmost_untrusted(config, addrs) matches Some(c) && !config.trusts(c) && exists|k: int|
            {
            &&& 0 <= k < addrs.len()
            &&& addrs[k] == c
            &&& forall|m: int| k < m < addrs.len() ==> config.trusts(#[trigger] addrs[m])
        },
    decreases addrs.len(),
{
    if !config.trusts(addrs.last()) {
        let k = addrs.len() - 1;
        assert(addrs[k] == addrs.last());
    } else {
        let d = addrs.drop_last();
        assert(i < addrs.len() - 1);
        assert(d[i] == addrs[i]);
        lemma_rightmost_untrusted(config, d, i);
        let c = rightmost_untrusted(config, d)->0;
        let k = choose|k: int|
            {
                &&& 0 <= k < d.len()
                &&& d[k] == c
                &&& forall|m: int| k < m < d.len() ==> config.trusts(#[trigger] d[m])
            };
        assert(addrs[k] == c);
        assert forall|m: int| k < m < addrs.len() implies config.trusts(#[trigger] addrs[m]) by {
            if m < addrs.len() - 1 {
                assert(d[m] == addrs[m]);
            }
        }
    }
}

/// With every hop trusted, nothing to the right is untrusted.
proof fn lemma_all_trusted_has_no_untrusted(config: ProxyConfig, addrs: Seq<IpAddress>)
    requires
        forall|i: int| 0 <= i < addrs.len() ==> config.trusts(#[trigger] addrs[i]),
    ensures
        rightmost_untrusted(config, addrs) is None,
    decreases addrs.len(),
{
    if addrs.len() > 0 {
        let d = addrs.drop_last();
        assert(config.trusts(addrs[addrs.len() - 1]));
        assert forall|i: int| 0 <= i < d.len() implies config.trusts(#[trigger] d[i]) by {
            assert(d[i] == addrs[i]);
        }
        lemma_all_trusted_has_no_untrusted(config, d);
    }
}

/// Behind a trusted proxy, when every hop of a non-empty forwarding chain
/// is itself a trusted proxy, the client is the leftmost address of the
/// chain: the one the first proxy was reached from.
pub proof fn law_all_trusted_chain_gives_leftmost(config: ProxyConfig, peer: IpAddress, addrs: Seq<IpAddress>)
    requires
        config.trusts(peer),
        addrs.len() > 0,
        forall|i: int| 0 <= i < addrs.len() ==> config.trusts(#[trigger] addrs[i]),
    ensures
        client_ip_spec(config, Some(peer), Some(addrs)) == Some(addrs[0]),
{
    lemma_all_trusted_has_no_untrusted(config, addrs);
}

/// Behind a trusted proxy, a non-empty forwarding chain always decides:
/// the client is one of the chain's addresses, never the proxy itself
/// unless the chain names it.
pub proof fn law_trusted_peer_takes_client_from_chain(
    config: ProxyConfig,
    peer: IpAddress,
    addrs: Seq<IpAddress>,
)
    requires
        config.trusts(peer),
        addrs.len() > 0,
    ensures
        client_ip_spec(config, Some(peer), Some(addrs)) matches Some(c) && exists|k: int|
            0 <= k < addrs.len() && #[trigger] addrs[k] == c,
{
    if exists|i: int| 0 <= i < addrs.len() && !config.trusts(#[trigger] addrs[i]) {
        let i = choose|i: int| 0 <= i < addrs.len() && !config.trusts(#[trigger] addrs[i]);
        lemma_rightmost_untrusted(config, addrs, i);
    } else {
        law_all_trusted_chain_gives_leftmost(config, peer, addrs);
        assert(addrs[0] == addrs[0]);
    }
}

} // verus!
