//! Local network interface classification and connection-URL selection.

use vstd::prelude::*;
use vstd::string::*;

use crate::text::{
    contains_seq, contains_substring, dec_rep, lower_of, to_lowercase, u64_to_string,
};

verus! {

/// An IPv4 address, held as its four octets.
#[derive(Clone, Copy, PartialEq, Eq, Structural, Debug)]
pub struct Ipv4Addr {
    pub o0: u8,
    pub o1: u8,
    pub o2: u8,
    pub o3: u8,
}

impl Ipv4Addr {
    /// The address lies in `127.0.0.0/8`.
    pub open spec fn spec_is_loopback(self) -> bool {
        self.o0 == 127
    }

    /// The address lies in `10.0.0.0/8`, `172.16.0.0/12` or `192.168.0.0/16`.
    pub open spec fn spec_is_private(self) -> bool {
        self.o0 == 10 || (self.o0 == 172 && 16 <= self.o1 < 32) || (self.o0 == 192 && self.o1
            == 168)
    }

    /// The address lies in `169.254.0.0/16`.
    pub open spec fn spec_is_link_local(self) -> bool {
        self.o0 == 169 && self.o1 == 254
    }

    /// Whether the address lies in the loopback range.
    pub fn is_loopback(&self) -> (r: bool)
        ensures
            r == self.spec_is_loopback(),
    {
        self.o0 == 127
    }

    /// Whether the address lies in one of the private ranges.
    pub fn is_private(&self) -> (r: bool)
        ensures
            r == self.spec_is_private(),
    {
        self.o0 == 10 || (self.o0 == 172 && 16 <= self.o1 && self.o1 < 32) || (self.o0 == 192
            && self.o1 == 168)
    }

    /// Whether the address lies in the link-local range.
    pub fn is_link_local(&self) -> (r: bool)
        ensures
            r == self.spec_is_link_local(),
    {
        self.o0 == 169 && self.o1 == 254
    }
}

/// The dotted-quad rendering of an IPv4 address.
pub open spec fn spec_ip_rep(a: Ipv4Addr) -> Seq<char> {
    dec_rep(a.o0 as nat) + "."@ + dec_rep(a.o1 as nat) + "."@ + dec_rep(a.o2 as nat) + "."@
        + dec_rep(a.o3 as nat)
}

/// The dotted-quad rendering of an IPv4 address.
pub fn ip_to_string(a: &Ipv4Addr) -> (r: String)
    ensures
        r@ == spec_ip_rep(*a),
{
    let mut s = u64_to_string(a.o0 as u64);
    s.append(".");
    let p1 = u64_to_string(a.o1 as u64);
    s.append(p1.as_str());
    s.append(".");
    let p2 = u64_to_string(a.o2 as u64);
    s.append(p2.as_str());
    s.append(".");
    let p3 = u64_to_string(a.o3 as u64);
    s.append(p3.as_str());
    s
}

/// The upload-page URL served from an address and port.
pub open spec fn spec_url_of(a: Ipv4Addr, port: u16) -> Seq<char> {
    "http://"@ + spec_ip_rep(a) + ":"@ + dec_rep(port as nat) + "/phone"@
}

/// The upload-page URL served from an address and port.
pub fn url_for(a: &Ipv4Addr, port: u16) -> (r: String)
    ensures
        r@ == spec_url_of(*a, port),
{
    let mut s = String::from_str("http://");
    let ip = ip_to_string(a);
    s.append(ip.as_str());
    s.append(":");
    let p = u64_to_string(port as u64);
    s.append(p.as_str());
    s.append("/phone");
    s
}

/// A network interface name indicates a virtual adapter when its lowercase
/// form holds one of the known virtual-adapter substrings.
pub open spec fn spec_is_virtual_name(name: Seq<char>) -> bool {
    ||| contains_seq(lower_of(name), "virtual"@)
    ||| contains_seq(lower_of(name), "vmware"@)
    ||| contains_seq(lower_of(name), "hyper-v"@)
    ||| contains_seq(lower_of(name), "vbox"@)
    ||| contains_seq(lower_of(name), "loopback"@)
    ||| contains_seq(lower_of(name), "docker"@)
    ||| contains_seq(lower_of(name), "wsl"@)
    ||| contains_seq(lower_of(name), "bridge"@)
}

/// Whether a network interface name indicates a virtual adapter.
pub fn is_virtual_name(name: &str) -> (r: bool)
    ensures
        r == spec_is_virtual_name(name@),
{
    let n = to_lowercase(name);
    contains_substring(n.as_str(), "virtual") || contains_substring(n.as_str(), "vmware")
        || contains_substring(n.as_str(), "hyper-v") || contains_substring(n.as_str(), "vbox")
        || contains_substring(n.as_str(), "loopback") || contains_substring(n.as_str(), "docker")
        || contains_substring(n.as_str(), "wsl") || contains_substring(n.as_str(), "bridge")
}

/// One local IPv4 interface, classified for upload-URL selection.
pub struct PhoneInterface {
    pub name: String,
    pub ip: String,
    pub url: String,
    pub is_loopback: bool,
    pub is_private: bool,
    pub is_link_local: bool,
    pub is_virtual: bool,
}

/// The classification of one interface: every field follows from the
/// interface's name, address and the active port.
pub open spec fn spec_classified(i: PhoneInterface, name: Seq<char>, a: Ipv4Addr, port: u16) -> bool {
    &&& i.name@ == name
    &&& i.ip@ == spec_ip_rep(a)
    &&& i.url@ == spec_url_of(a, port)
    &&& i.is_loopback == a.spec_is_loopback()
    &&& i.is_private == a.spec_is_private()
    &&& i.is_link_local == a.spec_is_link_local()
    &&& i.is_virtual == spec_is_virtual_name(name)
}

/// Classifies one local interface, deriving its URL from the active port.
pub fn classify_interface(name: String, a: Ipv4Addr, port: u16) -> (r: PhoneInterface)
    ensures
        spec_classified(r, name@, a, port),
{
    let is_virtual = is_virtual_name(name.as_str());
    let ip = ip_to_string(&a);
    let url = url_for(&a, port);
    PhoneInterface {
        name,
        ip,
        url,
        is_loopback: a.is_loopback(),
        is_private: a.is_private(),
        is_link_local: a.is_link_local(),
        is_virtual,
    }
}

/// The loopback address synthesized when no interface is discoverable.
pub open spec fn loopback_addr() -> Ipv4Addr {
    Ipv4Addr { o0: 127, o1: 0, o2: 0, o3: 1 }
}

/// The entry synthesized when no interface is discoverable, so that callers
/// always receive at least one URL.
pub open spec fn spec_fallback_interface(i: PhoneInterface, port: u16) -> bool {
    &&& i.name@ == "loopback"@
    &&& i.ip@ == "127.0.0.1"@
    &&& i.url@ == spec_url_of(loopback_addr(), port)
    &&& i.is_loopback == true
    &&& i.is_private == false
    &&& i.is_link_local == false
    &&& i.is_virtual == false
}

/// How unattractive an interface is as the preferred connection target:
/// loopback worst, then link-local, then public-range, then virtual.
pub open spec fn rank(i: PhoneInterface) -> int {
    (if i.is_loopback {
        8int
    } else {
        0int
    }) + (if i.is_link_local {
        4int
    } else {
        0int
    }) + (if !i.is_private {
        2int
    } else {
        0int
    }) + (if i.is_virtual {
        1int
    } else {
        0int
    })
}

fn rank_of(i: &PhoneInterface) -> (r: u8)
    ensures
        r as int == rank(*i),
{
    (if i.is_loopback {
        8u8
    } else {
        0u8
    }) + (if i.is_link_local {
        4u8
    } else {
        0u8
    }) + (if !i.is_private {
        2u8
    } else {
        0u8
    }) + (if i.is_virtual {
        1u8
    } else {
        0u8
    })
}

/// The position of the first interface of lowest rank.
pub open spec fn preferred_index(s: Seq<PhoneInterface>) -> int
    decreases s.len(),
{
    if s.len() <= 1 {
        0
    } else {
        let p = preferred_index(s.drop_last());
        if rank(s.last()) < rank(s[p]) {
            s.len() - 1
        } else {
            p
        }
    }
}

/// The first interface of lowest rank is at the preferred position: no
/// interface ranks below it, and none before it ranks as low.
pub proof fn lemma_preferred_index_is_leftmost_min(s: Seq<PhoneInterface>)
    requires
        s.len() > 0,
    ensures
        0 <= preferred_index(s) < s.len(),
        forall|j: int| 0 <= j < s.len() ==> rank(s[preferred_index(s)]) <= rank(#[trigger] s[j]),
        forall|j: int| 0 <= j < preferred_index(s) ==> rank(#[trigger] s[j]) > rank(
            s[preferred_index(s)],
        ),
    decreases s.len(),
{
    if s.len() > 1 {
        let t = s.drop_last();
        lemma_preferred_index_is_leftmost_min(t);
        let pt = preferred_index(t);
        let p = preferred_index(s);
        assert(forall|j: int| 0 <= j < t.len() ==> #[trigger] s[j] == t[j]);
        assert forall|j: int| 0 <= j < s.len() implies rank(s[p]) <= rank(#[trigger] s[j]) by {
            if j < s.len() - 1 {
                assert(rank(t[pt]) <= rank(t[j]));
            }
        }
        assert forall|j: int| 0 <= j < p implies rank(#[trigger] s[j]) > rank(s[p]) by {
            if p == s.len() - 1 {
                assert(rank(t[pt]) <= rank(t[j]));
            } else {
                assert(rank(t[j]) > rank(t[pt]));
            }
        }
    }
}

/// Picks the URL of the preferred interface: the first of lowest rank,
/// preferring non-loopback, non-link-local, private, non-virtual entries.
pub fn pick_preferred(interfaces: &[PhoneInterface]) -> (r: Option<String>)
    ensures
        r is Some <==> interfaces@.len() > 0,
        interfaces@.len() > 0 ==> r == Some(interfaces@[preferred_index(interfaces@)].url),
{
    let len = interfaces.len();
    if len == 0 {
        return None;
    }
    let mut best: usize = 0;
    let mut best_rank: u8 = rank_of(&interfaces[0]);
    let mut j: usize = 1;
    assert(interfaces@.subrange(0, 1).len() == 1);
    assert(interfaces@.subrange(0, 1)[0] == interfaces@[0]);
    while j < len
        invariant
            len == interfaces@.len(),
            1 <= j <= len,
            best < j,
            best as int == preferred_index(interfaces@.subrange(0, j as int)),
            best_rank as int == rank(interfaces@[best as int]),
        decreases len - j,
    {
        let r = rank_of(&interfaces[j]);
        proof {
            let pre = interfaces@.subrange(0, j as int);
            let cur = interfaces@.subrange(0, j as int + 1);
            assert(cur.drop_last() =~= pre);
            assert(cur.last() == interfaces@[j as int]);
        }
        if r < best_rank {
            best = j;
            best_rank = r;
        }
        j = j + 1;
    }
    assert(interfaces@.subrange(0, len as int) =~= interfaces@);
    Some(interfaces[best].url.clone())
}

/// Connection information for the upload page: the active port, one URL per
/// interface, and the preferred URL among them.
pub struct PhoneInfoResponse {
    pub port: u16,
    pub urls: Vec<String>,
    pub preferred_url: String,
    pub interfaces: Vec<PhoneInterface>,
}

/// Builds the connection information for the given local interfaces: each is
/// classified, a loopback entry is synthesized when none is discoverable, and
/// the preferred URL is the first of lowest rank.
pub fn phone_info(port: u16, netifas: Vec<(String, Ipv4Addr)>) -> (r: PhoneInfoResponse)
    ensures
        r.port == port,
        netifas@.len() > 0 ==> r.interfaces@.len() == netifas@.len() && forall|i: int|
            0 <= i < netifas@.len() ==> spec_classified(
                #[trigger] r.interfaces@[i],
                netifas@[i].0@,
                netifas@[i].1,
                port,
            ),
        netifas@.len() == 0 ==> r.interfaces@.len() == 1 && spec_fallback_interface(
            r.interfaces@[0],
            port,
        ),
        r.urls@.len() == r.interfaces@.len(),
        forall|i: int| 0 <= i < r.urls@.len() ==> #[trigger] r.urls@[i]@ == r.interfaces@[i].url@,
        r.preferred_url == r.interfaces@[preferred_index(r.interfaces@)].url,
{
    let mut interfaces: Vec<PhoneInterface> = Vec::new();
    let mut k: usize = 0;
    let n = netifas.len();
    while k < n
        invariant
            n == netifas@.len(),
            k <= n,
            interfaces@.len() == k,
            forall|i: int| 0 <= i < k ==> spec_classified(
                #[trigger] interfaces@[i],
                netifas@[i].0@,
                netifas@[i].1,
                port,
            ),
        decreases n - k,
    {
        let name = netifas[k].0.clone();
        let addr = netifas[k].1;
        interfaces.push(classify_interface(name, addr, port));
        k = k + 1;
    }
    if interfaces.len() == 0 {
        let lo = Ipv4Addr { o0: 127, o1: 0, o2: 0, o3: 1 };
        let url = url_for(&lo, port);
        interfaces.push(
            PhoneInterface {
                name: String::from_str("loopback"),
                ip: String::from_str("127.0.0.1"),
                url,
                is_loopback: true,
                is_private: false,
                is_link_local: false,
                is_virtual: false,
            },
        );
    }
    let mut urls: Vec<String> = Vec::new();
    let mut k: usize = 0;
    let m = interfaces.len();
    while k < m
        invariant
            m == interfaces@.len(),
            k <= m,
            urls@.len() == k,
            forall|i: int| 0 <= i < k ==> #[trigger] urls@[i]@ == interfaces@[i].url@,
        decreases m - k,
    {
        urls.push(interfaces[k].url.clone());
        k = k + 1;
    }
    let preferred_url = match pick_preferred(interfaces.as_slice()) {
        Some(u) => u,
        None => urls[0].clone(),
    };
    PhoneInfoResponse { port, urls, preferred_url, interfaces }
}

} // verus!
