//! The address of the collaboration server, and how it is read from and
//! written to text.
use vstd::prelude::*;

use crate::numbers::{IntErrorKind, decimal, parse_unsigned, parse_unsigned_exec, push_decimal};
use crate::text::{chars_of, string_of};

verus! {

/// The domain of the server used when none is configured.
pub const DEFAULT_DOMAIN: &'static str = "collab.nomad.foo";

/// The port of the server used when none is configured.
pub const DEFAULT_PORT: u16 = 3000;

/// An IP address, as its octets (version 4) or its segments (version 6).
#[derive(Debug, Clone, Copy, PartialEq, Eq, Structural)]
pub enum IpAddress {
    /// An IPv4 address.
    V4(u8, u8, u8, u8),
    /// An IPv6 address.
    V6(u16, u16, u16, u16, u16, u16, u16, u16),
}

/// The host part of a [`ServerAddress`].
#[derive(Debug, Clone)]
pub enum Host {
    /// The local machine, written `localhost`.
    Localhost,
    /// An IP address.
    Ip(IpAddress),
    /// A DNS name.
    Domain(String),
}

/// The abstract value of a [`Host`].
pub enum HostView {
    Localhost,
    Ip(IpAddress),
    Domain(Seq<char>),
}

impl View for Host {
    type V = HostView;

    open spec fn view(&self) -> HostView {
        match self {
            Host::Localhost => HostView::Localhost,
            Host::Ip(ip) => HostView::Ip(*ip),
            Host::Domain(d) => HostView::Domain(d@),
        }
    }
}

/// The address of a collaboration server: a host and a port.
#[derive(Debug, Clone)]
pub struct ServerAddress {
    host: Host,
    port: u16,
}

impl View for ServerAddress {
    type V = (HostView, u16);

    closed spec fn view(&self) -> (HostView, u16) {
        (self.host@, self.port)
    }
}

/// The type of error that can occur when parsing a [`ServerAddress`] from a
/// string.
#[derive(Debug, Clone, Copy, PartialEq, Eq, Structural)]
pub enum ServerAddressParseError {
    /// The input string is not formatted as `{host}:{port}`.
    InvalidFormat,
    /// The host is not a valid domain name, IP address, or `localhost`.
    InvalidHost,
    /// The port is not a valid number.
    InvalidPort(IntErrorKind),
}

/// How a [`ServerAddress`] is turned into socket addresses.
#[derive(Debug, Clone)]
pub enum Resolution {
    /// The address is already an IP address and a port.
    Direct(IpAddress, u16),
    /// The domain name must be looked up, and the port added to each result.
    Lookup(String, u16),
}

/// The result of reading an IP address from text (`IpAddr::from_str` of
/// `std`).
pub uninterp spec fn spec_parse_ip(s: Seq<char>) -> Option<IpAddress>;

/// How an IP address is written as text (`Display` for `IpAddr` of `std`).
pub uninterp spec fn spec_ip_display(ip: IpAddress) -> Seq<char>;

/// Whether a string is a syntactically valid DNS name
/// (`rustls_pki_types::DnsName::try_from`).
pub uninterp spec fn spec_is_valid_dns_name(s: Seq<char>) -> bool;

/// The characters a valid DNS name may hold.
pub open spec fn is_dns_char(c: char) -> bool {
    ||| 'a' <= c <= 'z'
    ||| 'A' <= c <= 'Z'
    ||| '0' <= c <= '9'
    ||| c == '_'
    ||| c == '-'
    ||| c == '.'
}

/// Reads an IP address with `IpAddr::from_str` of `std`. The result is
/// named by `spec_parse_ip`; nothing more is claimed of it.
#[verifier::external_body]
fn parse_ip(s: &str) -> (r: Option<IpAddress>)
    ensures
        r == spec_parse_ip(s@),
{
    match s.parse::<core::net::IpAddr>() {
        Ok(core::net::IpAddr::V4(v4)) => {
            let [a, b, c, d] = v4.octets();
            Some(IpAddress::V4(a, b, c, d))
        },
        Ok(core::net::IpAddr::V6(v6)) => {
            let [a, b, c, d, e, f, g, h] = v6.segments();
            Some(IpAddress::V6(a, b, c, d, e, f, g, h))
        },
        Err(_) => None,
    }
}

/// Writes an IP address with the `Display` impl of `std`'s `IpAddr`. The
/// result is named by `spec_ip_display`; nothing more is claimed of it.
#[verifier::external_body]
fn ip_to_string(ip: &IpAddress) -> (r: String)
    ensures
        r@ == spec_ip_display(*ip),
{
    let std_ip = match *ip {
        IpAddress::V4(a, b, c, d) => core::net::IpAddr::from([a, b, c, d]),
        IpAddress::V6(a, b, c, d, e, f, g, h) => core::net::IpAddr::from([a, b, c, d, e, f, g, h]),
    };
    format!("{}", std_ip)
}

/// Checks a DNS name with `rustls_pki_types::DnsName::try_from`. Claims that
/// the result is named by `spec_is_valid_dns_name`, and that an accepted
/// name has between 1 and 253 characters, each a letter, a digit, `_`, `-`
/// or `.` (the only characters the validator lets through).
#[verifier::external_body]
fn is_valid_dns_name(s: &str) -> (r: bool)
    ensures
        r == spec_is_valid_dns_name(s@),
        r ==> 1 <= s@.len() <= 253,
        r ==> forall|i: int| 0 <= i < s@.len() ==> is_dns_char(#[trigger] s@[i]),
{
    rustls_pki_types::DnsName::try_from(s).is_ok()
}

/// The characters of `localhost`.
pub open spec fn localhost_chars() -> Seq<char> {
    seq!['l', 'o', 'c', 'a', 'l', 'h', 'o', 's', 't']
}

/// Splits `s` at its last `:`, if it has one.
pub open spec fn rsplit_colon(s: Seq<char>) -> Option<(Seq<char>, Seq<char>)>
    decreases s.len(),
{
    if s.len() == 0 {
        None
    } else if s.last() == ':' {
        Some((s.drop_last(), Seq::empty()))
    } else {
        match rsplit_colon(s.drop_last()) {
            Some((h, p)) => Some((h, p.push(s.last()))),
            None => None,
        }
    }
}

/// What a host string is read as: `localhost`, then an IP address, then a DNS
/// name, in this order.
pub open spec fn parse_host(h: Seq<char>) -> Option<HostView> {
    if h == localhost_chars() {
        Some(HostView::Localhost)
    } else if spec_parse_ip(h) is Some {
        Some(HostView::Ip(spec_parse_ip(h)->0))
    } else if spec_is_valid_dns_name(h) {
        Some(HostView::Domain(h))
    } else {
        None
    }
}

/// How a server address is read from `{host}:{port}`, where the split is at
/// the last `:` and the port is checked before the host.
pub open spec fn parse_server_address(s: Seq<char>) -> Result<(HostView, u16), ServerAddressParseError> {
    match rsplit_colon(s) {
        None => Err(ServerAddressParseError::InvalidFormat),
        Some((h, p)) => match parse_unsigned(p, 65535) {
            Err(e) => Err(ServerAddressParseError::InvalidPort(e)),
            Ok(port) => match parse_host(h) {
                None => Err(ServerAddressParseError::InvalidHost),
                Some(host) => Ok((host, port as u16)),
            },
        },
    }
}

/// How a host is written.
pub open spec fn host_text(h: HostView) -> Seq<char> {
    match h {
        HostView::Localhost => localhost_chars(),
        HostView::Ip(ip) => spec_ip_display(ip),
        HostView::Domain(d) => d,
    }
}

/// How a server address is written: `{host}:{port}`.
pub open spec fn address_text(a: (HostView, u16)) -> Seq<char> {
    host_text(a.0).push(':') + decimal(a.1 as nat)
}

/// Whether a host is one that `parse_host` gives back when reading its own
/// text: `localhost`, or a valid DNS name that is neither `localhost` nor an
/// IP address.
pub open spec fn host_reads_back(h: HostView) -> bool {
    match h {
        HostView::Localhost => true,
        HostView::Ip(_) => false,
        HostView::Domain(d) => spec_is_valid_dns_name(d) && d != localhost_chars()
            && spec_parse_ip(d) is None,
    }
}

/// Reading the text of a `localhost` or domain host gives the host back.
pub proof fn lemma_host_roundtrip(h: HostView)
    requires
        host_reads_back(h),
    ensures
        parse_host(host_text(h)) == Some(h),
{
}

/// Writing a server address as `{host}:{port}` and reading it back gives
/// the address, whenever its host reads back as itself.
pub proof fn lemma_address_roundtrip(a: (HostView, u16))
    requires
        parse_host(host_text(a.0)) == Some(a.0),
    ensures
        parse_server_address(address_text(a)) == Ok::<(HostView, u16), ServerAddressParseError>(a),
{
    let h = host_text(a.0);
    let d = decimal(a.1 as nat);
    let s = address_text(a);
    crate::numbers::lemma_decimal_digits(a.1 as nat);
    assert forall|j: int| h.len() < j < s.len() implies s[j] != ':' by {
        assert(s[j] == d[j - h.len() - 1]);
    }
    assert(s[h.len() as int] == ':');
    lemma_rsplit_at(s, h.len());
    assert(s.take(h.len() as int) =~= h);
    assert(s.skip(h.len() as int + 1) =~= d);
    crate::numbers::lemma_decimal_roundtrip(a.1 as nat, 65535);
}

/// Finds the position of the last `:` in `s`.
fn last_colon(s: &Vec<char>) -> (r: Option<usize>)
    ensures
        match rsplit_colon(s@) {
            None => r is None,
            Some((h, p)) => r matches Some(i) && i as int == h.len() && h.len() < s@.len() && h == s@.take(h.len() as int)
                && p == s@.skip(h.len() as int + 1) && s@[h.len() as int] == ':',
        },
{
    let mut i: usize = s.len();
    while i > 0
        invariant
            i <= s@.len(),
            forall|j: int| i <= j < s@.len() ==> s@[j] != ':',
        decreases i,
    {
        if s[i - 1] == ':' {
            proof { lemma_rsplit_at(s@, (i - 1) as nat); }
            return Some(i - 1);
        }
        i -= 1;
    }
    proof { lemma_rsplit_none(s@); }
    None
}

proof fn lemma_rsplit_at(s: Seq<char>, k: nat)
    requires
        k < s.len(),
        s[k as int] == ':',
        forall|j: int| k < j < s.len() ==> s[j] != ':',
    ensures
        rsplit_colon(s) == Some((s.take(k as int), s.skip(k as int + 1))),
    decreases s.len(),
{
    if s.len() == k + 1 {
        assert(s.drop_last() == s.take(k as int));
        assert(s.skip(k as int + 1) =~= Seq::<char>::empty());
    } else {
        lemma_rsplit_at(s.drop_last(), k);
        assert(s.drop_last().take(k as int) == s.take(k as int));
        assert(s.drop_last().skip(k as int + 1).push(s.last()) =~= s.skip(k as int + 1));
    }
}

proof fn lemma_rsplit_none(s: Seq<char>)
    requires
        forall|j: int| 0 <= j < s.len() ==> s[j] != ':',
    ensures
        rsplit_colon(s) is None,
    decreases s.len(),
{
    if s.len() > 0 {
        lemma_rsplit_none(s.drop_last());
    }
}

/// Whether `s` spells `localhost`.
fn is_localhost(s: &Vec<char>) -> (r: bool)
    ensures
        r == (s@ == localhost_chars()),
{
    let word: [char; 9] = ['l', 'o', 'c', 'a', 'l', 'h', 'o', 's', 't'];
    proof { assert(word@ == localhost_chars()); }
    if s.len() != 9 {
        return false;
    }
    let mut i: usize = 0;
    while i < 9
        invariant
            s@.len() == 9,
            i <= 9,
            word@ == localhost_chars(),
            forall|j: int| 0 <= j < i ==> s@[j] == word@[j],
        decreases 9 - i,
    {
        if s[i] != word[i] {
            return false;
        }
        i += 1;
    }
    proof { assert(s@ =~= word@); }
    true
}

/// The host written `text`, given what reading it as an IP address gave
/// and whether it is a valid DNS name: `localhost` first, then an IP
/// address, then a DNS name; anything else is no host.
pub fn host_from(text: String, parsed_ip: Option<IpAddress>, is_dns_name: bool) -> (r: Option<Host>)
    ensures
        text@ == localhost_chars() ==> r matches Some(Host::Localhost),
        text@ != localhost_chars() ==> match parsed_ip {
            Some(a) => r matches Some(Host::Ip(b)) && b == a,
            None => if is_dns_name {
                r matches Some(Host::Domain(d)) && d@ == text@
            } else {
                r is None
            },
        },
{
    let cs = chars_of(text.as_str());
    if is_localhost(&cs) {
        return Some(Host::Localhost);
    }
    match parsed_ip {
        Some(a) => Some(Host::Ip(a)),
        None => if is_dns_name { Some(Host::Domain(text)) } else { None },
    }
}

impl ServerAddress {
    /// A copy of the address.
    pub fn duplicate(&self) -> (r: ServerAddress)
        ensures
            r@ == self@,
    {
        let host = match &self.host {
            Host::Localhost => Host::Localhost,
            Host::Ip(ip) => Host::Ip(*ip),
            Host::Domain(d) => Host::Domain(d.clone()),
        };
        ServerAddress { host, port: self.port }
    }

    /// The host of the address.
    pub fn host(&self) -> (r: &Host)
        ensures
            r@ == self@.0,
    {
        &self.host
    }

    /// The port of the address.
    pub fn port(&self) -> (r: u16)
        ensures
            r == self@.1,
    {
        self.port
    }

    /// Parses a `{host}:{port}` string, where the host is `localhost`, an IP
    /// address or a DNS name.
    pub fn from_str(s: &str) -> (r: Result<ServerAddress, ServerAddressParseError>)
        ensures
            match parse_server_address(s@) {
                Ok(v) => r is Ok && r->Ok_0@ == v,
                Err(e) => r == Err::<ServerAddress, ServerAddressParseError>(e),
            },
    {
        let cs = chars_of(s);
        let colon = match last_colon(&cs) {
            Some(i) => i,
            None => return Err(ServerAddressParseError::InvalidFormat),
        };
        proof {
            assert(cs@ == s@);
            assert(rsplit_colon(s@) is Some);
            let (h, p) = rsplit_colon(s@)->0;
            assert(colon as int == h.len());
            assert(colon < cs@.len());
        }
        assert(colon < cs.len());
        let host_chars = slice_prefix(&cs, colon);
        assert(colon < cs.len());
        let port_chars = slice_suffix(&cs, colon + 1);
        let port = match parse_unsigned_exec(port_chars.as_slice(), 65535) {
            Ok(p) => p as u16,
            Err(e) => return Err(ServerAddressParseError::InvalidPort(e)),
        };
        let localhost = is_localhost(&host_chars);
        let host_string = string_of(host_chars.as_slice());
        let ip = if localhost { None } else { parse_ip(host_string.as_str()) };
        let dns = if localhost || ip.is_some() { false } else { is_valid_dns_name(host_string.as_str()) };
        let host = match host_from(host_string, ip, dns) {
            Some(h) => h,
            None => return Err(ServerAddressParseError::InvalidHost),
        };
        Ok(ServerAddress { host, port })
    }

    /// The text of the host: `localhost`, the IP address, or the domain.
    pub fn host_to_string(&self) -> (r: String)
        ensures
            r@ == host_text(self@.0),
    {
        match &self.host {
            Host::Localhost => {
                let word: [char; 9] = ['l', 'o', 'c', 'a', 'l', 'h', 'o', 's', 't'];
                proof { assert(word@ == localhost_chars()); }
                string_of(&word)
            },
            Host::Ip(ip) => ip_to_string(ip),
            Host::Domain(d) => d.clone(),
        }
    }

    /// The address written as `{host}:{port}`.
    pub fn to_string(&self) -> (r: String)
        ensures
            r@ == address_text(self@),
    {
        let host = self.host_to_string();
        let mut cs = chars_of(host.as_str());
        cs.push(':');
        push_decimal(&mut cs, self.port as u64);
        string_of(cs.as_slice())
    }

    /// How the address is turned into socket addresses: an IP host (with
    /// `localhost` meaning `127.0.0.1`) is used as it is, a domain must be
    /// looked up.
    pub fn resolution(&self) -> (r: Resolution)
        ensures
            match self@.0 {
                HostView::Localhost => r matches Resolution::Direct(ip, p)
                    && ip == IpAddress::V4(127u8, 0u8, 0u8, 1u8) && p == self@.1,
                HostView::Ip(a) => r matches Resolution::Direct(ip, p) && ip == a && p == self@.1,
                HostView::Domain(d) => r matches Resolution::Lookup(name, p) && name@ == d
                    && p == self@.1,
            },
    {
        match &self.host {
            Host::Localhost => Resolution::Direct(IpAddress::V4(127u8, 0u8, 0u8, 1u8), self.port),
            Host::Ip(ip) => Resolution::Direct(*ip, self.port),
            Host::Domain(d) => Resolution::Lookup(d.clone(), self.port),
        }
    }

    /// Whether the connection goes over plain TCP rather than TLS: only when
    /// the host is a loopback IP address (`127.x.x.x` or `::1`), which
    /// is taken to be a local test server.
    pub fn uses_plain_tcp(&self) -> (r: bool)
        ensures
            r == match self@.0 {
                HostView::Ip(IpAddress::V4(a, _, _, _)) => a == 127,
                HostView::Ip(IpAddress::V6(a, b, c, d, e, f, g, h)) => a == 0 && b == 0 && c == 0
                    && d == 0 && e == 0 && f == 0 && g == 0 && h == 1,
                _ => false,
            },
    {
        match &self.host {
            Host::Ip(IpAddress::V4(a, _, _, _)) => *a == 127,
            Host::Ip(IpAddress::V6(a, b, c, d, e, f, g, h)) => *a == 0 && *b == 0 && *c == 0
                && *d == 0 && *e == 0 && *f == 0 && *g == 0 && *h == 1,
            _ => false,
        }
    }

    /// The default address: `collab.nomad.foo:3000`.
    pub fn default() -> (r: ServerAddress)
        ensures
            r@ == (HostView::Domain(DEFAULT_DOMAIN@), DEFAULT_PORT),
    {
        ServerAddress { host: Host::Domain(String::from_str(DEFAULT_DOMAIN)), port: DEFAULT_PORT }
    }
}

/// The first `n` characters of `cs`.
fn slice_prefix(cs: &Vec<char>, n: usize) -> (r: Vec<char>)
    requires
        n <= cs@.len(),
    ensures
        r@ == cs@.take(n as int),
{
    let mut r: Vec<char> = Vec::new();
    let mut i: usize = 0;
    while i < n
        invariant
            i <= n <= cs@.len(),
            r@ == cs@.take(i as int),
        decreases n - i,
    {
        r.push(cs[i]);
        proof { assert(cs@.take(i as int + 1) == cs@.take(i as int).push(cs@[i as int])); }
        i += 1;
    }
    r
}

/// The characters of `cs` from position `n` on.
fn slice_suffix(cs: &Vec<char>, n: usize) -> (r: Vec<char>)
    requires
        n <= cs@.len(),
    ensures
        r@ == cs@.skip(n as int),
{
    let mut r: Vec<char> = Vec::new();
    let mut i: usize = n;
    while i < cs.len()
        invariant
            n <= i <= cs@.len(),
            r@ == cs@.subrange(n as int, i as int),
        decreases cs@.len() - i,
    {
        r.push(cs[i]);
        proof { assert(cs@.subrange(n as int, i as int + 1) == cs@.subrange(n as int, i as int).push(cs@[i as int])); }
        i += 1;
    }
    proof { assert(cs@.subrange(n as int, cs@.len() as int) == cs@.skip(n as int)); }
    r
}

}
