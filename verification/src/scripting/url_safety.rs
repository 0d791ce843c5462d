//! Checks that a URL handed to a script's HTTP calls does not target
//! private or reserved address space.
//!
//! A URL must parse, use `http` or `https`, name a host, and neither the
//! host written as an IP address nor any address the host resolves to may
//! be private. Resolving the host is network work done by the caller,
//! which hands the resolved addresses to [`check_resolved_addresses`].

use crate::scripting::manifest::ScriptError;
use crate::text::{concat2, opt_view, owned, push_str, str_eq};
use vstd::prelude::*;

verus! {

/// An IP address as its octets (IPv4) or 16-bit segments (IPv6).
#[derive(Debug, Clone, Copy, PartialEq, Eq, Structural)]
pub enum IpAddress {
    /// An IPv4 address `a.b.c.d`.
    V4(u8, u8, u8, u8),
    /// An IPv6 address by its eight 16-bit segments.
    V6(u16, u16, u16, u16, u16, u16, u16, u16),
}

/// `Ipv4Addr::is_loopback`: 127.0.0.0/8.
pub open spec fn v4_loopback(a: u8) -> bool {
    a == 127
}

/// `Ipv4Addr::is_private`: 10.0.0.0/8, 172.16.0.0/12 and 192.168.0.0/16.
pub open spec fn v4_private(a: u8, b: u8) -> bool {
    a == 10 || (a == 172 && b & 0xf0u8 == 16) || (a == 192 && b == 168)
}

/// `Ipv4Addr::is_link_local`: 169.254.0.0/16.
pub open spec fn v4_link_local(a: u8, b: u8) -> bool {
    a == 169 && b == 254
}

/// Whether an IPv4 address is loopback, private, link-local, the
/// broadcast address, unspecified, or in the shared address space
/// 100.64.0.0/10.
pub open spec fn v4_reserved(a: u8, b: u8, c: u8, d: u8) -> bool {
    ||| v4_loopback(a)
    ||| v4_private(a, b)
    ||| v4_link_local(a, b)
    ||| (a == 255 && b == 255 && c == 255 && d == 255)
    ||| (a == 0 && b == 0 && c == 0 && d == 0)
    ||| (a == 100 && b & 0xC0u8 == 64)
}

/// Whether an IPv6 address is loopback (`::1`), unspecified (`::`), an
/// IPv4-mapped address (`::ffff:a.b.c.d`, as `Ipv6Addr::to_ipv4_mapped`
/// reads it) of a reserved IPv4 address, link-local (fe80::/10) or unique
/// local (fc00::/7).
pub open spec fn v6_reserved(s0: u16, s1: u16, s2: u16, s3: u16, s4: u16, s5: u16, s6: u16, s7: u16) -> bool {
    let zero_head = s0 == 0 && s1 == 0 && s2 == 0 && s3 == 0 && s4 == 0 && s5 == 0 && s6 == 0;
    let mapped = s0 == 0 && s1 == 0 && s2 == 0 && s3 == 0 && s4 == 0 && s5 == 0xffff;
    ||| (zero_head && s7 == 1)
    ||| (zero_head && s7 == 0)
    ||| (mapped && v4_reserved((s6 / 256) as u8, (s6 % 256) as u8, (s7 / 256) as u8, (s7 % 256) as u8))
    ||| s0 & 0xffc0u16 == 0xfe80u16
    ||| s0 & 0xfe00u16 == 0xfc00u16
}

/// Whether an address is in a private or reserved range.
pub open spec fn private_ip(ip: IpAddress) -> bool {
    match ip {
        IpAddress::V4(a, b, c, d) => v4_reserved(a, b, c, d),
        IpAddress::V6(s0, s1, s2, s3, s4, s5, s6, s7) => v6_reserved(s0, s1, s2, s3, s4, s5, s6, s7),
    }
}

fn v4_is_reserved(a: u8, b: u8, c: u8, d: u8) -> (r: bool)
    ensures
        r == v4_reserved(a, b, c, d),
{
    a == 127 || a == 10 || (a == 172 && b & 0xf0 == 16) || (a == 192 && b == 168) || (a == 169
        && b == 254) || (a == 255 && b == 255 && c == 255 && d == 255) || (a == 0 && b == 0 && c
        == 0 && d == 0) || (a == 100 && b & 0xC0 == 64)
}

/// Returns true if an IP address is in a private or reserved range.
pub fn is_private_ip(ip: &IpAddress) -> (r: bool)
    ensures
        r == private_ip(*ip),
{
    match ip {
        IpAddress::V4(a, b, c, d) => v4_is_reserved(*a, *b, *c, *d),
        IpAddress::V6(s0, s1, s2, s3, s4, s5, s6, s7) => {
            let (s0, s1, s2, s3, s4, s5, s6, s7) = (*s0, *s1, *s2, *s3, *s4, *s5, *s6, *s7);
            let zero_head = s0 == 0 && s1 == 0 && s2 == 0 && s3 == 0 && s4 == 0 && s5 == 0 && s6
                == 0;
            if zero_head && (s7 == 1 || s7 == 0) {
                return true;
            }
            if s0 == 0 && s1 == 0 && s2 == 0 && s3 == 0 && s4 == 0 && s5 == 0xffff {
                let a = (s6 / 256) as u8;
                let b = (s6 % 256) as u8;
                let c = (s7 / 256) as u8;
                let d = (s7 % 256) as u8;
                if v4_is_reserved(a, b, c, d) {
                    return true;
                }
            }
            (s0 & 0xffc0) == 0xfe80 || (s0 & 0xfe00) == 0xfc00
        },
    }
}

// ── Parsing, through the `url` crate ─────────────────────────────────

/// What `url::Url::parse` makes of a text: the scheme, the host as
/// `host_str` gives it, `port_or_known_default`, and the octets of the
/// host when it is an IPv4 address; or the parse error's text.
pub uninterp spec fn url_parse(url: Seq<char>) -> Result<
    (Seq<char>, Option<Seq<char>>, Option<u16>, Option<(u8, u8, u8, u8)>),
    Seq<char>,
>;

/// The view of a parsed URL.
pub open spec fn parsed_view(r: Result<(String, Option<String>, Option<u16>, Option<(u8, u8, u8, u8)>), String>) -> Result<
    (Seq<char>, Option<Seq<char>>, Option<u16>, Option<(u8, u8, u8, u8)>),
    Seq<char>,
> {
    match r {
        Ok((scheme, host, port, v4)) => Ok((scheme@, opt_view(host), port, v4)),
        Err(e) => Err(e@),
    }
}

/// Parses `url` with `url::Url::parse` and reads its `scheme`,
/// `host_str`, `port_or_known_default` and, when `host` is an IPv4
/// address, its octets; a parse error is rendered with `to_string`. The
/// claim: the result is the named outcome for the text.
#[verifier::external_body]
fn parse_url(url: &str) -> (r: Result<(String, Option<String>, Option<u16>, Option<(u8, u8, u8, u8)>), String>)
    ensures
        parsed_view(r) == url_parse(url@),
{
    match url::Url::parse(url) {
        Ok(p) => {
            let v4 = match p.host() {
                Some(url::Host::Ipv4(a)) => Some((a.octets()[0], a.octets()[1], a.octets()[2], a.octets()[3])),
                _ => None,
            };
            Ok((p.scheme().to_string(), p.host_str().map(str::to_string), p.port_or_known_default(), v4))
        },
        Err(e) => Err(e.to_string()),
    }
}

/// An IPv4 address written in dotted decimal.
pub open spec fn v4_text(a: u8, b: u8, c: u8, d: u8) -> Seq<char> {
    crate::text::decimal(a as nat) + "."@ + crate::text::decimal(b as nat) + "."@
        + crate::text::decimal(c as nat) + "."@ + crate::text::decimal(d as nat)
}

fn v4_to_text(a: u8, b: u8, c: u8, d: u8) -> (r: String)
    ensures
        r@ == v4_text(a, b, c, d),
{
    let mut s = crate::text::decimal_string(a as u64);
    push_str(&mut s, ".");
    push_str(&mut s, crate::text::decimal_string(b as u64).as_str());
    push_str(&mut s, ".");
    push_str(&mut s, crate::text::decimal_string(c as u64).as_str());
    push_str(&mut s, ".");
    push_str(&mut s, crate::text::decimal_string(d as u64).as_str());
    s
}

/// An address a host resolved to, with the text the resolver writes it as.
#[derive(Debug, Clone)]
pub struct ResolvedAddress {
    /// The address.
    pub ip: IpAddress,
    /// How it is written (`IpAddr`'s `Display`).
    pub text: String,
}

// ── The checks ───────────────────────────────────────────────────────

/// The host and port a URL targets, or why it is refused: a URL that
/// does not parse, a scheme other than `http` or `https`, a missing host,
/// or a host that is itself a private IPv4 address. The port defaults to
/// 443 when the URL has none and the scheme has no known default.
pub open spec fn url_target_spec(url: Seq<char>) -> Result<(Seq<char>, u16), Seq<char>> {
    match url_parse(url) {
        Err(e) => Err("invalid URL: "@ + e),
        Ok((scheme, host, port, v4)) => if scheme != "http"@ && scheme != "https"@ {
            Err("only http/https schemes allowed, got '"@ + scheme + "'"@)
        } else {
            match host {
                None => Err("URL has no host"@),
                Some(h) => match v4 {
                    Some((a, b, c, d)) => if v4_reserved(a, b, c, d) {
                        Err("URL resolves to private IP: "@ + v4_text(a, b, c, d))
                    } else {
                        Ok((h, match port {
                            Some(p) => p,
                            None => 443,
                        }))
                    },
                    None => Ok((h, match port {
                        Some(p) => p,
                        None => 443,
                    })),
                },
            }
        },
    }
}

/// The view of a check's result.
pub open spec fn target_view(r: Result<(String, u16), ScriptError>) -> Result<(Seq<char>, u16), Seq<char>> {
    match r {
        Ok((h, p)) => Ok((h@, p)),
        Err(ScriptError::InvalidArgument { detail }) => Err(detail@),
        Err(_) => Err("unexpected error kind"@),
    }
}

/// Validates a URL before a script may fetch it and returns the host and
/// port to resolve; see [`url_target_spec`] for what is refused.
pub fn url_target(url: &str) -> (r: Result<(String, u16), ScriptError>)
    ensures
        r is Ok || r matches Err(ScriptError::InvalidArgument { .. }),
        target_view(r) == url_target_spec(url@),
{
    let (scheme, host, port, v4) = match parse_url(url) {
        Ok(parts) => parts,
        Err(e) => {
            return Err(ScriptError::InvalidArgument { detail: concat2("invalid URL: ", e.as_str()) });
        },
    };
    if !str_eq(scheme.as_str(), "http") && !str_eq(scheme.as_str(), "https") {
        let mut detail = concat2("only http/https schemes allowed, got '", scheme.as_str());
        push_str(&mut detail, "'");
        return Err(ScriptError::InvalidArgument { detail });
    }
    let host = match host {
        Some(h) => h,
        None => {
            return Err(ScriptError::InvalidArgument { detail: owned("URL has no host") });
        },
    };
    let port: u16 = match port {
        Some(p) => p,
        None => 443,
    };
    match v4 {
        Some((a, b, c, d)) => {
            if v4_is_reserved(a, b, c, d) {
                let text = v4_to_text(a, b, c, d);
                return Err(
                    ScriptError::InvalidArgument {
                        detail: concat2("URL resolves to private IP: ", text.as_str()),
                    },
                );
            }
        },
        None => {},
    }
    Ok((host, port))
}

/// The first private address among those a host resolved to, if any.
pub open spec fn first_private(addrs: Seq<ResolvedAddress>) -> Option<ResolvedAddress>
    decreases addrs.len(),
{
    if addrs.len() == 0 {
        None
    } else if private_ip(addrs[0].ip) {
        Some(addrs[0])
    } else {
        first_private(addrs.drop_first())
    }
}

/// Checks the addresses a URL's host resolved to: the first private one
/// refuses the URL, naming the host and the address.
pub fn check_resolved_addresses(host: &str, addrs: &Vec<ResolvedAddress>) -> (r: Result<(), ScriptError>)
    ensures
        match first_private(addrs@) {
            None => r is Ok,
            Some(a) => r matches Err(ScriptError::InvalidArgument { detail }) && detail@ == "URL host '"@
                + host@ + "' resolves to private IP: "@ + a.text@,
        },
{
    let mut i: usize = 0;
    assert(addrs@.subrange(0, addrs@.len() as int) =~= addrs@);
    while i < addrs.len()
        invariant
            i <= addrs@.len(),
            first_private(addrs@) == first_private(addrs@.subrange(i as int, addrs@.len() as int)),
        decreases addrs.len() - i,
    {
        let ghost rest = addrs@.subrange(i as int, addrs@.len() as int);
        assert(rest[0] == addrs@[i as int]);
        assert(rest.drop_first() =~= addrs@.subrange(i + 1, addrs@.len() as int));
        if is_private_ip(&addrs[i].ip) {
            let mut detail = concat2("URL host '", host);
            push_str(&mut detail, "' resolves to private IP: ");
            push_str(&mut detail, addrs[i].text.as_str());
            return Err(ScriptError::InvalidArgument { detail });
        }
        i = i + 1;
    }
    assert(addrs@.subrange(i as int, addrs@.len() as int) =~= Seq::<ResolvedAddress>::empty());
    Ok(())
}

} // verus!
