//! From a registry's index URL to the host under which its credentials are
//! stored.
//!
//! The URL itself is read by the `url` crate. A domain is used as the parser
//! hands it out; an address is written out here: an IPv4 address as four
//! decimal numbers with dots, an IPv6 address in lower-case hexadecimal
//! groups without brackets, the first longest run of two or more zero groups
//! shortened to `::`, and an IPv4-mapped address as `::ffff:` with the IPv4
//! address in dotted form.

use vstd::prelude::*;
use vstd::string::StringExecFns;
use crate::error::{CredentialError, Failure};
use crate::text::{decimal, hexadecimal, push_decimal, push_hexadecimal};

verus! {

/// The host of a URL, as the URL parser found it.
#[derive(Debug, PartialEq, Eq)]
pub enum UrlHost {
    /// A domain name.
    Domain(String),
    /// An IPv4 address, by its four octets.
    Ipv4([u8; 4]),
    /// An IPv6 address, by its eight 16-bit groups.
    Ipv6([u16; 8]),
    /// The URL has no host.
    Absent,
}

/// A [`UrlHost`] as plain values.
pub enum HostParts {
    Domain(Seq<char>),
    Ipv4(Seq<u8>),
    Ipv6(Seq<u16>),
    Absent,
}

impl View for UrlHost {
    type V = HostParts;

    open spec fn view(&self) -> HostParts {
        match self {
            UrlHost::Domain(name) => HostParts::Domain(name@),
            UrlHost::Ipv4(octets) => HostParts::Ipv4(octets@),
            UrlHost::Ipv6(groups) => HostParts::Ipv6(groups@),
            UrlHost::Absent => HostParts::Absent,
        }
    }
}

/// The error type of the `url` crate's parser, carried through as it is.
#[verifier::external_type_specification]
#[verifier::external_body]
pub struct ExParseError(url::ParseError);

/// The host that the `url` crate's parser finds in a text, or `None` where
/// it rejects the text.
pub uninterp spec fn url_host(input: Seq<char>) -> Option<HostParts>;

/// Runs `url::Url::parse` on `input` and hands out what `Url::host` gives for
/// the parsed URL: the domain's text, or an address by its octets
/// (`Ipv4Addr::octets`) or groups (`Ipv6Addr::segments`), or that there is no
/// host. An error of the parser is passed on.
#[verifier::external_body]
fn parse_url_host(input: &str) -> (parsed: Result<UrlHost, url::ParseError>)
    ensures
        match parsed {
            Ok(host) => url_host(input@) == Some(host@),
            Err(_) => url_host(input@) is None,
        },
{
    let parsed = url::Url::parse(input)?;
    Ok(
        match parsed.host() {
            Some(url::Host::Domain(name)) => UrlHost::Domain(name.to_owned()),
            Some(url::Host::Ipv4(address)) => UrlHost::Ipv4(address.octets()),
            Some(url::Host::Ipv6(address)) => UrlHost::Ipv6(address.segments()),
            None => UrlHost::Absent,
        },
    )
}

/// The `url` crate's wording of a parse error (its `Display` text). Nothing
/// is claimed of the text.
#[verifier::external_body]
fn parse_error_reason(error: &url::ParseError) -> (reason: String) {
    error.to_string()
}

/// An IPv4 address in dotted form.
pub open spec fn ipv4_text(octets: Seq<u8>) -> Seq<char> {
    decimal(octets[0] as nat) + seq!['.'] + decimal(octets[1] as nat) + seq!['.'] + decimal(
        octets[2] as nat,
    ) + seq!['.'] + decimal(octets[3] as nat)
}

/// The number of zero groups in a row that start at index `at`.
pub open spec fn zero_run(groups: Seq<u16>, at: int) -> nat
    decreases groups.len() - at,
{
    if 0 <= at < groups.len() && groups[at] == 0 {
        1 + zero_run(groups, at + 1)
    } else {
        0
    }
}

/// Where the longest run of zero groups at or after index `from` starts, and
/// how long it is; of two runs of one length, the first.
pub open spec fn longest_zero_run(groups: Seq<u16>, from: int) -> (int, nat)
    decreases groups.len() - from,
{
    if from < 0 || from >= groups.len() {
        (from, 0)
    } else {
        let here = zero_run(groups, from);
        let later = longest_zero_run(groups, from + 1);
        if here >= later.1 {
            (from, here)
        } else {
            later
        }
    }
}

/// Groups in hexadecimal, with a colon between each two.
pub open spec fn hex_groups(groups: Seq<u16>) -> Seq<char>
    decreases groups.len(),
{
    if groups.len() == 0 {
        Seq::empty()
    } else if groups.len() == 1 {
        hexadecimal(groups[0] as nat)
    } else {
        hex_groups(groups.drop_last()) + seq![':'] + hexadecimal(groups.last() as nat)
    }
}

/// Whether an IPv6 address stands for an IPv4 address: five zero groups, then
/// a group of all ones.
pub open spec fn is_ipv4_mapped(groups: Seq<u16>) -> bool {
    groups[0] == 0 && groups[1] == 0 && groups[2] == 0 && groups[3] == 0 && groups[4] == 0
        && groups[5] == 0xffff
}

/// The octets in the last two groups of an IPv6 address.
pub open spec fn mapped_octets(groups: Seq<u16>) -> Seq<u8> {
    seq![
        (groups[6] / 256) as u8,
        (groups[6] % 256) as u8,
        (groups[7] / 256) as u8,
        (groups[7] % 256) as u8,
    ]
}

/// An IPv6 address in its canonical text form, without brackets.
pub open spec fn ipv6_text(groups: Seq<u16>) -> Seq<char> {
    if is_ipv4_mapped(groups) {
        "::ffff:"@ + ipv4_text(mapped_octets(groups))
    } else {
        let (start, length) = longest_zero_run(groups, 0);
        if length > 1 {
            hex_groups(groups.subrange(0, start)) + "::"@ + hex_groups(
                groups.subrange(start + length, groups.len() as int),
            )
        } else {
            hex_groups(groups)
        }
    }
}

/// The name under which a host's credentials are looked up, or `None` for a
/// URL without a host.
pub open spec fn host_text(host: HostParts) -> Option<Seq<char>> {
    match host {
        HostParts::Domain(name) => Some(name),
        HostParts::Ipv4(octets) => Some(ipv4_text(octets)),
        HostParts::Ipv6(groups) => Some(ipv6_text(groups)),
        HostParts::Absent => None,
    }
}

/// What resolving a URL gives, from what the URL parser found in it.
pub open spec fn resolution(parsed: Option<HostParts>) -> Result<Seq<char>, Failure> {
    match parsed {
        None => Err(Failure::UrlParseError),
        Some(host) => match host_text(host) {
            Some(name) => Ok(name),
            None => Err(Failure::UrlNotSupported),
        },
    }
}

/// Whether `outcome` holds the name or the failure that `expected` holds.
pub open spec fn same_resolution(
    outcome: Result<String, CredentialError>,
    expected: Result<Seq<char>, Failure>,
) -> bool {
    match expected {
        Ok(name) => outcome matches Ok(host) && host@ == name,
        Err(failure) => outcome matches Err(error) && error@ == failure,
    }
}

/// Appends four octets in dotted form to `out`.
fn push_ipv4(out: &mut String, a: u8, b: u8, c: u8, d: u8)
    ensures
        final(out)@ == old(out)@ + ipv4_text(seq![a, b, c, d]),
{
    push_decimal(out, a as usize);
    out.push('.');
    push_decimal(out, b as usize);
    out.push('.');
    push_decimal(out, c as usize);
    out.push('.');
    push_decimal(out, d as usize);
    assert(final(out)@ =~= old(out)@ + ipv4_text(seq![a, b, c, d]));
}

/// The number of zero groups in a row that start at index `at`.
fn zero_run_at(groups: &[u16; 8], at: usize) -> (length: usize)
    ensures
        length == zero_run(groups@, at as int),
        at + length <= 8 || length == 0,
    decreases 8 - at,
{
    if at < 8 && groups[at] == 0 {
        1 + zero_run_at(groups, at + 1)
    } else {
        0
    }
}

/// The first longest run of zero groups at or after index `from`.
fn longest_zero_run_from(groups: &[u16; 8], from: usize) -> (run: (usize, usize))
    requires
        from <= 8,
    ensures
        (run.0 as int, run.1 as nat) == longest_zero_run(groups@, from as int),
        from <= run.0 <= 8,
        run.0 + run.1 <= 8,
    decreases 8 - from,
{
    if from >= 8 {
        (from, 0)
    } else {
        let here = zero_run_at(groups, from);
        let later = longest_zero_run_from(groups, from + 1);
        if here >= later.1 {
            (from, here)
        } else {
            later
        }
    }
}

/// Appends the groups from index `from` up to, not including, `to`.
fn push_groups(out: &mut String, groups: &[u16; 8], from: usize, to: usize)
    requires
        from <= to <= 8,
    ensures
        final(out)@ == old(out)@ + hex_groups(groups@.subrange(from as int, to as int)),
{
    let mut at = from;
    assert(groups@.subrange(from as int, from as int) =~= Seq::empty());
    assert(out@ + Seq::<char>::empty() =~= out@);
    while at < to
        invariant
            from <= at <= to <= 8,
            out@ == old(out)@ + hex_groups(groups@.subrange(from as int, at as int)),
        decreases to - at,
    {
        let ghost done = groups@.subrange(from as int, at as int);
        let ghost next = groups@.subrange(from as int, at + 1);
        assert(next.drop_last() =~= done);
        assert(next.last() == groups@[at as int]);
        if at > from {
            out.push(':');
        }
        push_hexadecimal(out, groups[at] as usize);
        assert(out@ =~= old(out)@ + hex_groups(next));
        at += 1;
    }
}

/// An IPv4 address in dotted form.
pub fn ipv4_to_text(octets: &[u8; 4]) -> (text: String)
    ensures
        text@ == ipv4_text(octets@),
{
    let mut text = String::new();
    push_ipv4(&mut text, octets[0], octets[1], octets[2], octets[3]);
    assert(seq![octets@[0], octets@[1], octets@[2], octets@[3]] =~= octets@);
    assert(Seq::<char>::empty() + ipv4_text(octets@) =~= ipv4_text(octets@));
    text
}

/// An IPv6 address in its canonical text form, without brackets.
pub fn ipv6_to_text(groups: &[u16; 8]) -> (text: String)
    ensures
        text@ == ipv6_text(groups@),
{
    if groups[0] == 0 && groups[1] == 0 && groups[2] == 0 && groups[3] == 0 && groups[4] == 0
        && groups[5] == 0xffff {
        let mut text = String::from_str("::ffff:");
        push_ipv4(
            &mut text,
            (groups[6] / 256) as u8,
            (groups[6] % 256) as u8,
            (groups[7] / 256) as u8,
            (groups[7] % 256) as u8,
        );
        text
    } else {
        let (start, length) = longest_zero_run_from(groups, 0);
        let mut text = String::new();
        if length > 1 {
            push_groups(&mut text, groups, 0, start);
            text.append("::");
            push_groups(&mut text, groups, start + length, 8);
            assert(text@ =~= ipv6_text(groups@));
        } else {
            push_groups(&mut text, groups, 0, 8);
            assert(groups@.subrange(0, 8) =~= groups@);
            assert(text@ =~= ipv6_text(groups@));
        }
        text
    }
}

/// The name under which the credentials of a parsed host are looked up.
///
/// A domain is returned unchanged, an address in its text form. A URL
/// without a host has no name: the error is `UrlNotSupported`.
pub fn host_name(host: UrlHost) -> (outcome: Result<String, CredentialError>)
    ensures
        same_resolution(outcome, resolution(Some(host@))),
{
    match host {
        UrlHost::Domain(name) => Ok(name),
        UrlHost::Ipv4(octets) => Ok(ipv4_to_text(&octets)),
        UrlHost::Ipv6(groups) => Ok(ipv6_to_text(&groups)),
        UrlHost::Absent => Err(CredentialError::UrlNotSupported),
    }
}

/// Resolves a registry's index URL to the host whose credentials it needs.
///
/// The result is `UrlParseError` where the URL parser rejects the text,
/// `UrlNotSupported` where the URL has no host, and otherwise the host's
/// name as [`host_name`] gives it.
pub fn resolve_host(index_url: &str) -> (outcome: Result<String, CredentialError>)
    ensures
        same_resolution(outcome, resolution(url_host(index_url@))),
{
    match parse_url_host(index_url) {
        Ok(host) => host_name(host),
        Err(error) => Err(CredentialError::UrlParseError { reason: parse_error_reason(&error) }),
    }
}

/// A domain host resolves to the domain itself, whatever the URL around it.
pub proof fn lemma_domain_unchanged(domain: Seq<char>)
    ensures
        resolution(Some(HostParts::Domain(domain))) == Ok::<Seq<char>, Failure>(domain),
{
}

/// An address resolves to its text form and never fails.
pub proof fn lemma_address_as_text(octets: Seq<u8>, groups: Seq<u16>)
    ensures
        resolution(Some(HostParts::Ipv4(octets))) == Ok::<Seq<char>, Failure>(ipv4_text(octets)),
        resolution(Some(HostParts::Ipv6(groups))) == Ok::<Seq<char>, Failure>(ipv6_text(groups)),
{
}

} // verus!
