//! Host names and IP addresses, as parsed and displayed by the `url` crate
//! and the standard library.
use vstd::prelude::*;

verus! {

/// The abstract content of a [`Host`]
pub enum HostView {
    Domain(Seq<char>),
    Ipv4(u8, u8, u8, u8),
    Ipv6(u16, u16, u16, u16, u16, u16, u16, u16),
}

/// A server host: a domain name, an IPv4 address, or an IPv6 address
#[derive(Clone, Debug, PartialEq, Eq, Hash)]
pub enum Host {
    Domain(String),
    Ipv4(u8, u8, u8, u8),
    Ipv6(u16, u16, u16, u16, u16, u16, u16, u16),
}

impl View for Host {
    type V = HostView;

    open spec fn view(&self) -> HostView {
        match self {
            Host::Domain(d) => HostView::Domain(d@),
            Host::Ipv4(a, b, c, d) => HostView::Ipv4(*a, *b, *c, *d),
            Host::Ipv6(a, b, c, d, e, f, g, h) => HostView::Ipv6(*a, *b, *c, *d, *e, *f, *g, *h),
        }
    }
}

/// Why a string is not a valid host
#[derive(Clone, Copy, Debug, PartialEq, Eq, Hash)]
pub enum HostError {
    EmptyHost,
    IdnaError,
    InvalidPort,
    InvalidIpv4Address,
    InvalidIpv6Address,
    InvalidDomainCharacter,
    RelativeUrlWithoutBase,
    RelativeUrlWithCannotBeABaseBase,
    SetHostOnCannotBeABaseUrl,
    Overflow,
    /// A kind of error that this crate does not name
    Other,
}

/// Whether a domain host is nonempty (other hosts qualify trivially)
pub open spec fn nonempty_domain(h: HostView) -> bool {
    h matches HostView::Domain(d) ==> d.len() > 0
}

/// The name of a domain host, or `other` for an address
pub open spec fn domain_or(h: HostView, other: Seq<char>) -> Seq<char> {
    match h {
        HostView::Domain(d) => d,
        _ => other,
    }
}

/// The abstract content of a host parsing result
pub open spec fn host_result_view(r: Result<Host, HostError>) -> Result<HostView, HostError> {
    match r {
        Ok(h) => Ok(h@),
        Err(e) => Err(e),
    }
}

/// The result of `url::Host::parse` on the given text
pub uninterp spec fn url_host_parse(input: Seq<char>) -> Result<HostView, HostError>;

/// The text that `url::Host`'s `Display` writes for the given host
pub uninterp spec fn url_host_display(host: HostView) -> Seq<char>;

/// Calls `url::Host::parse`.  The contract claims that the result is
/// determined by the input alone (named [`url_host_parse`]), and, as the
/// crate's source shows, that a domain it returns is never empty.  What the
/// parser accepts (IDNA processing, percent-decoding, IPv4 and IPv6 forms) is
/// left unstated.
#[verifier::external_body]
pub(crate) fn parse_host(input: &str) -> (r: Result<Host, HostError>)
    ensures
        url_host_parse(input@) == host_result_view(r),
        r is Ok ==> nonempty_domain(r->Ok_0@),
{
    match url::Host::parse(input) {
        Ok(url::Host::Domain(d)) => Ok(Host::Domain(d)),
        Ok(url::Host::Ipv4(a)) => {
            let o = a.octets();
            Ok(Host::Ipv4(o[0], o[1], o[2], o[3]))
        },
        Ok(url::Host::Ipv6(a)) => {
            let s = a.segments();
            Ok(Host::Ipv6(s[0], s[1], s[2], s[3], s[4], s[5], s[6], s[7]))
        },
        Err(e) => Err(host_error_from(e)),
    }
}

/// The error type of the `url` crate
#[verifier::external_type_specification]
#[verifier::external_body]
pub struct ExUrlParseError(url::ParseError);

/// Converts a `url::ParseError` into the [`HostError`] of the same name, one
/// variant to one; nothing is claimed of the result.
#[verifier::external_body]
fn host_error_from(e: url::ParseError) -> HostError {
    match e {
        url::ParseError::EmptyHost => HostError::EmptyHost,
        url::ParseError::IdnaError => HostError::IdnaError,
        url::ParseError::InvalidPort => HostError::InvalidPort,
        url::ParseError::InvalidIpv4Address => HostError::InvalidIpv4Address,
        url::ParseError::InvalidIpv6Address => HostError::InvalidIpv6Address,
        url::ParseError::InvalidDomainCharacter => HostError::InvalidDomainCharacter,
        url::ParseError::RelativeUrlWithoutBase => HostError::RelativeUrlWithoutBase,
        url::ParseError::RelativeUrlWithCannotBeABaseBase => HostError::RelativeUrlWithCannotBeABaseBase,
        url::ParseError::SetHostOnCannotBeABaseUrl => HostError::SetHostOnCannotBeABaseUrl,
        url::ParseError::Overflow => HostError::Overflow,
        _ => HostError::Other,
    }
}

/// Calls `url::Host`'s `Display` through `to_string`.  The contract claims
/// that the text is determined by the host alone (named
/// [`url_host_display`]), and, as the crate's source shows, that a domain is
/// written as it is.  The forms of IPv4 and IPv6 addresses are left unstated.
#[verifier::external_body]
pub(crate) fn display_host(host: &Host) -> (r: String)
    ensures
        r@ == url_host_display(host@),
        r@ == domain_or(host@, r@),
{
    let h: url::Host = match host {
        Host::Domain(d) => url::Host::Domain(d.clone()),
        Host::Ipv4(a, b, c, d) => url::Host::Ipv4([*a, *b, *c, *d].into()),
        Host::Ipv6(a, b, c, d, e, f, g, i) => url::Host::Ipv6([*a, *b, *c, *d, *e, *f, *g, *i].into()),
    };
    h.to_string()
}

impl Host {
    /// Parses `input` as a host, as the `url` crate does (see
    /// [`url_host_parse`])
    pub fn parse_str(input: &str) -> (r: Result<Host, HostError>)
        ensures
            url_host_parse(input@) == host_result_view(r),
            r is Ok ==> nonempty_domain(r->Ok_0@),
    {
        parse_host(input)
    }

    /// The text form of the host (see [`url_host_display`])
    pub fn to_string(&self) -> (r: String)
        ensures
            r@ == url_host_display(self@),
            r@ == domain_or(self@, r@),
    {
        display_host(self)
    }
}

/// The abstract content of an [`IpAddr`]
pub enum IpAddrView {
    V4(u8, u8, u8, u8),
    V6(u16, u16, u16, u16, u16, u16, u16, u16),
}

/// An IPv4 or IPv6 address
#[derive(Clone, Copy, Debug, PartialEq, Eq, Hash)]
pub enum IpAddr {
    V4(u8, u8, u8, u8),
    V6(u16, u16, u16, u16, u16, u16, u16, u16),
}

impl View for IpAddr {
    type V = IpAddrView;

    open spec fn view(&self) -> IpAddrView {
        match self {
            IpAddr::V4(a, b, c, d) => IpAddrView::V4(*a, *b, *c, *d),
            IpAddr::V6(a, b, c, d, e, f, g, h) => IpAddrView::V6(*a, *b, *c, *d, *e, *f, *g, *h),
        }
    }
}

/// The abstract content of an optional [`IpAddr`]
pub open spec fn ip_option_view(r: Option<IpAddr>) -> Option<IpAddrView> {
    match r {
        Some(a) => Some(a@),
        None => None,
    }
}

/// The address that the standard library's `IpAddr` parsing reads from the
/// given text, if it reads one
pub uninterp spec fn std_ip_parse(input: Seq<char>) -> Option<IpAddrView>;

/// Calls `str::parse::<IpAddr>` (the standard library's `FromStr` for
/// `core::net::IpAddr`), keeping the address's octets or segments.  The
/// contract claims only that the result is determined by the text (named
/// [`std_ip_parse`]); which forms of IPv4 and IPv6 addresses are accepted is
/// left unstated.
#[verifier::external_body]
pub(crate) fn parse_ip(input: &str) -> (r: Option<IpAddr>)
    ensures
        std_ip_parse(input@) == ip_option_view(r),
{
    match input.parse::<core::net::IpAddr>() {
        Ok(core::net::IpAddr::V4(a)) => {
            let o = a.octets();
            Some(IpAddr::V4(o[0], o[1], o[2], o[3]))
        },
        Ok(core::net::IpAddr::V6(a)) => {
            let s = a.segments();
            Some(IpAddr::V6(s[0], s[1], s[2], s[3], s[4], s[5], s[6], s[7]))
        },
        Err(_) => None,
    }
}

} // verus!
