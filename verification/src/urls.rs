//! Parsing and joining of absolute URLs.
//!
//! The resolver treats a URL string through two operations of the `url`
//! crate: parsing a string on its own, and joining a reference onto an
//! already-parsed base. Both follow the WHATWG URL standard; their results
//! are named here by uninterpreted functions, and the wrappers state the
//! few standard facts the resolver's contract needs:
//!
//! - parsing is idempotent on serializations: parsing the serialization of
//!   a parsed URL yields that serialization back;
//! - a reference that is itself the canonical serialization of an
//!   `http`/`https` URL resolves to itself, whatever the base, because its
//!   scheme and `//` make the parser ignore the base entirely.

use vstd::prelude::*;

use crate::strutil::is_prefix_of;

verus! {

/// The canonical serialization of `s` parsed as an absolute URL on its own:
/// `Ok` with the serialization when it parses, `Err(true)` when it is
/// relative (has no scheme, so only a base could complete it), `Err(false)`
/// when it cannot be parsed at all.
pub uninterp spec fn url_parse_of(s: Seq<char>) -> Result<Seq<char>, bool>;

/// The canonical serialization of the reference `rel` joined onto the
/// parsed form of `base`, when the join succeeds.
pub uninterp spec fn url_join_of(base: Seq<char>, rel: Seq<char>) -> Option<Seq<char>>;

/// The sequence of characters `http://`.
pub open spec fn http_prefix() -> Seq<char> {
    seq!['h', 't', 't', 'p', ':', '/', '/']
}

/// The sequence of characters `https://`.
pub open spec fn https_prefix() -> Seq<char> {
    seq!['h', 't', 't', 'p', 's', ':', '/', '/']
}

/// A canonical `http` or `https` URL serialization: the WHATWG serializer
/// writes the lower-cased scheme, then `://`, for these two schemes.
pub open spec fn is_http_url(s: Seq<char>) -> bool {
    is_prefix_of(http_prefix(), s) || is_prefix_of(https_prefix(), s)
}

/// `s` parses as an absolute URL whose canonical serialization is `u`.
pub open spec fn parses_to(s: Seq<char>, u: Seq<char>) -> bool {
    url_parse_of(s) == Ok::<Seq<char>, bool>(u)
}

/// `s` is a relative reference: it has no scheme.
pub open spec fn parse_is_relative(s: Seq<char>) -> bool {
    url_parse_of(s) == Err::<Seq<char>, bool>(true)
}

/// `s` cannot be parsed as a URL at all.
pub open spec fn parse_is_invalid(s: Seq<char>) -> bool {
    url_parse_of(s) == Err::<Seq<char>, bool>(false)
}

/// `s` parses, and its serialization is an `http(s)` URL.
pub open spec fn base_parses_http(s: Seq<char>) -> bool {
    url_parse_of(s) is Ok && is_http_url(url_parse_of(s)->Ok_0)
}

/// The join of `rel` onto `base`, falling back to the serialization of
/// `base` itself when the join fails.
pub open spec fn join_or_base(base: Seq<char>, rel: Seq<char>) -> Seq<char> {
    match url_join_of(base, rel) {
        Some(u) => u,
        None => url_parse_of(base)->Ok_0,
    }
}

/// Outcome of parsing one string as an absolute URL.
pub enum UrlParsed {
    /// The string parses; the payload is its canonical serialization.
    Absolute(String),
    /// The string has no scheme: it is a relative reference and only a base
    /// could complete it.
    Relative,
    /// The string cannot be parsed as a URL at all.
    Invalid,
}

/// Relies on `url::Url::parse`: it returns the parsed URL (serialized by
/// `String::from`) on success and `ParseError::RelativeUrlWithoutBase`
/// exactly when the input has no scheme. Re-parsing a serialization yields
/// the same serialization (the WHATWG round-trip guarantee).
#[verifier::external_body]
pub fn parse_url(s: &str) -> (r: UrlParsed)
    ensures
        match r {
            UrlParsed::Absolute(u) => parses_to(s@, u@) && parses_to(u@, u@),
            UrlParsed::Relative => parse_is_relative(s@),
            UrlParsed::Invalid => parse_is_invalid(s@),
        },
{
    match url::Url::parse(s) {
        Ok(u) => UrlParsed::Absolute(String::from(u)),
        Err(url::ParseError::RelativeUrlWithoutBase) => UrlParsed::Relative,
        Err(_) => UrlParsed::Invalid,
    }
}

/// Relies on `url::Url::join` (after `url::Url::parse` on the base): it
/// resolves `rel` against the base per the WHATWG standard. When `rel` is
/// itself a canonical `http`/`https` serialization, its scheme and `//`
/// send the parser through the authority state and the base is ignored, so
/// the join returns `rel` unchanged; a reference without a scheme takes
/// the scheme of its base; the result is always a serialization, so
/// re-parsing it yields it back.
#[verifier::external_body]
pub fn join_url(base: &str, rel: &str) -> (r: Option<String>)
    ensures
        url_parse_of(base@) is Ok ==> match r {
            Some(u) => url_join_of(base@, rel@) == Some(u@) && parses_to(u@, u@),
            None => url_join_of(base@, rel@) is None,
        },
        !(url_parse_of(base@) is Ok) ==> r is None,
        (url_parse_of(base@) is Ok && parses_to(rel@, rel@) && is_http_url(rel@)) ==> match r {
            Some(u) => u@ == rel@,
            None => false,
        },
        (base_parses_http(base@) && parse_is_relative(rel@)) ==> match r {
            Some(u) => is_http_url(u@),
            None => true,
        },
{
    let b = match url::Url::parse(base) {
        Ok(b) => b,
        Err(_) => return None,
    };
    match b.join(rel) {
        Ok(u) => Some(String::from(u)),
        Err(_) => None,
    }
}

} // verus!
