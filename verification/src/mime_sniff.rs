//! MIME sniffing for remotely fetched modules.
//!
//! The HTTP loader inspects the declared content type of a response
//! before it accepts the body as script source: only `text` and
//! `application` top-level types whose subtype names the base script
//! language (or, when enabled, the typed superset) are accepted, and each
//! maps to the file extension the syntax hint is inferred from.

use vstd::prelude::*;

use crate::strutil::{ascii_lower, str_eq};

verus! {

/// The essence of `s` parsed as a MIME type: its top-level type and its
/// subtype, both ASCII-lowercased, when `s` parses.
pub uninterp spec fn mime_parts_of(s: Seq<char>) -> Option<(Seq<char>, Seq<char>)>;

/// Relies on `mime::Mime`'s `FromStr` together with `Mime::type_` and
/// `Mime::subtype`: parsing lowercases the type and subtype names, so the
/// two returned strings are ASCII-lowercase.
#[verifier::external_body]
pub fn parse_mime(s: &str) -> (r: Option<(String, String)>)
    ensures
        match r {
            Some(p) => mime_parts_of(s@) == Some((p.0@, p.1@)) && p.0@ == ascii_lower(p.0@)
                && p.1@ == ascii_lower(p.1@),
            None => mime_parts_of(s@) is None,
        },
{
    match s.parse::<mime::Mime>() {
        Ok(m) => Some((m.type_().as_str().to_owned(), m.subtype().as_str().to_owned())),
        Err(_) => None,
    }
}

/// The extension a sniffed content type maps to: `js` for the script
/// subtype, `ts` for the superset subtype when the superset is enabled,
/// and `None` — rejection — otherwise. The top-level type must be `text`
/// or `application`.
pub open spec fn sniffed_extension(
    parts: Option<(Seq<char>, Seq<char>)>,
    typescript: bool,
) -> Option<Seq<char>> {
    match parts {
        None => None,
        Some(p) => if p.0 == "text"@ || p.0 == "application"@ {
            if p.1 == "javascript"@ {
                Some("js"@)
            } else if p.1 == "typescript"@ && typescript {
                Some("ts"@)
            } else {
                None
            }
        } else {
            None
        },
    }
}

/// Sniff a content-type header value. `None` is a rejection: the header
/// was missing the shape of a script type entirely.
pub fn sniff_content_type(header: &str, typescript: bool) -> (r: Option<&'static str>)
    ensures
        match r {
            Some(e) => sniffed_extension(mime_parts_of(header@), typescript) == Some(e@),
            None => sniffed_extension(mime_parts_of(header@), typescript) is None,
        },
{
    let parts = match parse_mime(header) {
        Some(p) => p,
        None => {
            return None;
        },
    };
    if !(str_eq(parts.0.as_str(), "text") || str_eq(parts.0.as_str(), "application")) {
        return None;
    }
    if str_eq(parts.1.as_str(), "javascript") {
        Some("js")
    } else if typescript && str_eq(parts.1.as_str(), "typescript") {
        Some("ts")
    } else {
        None
    }
}

} // verus!
