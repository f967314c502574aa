//! The resolver chain: ordered strategies that turn `(base, specifier)`
//! into one canonical module name.
//!
//! Entries are tried in a fixed order; each entry either declines (it is
//! not applicable) or returns a definitive answer. The first applicable
//! entry wins. The chain here holds the native-module entry followed by the
//! HTTP entry; a local-file entry is an external collaborator and would be
//! the lowest-priority entry.

use vstd::prelude::*;

use crate::routes::{matches_any_prefix, RouteList};
use crate::strutil::{str_eq, str_has_prefix};
use crate::urls::{
    base_parses_http, http_prefix, https_prefix, is_http_url, join_or_base, join_url, parse_is_relative,
    parse_url, parses_to, url_join_of, url_parse_of, UrlParsed,
};

verus! {

/// Why resolution failed; terminal for the import that asked.
#[derive(Clone, Copy, Debug, PartialEq, Eq, Structural)]
pub enum ResolutionError {
    /// No entry of the chain was applicable.
    NotFound,
    /// The HTTP entry produced a candidate, but the allow/deny routing
    /// rejected it.
    Denied,
    /// URL parsing or joining failed in a way no fallback covers, or the
    /// candidate's scheme is neither `http` nor `https`.
    Malformed,
}

/// The native-module entry: applicable exactly when the specifier matches
/// one of a fixed registry of built-in module names, fixed at engine
/// construction; the specifier is then returned unchanged.
pub struct NativeResolver {
    modules: Vec<String>,
}

impl NativeResolver {
    pub closed spec fn view(&self) -> Seq<Seq<char>> {
        self.modules@.map_values(|m: String| m@)
    }

    /// An empty registry.
    pub fn new() -> (r: NativeResolver)
        ensures
            r@ =~= Seq::<Seq<char>>::empty(),
    {
        NativeResolver { modules: Vec::new() }
    }

    /// Register one built-in module name.
    pub fn with_module(self, name: String) -> (r: NativeResolver)
        ensures
            r@ =~= self@.push(name@),
    {
        let mut modules = self.modules;
        modules.push(name);
        NativeResolver { modules }
    }

    /// Does the registry hold `specifier` exactly?
    pub fn recognizes(&self, specifier: &str) -> (r: bool)
        ensures
            r == self@.contains(specifier@),
    {
        let mut i: usize = 0;
        while i < self.modules.len()
            invariant
                i <= self.modules@.len(),
                self@.len() == self.modules@.len(),
                forall|j: int| 0 <= j < self@.len() ==> self@[j] == self.modules@[j]@,
                forall|j: int| 0 <= j < i ==> self@[j] != specifier@,
            decreases self.modules@.len() - i,
        {
            if str_eq(self.modules[i].as_str(), specifier) {
                assert(self@[i as int] == specifier@);
                return true;
            }
            i += 1;
        }
        false
    }
}

/// The HTTP entry of the resolver chain, with its optional allow/deny
/// routing tables.
pub struct HttpResolver {
    allowlist: Option<RouteList>,
    denylist: Option<RouteList>,
}

/// The HTTP entry is applicable exactly when at least one of base and
/// specifier parses as an absolute URL.
pub open spec fn http_applicable(base: Seq<char>, specifier: Seq<char>) -> bool {
    url_parse_of(base) is Ok || url_parse_of(specifier) is Ok
}

/// The candidate URL of the HTTP entry, before routing and scheme checks:
/// - both parse: the specifier's serialization is joined onto the base
///   (`None` when even that join fails);
/// - base parses, specifier is relative: the specifier is joined onto the
///   base, falling back to the base itself when the join fails;
/// - only the specifier parses: its serialization is used as is;
/// - only the base parses: its serialization is used as is.
pub open spec fn http_candidate_of(base: Seq<char>, specifier: Seq<char>) -> Option<Seq<char>> {
    match (url_parse_of(base), url_parse_of(specifier)) {
        (Ok(b), Ok(p)) => url_join_of(base, p),
        (Ok(b), Err(relative)) => if relative {
            match url_join_of(base, specifier) {
                Some(u) => Some(u),
                None => Some(b),
            }
        } else {
            Some(b)
        },
        (Err(_), Ok(p)) => Some(p),
        (Err(_), Err(_)) => None,
    }
}

/// The definitive answer of the HTTP entry, given its routing tables, when
/// it is applicable: the candidate, checked against the allow-list, then
/// the deny-list, then restricted to the `http`/`https` schemes.
pub open spec fn http_resolution_of(
    allow: Option<Seq<Seq<char>>>,
    deny: Option<Seq<Seq<char>>>,
    base: Seq<char>,
    specifier: Seq<char>,
) -> Result<Seq<char>, ResolutionError> {
    match http_candidate_of(base, specifier) {
        None => Err(ResolutionError::Malformed),
        Some(c) => if allow is Some && !matches_any_prefix(allow->0, c) {
            Err(ResolutionError::Denied)
        } else if deny is Some && matches_any_prefix(deny->0, c) {
            Err(ResolutionError::Denied)
        } else if is_http_url(c) {
            Ok(c)
        } else {
            Err(ResolutionError::Malformed)
        },
    }
}

impl HttpResolver {
    pub closed spec fn allow_view(&self) -> Option<Seq<Seq<char>>> {
        match self.allowlist {
            Some(l) => Some(l@),
            None => None,
        }
    }

    pub closed spec fn deny_view(&self) -> Option<Seq<Seq<char>>> {
        match self.denylist {
            Some(l) => Some(l@),
            None => None,
        }
    }

    /// An HTTP entry without routing tables.
    pub fn new() -> (r: HttpResolver)
        ensures
            r.allow_view() is None,
            r.deny_view() is None,
    {
        HttpResolver { allowlist: None, denylist: None }
    }

    /// Configure the allow-list.
    pub fn with_allowlist(self, allowlist: RouteList) -> (r: HttpResolver)
        ensures
            r.allow_view() == Some(allowlist@),
            r.deny_view() == self.deny_view(),
    {
        HttpResolver { allowlist: Some(allowlist), denylist: self.denylist }
    }

    /// Configure the deny-list.
    pub fn with_denylist(self, denylist: RouteList) -> (r: HttpResolver)
        ensures
            r.deny_view() == Some(denylist@),
            r.allow_view() == self.allow_view(),
    {
        HttpResolver { allowlist: self.allowlist, denylist: Some(denylist) }
    }

    /// The HTTP entry itself: `None` when not applicable, otherwise its
    /// definitive answer.
    ///
    /// Two consequences of the standard URL semantics are stated here as
    /// well, where the wrappers around the URL operations supply the facts
    /// they rest on: an absolute `http(s)` specifier in canonical form is
    /// accepted unchanged whatever the base, and a relative specifier
    /// against a parsing `http(s)` base is resolved to their join, or to
    /// the base itself when the join fails — in each case as long as no
    /// routing table is configured.
    pub fn try_resolve(&self, base: &str, specifier: &str) -> (r: Option<
        Result<String, ResolutionError>,
    >)
        ensures
            r is Some <==> http_applicable(base@, specifier@),
            r matches Some(ans) ==> match ans {
                Ok(name) => http_resolution_of(
                    self.allow_view(),
                    self.deny_view(),
                    base@,
                    specifier@,
                ) == Ok::<Seq<char>, ResolutionError>(name@),
                Err(e) => http_resolution_of(
                    self.allow_view(),
                    self.deny_view(),
                    base@,
                    specifier@,
                ) == Err::<Seq<char>, ResolutionError>(e),
            },
            (parses_to(specifier@, specifier@) && is_http_url(specifier@)
                && self.allow_view() is None && self.deny_view() is None)
                ==> answer_accepts(r, specifier@),
            (parse_is_relative(specifier@) && base_parses_http(base@)
                && self.allow_view() is None && self.deny_view() is None)
                ==> answer_accepts(r, join_or_base(base@, specifier@)),
    {
        let base_parsed = parse_url(base);
        let spec_parsed = parse_url(specifier);
        let candidate: Option<String> = match (&base_parsed, &spec_parsed) {
            (UrlParsed::Absolute(_), UrlParsed::Absolute(p)) => join_url(base, p.as_str()),
            (UrlParsed::Absolute(b), UrlParsed::Relative) => match join_url(base, specifier) {
                Some(u) => Some(u),
                None => Some(b.clone()),
            },
            (_, UrlParsed::Absolute(p)) => Some(p.clone()),
            (UrlParsed::Absolute(b), UrlParsed::Invalid) => Some(b.clone()),
            _ => {
                return None;
            },
        };
        let candidate = match candidate {
            Some(c) => c,
            None => {
                return Some(Err(ResolutionError::Malformed));
            },
        };
        if let Some(allow) = &self.allowlist {
            if !allow.matches(candidate.as_str()) {
                return Some(Err(ResolutionError::Denied));
            }
        }
        if let Some(deny) = &self.denylist {
            if deny.matches(candidate.as_str()) {
                return Some(Err(ResolutionError::Denied));
            }
        }
        if scheme_is_http(candidate.as_str()) {
            Some(Ok(candidate))
        } else {
            Some(Err(ResolutionError::Malformed))
        }
    }
}

/// Does `s` begin with `http://` or `https://`?
pub fn scheme_is_http(s: &str) -> (r: bool)
    ensures
        r == is_http_url(s@),
{
    proof {
        reveal_strlit("http://");
        reveal_strlit("https://");
        assert("http://"@ =~= http_prefix());
        assert("https://"@ =~= https_prefix());
    }
    str_has_prefix(s, "http://") || str_has_prefix(s, "https://")
}

/// The answer `r` is definitive and accepts the name `v`.
pub open spec fn answer_accepts(r: Option<Result<String, ResolutionError>>, v: Seq<char>) -> bool {
    match r {
        Some(ans) => match ans {
            Ok(name) => name@ == v,
            Err(_) => false,
        },
        None => false,
    }
}

/// The resolution `r` accepts the name `v`.
pub open spec fn resolution_accepts(r: Result<String, ResolutionError>, v: Seq<char>) -> bool {
    match r {
        Ok(name) => name@ == v,
        Err(_) => false,
    }
}

/// The whole resolver chain: the native-module entry, then the HTTP entry.
pub struct ResolverChain {
    /// The native-module entry.
    pub native: NativeResolver,
    /// The HTTP entry.
    pub http: HttpResolver,
}

/// The answer of the whole chain: the first applicable entry decides; a
/// chain with no applicable entry fails with `NotFound`.
pub open spec fn chain_resolution_of(
    native: Seq<Seq<char>>,
    allow: Option<Seq<Seq<char>>>,
    deny: Option<Seq<Seq<char>>>,
    base: Seq<char>,
    specifier: Seq<char>,
) -> Result<Seq<char>, ResolutionError> {
    if native.contains(specifier) {
        Ok(specifier)
    } else if http_applicable(base, specifier) {
        http_resolution_of(allow, deny, base, specifier)
    } else {
        Err(ResolutionError::NotFound)
    }
}

/// Within the chain, entries are tried in a fixed, deterministic order:
/// the native entry claims an exact registry match whatever the HTTP
/// entry would say; the HTTP entry answers only for what the registry
/// does not hold; a pair no entry is applicable to is not found.
pub proof fn lemma_resolver_order(
    native: Seq<Seq<char>>,
    allow: Option<Seq<Seq<char>>>,
    deny: Option<Seq<Seq<char>>>,
    base: Seq<char>,
    specifier: Seq<char>,
)
    ensures
        native.contains(specifier) ==> chain_resolution_of(native, allow, deny, base, specifier)
            == Ok::<Seq<char>, ResolutionError>(specifier),
        !native.contains(specifier) && http_applicable(base, specifier) ==> chain_resolution_of(
            native,
            allow,
            deny,
            base,
            specifier,
        ) == http_resolution_of(allow, deny, base, specifier),
        !native.contains(specifier) && !http_applicable(base, specifier) ==> chain_resolution_of(
            native,
            allow,
            deny,
            base,
            specifier,
        ) == Err::<Seq<char>, ResolutionError>(ResolutionError::NotFound),
{
}

impl ResolverChain {
    /// Build the chain from its two entries.
    pub fn new(native: NativeResolver, http: HttpResolver) -> (r: ResolverChain)
        ensures
            r.native@ == native@,
            r.http.allow_view() == http.allow_view(),
            r.http.deny_view() == http.deny_view(),
    {
        ResolverChain { native, http }
    }

    /// Resolve a specifier against the importing module's name.
    ///
    /// Beyond the chain contract itself, two facts of the standard URL
    /// semantics are stated here directly. First: a specifier that is the
    /// canonical serialization of an absolute `http`/`https` URL resolves
    /// to itself, whatever the base, as long as no routing table and no
    /// native name intercepts it. Second: a relative specifier against a
    /// parsing base resolves to their standard join, falling back to the
    /// base itself when the join fails.
    pub fn resolve(&self, base: &str, specifier: &str) -> (r: Result<String, ResolutionError>)
        ensures
            match r {
                Ok(name) => chain_resolution_of(
                    self.native@,
                    self.http.allow_view(),
                    self.http.deny_view(),
                    base@,
                    specifier@,
                ) == Ok::<Seq<char>, ResolutionError>(name@),
                Err(e) => chain_resolution_of(
                    self.native@,
                    self.http.allow_view(),
                    self.http.deny_view(),
                    base@,
                    specifier@,
                ) == Err::<Seq<char>, ResolutionError>(e),
            },
            // An absolute http(s) specifier resolves to itself, whatever the base.
            (parses_to(specifier@, specifier@) && is_http_url(specifier@)
                && !self.native@.contains(specifier@) && self.http.allow_view() is None
                && self.http.deny_view() is None) ==> resolution_accepts(r, specifier@),
            // A relative specifier against a parsing http(s) base resolves to the
            // standard join, or to the base itself when the join fails.
            (parse_is_relative(specifier@) && base_parses_http(base@)
                && !self.native@.contains(specifier@) && self.http.allow_view() is None
                && self.http.deny_view() is None)
                ==> resolution_accepts(r, join_or_base(base@, specifier@)),
    {
        if self.native.recognizes(specifier) {
            let owned: String = specifier.to_owned();
            return Ok(owned);
        }
        match self.http.try_resolve(base, specifier) {
            Some(answer) => answer,
            None => Err(ResolutionError::NotFound),
        }
    }
}

} // verus!
