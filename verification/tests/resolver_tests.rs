use den::resolver::{HttpResolver, NativeResolver, ResolutionError, ResolverChain};
use den::routes::RouteList;

fn plain_chain() -> ResolverChain {
    ResolverChain::new(NativeResolver::new(), HttpResolver::new())
}

fn chain_with_allowlist(prefix: &str) -> ResolverChain {
    let allow = RouteList::new().with_prefix(prefix.to_string());
    ResolverChain::new(NativeResolver::new(), HttpResolver::new().with_allowlist(allow))
}

#[test]
fn absolute_specifier_wins_over_base() {
    let chain = plain_chain();
    let r = chain.resolve("https://host/dir/main.js", "https://example.com/mod.js");
    assert_eq!(r, Ok("https://example.com/mod.js".to_string()));
}

#[test]
fn absolute_specifier_wins_without_base() {
    let chain = plain_chain();
    let r = chain.resolve("not a url at all", "https://example.com/mod.js");
    assert_eq!(r, Ok("https://example.com/mod.js".to_string()));
}

#[test]
fn relative_specifier_joins_on_base() {
    let chain = plain_chain();
    let r = chain.resolve("https://host/dir/main.js", "./sibling.js");
    assert_eq!(r, Ok("https://host/dir/sibling.js".to_string()));
}

#[test]
fn parent_relative_specifier_joins_on_base() {
    let chain = plain_chain();
    let r = chain.resolve("https://host/a/b/main.js", "../up.js");
    assert_eq!(r, Ok("https://host/a/up.js".to_string()));
}

#[test]
fn specifier_is_normalized() {
    let chain = plain_chain();
    let r = chain.resolve("x", "https://EXAMPLE.com/a");
    assert_eq!(r, Ok("https://example.com/a".to_string()));
}

#[test]
fn only_base_parses_uses_base() {
    let chain = plain_chain();
    let r = chain.resolve("https://host/dir/", "http://[broken");
    assert_eq!(r, Ok("https://host/dir/".to_string()));
}

#[test]
fn neither_parses_is_not_found() {
    let chain = plain_chain();
    let r = chain.resolve("./local/base.js", "./sibling.js");
    assert_eq!(r, Err(ResolutionError::NotFound));
}

#[test]
fn non_http_scheme_is_rejected() {
    let chain = plain_chain();
    let r = chain.resolve("https://host/main.js", "ftp://files.example/mod.js");
    assert_eq!(r, Err(ResolutionError::Malformed));
}

#[test]
fn allowlist_denies_other_origins() {
    let chain = chain_with_allowlist("https://trusted.example/");
    let r = chain.resolve("https://trusted.example/main.js", "https://evil.example/x");
    assert_eq!(r, Err(ResolutionError::Denied));
}

#[test]
fn allowlist_admits_matching_prefix() {
    let chain = chain_with_allowlist("https://trusted.example/");
    let r = chain.resolve("https://trusted.example/main.js", "https://trusted.example/x");
    assert_eq!(r, Ok("https://trusted.example/x".to_string()));
}

#[test]
fn denylist_rejects_matching_prefix() {
    let deny = RouteList::new().with_prefix("https://blocked.example/".to_string());
    let chain = ResolverChain::new(NativeResolver::new(), HttpResolver::new().with_denylist(deny));
    let denied = chain.resolve("https://host/", "https://blocked.example/mod.js");
    assert_eq!(denied, Err(ResolutionError::Denied));
    let admitted = chain.resolve("https://host/", "https://fine.example/mod.js");
    assert_eq!(admitted, Ok("https://fine.example/mod.js".to_string()));
}

#[test]
fn native_registry_wins() {
    let native = NativeResolver::new()
        .with_module("den:core".to_string())
        .with_module("den:timer".to_string());
    let chain = ResolverChain::new(native, HttpResolver::new());
    let r = chain.resolve("https://host/main.js", "den:timer");
    assert_eq!(r, Ok("den:timer".to_string()));
}

#[test]
fn route_list_matches_by_prefix() {
    let list = RouteList::new().with_prefix("https://a.example/".to_string());
    assert!(list.matches("https://a.example/deep/path"));
    assert!(!list.matches("https://b.example/"));
    assert!(!list.matches("https://a.example"));
}
