//! The reserved informational paths and their response metadata, and the
//! base URL against which the help text is rendered.

use vstd::prelude::*;
use vstd::string::StringExecFns;

use crate::strutil::{contains_substring, has_substring, str_eq};
use crate::transfer::opt_view;

verus! {

/// The reserved paths, served directly without rendezvous.
pub open spec fn is_reserved_path_spec(p: Seq<char>) -> bool {
    ||| p == "/"@
    ||| p == "/noscript"@
    ||| p == "/version"@
    ||| p == "/help"@
    ||| p == "/favicon.ico"@
    ||| p == "/robots.txt"@
}

/// The reserved paths are pairwise distinct.
pub proof fn lemma_reserved_paths_distinct()
    ensures
        "/"@.len() == 1,
        "/noscript"@.len() == 9,
        "/version"@.len() == 8,
        "/help"@.len() == 5,
        "/favicon.ico"@.len() == 12,
        "/robots.txt"@.len() == 11,
{
    reveal_strlit("/");
    reveal_strlit("/noscript");
    reveal_strlit("/version");
    reveal_strlit("/help");
    reveal_strlit("/favicon.ico");
    reveal_strlit("/robots.txt");
}

/// Whether `p` is one of the reserved paths.
pub fn is_reserved_path(p: &str) -> (r: bool)
    ensures
        r == is_reserved_path_spec(p@),
{
    str_eq(p, "/") || str_eq(p, "/noscript") || str_eq(p, "/version") || str_eq(p, "/help")
        || str_eq(p, "/favicon.ico") || str_eq(p, "/robots.txt")
}

/// The string form of the URL a string parses as, `None` when it does not
/// parse as an absolute URL.
pub uninterp spec fn parsed_url_of(s: Seq<char>) -> Option<Seq<char>>;

/// Relies on url's parser (`url::Url::parse`) and its `String` conversion:
/// the outcome depends on the string alone.
#[verifier::external_body]
fn parse_url(s: &str) -> (r: Option<String>)
    ensures
        opt_view(r) == parsed_url_of(s@),
{
    match url::Url::parse(s) {
        Ok(u) => Some(String::from(u)),
        Err(_) => None,
    }
}

/// The scheme of the help base URL: `https` when the server itself uses
/// TLS or when the `X-Forwarded-Proto` header value mentions it.
pub open spec fn help_scheme_spec(uses_https: bool, xfp: Option<Seq<char>>) -> Seq<char> {
    if uses_https || (xfp matches Some(x) && has_substring(x, "https"@)) {
        "https"@
    } else {
        "http"@
    }
}

/// The URL string composed from the chosen scheme and the `Host` header,
/// the literal `hostname` standing in for an absent host.
pub open spec fn composed_base_spec(
    uses_https: bool,
    xfp: Option<Seq<char>>,
    host: Option<Seq<char>>,
) -> Seq<char> {
    help_scheme_spec(uses_https, xfp) + "://"@ + (match host {
        Some(h) => h,
        None => "hostname"@,
    })
}

/// The base URL for the help text: the composed URL as the parser
/// normalizes it, or the fixed fallback when it does not parse.
pub open spec fn help_base_url_spec(
    uses_https: bool,
    xfp: Option<Seq<char>>,
    host: Option<Seq<char>>,
) -> Seq<char> {
    match parsed_url_of(composed_base_spec(uses_https, xfp, host)) {
        Some(u) => u,
        None => "http://hostname/"@,
    }
}

/// Compose and normalize the base URL for the help text.
pub fn help_base_url(uses_https: bool, xfp: &Option<String>, host: &Option<String>) -> (r: String)
    ensures
        r@ == help_base_url_spec(uses_https, opt_view(*xfp), opt_view(*host)),
{
    let scheme: &str = if uses_https {
        "https"
    } else {
        match xfp {
            Some(x) => if contains_substring(x.as_str(), "https") {
                "https"
            } else {
                "http"
            },
            None => "http",
        }
    };
    let host_str: &str = match host {
        Some(h) => h.as_str(),
        None => "hostname",
    };
    let composed: String = String::from_str(scheme).concat("://").concat(host_str);
    assert(composed@ == composed_base_spec(uses_https, opt_view(*xfp), opt_view(*host)));
    match parse_url(composed.as_str()) {
        Some(u) => u,
        None => String::from_str("http://hostname/"),
    }
}

/// Response metadata of a reserved path: the status, the `Content-Type`
/// if one is sent, and whether the CORS origin header is attached.  The
/// bodies themselves come from the resources provider.
pub struct ReservedMeta {
    pub status: u16,
    pub content_type: Option<String>,
    pub allow_origin: bool,
}

/// The table of the reserved paths: `/` and `/noscript` are HTML pages,
/// `/version` and `/help` plain text, `/favicon.ico` an empty 204 and
/// `/robots.txt` an empty 404; a non-reserved path has no metadata.
pub fn reserved_meta(p: &str) -> (r: Option<ReservedMeta>)
    ensures
        p@ == "/"@ ==> (r matches Some(m) && m.status == 200 && opt_view(m.content_type) == Some(
            "text/html"@,
        ) && m.allow_origin),
        p@ == "/noscript"@ ==> (r matches Some(m) && m.status == 200 && opt_view(m.content_type)
            == Some("text/html"@) && m.allow_origin),
        p@ == "/version"@ ==> (r matches Some(m) && m.status == 200 && opt_view(m.content_type)
            == Some("text/plain"@) && m.allow_origin),
        p@ == "/help"@ ==> (r matches Some(m) && m.status == 200 && opt_view(m.content_type)
            == Some("text/plain"@) && m.allow_origin),
        p@ == "/favicon.ico"@ ==> (r matches Some(m) && m.status == 204 && m.content_type is None
            && !m.allow_origin),
        p@ == "/robots.txt"@ ==> (r matches Some(m) && m.status == 404 && m.content_type is None
            && !m.allow_origin),
        !is_reserved_path_spec(p@) ==> r is None,
{
    proof {
        lemma_reserved_paths_distinct();
    }
    if str_eq(p, "/") || str_eq(p, "/noscript") {
        Some(
            ReservedMeta {
                status: 200,
                content_type: Some(String::from_str("text/html")),
                allow_origin: true,
            },
        )
    } else if str_eq(p, "/version") || str_eq(p, "/help") {
        Some(
            ReservedMeta {
                status: 200,
                content_type: Some(String::from_str("text/plain")),
                allow_origin: true,
            },
        )
    } else if str_eq(p, "/favicon.ico") {
        Some(ReservedMeta { status: 204, content_type: None, allow_origin: false })
    } else if str_eq(p, "/robots.txt") {
        Some(ReservedMeta { status: 404, content_type: None, allow_origin: false })
    } else {
        None
    }
}

} // verus!
