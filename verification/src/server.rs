//! The relay's request handler: classify a request by method, path and
//! headers, drive the rendezvous registry, and say exactly what response
//! or transfer the surrounding plumbing must produce.

use vstd::prelude::*;
use vstd::string::StringExecFns;

use crate::msg;
use crate::registry::{ReceiverOutcome, Registry, SenderOutcome};
use crate::reserved::{
    help_base_url, help_base_url_spec, is_reserved_path, is_reserved_path_spec,
    lemma_reserved_paths_distinct,
};
use crate::strutil::{clone_opt, str_eq};
use crate::transfer::{headers_view, opt_view};

verus! {

/// A request method, as the relay distinguishes them.
pub enum Method {
    Get,
    Head,
    Post,
    Put,
    Options,
    Other(String),
}

/// The method's name, as it is echoed in error messages.
pub open spec fn method_name_spec(m: Method) -> Seq<char> {
    match m {
        Method::Get => "GET"@,
        Method::Head => "HEAD"@,
        Method::Post => "POST"@,
        Method::Put => "PUT"@,
        Method::Options => "OPTIONS"@,
        Method::Other(s) => s@,
    }
}

/// The method's name as a string.
pub fn method_name(m: &Method) -> (r: String)
    ensures
        r@ == method_name_spec(*m),
{
    match m {
        Method::Get => String::from_str("GET"),
        Method::Head => String::from_str("HEAD"),
        Method::Post => String::from_str("POST"),
        Method::Put => String::from_str("PUT"),
        Method::Options => String::from_str("OPTIONS"),
        Method::Other(s) => s.clone(),
    }
}

/// The plain values the handler reads from a request's head.
pub struct ReqHead {
    pub method: Method,
    /// The request URI's path component, the rendezvous key.
    pub path: String,
    /// The request URI's query string, if any.
    pub query: Option<String>,
    pub host: Option<String>,
    pub x_forwarded_proto: Option<String>,
    pub service_worker: Option<String>,
    pub has_content_range: bool,
    pub content_type: Option<String>,
    pub content_length: Option<String>,
    pub content_disposition: Option<String>,
    /// Every `X-Piping` header value, repeated values kept in order.
    pub x_piping: Vec<String>,
}

/// Whether a `Service-Worker` header value asks for a script registration.
pub open spec fn service_worker_script(sw: Option<String>) -> bool {
    match sw {
        Some(s) => s@ == "script"@,
        None => false,
    }
}

/// What the surrounding plumbing must do with a request.  Rejections are
/// 400 `text/plain` responses with the CORS origin header; the reserved
/// pages take their bodies from the resources provider.
pub enum Action {
    /// 200 `text/html`: the index page.
    ServeIndex,
    /// 200 `text/html`: the no-script form, rendered against the query.
    ServeNoScript { query: Option<String> },
    /// 200 `text/plain`: the version line.
    ServeVersion,
    /// 200 `text/plain`: the help text, rendered against this base URL.
    ServeHelp { base_url: String },
    /// 204, empty.
    ServeFavicon,
    /// 404, empty.
    ServeRobots,
    /// 400 `text/plain` with this body.
    Reject { body: String },
    /// 200 with the CORS preflight headers, empty body.
    Preflight,
    /// 405 with this body and the CORS origin header.
    NotAllowed { body: String },
    /// Park the receiver under the identifier the handler was given.
    ParkReceiver,
    /// A sender was pending: write `notice` on its progress sink, then
    /// run the transfer between it and this receiver.
    MatchedAsReceiver { sender_id: u64, notice: String },
    /// Open the sender's streaming response, write `greeting` on its
    /// progress sink, and park it under the given identifier.
    ParkSender { greeting: String },
    /// A receiver was pending: open the sender's streaming response,
    /// write `greeting`, and run the transfer.
    MatchedAsSender { receiver_id: u64, greeting: String },
}

/// The relay.  It owns the rendezvous registry; everything else about a
/// pending party lives with the plumbing, under the party's identifier.
pub struct PipingServer {
    registry: Registry,
}

impl PipingServer {
    /// The pending senders, path to identifier.
    pub closed spec fn senders_map(self) -> Map<Seq<char>, u64> {
        self.registry.senders_map()
    }

    /// The pending receivers, path to identifier.
    pub closed spec fn receivers_map(self) -> Map<Seq<char>, u64> {
        self.registry.receivers_map()
    }

    /// The registry invariant: one pending party per side per path, and
    /// no path pending on both sides.
    pub closed spec fn wf(self) -> bool {
        self.registry.wf()
    }

    /// For any path, at most one of the two mappings holds an entry.
    pub proof fn lemma_one_side_per_path(self, p: Seq<char>)
        requires
            self.wf(),
        ensures
            !(self.senders_map().contains_key(p) && self.receivers_map().contains_key(p)),
    {
        self.registry.lemma_one_side_per_path(p);
    }

    /// A relay with nobody pending.
    pub fn new() -> (r: PipingServer)
        ensures
            r.wf(),
            r.senders_map() == Map::<Seq<char>, u64>::empty(),
            r.receivers_map() == Map::<Seq<char>, u64>::empty(),
    {
        PipingServer { registry: Registry::new() }
    }

    /// Both mappings are as they were.
    pub open spec fn unchanged_from(self, other: PipingServer) -> bool {
        &&& self.senders_map() == other.senders_map()
        &&& self.receivers_map() == other.receivers_map()
    }

    /// Decide a request.  `party_id` is the identifier under which the
    /// plumbing keeps this exchange's handles; it names the party in the
    /// registry if the request parks.
    pub fn handler(&mut self, uses_https: bool, req: &ReqHead, party_id: u64) -> (r: Action)
        requires
            old(self).wf(),
        ensures
            final(self).wf(),
            ({
                let p = req.path@;
                let reserved_get = (req.method is Get || req.method is Head)
                    && is_reserved_path_spec(p);
                &&& (reserved_get && p == "/"@) ==> r is ServeIndex && final(self).unchanged_from(
                    *old(self),
                )
                &&& (reserved_get && p == "/noscript"@) ==> (r matches Action::ServeNoScript {
                    query,
                } && query == req.query && final(self).unchanged_from(*old(self)))
                &&& (reserved_get && p == "/version"@) ==> r is ServeVersion && final(self).unchanged_from(*old(self))
                &&& (reserved_get && p == "/help"@) ==> (r matches Action::ServeHelp { base_url }
                    && base_url@ == help_base_url_spec(
                    uses_https,
                    opt_view(req.x_forwarded_proto),
                    opt_view(req.host),
                ) && final(self).unchanged_from(*old(self)))
                &&& (reserved_get && p == "/favicon.ico"@) ==> r is ServeFavicon && final(self).unchanged_from(*old(self))
                &&& (reserved_get && p == "/robots.txt"@) ==> r is ServeRobots && final(self).unchanged_from(*old(self))
                &&& (req.method is Get && !is_reserved_path_spec(p) && service_worker_script(
                    req.service_worker,
                )) ==> (r matches Action::Reject { body } && body@ == msg::service_worker_text()
                    && final(self).unchanged_from(*old(self)))
                &&& ((req.method is Get && !service_worker_script(req.service_worker)
                    || req.method is Head) && !is_reserved_path_spec(p)) ==> {
                    if old(self).receivers_map().contains_key(p) {
                        r matches Action::Reject { body } && body@ == msg::another_receiver_text(p)
                            && final(self).unchanged_from(*old(self))
                    } else if old(self).senders_map().contains_key(p) {
                        r matches Action::MatchedAsReceiver { sender_id, notice } && sender_id
                            == old(self).senders_map()[p] && notice@
                            == msg::receiver_connected_line() && final(self).senders_map() == old(self).senders_map().remove(p) && final(self).receivers_map() == old(self).receivers_map() && !final(self).senders_map().contains_key(p)
                    } else {
                        r is ParkReceiver && final(self).receivers_map() == old(self).receivers_map().insert(p, party_id) && final(self).senders_map() == old(self).senders_map()
                    }
                }
                &&& ((req.method is Post || req.method is Put) && is_reserved_path_spec(p)) ==> (
                r matches Action::Reject { body } && body@ == msg::reserved_path_text(p) && final(self).unchanged_from(*old(self)))
                &&& ((req.method is Post || req.method is Put) && !is_reserved_path_spec(p)
                    && req.has_content_range) ==> (r matches Action::Reject { body } && body@
                    == msg::content_range_text(method_name_spec(req.method)) && final(self).unchanged_from(*old(self)))
                &&& ((req.method is Post || req.method is Put) && !is_reserved_path_spec(p)
                    && !req.has_content_range) ==> {
                    if old(self).senders_map().contains_key(p) {
                        r matches Action::Reject { body } && body@ == msg::another_sender_text(p)
                            && final(self).unchanged_from(*old(self))
                    } else if old(self).receivers_map().contains_key(p) {
                        r matches Action::MatchedAsSender { receiver_id, greeting } && receiver_id
                            == old(self).receivers_map()[p] && greeting@
                            == msg::receiver_was_waiting_line() && final(self).receivers_map()
                            == old(self).receivers_map().remove(p) && final(self).senders_map()
                            == old(self).senders_map() && !final(self).receivers_map().contains_key(
                            p,
                        )
                    } else {
                        r matches Action::ParkSender { greeting } && greeting@
                            == msg::waiting_line() && final(self).senders_map() == old(self).senders_map().insert(p, party_id) && final(self).receivers_map() == old(self).receivers_map()
                    }
                }
                &&& req.method is Options ==> r is Preflight && final(self).unchanged_from(
                    *old(self),
                )
                &&& req.method is Other ==> (r matches Action::NotAllowed { body } && body@
                    == msg::unsupported_method_text(method_name_spec(req.method)) && final(self).unchanged_from(*old(self)))
            }),
    {
        proof {
            lemma_reserved_paths_distinct();
        }
        let path: &str = req.path.as_str();
        let is_get_or_head = matches!(req.method, Method::Get | Method::Head);
        if is_get_or_head && is_reserved_path(path) {
            if str_eq(path, "/") {
                return Action::ServeIndex;
            }
            if str_eq(path, "/noscript") {
                return Action::ServeNoScript { query: clone_opt(&req.query) };
            }
            if str_eq(path, "/version") {
                return Action::ServeVersion;
            }
            if str_eq(path, "/help") {
                return Action::ServeHelp {
                    base_url: help_base_url(uses_https, &req.x_forwarded_proto, &req.host),
                };
            }
            if str_eq(path, "/favicon.ico") {
                return Action::ServeFavicon;
            }
            return Action::ServeRobots;
        }
        match req.method {
            Method::Get | Method::Head => {
                if matches!(req.method, Method::Get) {
                    let sw_script = match &req.service_worker {
                        Some(s) => str_eq(s.as_str(), "script"),
                        None => false,
                    };
                    if sw_script {
                        return Action::Reject { body: msg::service_worker_msg() };
                    }
                }
                match self.registry.register_or_match_receiver(path, party_id) {
                    ReceiverOutcome::Rejected => Action::Reject {
                        body: msg::another_receiver_msg(path),
                    },
                    ReceiverOutcome::Matched { sender_id } => Action::MatchedAsReceiver {
                        sender_id,
                        notice: msg::receiver_connected_msg(),
                    },
                    ReceiverOutcome::Parked => Action::ParkReceiver,
                }
            },
            Method::Post | Method::Put => {
                if is_reserved_path(path) {
                    return Action::Reject { body: msg::reserved_path_msg(path) };
                }
                if req.has_content_range {
                    let name = method_name(&req.method);
                    return Action::Reject { body: msg::content_range_msg(name.as_str()) };
                }
                match self.registry.register_or_match_sender(path, party_id) {
                    SenderOutcome::Rejected => Action::Reject {
                        body: msg::another_sender_msg(path),
                    },
                    SenderOutcome::Matched { receiver_id } => Action::MatchedAsSender {
                        receiver_id,
                        greeting: msg::receiver_was_waiting_msg(),
                    },
                    SenderOutcome::Parked => Action::ParkSender { greeting: msg::waiting_msg() },
                }
            },
            Method::Options => Action::Preflight,
            Method::Other(_) => {
                let name = method_name(&req.method);
                Action::NotAllowed { body: msg::unsupported_method_msg(name.as_str()) }
            },
        }
    }
}

/// The header sequence of the sender's own streaming response, whose body
/// carries the progress lines.
pub open spec fn sender_header_view() -> Seq<(Seq<char>, Seq<char>)> {
    seq![("Content-Type"@, "text/plain"@), ("Access-Control-Allow-Origin"@, "*"@)]
}

/// The sender's own response head: it opens with status 200 before any
/// matchmaking, so the sender observes its waiting state.
pub fn sender_response_head() -> (r: (u16, Vec<(String, String)>))
    ensures
        r.0 == 200,
        headers_view(r.1@) == sender_header_view(),
{
    let mut hs: Vec<(String, String)> = Vec::new();
    hs.push((String::from_str("Content-Type"), String::from_str("text/plain")));
    hs.push((String::from_str("Access-Control-Allow-Origin"), String::from_str("*")));
    proof {
        assert(headers_view(hs@) =~= sender_header_view());
    }
    (200, hs)
}

/// The fixed header sequence of the CORS preflight response.
pub open spec fn preflight_header_view() -> Seq<(Seq<char>, Seq<char>)> {
    seq![
        ("Access-Control-Allow-Origin"@, "*"@),
        ("Access-Control-Allow-Methods"@, "GET, HEAD, POST, PUT, OPTIONS"@),
        ("Access-Control-Allow-Headers"@, "Content-Type, Content-Disposition, X-Piping"@),
        ("Access-Control-Max-Age"@, "86400"@),
        ("Content-Length"@, "0"@),
    ]
}

/// The CORS preflight response: status 200, the fixed header set, empty
/// body.
pub fn preflight_head() -> (r: (u16, Vec<(String, String)>))
    ensures
        r.0 == 200,
        headers_view(r.1@) == preflight_header_view(),
{
    let mut hs: Vec<(String, String)> = Vec::new();
    hs.push((String::from_str("Access-Control-Allow-Origin"), String::from_str("*")));
    hs.push(
        (
            String::from_str("Access-Control-Allow-Methods"),
            String::from_str("GET, HEAD, POST, PUT, OPTIONS"),
        ),
    );
    hs.push(
        (
            String::from_str("Access-Control-Allow-Headers"),
            String::from_str("Content-Type, Content-Disposition, X-Piping"),
        ),
    );
    hs.push((String::from_str("Access-Control-Max-Age"), String::from_str("86400")));
    hs.push((String::from_str("Content-Length"), String::from_str("0")));
    proof {
        assert(headers_view(hs@) =~= preflight_header_view());
    }
    (200, hs)
}

} // verus!

