//! The transfer engine's decisions: how the effective body and headers of
//! a transfer are derived (multipart unwrapping included), the receiver's
//! response head, the sender's progress chunks, and the finish-detectable
//! relay that couples the two response bodies.

use vstd::prelude::*;
use vstd::string::StringExecFns;

use crate::msg;
use crate::strutil::{clone_opt, str_eq};

verus! {

/// View of an optional header value.
pub open spec fn opt_view(v: Option<String>) -> Option<Seq<char>> {
    match v {
        Option::None => None,
        Option::Some(s) => Some(s@),
    }
}

/// The essence (`type/subtype`) of the media type a string parses as,
/// `None` when it does not parse as one.
pub uninterp spec fn media_essence_of(s: Seq<char>) -> Option<Seq<char>>;

/// The `boundary` parameter of the media type a string parses as, `None`
/// when the string does not parse or carries no boundary.
pub uninterp spec fn media_boundary_of(s: Seq<char>) -> Option<Seq<char>>;

/// Relies on mime's media-type parser (`str::parse::<mime::Mime>`) and on
/// `Mime::essence_str`: the essence of the parsed media type depends on
/// the string alone; `None` exactly when the string does not parse.
#[verifier::external_body]
fn media_essence(ct: &str) -> (r: Option<String>)
    ensures
        opt_view(r) == media_essence_of(ct@),
{
    match ct.parse::<mime::Mime>() {
        Ok(m) => Some(m.essence_str().to_owned()),
        Err(_) => None,
    }
}

/// Relies on mime's media-type parser and on `Mime::get_param` with
/// `mime::BOUNDARY`: the boundary parameter of the parsed media type
/// depends on the string alone.
#[verifier::external_body]
fn media_boundary(ct: &str) -> (r: Option<String>)
    ensures
        opt_view(r) == media_boundary_of(ct@),
{
    match ct.parse::<mime::Mime>() {
        Ok(m) => m.get_param(mime::BOUNDARY).map(|n| n.as_str().to_owned()),
        Err(_) => None,
    }
}

/// The header metadata forwarded to the receiver: the sender's effective
/// `Content-Type`, `Content-Length` and `Content-Disposition`, each kept
/// only if the effective source carries it.
pub struct TransferHeaders {
    pub content_type: Option<String>,
    pub content_length: Option<String>,
    pub content_disposition: Option<String>,
}

/// Where the transferred bytes come from: the raw request body, or the
/// body of the first part of a `multipart/form-data` stream read with the
/// given boundary.
pub enum TransferSource {
    Raw,
    FirstPart { boundary: String },
}

/// Why a transfer could not be derived from the sender's request.
#[derive(PartialEq, Eq, Structural, Clone, Copy, Debug)]
pub enum TransferError {
    /// The request is `multipart/form-data` but names no boundary.
    BoundaryMissing,
    /// The multipart stream ended before any part was seen.
    NoMultipartPart,
}

impl TransferError {
    /// The error's text, as the I/O layer reports it.
    pub fn text(&self) -> (r: String)
        ensures
            *self is BoundaryMissing ==> r@ == "boundary not found"@,
            *self is NoMultipartPart ==> r@ == "multipart error"@,
    {
        match self {
            TransferError::BoundaryMissing => String::from_str("boundary not found"),
            TransferError::NoMultipartPart => String::from_str("multipart error"),
        }
    }
}

/// The effective headers of a transfer that passes the raw request
/// through: exactly the raw request's selected header values.
pub fn raw_transfer_headers(
    content_type: &Option<String>,
    content_length: &Option<String>,
    content_disposition: &Option<String>,
) -> (r: TransferHeaders)
    ensures
        r.content_type == *content_type,
        r.content_length == *content_length,
        r.content_disposition == *content_disposition,
{
    TransferHeaders {
        content_type: clone_opt(content_type),
        content_length: clone_opt(content_length),
        content_disposition: clone_opt(content_disposition),
    }
}

/// Decide the source of the transfer from the raw `Content-Type` value.
/// A missing, unparseable or non-`multipart/form-data` content type passes
/// the raw body through; `multipart/form-data` re-roots the transfer at
/// the first part and requires a boundary parameter.
pub fn plan_transfer(content_type: &Option<String>) -> (r: Result<TransferSource, TransferError>)
    ensures
        match *content_type {
            None => r matches Ok(TransferSource::Raw),
            Some(ct) => match media_essence_of(ct@) {
                None => r matches Ok(TransferSource::Raw),
                Some(e) => if e == "multipart/form-data"@ {
                    match media_boundary_of(ct@) {
                        Some(b) => r matches Ok(TransferSource::FirstPart { boundary })
                            && boundary@ == b,
                        None => r matches Err(err) && err == TransferError::BoundaryMissing,
                    }
                } else {
                    r matches Ok(TransferSource::Raw)
                },
            },
        },
{
    match content_type {
        None => Ok(TransferSource::Raw),
        Some(ct) => {
            match media_essence(ct.as_str()) {
                None => Ok(TransferSource::Raw),
                Some(e) => {
                    if str_eq(e.as_str(), "multipart/form-data") {
                        match media_boundary(ct.as_str()) {
                            Some(b) => Ok(TransferSource::FirstPart { boundary: b }),
                            None => Err(TransferError::BoundaryMissing),
                        }
                    } else {
                        Ok(TransferSource::Raw)
                    }
                },
            }
        },
    }
}

/// What the multipart unwrapper yields once the stream has been read up
/// to its first part: that part's selected headers, or an error when the
/// stream ended before any part.  The outer request's headers play no
/// role here: the result is the part's headers and nothing else.
pub fn first_part_result(part: Option<TransferHeaders>) -> (r: Result<
    TransferHeaders,
    TransferError,
>)
    ensures
        match part {
            Some(h) => r matches Ok(eff) && eff == h,
            None => r matches Err(err) && err == TransferError::NoMultipartPart,
        },
{
    match part {
        Some(h) => Ok(h),
        None => Err(TransferError::NoMultipartPart),
    }
}

/// View of a header list.
pub open spec fn headers_view(h: Seq<(String, String)>) -> Seq<(Seq<char>, Seq<char>)> {
    h.map(|i: int, p: (String, String)| (p.0@, p.1@))
}

/// The zero- or one-entry header sequence of a conditional header.
pub open spec fn opt_header_seq(name: Seq<char>, v: Option<Seq<char>>) -> Seq<
    (Seq<char>, Seq<char>),
> {
    match v {
        None => Seq::empty(),
        Some(s) => seq![(name, s)],
    }
}

/// One `X-Piping` entry per forwarded value, in their original order.
pub open spec fn piping_header_seq(vals: Seq<Seq<char>>) -> Seq<(Seq<char>, Seq<char>)> {
    vals.map(|i: int, v: Seq<char>| ("X-Piping"@, v))
}

/// The exact header sequence of the receiver's response: the conditional
/// content headers (only if the effective headers carry them), every
/// `X-Piping` value of the sender's raw request in order, the CORS origin
/// header, the expose header when any `X-Piping` was present, and the
/// robots tag.
pub open spec fn receiver_header_view(h: TransferHeaders, xp: Seq<Seq<char>>) -> Seq<
    (Seq<char>, Seq<char>),
> {
    opt_header_seq("Content-Type"@, opt_view(h.content_type)) + opt_header_seq(
        "Content-Length"@,
        opt_view(h.content_length),
    ) + opt_header_seq("Content-Disposition"@, opt_view(h.content_disposition)) + piping_header_seq(
        xp,
    ) + seq![("Access-Control-Allow-Origin"@, "*"@)] + (if xp.len() > 0 {
        seq![("Access-Control-Expose-Headers"@, "X-Piping"@)]
    } else {
        Seq::empty()
    }) + seq![("X-Robots-Tag"@, "none"@)]
}

/// View of the forwarded `X-Piping` values.
pub open spec fn strings_view(v: Seq<String>) -> Seq<Seq<char>> {
    v.map(|i: int, s: String| s@)
}

/// Build the receiver's response head for a transfer: status 200 and the
/// header sequence `receiver_header_view` pins down.
pub fn receiver_response_head(h: &TransferHeaders, x_piping: &Vec<String>) -> (r: (
    u16,
    Vec<(String, String)>,
))
    ensures
        r.0 == 200,
        headers_view(r.1@) == receiver_header_view(*h, strings_view(x_piping@)),
{
    let ghost xpv = strings_view(x_piping@);
    let ghost p1 = opt_header_seq("Content-Type"@, opt_view(h.content_type));
    let ghost p2 = opt_header_seq("Content-Length"@, opt_view(h.content_length));
    let ghost p3 = opt_header_seq("Content-Disposition"@, opt_view(h.content_disposition));
    let mut hs: Vec<(String, String)> = Vec::new();
    match &h.content_type {
        Some(v) => {
            hs.push((String::from_str("Content-Type"), v.clone()));
        },
        None => {},
    }
    proof {
        assert(headers_view(hs@) =~= p1);
    }
    match &h.content_length {
        Some(v) => {
            hs.push((String::from_str("Content-Length"), v.clone()));
        },
        None => {},
    }
    proof {
        assert(headers_view(hs@) =~= p1 + p2);
    }
    match &h.content_disposition {
        Some(v) => {
            hs.push((String::from_str("Content-Disposition"), v.clone()));
        },
        None => {},
    }
    proof {
        assert(headers_view(hs@) =~= p1 + p2 + p3);
    }
    let mut i: usize = 0;
    while i < x_piping.len()
        invariant
            i <= x_piping@.len(),
            xpv == strings_view(x_piping@),
            headers_view(hs@) =~= p1 + p2 + p3 + piping_header_seq(xpv.take(i as int)),
        decreases x_piping@.len() - i,
    {
        let ghost before = hs@;
        let ghost elt = ("X-Piping"@, xpv[i as int]);
        hs.push((String::from_str("X-Piping"), x_piping[i].clone()));
        proof {
            assert(headers_view(hs@) =~= headers_view(before).push(elt));
            assert((p1 + p2 + p3 + piping_header_seq(xpv.take(i as int))).push(elt) =~= p1 + p2 + p3
                + piping_header_seq(xpv.take(i as int)).push(elt));
            assert(piping_header_seq(xpv.take(i as int)).push(elt) =~= piping_header_seq(
                xpv.take(i as int + 1),
            ));
            assert(headers_view(hs@) =~= p1 + p2 + p3 + piping_header_seq(xpv.take(i as int + 1)));
        }
        i = i + 1;
    }
    proof {
        assert(xpv.take(x_piping@.len() as int) =~= xpv);
    }
    hs.push((String::from_str("Access-Control-Allow-Origin"), String::from_str("*")));
    if x_piping.len() > 0 {
        hs.push((String::from_str("Access-Control-Expose-Headers"), String::from_str("X-Piping")));
    }
    hs.push((String::from_str("X-Robots-Tag"), String::from_str("none")));
    proof {
        assert(headers_view(hs@) =~= receiver_header_view(*h, xpv));
    }
    (200, hs)
}

/// The four chunks enqueued on the sender's progress sink for a transfer:
/// the start line, an empty chunk released only when the effective body
/// finishes, the success line, and an empty terminal chunk.
pub fn transfer_progress_chunks() -> (r: Vec<String>)
    ensures
        r@.len() == 4,
        r@[0]@ == msg::start_sending_line(),
        r@[1]@ == Seq::<char>::empty(),
        r@[2]@ == msg::sent_line(),
        r@[3]@ == Seq::<char>::empty(),
{
    let mut v: Vec<String> = Vec::new();
    v.push(msg::start_sending_msg());
    v.push(String::new());
    v.push(msg::sent_msg());
    v.push(String::new());
    v
}

/// The finish-detectable relay at the heart of a transfer.  Every chunk of
/// the sender's effective body passes through unchanged on its way to the
/// receiver's response body, and a one-shot signal fires exactly once, on
/// the terminal event of the stream, clean or not.
pub struct BodyRelay {
    finished: bool,
    forwarded: Ghost<Seq<u8>>,
}

impl BodyRelay {
    /// All bytes forwarded so far, in order.
    pub closed spec fn forwarded_bytes(self) -> Seq<u8> {
        self.forwarded@
    }

    /// Whether the terminal event has been seen.
    pub closed spec fn is_finished(self) -> bool {
        self.finished
    }

    pub fn new() -> (r: BodyRelay)
        ensures
            !r.is_finished(),
            r.forwarded_bytes() == Seq::<u8>::empty(),
    {
        BodyRelay { finished: false, forwarded: Ghost(Seq::empty()) }
    }

    /// Whether the terminal event has been seen, for callers that drive
    /// the relay.
    pub fn finished(&self) -> (r: bool)
        ensures
            r == self.is_finished(),
    {
        self.finished
    }

    /// Forward one chunk: the receiver gets exactly the bytes the sender's
    /// effective body produced.
    pub fn forward_chunk(&mut self, chunk: Vec<u8>) -> (r: Vec<u8>)
        requires
            !old(self).is_finished(),
        ensures
            r@ == chunk@,
            final(self).forwarded_bytes() == old(self).forwarded_bytes() + chunk@,
            !final(self).is_finished(),
    {
        self.forwarded = Ghost(self.forwarded@ + chunk@);
        chunk
    }

    /// The stream's terminal event, by EOF or by error.  Returns whether
    /// the one-shot finish signal fires: true the first time, never again.
    pub fn finish(&mut self) -> (r: bool)
        ensures
            final(self).is_finished(),
            r == !old(self).is_finished(),
            final(self).forwarded_bytes() == old(self).forwarded_bytes(),
    {
        let was_finished: bool = self.finished;
        self.finished = true;
        !was_finished
    }
}

/// Selected sender headers appear on the receiver's response exactly when
/// the effective headers carry them, with identical values; the `X-Piping`
/// entries are exactly the forwarded values.
pub proof fn lemma_selected_header_forwarding(h: TransferHeaders, xp: Seq<Seq<char>>, v: Seq<char>)
    ensures
        receiver_header_view(h, xp).contains(("Content-Type"@, v)) <==> opt_view(h.content_type)
            == Some(v),
        receiver_header_view(h, xp).contains(("Content-Length"@, v)) <==> opt_view(h.content_length)
            == Some(v),
        receiver_header_view(h, xp).contains(("Content-Disposition"@, v)) <==> opt_view(
            h.content_disposition,
        ) == Some(v),
        receiver_header_view(h, xp).contains(("X-Piping"@, v)) <==> xp.contains(v),
{
    broadcast use vstd::seq_lib::lemma_seq_concat_contains_all_elements;

    reveal_strlit("Content-Type");
    reveal_strlit("Content-Length");
    reveal_strlit("Content-Disposition");
    reveal_strlit("X-Piping");
    reveal_strlit("Access-Control-Allow-Origin");
    reveal_strlit("Access-Control-Expose-Headers");
    reveal_strlit("X-Robots-Tag");
    reveal_strlit("*");
    reveal_strlit("none");
    assert("Content-Type"@.len() == 12);
    assert("Content-Length"@.len() == 14);
    assert("Content-Disposition"@.len() == 19);
    assert("X-Piping"@.len() == 8);
    assert("Access-Control-Allow-Origin"@.len() == 27);
    assert("Access-Control-Expose-Headers"@.len() == 29);
    assert("X-Robots-Tag"@.len() == 12);
    assert("Content-Type"@[0] != "X-Robots-Tag"@[0]);
    let p1 = opt_header_seq("Content-Type"@, opt_view(h.content_type));
    let p2 = opt_header_seq("Content-Length"@, opt_view(h.content_length));
    let p3 = opt_header_seq("Content-Disposition"@, opt_view(h.content_disposition));
    let piping = piping_header_seq(xp);
    let acao = seq![("Access-Control-Allow-Origin"@, "*"@)];
    let expose: Seq<(Seq<char>, Seq<char>)> = if xp.len() > 0 {
        seq![("Access-Control-Expose-Headers"@, "X-Piping"@)]
    } else {
        Seq::empty()
    };
    let xrt = seq![("X-Robots-Tag"@, "none"@)];
    assert(receiver_header_view(h, xp) == p1 + p2 + p3 + piping + acao + expose + xrt);
    lemma_opt_header_contains("Content-Type"@, opt_view(h.content_type), v);
    lemma_opt_header_contains("Content-Length"@, opt_view(h.content_length), v);
    lemma_opt_header_contains("Content-Disposition"@, opt_view(h.content_disposition), v);
    assert forall|name: Seq<char>, w: Seq<char>| #[trigger] piping.contains((name, w)) implies name
        == "X-Piping"@ && xp.contains(w) by {
        let i = choose|i: int| 0 <= i < piping.len() && piping[i] == (name, w);
        assert(xp[i] == w);
    }
    assert forall|w: Seq<char>| #[trigger] xp.contains(w) implies piping.contains(
        ("X-Piping"@, w),
    ) by {
        let i = choose|i: int| 0 <= i < xp.len() && xp[i] == w;
        assert(piping[i] == ("X-Piping"@, w));
    }
    assert forall|name: Seq<char>| #[trigger] (acao + expose + xrt).contains((name, v)) implies (
    name == "Access-Control-Allow-Origin"@ || name == "Access-Control-Expose-Headers"@ || name
        == "X-Robots-Tag"@) by {
        if acao.contains((name, v)) {
            assert(acao[0] == (name, v));
        } else if expose.contains((name, v)) {
            assert(expose[0] == (name, v));
        } else {
            assert(xrt[0] == (name, v));
        }
    }
    assert(receiver_header_view(h, xp).contains(("Content-Type"@, v)) <==> (p1.contains(
        ("Content-Type"@, v),
    ) || p2.contains(("Content-Type"@, v)) || p3.contains(("Content-Type"@, v)) || piping.contains(
        ("Content-Type"@, v),
    ) || (acao + expose + xrt).contains(("Content-Type"@, v))));
    assert(receiver_header_view(h, xp).contains(("Content-Length"@, v)) <==> (p1.contains(
        ("Content-Length"@, v),
    ) || p2.contains(("Content-Length"@, v)) || p3.contains(("Content-Length"@, v))
        || piping.contains(("Content-Length"@, v)) || (acao + expose + xrt).contains(
        ("Content-Length"@, v),
    )));
    assert(receiver_header_view(h, xp).contains(("Content-Disposition"@, v)) <==> (p1.contains(
        ("Content-Disposition"@, v),
    ) || p2.contains(("Content-Disposition"@, v)) || p3.contains(("Content-Disposition"@, v))
        || piping.contains(("Content-Disposition"@, v)) || (acao + expose + xrt).contains(
        ("Content-Disposition"@, v),
    )));
    assert(receiver_header_view(h, xp).contains(("X-Piping"@, v)) <==> (p1.contains(
        ("X-Piping"@, v),
    ) || p2.contains(("X-Piping"@, v)) || p3.contains(("X-Piping"@, v)) || piping.contains(
        ("X-Piping"@, v),
    ) || (acao + expose + xrt).contains(("X-Piping"@, v))));
}

proof fn lemma_opt_header_contains(name: Seq<char>, v: Option<Seq<char>>, w: Seq<char>)
    ensures
        forall|n2: Seq<char>| #[trigger]
            opt_header_seq(name, v).contains((n2, w)) <==> (n2 == name && v == Some(w)),
{
    assert forall|n2: Seq<char>| #[trigger]
        opt_header_seq(name, v).contains((n2, w)) implies (n2 == name && v == Some(w)) by {
        let s = opt_header_seq(name, v);
        let i = choose|i: int| 0 <= i < s.len() && s[i] == (n2, w);
        assert(s[0] == (n2, w));
    }
    if v == Some(w) {
        assert(opt_header_seq(name, v)[0] == (name, w));
    }
}

/// For a multipart passthrough the forwarded content headers come from
/// the part, not from the outer request: a raw header value reaches the
/// receiver only if the part itself carries it.
pub proof fn lemma_multipart_forwarding(
    part: TransferHeaders,
    raw: TransferHeaders,
    xp: Seq<Seq<char>>,
    v: Seq<char>,
)
    ensures
        opt_view(raw.content_type) == Some(v) && opt_view(part.content_type) != Some(v)
            ==> !receiver_header_view(part, xp).contains(("Content-Type"@, v)),
        opt_view(raw.content_length) == Some(v) && opt_view(part.content_length) != Some(v)
            ==> !receiver_header_view(part, xp).contains(("Content-Length"@, v)),
        opt_view(raw.content_disposition) == Some(v) && opt_view(part.content_disposition) != Some(
            v,
        ) ==> !receiver_header_view(part, xp).contains(("Content-Disposition"@, v)),
{
    lemma_selected_header_forwarding(part, xp, v);
}

} // verus!
