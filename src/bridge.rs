//! The session bridge: what goes out with each forwarded message, and what a
//! response head does to the held session and to the result.

use vstd::prelude::*;
use crate::stream::opt_view;
use crate::text::{contains, occurs_in};

verus! {

/// The headers of a request: name and value.
pub open spec fn header_views(v: Seq<(String, String)>) -> Seq<(Seq<char>, Seq<char>)> {
    v.map_values(|h: (String, String)| (h.0@, h.1@))
}

/// The name of the header that carries the session token, both ways.
pub open spec fn session_header() -> Seq<char> {
    "Mcp-Session-Id"@
}

/// The headers sent with every request while `session` is held.
pub open spec fn request_headers(session: Option<Seq<char>>) -> Seq<(Seq<char>, Seq<char>)> {
    let base = seq![
        ("Content-Type"@, "application/json"@),
        ("Accept"@, "application/json, text/event-stream"@),
    ];
    match session {
        Some(s) => base.push((session_header(), s)),
        None => base,
    }
}

/// One POST to the remote endpoint.
pub struct Request {
    pub url: String,
    pub headers: Vec<(String, String)>,
    pub body: String,
}

/// What the bridge reads of a response before its body.
pub struct ResponseHead {
    pub status: u16,
    /// The session header, where present and valid text.
    pub session_id: Option<String>,
    /// The `Content-Type` header, where present and valid text.
    pub content_type: Option<String>,
}

/// How the body of a successful response is to be read.
#[derive(Clone, Copy, Debug, PartialEq, Eq, Structural)]
pub enum ResponseShape {
    /// Nothing to read and nothing to return.
    Accepted,
    /// An event stream: read it line by line (see `event_stream_result`).
    EventStream,
    /// Any other body: read it whole (see `plain_result`).
    Plain,
}

/// Why a forward failed.
#[derive(Debug)]
pub enum ProxyError {
    /// The HTTP exchange could not be completed; holds the cause.
    Transport(String),
    /// The remote answered 404: the session it knew is gone.
    SessionExpired,
}

/// The human-readable text of an error.
pub open spec fn error_text(e: ProxyError) -> Seq<char> {
    match e {
        ProxyError::Transport(m) => m@,
        ProxyError::SessionExpired => "Session expired"@,
    }
}

impl ProxyError {
    /// The human-readable text of this error.
    pub fn message(&self) -> (r: String)
        ensures
            r@ == error_text(*self),
    {
        match self {
            ProxyError::Transport(m) => m.clone(),
            ProxyError::SessionExpired => String::from_str("Session expired"),
        }
    }
}

/// The content type that marks an event stream.
pub open spec fn event_stream_type() -> Seq<char> {
    "text/event-stream"@
}

/// The content type of a response head; empty where it has none.
pub open spec fn head_content_type(h: ResponseHead) -> Seq<char> {
    match h.content_type {
        Some(c) => c@,
        None => seq![],
    }
}

/// The session held after a response with head `h`, `cur` held before: a
/// 404 clears it, else a session header replaces it.
pub open spec fn next_session(cur: Option<Seq<char>>, h: ResponseHead) -> Option<Seq<char>> {
    if h.status == 404 {
        None
    } else {
        match h.session_id {
            Some(s) => Some(s@),
            None => cur,
        }
    }
}

/// What a response with head `h` comes to.
pub open spec fn shape_of(h: ResponseHead) -> Result<ResponseShape, ProxyError> {
    if h.status == 404 {
        Err(ProxyError::SessionExpired)
    } else if h.status == 202 {
        Ok(ResponseShape::Accepted)
    } else if occurs_in(head_content_type(h), event_stream_type()) {
        Ok(ResponseShape::EventStream)
    } else {
        Ok(ResponseShape::Plain)
    }
}

/// The session held after the responses `hs`, one after the other, `cur`
/// held before them.
pub open spec fn session_after(cur: Option<Seq<char>>, hs: Seq<ResponseHead>) -> Option<Seq<char>>
    decreases hs.len(),
{
    if hs.len() == 0 {
        cur
    } else {
        next_session(session_after(cur, hs.drop_last()), hs.last())
    }
}

/// The state of a bridge: its endpoint and the session it holds.
pub struct ProxyView {
    pub url: Seq<char>,
    pub session: Option<Seq<char>>,
}

/// Forwards messages to one endpoint and keeps the session the remote gave.
pub struct Proxy {
    url: String,
    session_id: Option<String>,
}

impl View for Proxy {
    type V = ProxyView;

    closed spec fn view(&self) -> ProxyView {
        ProxyView { url: self.url@, session: opt_view(self.session_id) }
    }
}

impl Proxy {
    /// A bridge to `url` that holds no session yet.
    pub fn new(url: String) -> (r: Proxy)
        ensures
            r@.url == url@,
            r@.session is None,
    {
        Proxy { url, session_id: None }
    }

    /// The request that forwards `msg`: a POST to the endpoint whose body is
    /// `msg` unchanged, with the session header while a session is held.
    pub fn request(&self, msg: &str) -> (r: Request)
        ensures
            r.url@ == self@.url,
            r.body@ == msg@,
            header_views(r.headers@) == request_headers(self@.session),
    {
        let mut headers: Vec<(String, String)> = Vec::new();
        headers.push((String::from_str("Content-Type"), String::from_str("application/json")));
        headers.push(
            (String::from_str("Accept"), String::from_str("application/json, text/event-stream")),
        );
        match &self.session_id {
            Some(s) => {
                headers.push((String::from_str("Mcp-Session-Id"), s.clone()));
            },
            None => {},
        }
        let r = Request { url: self.url.clone(), headers, body: String::from_str(msg) };
        assert(header_views(r.headers@) =~= request_headers(self@.session));
        r
    }

    /// Takes in the head of a response: adopts its session header, clears
    /// the session on 404, and says how the body is to be read.
    pub fn receive(&mut self, head: &ResponseHead) -> (r: Result<ResponseShape, ProxyError>)
        ensures
            final(self)@.url == old(self)@.url,
            final(self)@.session == next_session(old(self)@.session, *head),
            r == shape_of(*head),
    {
        match &head.session_id {
            Some(s) => {
                self.session_id = Some(s.clone());
            },
            None => {},
        }
        if head.status == 404 {
            self.session_id = None;
            return Err(ProxyError::SessionExpired);
        }
        if head.status == 202 {
            return Ok(ResponseShape::Accepted);
        }
        let is_stream = match &head.content_type {
            Some(c) => contains(c.as_str(), "text/event-stream"),
            None => false,
        };
        proof {
            if head.content_type is None {
                reveal_strlit("text/event-stream");
                assert(!occurs_in(seq![], event_stream_type()));
            }
        }
        if is_stream {
            Ok(ResponseShape::EventStream)
        } else {
            Ok(ResponseShape::Plain)
        }
    }
}

/// Once a response brings the session token `s`, every later request carries
/// `s` in the session header, as long as no later response is a 404 or brings
/// a different token.
pub proof fn lemma_session_sticky(
    cur: Option<Seq<char>>,
    first: ResponseHead,
    later: Seq<ResponseHead>,
    j: int,
)
    requires
        first.status != 404,
        first.session_id is Some,
        0 <= j <= later.len(),
        forall|k: int|
            0 <= k < later.len() ==> (#[trigger] later[k]).status != 404 && (
            later[k].session_id is None || later[k].session_id->0@ == first.session_id->0@),
    ensures
        session_after(next_session(cur, first), later.take(j)) == Some(first.session_id->0@),
        request_headers(session_after(next_session(cur, first), later.take(j))).contains(
            (session_header(), first.session_id->0@),
        ),
    decreases j,
{
    let s = first.session_id->0@;
    if j > 0 {
        lemma_session_sticky(cur, first, later, j - 1);
        assert(later.take(j).drop_last() =~= later.take(j - 1));
        assert(later.take(j).last() == later[j - 1]);
    } else {
        assert(later.take(0).len() == 0);
    }
    assert(request_headers(Some(s))[2] == (session_header(), s));
}

/// A 202 response gives nothing back, whatever its content type or body.
pub proof fn lemma_accepted_is_empty(h: ResponseHead)
    requires
        h.status == 202,
    ensures
        shape_of(h) == Ok::<ResponseShape, ProxyError>(ResponseShape::Accepted),
{
}

/// A 404 fails the forward, clears the session, and the next request carries
/// no session header.
pub proof fn lemma_expired_clears(cur: Option<Seq<char>>, h: ResponseHead)
    requires
        h.status == 404,
    ensures
        shape_of(h) == Err::<ResponseShape, ProxyError>(ProxyError::SessionExpired),
        next_session(cur, h) is None,
        forall|k: int|
            0 <= k < request_headers(next_session(cur, h)).len() ==> (#[trigger] request_headers(
                next_session(cur, h),
            )[k]).0 != session_header(),
{
    reveal_strlit("Content-Type");
    reveal_strlit("Accept");
    reveal_strlit("Mcp-Session-Id");
    let hs = request_headers(None);
    assert(hs[0].0.len() != session_header().len());
    assert(hs[1].0.len() != session_header().len());
}

} // verus!
