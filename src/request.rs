//! Options of a request built up by the host before it is sent.

use vstd::prelude::*;

verus! {

/// async_nats::Request, the client's request builder, carried as an opaque value.
#[verifier::external_type_specification]
#[verifier::external_body]
pub struct ExRequest(async_nats::Request);

/// The request that async_nats::Request::new makes: nothing set.
pub uninterp spec fn empty_request(u: ()) -> async_nats::Request;

/// `r` with its reply subject set to `inbox`.
pub uninterp spec fn request_inbox_set(r: async_nats::Request, inbox: Seq<char>) -> async_nats::Request;

/// `r` with its timeout set to `millis` milliseconds.
pub uninterp spec fn request_timeout_set(r: async_nats::Request, millis: u64) -> async_nats::Request;

/// `r` with its payload set to `payload`.
pub uninterp spec fn request_payload_set(r: async_nats::Request, payload: Seq<u8>) -> async_nats::Request;

/// Relies on async_nats::Request::new, which returns the default request.
pub assume_specification[ async_nats::Request::new ]() -> (r: async_nats::Request)
    ensures
        r == empty_request(()),
;

/// Relies on async_nats::Request::inbox, which sets the reply subject and
/// nothing else.
pub assume_specification[ async_nats::Request::inbox ](
    r: async_nats::Request,
    inbox: String,
) -> (out: async_nats::Request)
    ensures
        out == request_inbox_set(r, inbox@),
;

/// Relies on async_nats::Request::timeout, given the timeout in
/// milliseconds; it sets the timeout and nothing else.
#[verifier::external_body]
fn request_with_timeout(r: async_nats::Request, millis: u64) -> (out: async_nats::Request)
    ensures
        out == request_timeout_set(r, millis),
{
    r.timeout(Some(std::time::Duration::from_millis(millis)))
}

/// Relies on async_nats::Request::payload, given the payload as bytes; it
/// sets the payload and nothing else.
#[verifier::external_body]
fn request_with_payload(r: async_nats::Request, payload: Vec<u8>) -> (out: async_nats::Request)
    ensures
        out == request_payload_set(r, payload@),
{
    r.payload(bytes::Bytes::from(payload))
}

/// The client request made of a set of options: the empty request, with
/// the reply subject, the timeout and the payload set in that order where
/// they were given.
pub open spec fn built_request(v: RequestView) -> async_nats::Request {
    let r0 = empty_request(());
    let r1 = match v.inbox {
        Some(i) => request_inbox_set(r0, i),
        None => r0,
    };
    let r2 = match v.timeout_ms {
        Some(t) => request_timeout_set(r1, t),
        None => r1,
    };
    match v.payload {
        Some(p) => request_payload_set(r2, p),
        None => r2,
    }
}

/// What the host set on a request so far. Building the request takes each
/// option out, so one set of options serves one request.
pub struct AsyncNatsRequest {
    inbox: Option<String>,
    timeout_ms: Option<u64>,
    payload: Option<Vec<u8>>,
}

pub struct RequestView {
    pub inbox: Option<Seq<char>>,
    pub timeout_ms: Option<u64>,
    pub payload: Option<Seq<u8>>,
}

impl View for AsyncNatsRequest {
    type V = RequestView;

    closed spec fn view(&self) -> RequestView {
        RequestView {
            inbox: match self.inbox {
                Some(s) => Some(s@),
                None => None,
            },
            timeout_ms: self.timeout_ms,
            payload: match self.payload {
                Some(p) => Some(p@),
                None => None,
            },
        }
    }
}

impl AsyncNatsRequest {
    /// Options with nothing set.
    pub fn new() -> (r: AsyncNatsRequest)
        ensures
            r@ == (RequestView { inbox: None, timeout_ms: None, payload: None }),
    {
        AsyncNatsRequest { inbox: None, timeout_ms: None, payload: None }
    }

    /// Sets the subject the reply is to come to.
    pub fn set_inbox(&mut self, inbox: String)
        ensures
            final(self)@ == (RequestView { inbox: Some(inbox@), ..old(self)@ }),
    {
        self.inbox = Some(inbox);
    }

    /// Sets how long to wait for the reply, in milliseconds.
    pub fn set_timeout(&mut self, millis: u64)
        ensures
            final(self)@ == (RequestView { timeout_ms: Some(millis), ..old(self)@ }),
    {
        self.timeout_ms = Some(millis);
    }

    /// Sets the payload; the bytes are copied in.
    pub fn set_payload(&mut self, payload: Vec<u8>)
        ensures
            final(self)@ == (RequestView { payload: Some(payload@), ..old(self)@ }),
    {
        self.payload = Some(payload);
    }

    /// The request for the client, with each option that was set; the
    /// options are taken out.
    pub fn build(&mut self) -> (r: async_nats::Request)
        ensures
            r == built_request(old(self)@),
            final(self)@ == (RequestView { inbox: None, timeout_ms: None, payload: None }),
    {
        let mut req = async_nats::Request::new();
        if let Some(inbox) = self.inbox.take() {
            req = req.inbox(inbox);
        }
        if let Some(millis) = self.timeout_ms.take() {
            req = request_with_timeout(req, millis);
        }
        if let Some(payload) = self.payload.take() {
            req = request_with_payload(req, payload);
        }
        req
    }
}

} // verus!
