//! A concrete unit of work: a responder that answers every request with a
//! fixed greeting. Requests and responses are modelled as plain values — a
//! status code and a body of bytes — so the whole exchange is verified;
//! rendering them in a wire-level representation is a caller's concern.

use vstd::prelude::*;
use crate::computation::Handle;
use crate::readiness::Readiness;
use crate::unit::UnitOfWork;

verus! {

/// A request carrying a body of bytes.
pub struct HttpRequest {
    pub body: Vec<u8>,
}

/// A response: a status code and a body of bytes.
pub struct HttpResponse {
    pub status: u16,
    pub body: Vec<u8>,
}

/// An error while forming a response. The greeting responder never
/// produces one: its response is built from constants that satisfy the
/// status invariant.
#[derive(Debug)]
pub struct HttpError;

impl HttpResponse {
    /// Status codes lie in the three-digit range the wire format allows.
    pub open spec fn wf(&self) -> bool {
        100 <= self.status < 1000
    }

    /// A well-formed success response with the given body.
    pub fn ok(body: Vec<u8>) -> (r: Self)
        ensures
            r.status == 200,
            r.body == body,
            r.wf(),
    {
        HttpResponse { status: 200, body }
    }
}

/// The greeting body, byte by byte.
pub open spec fn greeting() -> Seq<u8> {
    seq![
        104u8, 101u8, 108u8, 108u8, 111u8, 44u8, 32u8, 119u8, 111u8, 114u8, 108u8, 100u8,
        33u8, 10u8,
    ]
}

/// Build the greeting body as a vector.
fn greeting_bytes() -> (v: Vec<u8>)
    ensures
        v@ == greeting(),
{
    let mut v: Vec<u8> = Vec::new();
    v.push(104u8);
    v.push(101u8);
    v.push(108u8);
    v.push(108u8);
    v.push(111u8);
    v.push(44u8);
    v.push(32u8);
    v.push(119u8);
    v.push(111u8);
    v.push(114u8);
    v.push(108u8);
    v.push(100u8);
    v.push(33u8);
    v.push(10u8);
    proof {
        assert(v@ =~= greeting());
    }
    v
}

/// The greeting responder: always ready, never breaks, and answers every
/// request with status 200 and the greeting body.
pub struct HelloWorld;

impl UnitOfWork<HttpRequest, HttpResponse, HttpError> for HelloWorld {
    open spec fn inv(&self) -> bool {
        true
    }

    open spec fn failure(&self) -> Option<HttpError> {
        None
    }

    open spec fn can_admit(&self) -> bool {
        true
    }

    open spec fn armed(&self) -> bool {
        true
    }

    /// A probe changes nothing and reports `Ready`.
    open spec fn probe_step(pre: Self, r: Readiness<HttpError>, post: Self) -> bool {
        post == pre && r is Ready
    }

    /// A call resolves at once to the greeting response: status 200 and
    /// the greeting body, whatever the request was.
    open spec fn call_step(
        pre: Self, req: HttpRequest, post: Self, c: Handle<HttpResponse, HttpError>,
    ) -> bool {
        post == pre && c.steps() == 0
            && (c.outcome() matches Ok(resp) && resp.status == 200 && resp.body@ == greeting())
    }

    fn check_ready(&mut self) -> (r: Readiness<HttpError>) {
        Readiness::Ready
    }

    fn call(&mut self, req: HttpRequest) -> (c: Handle<HttpResponse, HttpError>) {
        let resp = HttpResponse::ok(greeting_bytes());
        Handle::immediate(Ok(resp))
    }
}

} // verus!
