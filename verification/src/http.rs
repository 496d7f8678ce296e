//! Plain-value images of the HTTP messages the relay receives and sends.
//! The transport that reads and writes real HTTP hands these values over
//! and takes them back; nothing here performs I/O.

use vstd::prelude::*;

verus! {

/// `200 OK`.
pub const STATUS_OK: u16 = 200;

/// `400 Bad Request`.
pub const STATUS_BAD_REQUEST: u16 = 400;

/// `401 Unauthorized`.
pub const STATUS_UNAUTHORIZED: u16 = 401;

/// `405 Method Not Allowed`.
pub const STATUS_METHOD_NOT_ALLOWED: u16 = 405;

/// An incoming request, reduced to what the relay inspects: the method, the
/// full `Authorization` header value if one was sent, and the whole body.
#[derive(Clone, Debug, PartialEq, Eq)]
pub struct HttpRequest {
    pub method: Vec<u8>,
    pub authorization: Option<Vec<u8>>,
    pub body: Vec<u8>,
}

/// The mathematical image of an `HttpRequest`.
pub ghost struct HttpRequestV {
    pub method: Seq<u8>,
    pub authorization: Option<Seq<u8>>,
    pub body: Seq<u8>,
}

impl View for HttpRequest {
    type V = HttpRequestV;

    open spec fn view(&self) -> HttpRequestV {
        HttpRequestV {
            method: self.method@,
            authorization: match self.authorization {
                Some(ref a) => Some(a@),
                None => None,
            },
            body: self.body@,
        }
    }
}

/// An outgoing response: status, whether the body is declared as
/// `application/octet-stream`, the declared content length, and the body.
#[derive(Clone, Debug, PartialEq, Eq)]
pub struct HttpResponse {
    pub status: u16,
    pub octet_stream: bool,
    pub content_length: usize,
    pub body: Vec<u8>,
}

/// The mathematical image of an `HttpResponse`.
pub ghost struct HttpResponseV {
    pub status: u16,
    pub octet_stream: bool,
    pub content_length: nat,
    pub body: Seq<u8>,
}

impl View for HttpResponse {
    type V = HttpResponseV;

    open spec fn view(&self) -> HttpResponseV {
        HttpResponseV {
            status: self.status,
            octet_stream: self.octet_stream,
            content_length: self.content_length as nat,
            body: self.body@,
        }
    }
}

impl HttpResponse {
    /// The declared length always matches the body.
    pub open spec fn wf(&self) -> bool {
        self.content_length == self.body@.len()
    }

    /// A response with the given status and no body.
    pub fn empty(status: u16) -> (r: HttpResponse)
        ensures
            r@.status == status,
            r@.body.len() == 0,
            !r@.octet_stream,
            r.wf(),
    {
        HttpResponse { status, octet_stream: false, content_length: 0, body: Vec::new() }
    }
}

/// What a filter does with a request: hand it on unchanged, or answer it
/// itself.
#[derive(Clone, Debug, PartialEq, Eq)]
pub enum FilterOutcome {
    Forward(HttpRequest),
    Respond(HttpResponse),
}

} // verus!
