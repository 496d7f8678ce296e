//! The outermost filter: any request whose method is not the configured one
//! is answered with `405 Method Not Allowed` and never goes further.

use vstd::prelude::*;
use crate::bytes::bytes_eq;
use crate::http::FilterOutcome;
use crate::http::HttpRequest;
use crate::http::HttpResponse;
use crate::http::STATUS_METHOD_NOT_ALLOWED;

verus! {

/// Passes through requests of one HTTP method and rejects every other.
#[derive(Clone, Debug, PartialEq, Eq)]
pub struct MethodFilter {
    pub method: Vec<u8>,
}

impl MethodFilter {
    pub fn new(method: Vec<u8>) -> (r: Self)
        ensures
            r.method@ == method@,
    {
        MethodFilter { method }
    }

    /// Forwards `request` unchanged when its method matches, else answers
    /// `405` with an empty body.
    pub fn call(&self, request: HttpRequest) -> (r: FilterOutcome)
        ensures
            match r {
                FilterOutcome::Forward(q) => {
                    &&& q@ == request@
                    &&& request@.method == self.method@
                },
                FilterOutcome::Respond(resp) => {
                    &&& request@.method != self.method@
                    &&& resp@.status == STATUS_METHOD_NOT_ALLOWED
                    &&& resp@.body.len() == 0
                    &&& resp.wf()
                },
            },
    {
        if bytes_eq(request.method.as_slice(), self.method.as_slice()) {
            FilterOutcome::Forward(request)
        } else {
            FilterOutcome::Respond(HttpResponse::empty(STATUS_METHOD_NOT_ALLOWED))
        }
    }
}

} // verus!
