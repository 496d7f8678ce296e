//! The authorization filter: the full `Authorization` header value must be a
//! member, byte for byte, of the configured token set.

use vstd::prelude::*;
use crate::bytes::bytes_eq;
use crate::http::FilterOutcome;
use crate::http::HttpRequest;
use crate::http::HttpRequestV;
use crate::http::HttpResponse;
use crate::http::STATUS_UNAUTHORIZED;

verus! {

/// One accepted bearer token, held as its raw octets.
#[derive(Clone, Debug, PartialEq, Eq, Hash)]
pub struct AuthToken(pub Vec<u8>);

impl View for AuthToken {
    type V = Seq<u8>;

    open spec fn view(&self) -> Seq<u8> {
        self.0@
    }
}

impl AuthToken {
    pub fn new(token: Vec<u8>) -> (r: Self)
        ensures
            r@ == token@,
    {
        AuthToken(token)
    }
}

/// Answers `401 Unauthorized` unless the request carries an accepted token.
/// Comparison is case-sensitive on the token octets; no scheme is parsed.
#[derive(Clone, Debug, PartialEq, Eq)]
pub struct AuthTokenFilter {
    pub tokens: Vec<AuthToken>,
}

/// The request carries an `Authorization` value that is a member of
/// `tokens`.
pub open spec fn request_authorized(req: HttpRequestV, tokens: Set<Seq<u8>>) -> bool {
    match req.authorization {
        Some(t) => tokens.contains(t),
        None => false,
    }
}

impl AuthTokenFilter {
    /// The accepted tokens, as a set: membership is exact equality.
    pub open spec fn token_set(&self) -> Set<Seq<u8>> {
        Set::new(
            |t: Seq<u8>|
                exists|i: int| 0 <= i < self.tokens@.len() && self.tokens@[i]@ == t,
        )
    }

    pub fn new(tokens: Vec<AuthToken>) -> (r: Self)
        ensures
            r.tokens@ == tokens@,
    {
        AuthTokenFilter { tokens }
    }

    /// The header value is one of the accepted tokens.
    pub fn accepts(&self, header: &[u8]) -> (r: bool)
        ensures
            r == self.token_set().contains(header@),
    {
        let n: usize = self.tokens.len();
        let mut i: usize = 0;
        while i < n
            invariant
                i <= n,
                self.tokens@.len() == n,
                forall|j: int| 0 <= j < i ==> self.tokens@[j]@ != header@,
            decreases n - i,
        {
            if bytes_eq(self.tokens[i].0.as_slice(), header) {
                assert(self.token_set().contains(header@));
                return true;
            }
            i = i + 1;
        }
        assert(!self.token_set().contains(header@));
        false
    }

    /// Forwards `request` unchanged when its token is accepted, else answers
    /// `401` with an empty body.
    pub fn call(&self, request: HttpRequest) -> (r: FilterOutcome)
        ensures
            match r {
                FilterOutcome::Forward(q) => {
                    &&& q@ == request@
                    &&& request_authorized(request@, self.token_set())
                },
                FilterOutcome::Respond(resp) => {
                    &&& !request_authorized(request@, self.token_set())
                    &&& resp@.status == STATUS_UNAUTHORIZED
                    &&& resp@.body.len() == 0
                    &&& resp.wf()
                },
            },
    {
        let authorized = match &request.authorization {
            Some(header) => self.accepts(header.as_slice()),
            None => false,
        };
        if authorized {
            FilterOutcome::Forward(request)
        } else {
            FilterOutcome::Respond(HttpResponse::empty(STATUS_UNAUTHORIZED))
        }
    }
}

} // verus!
