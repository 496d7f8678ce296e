//! The forwarding service: resolve the Prepare's destination against the
//! routing table, and either fail with `F02` or hand the client a request
//! template for the chosen next hop. The routing table can be replaced
//! whole at runtime; a forward already decided keeps its route.

use vstd::prelude::*;
use vstd::slice::slice_to_vec;
use crate::client::minted_reject;
use crate::client::spec_min;
use crate::client::Client;
use crate::client::ClientStep;
use crate::client::RequestTemplate;
use crate::msgs::make_msg_no_route_found;
use crate::msgs::msg_no_route_found;
use crate::packet::code_f02;
use crate::packet::code_r02;
use crate::packet::enc_prepare;
use crate::packet::ErrorCode;
use crate::packet::Prepare;
use crate::routes::first_match;
use crate::routes::RoutingTable;

verus! {

/// Where a routed packet goes: an absolute HTTP(S) endpoint, and an
/// `Authorization` value to send verbatim, if one is configured.
#[derive(Clone, Debug, PartialEq, Eq)]
pub struct NextHop {
    pub endpoint: Vec<u8>,
    pub auth: Option<Vec<u8>>,
}

impl NextHop {
    pub fn new(endpoint: Vec<u8>, auth: Option<Vec<u8>>) -> (r: Self)
        ensures
            r.endpoint@ == endpoint@,
            crate::client::opt_bytes(r.auth) == crate::client::opt_bytes(auth),
    {
        NextHop { endpoint, auth }
    }
}

/// A routing entry whose hop is a `NextHop`.
pub type Route = crate::routes::Route<NextHop>;

/// The forwarding service: a client and a replaceable routing table.
#[derive(Clone, Debug, PartialEq, Eq)]
pub struct Relay {
    pub client: Client,
    pub routes: RoutingTable<NextHop>,
}

impl Relay {
    /// The relay's own ILP address: the client's.
    pub open spec fn address(&self) -> Seq<u8> {
        self.client.address@
    }

    pub fn new(client: Client, routes: Vec<Route>) -> (r: Self)
        ensures
            r.client == client,
            r.routes.routes() == routes@,
    {
        Relay { client, routes: RoutingTable::new(routes) }
    }

    /// Replaces the whole routing table; the client is untouched.
    pub fn set_routes(&mut self, new_routes: Vec<Route>)
        ensures
            final(self).routes.routes() == new_routes@,
            final(self).client == old(self).client,
    {
        self.routes = RoutingTable::new(new_routes);
    }

    /// Decides a Prepare at time `now`: with no matching route it fails with
    /// `F02`, with one already expired `R02`, and otherwise the encoded
    /// Prepare goes to the first matching route's hop, with that hop's
    /// `Authorization` value and the client's bounded deadline.
    pub fn forward(&self, prepare: &Prepare, now: u64) -> (r: ClientStep)
        ensures
            ({
                let m = first_match(self.routes.routes(), prepare@.destination);
                match r {
                    ClientStep::Reject(j) => {
                        if m is None {
                            j@ == minted_reject(self.address(), code_f02(), msg_no_route_found())
                        } else {
                            &&& prepare@.expires_at <= now
                            &&& j@ == minted_reject(
                                self.address(),
                                code_r02(),
                                crate::msgs::msg_insufficient_timeout(),
                            )
                        }
                    },
                    ClientStep::Send(out) => {
                        &&& m is Some
                        &&& prepare@.expires_at > now
                        &&& out.method@ == crate::msgs::method_post()
                        &&& out.endpoint@ == self.routes.routes()[m->Some_0].hop().endpoint@
                        &&& crate::client::opt_bytes(out.auth) == crate::client::opt_bytes(
                            self.routes.routes()[m->Some_0].hop().auth,
                        )
                        &&& out.octet_stream
                        &&& out.body@ == enc_prepare(prepare@)
                        &&& out.deadline == spec_min(
                            self.client.max_timeout,
                            (prepare@.expires_at - now) as u64,
                        )
                    },
                }
            }),
    {
        match self.routes.resolve(prepare.destination.as_slice()) {
            None => ClientStep::Reject(
                self.client.make_reject(ErrorCode::f02_unreachable(), make_msg_no_route_found()),
            ),
            Some(route) => {
                let hop = route.next_hop();
                let template = RequestTemplate {
                    endpoint: slice_to_vec(hop.endpoint.as_slice()),
                    auth: match &hop.auth {
                        Some(a) => Some(slice_to_vec(a.as_slice())),
                        None => None,
                    },
                };
                self.client.request(template, prepare, now)
            },
        }
    }
}

} // verus!
