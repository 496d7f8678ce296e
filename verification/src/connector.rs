//! The assembled relay: method filter, then token filter, then the
//! packet boundary, then the router and client. One function decides what an
//! incoming request leads to; a second turns the transport's report on the
//! outgoing request into the final answer.

use vstd::prelude::*;
use crate::auth::request_authorized;
use crate::auth::AuthToken;
use crate::auth::AuthTokenFilter;
use crate::client::minted_reject;
use crate::client::spec_min;
use crate::client::spec_outcome;
use crate::client::packet_of;
use crate::client::ClientStep;
use crate::client::OutboundEvent;
use crate::client::OutboundRequest;
use crate::http::FilterOutcome;
use crate::http::HttpRequest;
use crate::http::HttpResponse;
use crate::http::STATUS_BAD_REQUEST;
use crate::http::STATUS_METHOD_NOT_ALLOWED;
use crate::http::STATUS_OK;
use crate::http::STATUS_UNAUTHORIZED;
use crate::method::MethodFilter;
use crate::msgs::make_method_post;
use crate::msgs::method_post;
use crate::msgs::msg_error_parsing_prepare;
use crate::msgs::msg_insufficient_timeout;
use crate::msgs::msg_no_route_found;
use crate::packet::code_f02;
use crate::packet::code_r02;
use crate::packet::enc_packet;
use crate::packet::enc_prepare;
use crate::packet::enc_reject;
use crate::packet::lemma_decode_encode_fulfill;
use crate::packet::lemma_decode_encode_reject;
use crate::packet::spec_decode;
use crate::packet::PacketV;
use crate::packet::PrepareV;
use crate::receiver::make_http_response;
use crate::receiver::receive;
use crate::receiver::ReceiverStep;
use crate::relay::Relay;
use crate::relay::Route;
use crate::routes::first_match;
use crate::client::Client;
use crate::client::ClientBuilder;

verus! {

/// Everything the relay needs at startup: its own ILP address, the accepted
/// inbound tokens, and the initial routes.
#[derive(Clone, Debug, PartialEq, Eq)]
pub struct ConnectorBuilder {
    pub ilp_addr: Vec<u8>,
    pub auth_tokens: Vec<AuthToken>,
    pub routes: Vec<Route>,
}

/// The assembled request pipeline.
#[derive(Clone, Debug, PartialEq, Eq)]
pub struct Connector {
    pub method_filter: MethodFilter,
    pub auth_filter: AuthTokenFilter,
    pub relay: Relay,
}

/// What one incoming request leads to: an immediate answer, or exactly one
/// outgoing request whose outcome `handle_outbound` will answer with.
#[derive(Clone, Debug, PartialEq, Eq)]
pub enum ConnectorStep {
    Respond(HttpResponse),
    Send(OutboundRequest),
}

impl ConnectorBuilder {
    /// Assembles the pipeline: only `POST` passes, then only accepted
    /// tokens; the relay forwards with the default deadline cap.
    pub fn build(self) -> (r: Connector)
        ensures
            r.method_filter.method@ == method_post(),
            r.auth_filter.tokens@ == self.auth_tokens@,
            r.relay.address() == self.ilp_addr@,
            r.relay.client.max_timeout == crate::client::DEFAULT_MAX_TIMEOUT,
            r.relay.routes.routes() == self.routes@,
    {
        let client = ClientBuilder::new(self.ilp_addr).build();
        let relay = Relay::new(client, self.routes);
        let auth_filter = AuthTokenFilter::new(self.auth_tokens);
        let method_filter = MethodFilter::new(make_method_post());
        Connector { method_filter, auth_filter, relay }
    }
}

impl Connector {
    /// The relay's own ILP address.
    pub open spec fn address(&self) -> Seq<u8> {
        self.relay.address()
    }

    /// Decides one incoming request at time `now` (microseconds since the
    /// epoch), in pipeline order:
    /// a method other than the configured one is answered `405` before the
    /// token is looked at; a missing or unknown token is answered `401` and
    /// nothing goes further; a body that is not a Prepare is answered `400`;
    /// an unroutable or expired Prepare is answered `200` carrying the
    /// relay's own Reject; otherwise the one outgoing request is returned,
    /// and no response is produced yet.
    pub fn handle_request(&self, request: HttpRequest, now: u64) -> (r: ConnectorStep)
        ensures
            ({
                let v = request@;
                if v.method != self.method_filter.method@ {
                    (r matches ConnectorStep::Respond(resp) && resp@.status
                        == STATUS_METHOD_NOT_ALLOWED && resp@.body.len() == 0 && resp.wf())
                } else if !request_authorized(v, self.auth_filter.token_set()) {
                    (r matches ConnectorStep::Respond(resp) && resp@.status == STATUS_UNAUTHORIZED
                        && resp@.body.len() == 0 && resp.wf())
                } else {
                    match spec_decode(v.body) {
                        Some(PacketV::Prepare(p)) => {
                            let m = first_match(self.relay.routes.routes(), p.destination);
                            if m is None {
                                (r matches ConnectorStep::Respond(resp) && resp@.status
                                    == STATUS_OK && resp@.octet_stream && resp.wf() && resp@.body
                                    == enc_reject(
                                    minted_reject(self.address(), code_f02(), msg_no_route_found()),
                                ) && spec_decode(resp@.body) == Some(
                                    PacketV::Reject(
                                        minted_reject(
                                            self.address(),
                                            code_f02(),
                                            msg_no_route_found(),
                                        ),
                                    ),
                                ))
                            } else if p.expires_at <= now {
                                (r matches ConnectorStep::Respond(resp) && resp@.status
                                    == STATUS_OK && resp@.octet_stream && resp.wf() && resp@.body
                                    == enc_reject(
                                    minted_reject(
                                        self.address(),
                                        code_r02(),
                                        msg_insufficient_timeout(),
                                    ),
                                ) && spec_decode(resp@.body) == Some(
                                    PacketV::Reject(
                                        minted_reject(
                                            self.address(),
                                            code_r02(),
                                            msg_insufficient_timeout(),
                                        ),
                                    ),
                                ))
                            } else {
                                (r matches ConnectorStep::Send(out) && out.method@
                                    == method_post() && out.endpoint@
                                    == self.relay.routes.routes()[m->Some_0].hop().endpoint@
                                    && crate::client::opt_bytes(out.auth)
                                    == crate::client::opt_bytes(
                                    self.relay.routes.routes()[m->Some_0].hop().auth,
                                ) && out.octet_stream && out.body@ == enc_prepare(p)
                                    && out.deadline == spec_min(
                                    self.relay.client.max_timeout,
                                    (p.expires_at - now) as u64,
                                ))
                            }
                        },
                        _ => (r matches ConnectorStep::Respond(resp) && resp@.status
                            == STATUS_BAD_REQUEST && resp@.body == msg_error_parsing_prepare()
                            && resp.wf()),
                    }
                }
            }),
    {
        let step1 = self.method_filter.call(request);
        let request = match step1 {
            FilterOutcome::Respond(resp) => {
                return ConnectorStep::Respond(resp);
            },
            FilterOutcome::Forward(req) => req,
        };
        let step2 = self.auth_filter.call(request);
        let request = match step2 {
            FilterOutcome::Respond(resp) => {
                return ConnectorStep::Respond(resp);
            },
            FilterOutcome::Forward(req) => req,
        };
        let prepare = match receive(request.body.as_slice()) {
            ReceiverStep::Respond(resp) => {
                return ConnectorStep::Respond(resp);
            },
            ReceiverStep::Forward(prepare) => prepare,
        };
        match self.relay.forward(&prepare, now) {
            ClientStep::Reject(reject) => {
                let ghost jv = reject@;
                let resp = make_http_response(Err(reject));
                proof {
                    lemma_decode_encode_reject(jv);
                }
                ConnectorStep::Respond(resp)
            },
            ClientStep::Send(out) => ConnectorStep::Send(out),
        }
    }

    /// Answers for the outgoing request's outcome: always `200`, declared
    /// `application/octet-stream` with an exact length, the body the encoded
    /// outcome packet — a Fulfill, the peer's own Reject unchanged, or a
    /// Reject minted here — and that body always decodes back to it.
    pub fn handle_outbound(&self, event: OutboundEvent) -> (r: HttpResponse)
        ensures
            r@.status == STATUS_OK,
            r@.octet_stream,
            r.wf(),
            r@.body == enc_packet(spec_outcome(self.address(), event@)),
            spec_decode(r@.body) == Some(spec_outcome(self.address(), event@)),
    {
        let res = self.relay.client.handle_outcome(event);
        let ghost packet = packet_of(res);
        let resp = match res {
            Ok(fulfill) => {
                let ghost fv = fulfill@;
                let resp = make_http_response(Ok(fulfill));
                proof {
                    lemma_decode_encode_fulfill(fv);
                }
                resp
            },
            Err(reject) => {
                let ghost jv = reject@;
                let resp = make_http_response(Err(reject));
                proof {
                    lemma_decode_encode_reject(jv);
                }
                resp
            },
        };
        resp
    }
}

} // verus!
