//! The outgoing side: deadline arithmetic for a Prepare about to be
//! forwarded, and the translation of every possible outcome of the HTTP
//! request into a Fulfill or a Reject. A transport failure never escapes
//! raw: each one becomes a Reject with a fixed code and message.

use vstd::prelude::*;
use vstd::slice::slice_to_vec;
use crate::msgs::make_msg_bad_request_to_peer;
use crate::msgs::make_msg_insufficient_timeout;
use crate::msgs::make_msg_invalid_response_body;
use crate::msgs::make_msg_peer_connection_error;
use crate::msgs::make_msg_peer_internal_error;
use crate::msgs::make_msg_request_timed_out;
use crate::msgs::make_msg_unexpected_response_code;
use crate::msgs::msg_bad_request_to_peer;
use crate::msgs::msg_insufficient_timeout;
use crate::msgs::msg_invalid_response_body;
use crate::msgs::msg_peer_connection_error;
use crate::msgs::msg_peer_internal_error;
use crate::msgs::msg_request_timed_out;
use crate::msgs::msg_unexpected_response_code;
use crate::packet::code_f00;
use crate::packet::code_r00;
use crate::packet::code_r02;
use crate::packet::code_t00;
use crate::packet::code_t01;
use crate::packet::enc_prepare;
use crate::packet::spec_decode;
use crate::packet::decode_packet;
use crate::packet::ErrorCode;
use crate::packet::Fulfill;
use crate::packet::Packet;
use crate::packet::PacketV;
use crate::packet::Prepare;
use crate::packet::Reject;
use crate::packet::RejectV;

verus! {

/// The longest the client waits for a peer, in microseconds, when the
/// Prepare's own expiry allows even more: sixty seconds.
pub const DEFAULT_MAX_TIMEOUT: u64 = 60000000;

/// Issues outgoing requests on behalf of the relay. `address` is the ILP
/// address written into every Reject minted here; `max_timeout` caps the
/// per-request deadline, in microseconds.
#[derive(Clone, Debug, PartialEq, Eq)]
pub struct Client {
    pub address: Vec<u8>,
    pub max_timeout: u64,
}

/// Builds a `Client`, with the default deadline cap unless overridden.
#[derive(Clone, Debug, PartialEq, Eq)]
pub struct ClientBuilder {
    pub address: Vec<u8>,
    pub max_timeout: u64,
}

impl ClientBuilder {
    pub fn new(address: Vec<u8>) -> (r: Self)
        ensures
            r.address@ == address@,
            r.max_timeout == DEFAULT_MAX_TIMEOUT,
    {
        ClientBuilder { address, max_timeout: DEFAULT_MAX_TIMEOUT }
    }

    pub fn with_max_timeout(self, max_timeout: u64) -> (r: Self)
        ensures
            r.address@ == self.address@,
            r.max_timeout == max_timeout,
    {
        ClientBuilder { address: self.address, max_timeout }
    }

    pub fn build(self) -> (r: Client)
        ensures
            r.address@ == self.address@,
            r.max_timeout == self.max_timeout,
    {
        Client { address: self.address, max_timeout: self.max_timeout }
    }
}

/// The fixed part of an outgoing request, as the router prepared it: where
/// to send, and with which `Authorization` value, if any.
#[derive(Clone, Debug, PartialEq, Eq)]
pub struct RequestTemplate {
    pub endpoint: Vec<u8>,
    pub auth: Option<Vec<u8>>,
}

/// One fully described outgoing request: the transport performs exactly
/// this, with `deadline` microseconds to answer.
#[derive(Clone, Debug, PartialEq, Eq)]
pub struct OutboundRequest {
    pub method: Vec<u8>,
    pub endpoint: Vec<u8>,
    pub auth: Option<Vec<u8>>,
    pub octet_stream: bool,
    pub body: Vec<u8>,
    pub deadline: u64,
}

/// What the client decides for a Prepare: fail it now, or send it.
#[derive(Clone, Debug, PartialEq, Eq)]
pub enum ClientStep {
    Reject(Reject),
    Send(OutboundRequest),
}

/// Everything the transport can report back for one outgoing request.
#[derive(Clone, Debug, PartialEq, Eq)]
pub enum OutboundEvent {
    /// The deadline elapsed first.
    TimedOut,
    /// The connection failed: connect, abort, name resolution, TLS.
    TransportError,
    /// The peer answered with this status; the body is `None` when it could
    /// not be read to the end.
    Response(u16, Option<Vec<u8>>),
}

/// The mathematical image of an `OutboundEvent`.
pub ghost enum OutboundEventV {
    TimedOut,
    TransportError,
    Response(u16, Option<Seq<u8>>),
}

impl View for OutboundEvent {
    type V = OutboundEventV;

    open spec fn view(&self) -> OutboundEventV {
        match self {
            OutboundEvent::TimedOut => OutboundEventV::TimedOut,
            OutboundEvent::TransportError => OutboundEventV::TransportError,
            OutboundEvent::Response(s, b) => OutboundEventV::Response(
                *s,
                match b {
                    Some(v) => Some(v@),
                    None => None,
                },
            ),
        }
    }
}

/// The view of a Reject this client mints itself: the given code and
/// message, its own address as `triggered_by`, and no data.
pub open spec fn minted_reject(address: Seq<u8>, code: Seq<u8>, message: Seq<u8>) -> RejectV {
    RejectV { code: code, message: message, triggered_by: address, data: Seq::empty() }
}

impl Client {
    /// The relay's own ILP address.
    pub fn address(&self) -> (r: &[u8])
        ensures
            r@ == self.address@,
    {
        self.address.as_slice()
    }

    /// A Reject of this relay's own: `triggered_by` is always the relay's
    /// address and `data` is always empty.
    pub fn make_reject(&self, code: ErrorCode, message: Vec<u8>) -> (r: Reject)
        ensures
            r@ == minted_reject(self.address@, code@, message@),
    {
        let triggered_by = slice_to_vec(self.address.as_slice());
        Reject { code, message, triggered_by, data: Vec::new() }
    }

    /// Decides a Prepare at time `now` (microseconds since the epoch): one
    /// already expired fails at once with `R02` and nothing is sent;
    /// otherwise the request goes out with the encoded Prepare as body,
    /// declared `application/octet-stream`, under a deadline of the
    /// Prepare's remaining life bounded by `max_timeout`.
    pub fn request(&self, template: RequestTemplate, prepare: &Prepare, now: u64) -> (r:
        ClientStep)
        ensures
            match r {
                ClientStep::Reject(j) => {
                    &&& prepare@.expires_at <= now
                    &&& j@ == minted_reject(self.address@, code_r02(), msg_insufficient_timeout())
                },
                ClientStep::Send(out) => {
                    &&& prepare@.expires_at > now
                    &&& out.method@ == crate::msgs::method_post()
                    &&& out.endpoint@ == template.endpoint@
                    &&& opt_bytes(out.auth) == opt_bytes(template.auth)
                    &&& out.octet_stream
                    &&& out.body@ == enc_prepare(prepare@)
                    &&& out.deadline == spec_min(self.max_timeout, (prepare@.expires_at - now) as u64)
                    &&& out.deadline <= self.max_timeout
                    &&& now + out.deadline <= prepare@.expires_at
                },
            },
    {
        if prepare.expires_at <= now {
            return ClientStep::Reject(
                self.make_reject(
                    ErrorCode::r02_insufficient_timeout(),
                    make_msg_insufficient_timeout(),
                ),
            );
        }
        let expires_in: u64 = prepare.expires_at - now;
        let deadline: u64 = if self.max_timeout < expires_in {
            self.max_timeout
        } else {
            expires_in
        };
        let body = prepare.encode();
        ClientStep::Send(
            OutboundRequest {
                method: crate::msgs::make_method_post(),
                endpoint: template.endpoint,
                auth: template.auth,
                octet_stream: true,
                body,
                deadline,
            },
        )
    }

    /// Maps everything the transport reports to a Fulfill or a Reject, as
    /// `decode_http_response` and the two transport cases prescribe.
    pub fn handle_outcome(&self, event: OutboundEvent) -> (r: Result<Fulfill, Reject>)
        ensures
            packet_of(r) == spec_outcome(self.address@, event@),
    {
        match event {
            OutboundEvent::TimedOut => Err(
                self.make_reject(ErrorCode::r00_transfer_timed_out(), make_msg_request_timed_out()),
            ),
            OutboundEvent::TransportError => Err(
                self.make_reject(
                    ErrorCode::t01_peer_unreachable(),
                    make_msg_peer_connection_error(),
                ),
            ),
            OutboundEvent::Response(status, body) => self.decode_http_response(status, body),
        }
    }

    /// Maps the peer's HTTP response onto packets: `200` defers to the body,
    /// `4xx` becomes `F00`, `5xx` becomes `T01`, anything else `T00`.
    pub fn decode_http_response(&self, status: u16, body: Option<Vec<u8>>) -> (r: Result<
        Fulfill,
        Reject,
    >)
        ensures
            packet_of(r) == spec_http_outcome(self.address@, status, opt_bytes(body)),
    {
        if status == 200 {
            match body {
                Some(bytes) => self.decode_response(bytes.as_slice()),
                None => Err(
                    self.make_reject(
                        ErrorCode::t00_internal_error(),
                        make_msg_invalid_response_body(),
                    ),
                ),
            }
        } else if 400 <= status && status <= 499 {
            Err(self.make_reject(ErrorCode::f00_bad_request(), make_msg_bad_request_to_peer()))
        } else if 500 <= status && status <= 599 {
            Err(self.make_reject(ErrorCode::t01_peer_unreachable(), make_msg_peer_internal_error()))
        } else {
            Err(
                self.make_reject(
                    ErrorCode::t00_internal_error(),
                    make_msg_unexpected_response_code(),
                ),
            )
        }
    }

    /// Decodes a `200` body: a Fulfill is the result, a Reject passes
    /// through unchanged — the peer's `triggered_by` is preserved — and
    /// anything else, a Prepare included, becomes a minted `T00`.
    pub fn decode_response(&self, bytes: &[u8]) -> (r: Result<Fulfill, Reject>)
        ensures
            packet_of(r) == spec_body_outcome(self.address@, bytes@),
    {
        match decode_packet(bytes) {
            Ok(Packet::Fulfill(fulfill)) => Ok(fulfill),
            Ok(Packet::Reject(reject)) => Err(reject),
            _ => Err(
                self.make_reject(ErrorCode::t00_internal_error(), make_msg_invalid_response_body()),
            ),
        }
    }
}

/// The view of an optional byte buffer.
pub open spec fn opt_bytes(o: Option<Vec<u8>>) -> Option<Seq<u8>> {
    match o {
        Some(v) => Some(v@),
        None => None,
    }
}

/// The smaller of two durations.
pub open spec fn spec_min(a: u64, b: u64) -> u64 {
    if a < b {
        a
    } else {
        b
    }
}

/// The packet a client result carries: the Fulfill of `Ok`, the Reject of
/// `Err`.
pub open spec fn packet_of(r: Result<Fulfill, Reject>) -> PacketV {
    match r {
        Ok(f) => PacketV::Fulfill(f@),
        Err(j) => PacketV::Reject(j@),
    }
}

/// What a `200` body becomes: the Fulfill it holds, the Reject it holds
/// unchanged, or a minted `T00` for anything else — a Prepare included.
pub open spec fn spec_body_outcome(address: Seq<u8>, bytes: Seq<u8>) -> PacketV {
    match spec_decode(bytes) {
        Some(PacketV::Fulfill(f)) => PacketV::Fulfill(f),
        Some(PacketV::Reject(j)) => PacketV::Reject(j),
        _ => PacketV::Reject(minted_reject(address, code_t00(), msg_invalid_response_body())),
    }
}

/// What the peer's HTTP response becomes, by status class: `200` defers to
/// the body, `4xx` is `F00`, `5xx` is `T01`, anything else `T00`.
pub open spec fn spec_http_outcome(address: Seq<u8>, status: u16, body: Option<Seq<u8>>) -> PacketV {
    if status == 200 {
        match body {
            Some(bytes) => spec_body_outcome(address, bytes),
            None => PacketV::Reject(
                minted_reject(address, code_t00(), msg_invalid_response_body()),
            ),
        }
    } else if 400 <= status <= 499 {
        PacketV::Reject(minted_reject(address, code_f00(), msg_bad_request_to_peer()))
    } else if 500 <= status <= 599 {
        PacketV::Reject(minted_reject(address, code_t01(), msg_peer_internal_error()))
    } else {
        PacketV::Reject(minted_reject(address, code_t00(), msg_unexpected_response_code()))
    }
}

/// What any transport event becomes: a timeout is `R00`, a connection
/// failure `T01`, a response whatever its status and body prescribe.
pub open spec fn spec_outcome(address: Seq<u8>, ev: OutboundEventV) -> PacketV {
    match ev {
        OutboundEventV::TimedOut => PacketV::Reject(
            minted_reject(address, code_r00(), msg_request_timed_out()),
        ),
        OutboundEventV::TransportError => PacketV::Reject(
            minted_reject(address, code_t01(), msg_peer_connection_error()),
        ),
        OutboundEventV::Response(status, body) => spec_http_outcome(address, status, body),
    }
}

/// Every outcome is a Fulfill or a Reject — never a Prepare: together with
/// the codec's round trip, every answer the relay writes for an accepted
/// request parses back as one of the two.
pub proof fn lemma_outcome_is_reply(address: Seq<u8>, ev: OutboundEventV)
    ensures
        !(spec_outcome(address, ev) is Prepare),
{
}

/// Attribution of a Reject: one taken from the peer's `200` body passes
/// through unchanged, with its `triggered_by` preserved; every other Reject
/// is minted by the relay, with the relay's address as `triggered_by` and
/// empty data.
pub proof fn lemma_reject_attribution(address: Seq<u8>, ev: OutboundEventV)
    ensures
        match spec_outcome(address, ev) {
            PacketV::Reject(j) => {
                if ev matches OutboundEventV::Response(200, Some(b))
                    && (spec_decode(b) matches Some(PacketV::Reject(_))) {
                    match ev {
                        OutboundEventV::Response(_, ob) => spec_decode(ob->Some_0) == Some(
                            PacketV::Reject(j),
                        ),
                        _ => false,
                    }
                } else {
                    j.triggered_by == address && j.data.len() == 0
                }
            },
            _ => true,
        },
{
}

} // verus!
