//! The HTTP/packet boundary: the whole request body either decodes as a
//! Prepare and goes inward, or the request is answered `400` at once; the
//! inner outcome — Fulfill or Reject — always comes back as `200` with the
//! packet as the body.

use vstd::prelude::*;
use crate::http::HttpResponse;
use crate::http::STATUS_BAD_REQUEST;
use crate::http::STATUS_OK;
use crate::msgs::make_msg_error_parsing_prepare;
use crate::msgs::msg_error_parsing_prepare;
use crate::packet::enc_fulfill;
use crate::packet::enc_reject;
use crate::packet::spec_decode;
use crate::packet::decode_packet;
use crate::packet::Fulfill;
use crate::packet::Packet;
use crate::packet::PacketV;
use crate::packet::Prepare;
use crate::packet::Reject;

verus! {

/// What the boundary does with a request body: hand the Prepare inward, or
/// answer the request itself.
#[derive(Clone, Debug, PartialEq, Eq)]
pub enum ReceiverStep {
    Forward(Prepare),
    Respond(HttpResponse),
}

/// Decodes the aggregated request body. A body that is not a well-formed
/// Prepare — another packet, or garbage — is answered `400` with the fixed
/// error text, and nothing goes inward.
pub fn receive(body: &[u8]) -> (r: ReceiverStep)
    ensures
        match r {
            ReceiverStep::Forward(p) => spec_decode(body@) == Some(PacketV::Prepare(p@)),
            ReceiverStep::Respond(resp) => {
                &&& (forall|p: crate::packet::PrepareV|
                    spec_decode(body@) != Some(PacketV::Prepare(p)))
                &&& resp@.status == STATUS_BAD_REQUEST
                &&& resp@.body == msg_error_parsing_prepare()
                &&& resp.wf()
            },
        },
{
    match decode_packet(body) {
        Ok(Packet::Prepare(p)) => ReceiverStep::Forward(p),
        _ => {
            let text = make_msg_error_parsing_prepare();
            let len: usize = text.len();
            ReceiverStep::Respond(
                HttpResponse {
                    status: STATUS_BAD_REQUEST,
                    octet_stream: false,
                    content_length: len,
                    body: text,
                },
            )
        },
    }
}

/// Wraps the inner service's outcome into the HTTP answer: always `200`,
/// declared `application/octet-stream`, with an exact content length and the
/// encoded packet as the body. A Reject is still a successful HTTP response.
pub fn make_http_response(packet: Result<Fulfill, Reject>) -> (r: HttpResponse)
    ensures
        r@.status == STATUS_OK,
        r@.octet_stream,
        r.wf(),
        r@.body == (match packet {
            Ok(f) => enc_fulfill(f@),
            Err(j) => enc_reject(j@),
        }),
{
    let body = match packet {
        Ok(fulfill) => fulfill.encode(),
        Err(reject) => reject.encode(),
    };
    let len: usize = body.len();
    HttpResponse { status: STATUS_OK, octet_stream: true, content_length: len, body }
}

} // verus!
