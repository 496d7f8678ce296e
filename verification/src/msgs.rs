//! The fixed ASCII byte strings the relay puts into Reject messages and HTTP
//! bodies, each with its spec-level image.

use vstd::prelude::*;
use vstd::slice::slice_to_vec;

verus! {

/// `insufficient timeout`
pub open spec fn msg_insufficient_timeout() -> Seq<u8> {
    seq![105u8, 110, 115, 117, 102, 102, 105, 99, 105, 101, 110, 116, 32, 116, 105, 109, 101, 111, 117, 116]
}

/// `request timed out`
pub open spec fn msg_request_timed_out() -> Seq<u8> {
    seq![114u8, 101, 113, 117, 101, 115, 116, 32, 116, 105, 109, 101, 100, 32, 111, 117, 116]
}

/// `peer connection error`
pub open spec fn msg_peer_connection_error() -> Seq<u8> {
    seq![112u8, 101, 101, 114, 32, 99, 111, 110, 110, 101, 99, 116, 105, 111, 110, 32, 101, 114, 114, 111, 114]
}

/// `invalid response body from peer`
pub open spec fn msg_invalid_response_body() -> Seq<u8> {
    seq![105u8, 110, 118, 97, 108, 105, 100, 32, 114, 101, 115, 112, 111, 110, 115, 101, 32, 98, 111, 100, 121, 32, 102, 114, 111, 109, 32, 112, 101, 101, 114]
}

/// `bad request to peer`
pub open spec fn msg_bad_request_to_peer() -> Seq<u8> {
    seq![98u8, 97, 100, 32, 114, 101, 113, 117, 101, 115, 116, 32, 116, 111, 32, 112, 101, 101, 114]
}

/// `peer internal error`
pub open spec fn msg_peer_internal_error() -> Seq<u8> {
    seq![112u8, 101, 101, 114, 32, 105, 110, 116, 101, 114, 110, 97, 108, 32, 101, 114, 114, 111, 114]
}

/// `unexpected response code from peer`
pub open spec fn msg_unexpected_response_code() -> Seq<u8> {
    seq![117u8, 110, 101, 120, 112, 101, 99, 116, 101, 100, 32, 114, 101, 115, 112, 111, 110, 115, 101, 32, 99, 111, 100, 101, 32, 102, 114, 111, 109, 32, 112, 101, 101, 114]
}

/// `no route found`
pub open spec fn msg_no_route_found() -> Seq<u8> {
    seq![110u8, 111, 32, 114, 111, 117, 116, 101, 32, 102, 111, 117, 110, 100]
}

/// `Error parsing ILP Prepare`
pub open spec fn msg_error_parsing_prepare() -> Seq<u8> {
    seq![69u8, 114, 114, 111, 114, 32, 112, 97, 114, 115, 105, 110, 103, 32, 73, 76, 80, 32, 80, 114, 101, 112, 97, 114, 101]
}

/// `POST`
pub open spec fn method_post() -> Seq<u8> {
    seq![80u8, 79, 83, 84]
}

/// `insufficient timeout`, as a buffer.
pub fn make_msg_insufficient_timeout() -> (r: Vec<u8>)
    ensures
        r@ == msg_insufficient_timeout(),
{
    let m: [u8; 20] = [105, 110, 115, 117, 102, 102, 105, 99, 105, 101, 110, 116, 32, 116, 105, 109, 101, 111, 117, 116];
    let v = slice_to_vec(m.as_slice());
    assert(v@ =~= msg_insufficient_timeout());
    v
}

/// `request timed out`, as a buffer.
pub fn make_msg_request_timed_out() -> (r: Vec<u8>)
    ensures
        r@ == msg_request_timed_out(),
{
    let m: [u8; 17] = [114, 101, 113, 117, 101, 115, 116, 32, 116, 105, 109, 101, 100, 32, 111, 117, 116];
    let v = slice_to_vec(m.as_slice());
    assert(v@ =~= msg_request_timed_out());
    v
}

/// `peer connection error`, as a buffer.
pub fn make_msg_peer_connection_error() -> (r: Vec<u8>)
    ensures
        r@ == msg_peer_connection_error(),
{
    let m: [u8; 21] = [112, 101, 101, 114, 32, 99, 111, 110, 110, 101, 99, 116, 105, 111, 110, 32, 101, 114, 114, 111, 114];
    let v = slice_to_vec(m.as_slice());
    assert(v@ =~= msg_peer_connection_error());
    v
}

/// `invalid response body from peer`, as a buffer.
pub fn make_msg_invalid_response_body() -> (r: Vec<u8>)
    ensures
        r@ == msg_invalid_response_body(),
{
    let m: [u8; 31] = [105, 110, 118, 97, 108, 105, 100, 32, 114, 101, 115, 112, 111, 110, 115, 101, 32, 98, 111, 100, 121, 32, 102, 114, 111, 109, 32, 112, 101, 101, 114];
    let v = slice_to_vec(m.as_slice());
    assert(v@ =~= msg_invalid_response_body());
    v
}

/// `bad request to peer`, as a buffer.
pub fn make_msg_bad_request_to_peer() -> (r: Vec<u8>)
    ensures
        r@ == msg_bad_request_to_peer(),
{
    let m: [u8; 19] = [98, 97, 100, 32, 114, 101, 113, 117, 101, 115, 116, 32, 116, 111, 32, 112, 101, 101, 114];
    let v = slice_to_vec(m.as_slice());
    assert(v@ =~= msg_bad_request_to_peer());
    v
}

/// `peer internal error`, as a buffer.
pub fn make_msg_peer_internal_error() -> (r: Vec<u8>)
    ensures
        r@ == msg_peer_internal_error(),
{
    let m: [u8; 19] = [112, 101, 101, 114, 32, 105, 110, 116, 101, 114, 110, 97, 108, 32, 101, 114, 114, 111, 114];
    let v = slice_to_vec(m.as_slice());
    assert(v@ =~= msg_peer_internal_error());
    v
}

/// `unexpected response code from peer`, as a buffer.
pub fn make_msg_unexpected_response_code() -> (r: Vec<u8>)
    ensures
        r@ == msg_unexpected_response_code(),
{
    let m: [u8; 34] = [117, 110, 101, 120, 112, 101, 99, 116, 101, 100, 32, 114, 101, 115, 112, 111, 110, 115, 101, 32, 99, 111, 100, 101, 32, 102, 114, 111, 109, 32, 112, 101, 101, 114];
    let v = slice_to_vec(m.as_slice());
    assert(v@ =~= msg_unexpected_response_code());
    v
}

/// `no route found`, as a buffer.
pub fn make_msg_no_route_found() -> (r: Vec<u8>)
    ensures
        r@ == msg_no_route_found(),
{
    let m: [u8; 14] = [110, 111, 32, 114, 111, 117, 116, 101, 32, 102, 111, 117, 110, 100];
    let v = slice_to_vec(m.as_slice());
    assert(v@ =~= msg_no_route_found());
    v
}

/// `Error parsing ILP Prepare`, as a buffer.
pub fn make_msg_error_parsing_prepare() -> (r: Vec<u8>)
    ensures
        r@ == msg_error_parsing_prepare(),
{
    let m: [u8; 25] = [69, 114, 114, 111, 114, 32, 112, 97, 114, 115, 105, 110, 103, 32, 73, 76, 80, 32, 80, 114, 101, 112, 97, 114, 101];
    let v = slice_to_vec(m.as_slice());
    assert(v@ =~= msg_error_parsing_prepare());
    v
}

/// `POST`, as a buffer.
pub fn make_method_post() -> (r: Vec<u8>)
    ensures
        r@ == method_post(),
{
    let m: [u8; 4] = [80, 79, 83, 84];
    let v = slice_to_vec(m.as_slice());
    assert(v@ =~= method_post());
    v
}

} // verus!
