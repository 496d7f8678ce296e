use interledger_relay::auth::AuthToken;
use interledger_relay::client::OutboundEvent;
use interledger_relay::connector::{Connector, ConnectorBuilder, ConnectorStep};
use interledger_relay::http::HttpRequest;
use interledger_relay::packet::{ErrorCode, Fulfill, Prepare, Reject, decode_packet, Packet};
use interledger_relay::relay::{NextHop, Route};

const NOW: u64 = 1_700_000_000_000_000;

const CONDITION: [u8; 32] = [
    0x11, 0x7b, 0x43, 0x4f, 0x1a, 0x54, 0xe9, 0x04, 0x4f, 0x4f, 0x54, 0x92, 0x3b, 0x2c, 0xff,
    0x9e, 0x4a, 0x6d, 0x42, 0x0a, 0xe2, 0x81, 0xd5, 0x02, 0x5d, 0x7b, 0xb0, 0x40, 0xc4, 0xb4,
    0xc0, 0x4a,
];

fn prepare() -> Prepare {
    Prepare {
        amount: 123,
        expires_at: NOW + 20_000_000,
        execution_condition: CONDITION,
        destination: b"test.bob.1234".to_vec(),
        data: b"prepare data".to_vec(),
    }
}

fn fulfill() -> Fulfill {
    Fulfill {
        fulfillment: CONDITION,
        data: b"fulfill data".to_vec(),
    }
}

fn endpoint(path: &str) -> Vec<u8> {
    let mut url = b"http://127.0.0.1:3001".to_vec();
    url.extend_from_slice(path.as_bytes());
    url
}

fn connector() -> Connector {
    ConnectorBuilder {
        ilp_addr: b"example.alice".to_vec(),
        auth_tokens: vec![AuthToken::new(b"secret".to_vec())],
        routes: vec![
            Route::new(
                b"test.alice.".to_vec(),
                NextHop::new(endpoint("/alice"), Some(b"alice_auth".to_vec())),
            ),
            Route::new(
                b"test.bob.".to_vec(),
                NextHop::new(endpoint("/bob"), Some(b"bob_auth".to_vec())),
            ),
            Route::new(
                b"".to_vec(),
                NextHop::new(endpoint("/default"), Some(b"default_auth".to_vec())),
            ),
        ],
    }
    .build()
}

fn request(method: &[u8], authorization: Option<&[u8]>, body: Vec<u8>) -> HttpRequest {
    HttpRequest {
        method: method.to_vec(),
        authorization: authorization.map(|a| a.to_vec()),
        body,
    }
}

#[test]
fn test_relay() {
    let connector = connector();

    // The accepted request becomes exactly one outgoing request to /bob.
    let out = match connector.handle_request(
        request(b"POST", Some(b"secret"), prepare().encode()),
        NOW,
    ) {
        ConnectorStep::Send(out) => out,
        ConnectorStep::Respond(resp) => panic!("expected send, got {}", resp.status),
    };
    assert_eq!(out.method, b"POST".to_vec());
    assert_eq!(out.endpoint, endpoint("/bob"));
    assert_eq!(out.auth, Some(b"bob_auth".to_vec()));
    assert!(out.octet_stream);
    assert_eq!(out.body, prepare().encode());

    // The peer fulfills; the caller sees 200 with the Fulfill.
    let response =
        connector.handle_outbound(OutboundEvent::Response(200, Some(fulfill().encode())));
    assert_eq!(response.status, 200);
    assert!(response.octet_stream);
    assert_eq!(response.content_length, response.body.len());
    assert_eq!(response.body, fulfill().encode());
}

#[test]
fn test_non_post_is_405_before_auth() {
    // Even a valid token does not save a GET: the method filter answers
    // first, and no outgoing request exists.
    match connector().handle_request(request(b"GET", Some(b"secret"), prepare().encode()), NOW) {
        ConnectorStep::Send(_) => panic!("nothing may be sent"),
        ConnectorStep::Respond(resp) => {
            assert_eq!(resp.status, 405);
            assert!(resp.body.is_empty());
        }
    }
}

#[test]
fn test_wrong_token_is_401_and_nothing_is_sent() {
    match connector().handle_request(request(b"POST", Some(b"wrong"), prepare().encode()), NOW) {
        ConnectorStep::Send(_) => panic!("nothing may be sent"),
        ConnectorStep::Respond(resp) => {
            assert_eq!(resp.status, 401);
            assert!(resp.body.is_empty());
        }
    }
}

#[test]
fn test_missing_token_is_401() {
    match connector().handle_request(request(b"POST", None, prepare().encode()), NOW) {
        ConnectorStep::Send(_) => panic!("nothing may be sent"),
        ConnectorStep::Respond(resp) => assert_eq!(resp.status, 401),
    }
}

#[test]
fn test_bad_body_is_400() {
    match connector().handle_request(request(b"POST", Some(b"secret"), b"not a packet".to_vec()), NOW)
    {
        ConnectorStep::Send(_) => panic!("nothing may be sent"),
        ConnectorStep::Respond(resp) => {
            assert_eq!(resp.status, 400);
            assert_eq!(resp.body, b"Error parsing ILP Prepare".to_vec());
        }
    }
}

#[test]
fn test_no_route_is_200_with_reject() {
    let connector = ConnectorBuilder {
        ilp_addr: b"example.alice".to_vec(),
        auth_tokens: vec![AuthToken::new(b"secret".to_vec())],
        routes: Vec::new(),
    }
    .build();
    match connector.handle_request(request(b"POST", Some(b"secret"), prepare().encode()), NOW) {
        ConnectorStep::Send(_) => panic!("nothing may be sent"),
        ConnectorStep::Respond(resp) => {
            assert_eq!(resp.status, 200);
            assert!(resp.octet_stream);
            let expected = Reject {
                code: ErrorCode(*b"F02"),
                message: b"no route found".to_vec(),
                triggered_by: b"example.alice".to_vec(),
                data: Vec::new(),
            };
            assert_eq!(decode_packet(&resp.body), Ok(Packet::Reject(expected)));
        }
    }
}

#[test]
fn test_expired_prepare_is_200_with_reject() {
    let mut expired = prepare();
    expired.expires_at = NOW - 1;
    match connector().handle_request(request(b"POST", Some(b"secret"), expired.encode()), NOW) {
        ConnectorStep::Send(_) => panic!("nothing may be sent"),
        ConnectorStep::Respond(resp) => {
            assert_eq!(resp.status, 200);
            let expected = Reject {
                code: ErrorCode(*b"R02"),
                message: b"insufficient timeout".to_vec(),
                triggered_by: b"example.alice".to_vec(),
                data: Vec::new(),
            };
            assert_eq!(decode_packet(&resp.body), Ok(Packet::Reject(expected)));
        }
    }
}

#[test]
fn test_outbound_timeout_is_200_with_reject() {
    let response = connector().handle_outbound(OutboundEvent::TimedOut);
    assert_eq!(response.status, 200);
    let expected = Reject {
        code: ErrorCode(*b"R00"),
        message: b"request timed out".to_vec(),
        triggered_by: b"example.alice".to_vec(),
        data: Vec::new(),
    };
    assert_eq!(decode_packet(&response.body), Ok(Packet::Reject(expected)));
}

#[test]
fn test_invalid_peer_body_is_200_with_reject() {
    let response = connector().handle_outbound(OutboundEvent::Response(
        200,
        Some(b"this is not a packet".to_vec()),
    ));
    assert_eq!(response.status, 200);
    let expected = Reject {
        code: ErrorCode(*b"T00"),
        message: b"invalid response body from peer".to_vec(),
        triggered_by: b"example.alice".to_vec(),
        data: Vec::new(),
    };
    assert_eq!(decode_packet(&response.body), Ok(Packet::Reject(expected)));
}
