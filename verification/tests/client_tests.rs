use interledger_relay::client::{
    Client, ClientBuilder, ClientStep, OutboundEvent, RequestTemplate,
};
use interledger_relay::packet::{ErrorCode, Fulfill, Prepare, Reject};

static ADDRESS: &[u8] = b"example.connector";
const NOW: u64 = 1_700_000_000_000_000;
const MAX_TIMEOUT: u64 = 15_000;

const CONDITION: [u8; 32] = [
    0x11, 0x7b, 0x43, 0x4f, 0x1a, 0x54, 0xe9, 0x04, 0x4f, 0x4f, 0x54, 0x92, 0x3b, 0x2c, 0xff,
    0x9e, 0x4a, 0x6d, 0x42, 0x0a, 0xe2, 0x81, 0xd5, 0x02, 0x5d, 0x7b, 0xb0, 0x40, 0xc4, 0xb4,
    0xc0, 0x4a,
];

fn prepare() -> Prepare {
    Prepare {
        amount: 123,
        expires_at: NOW + 20_000_000,
        execution_condition: CONDITION,
        destination: b"test.bob.1234".to_vec(),
        data: b"prepare data".to_vec(),
    }
}

fn fulfill() -> Fulfill {
    Fulfill {
        fulfillment: CONDITION,
        data: b"fulfill data".to_vec(),
    }
}

fn peer_reject() -> Reject {
    Reject {
        code: ErrorCode(*b"F99"),
        message: b"Some error".to_vec(),
        triggered_by: b"example.connector".to_vec(),
        data: b"reject data".to_vec(),
    }
}

fn client() -> Client {
    ClientBuilder::new(ADDRESS.to_vec()).build()
}

fn client_with_timeout() -> Client {
    ClientBuilder::new(ADDRESS.to_vec())
        .with_max_timeout(MAX_TIMEOUT)
        .build()
}

fn make_request() -> RequestTemplate {
    RequestTemplate {
        endpoint: b"http://127.0.0.1:3001".to_vec(),
        auth: Some(b"bob_auth".to_vec()),
    }
}

#[test]
fn client_test_outgoing_request() {
    let out = match client().request(make_request(), &prepare(), NOW) {
        ClientStep::Send(out) => out,
        ClientStep::Reject(j) => panic!("unexpected reject: {:?}", j),
    };
    assert_eq!(out.method, b"POST".to_vec());
    assert_eq!(out.endpoint, b"http://127.0.0.1:3001".to_vec());
    assert_eq!(out.auth, Some(b"bob_auth".to_vec()));
    assert!(out.octet_stream);
    assert_eq!(out.body, prepare().encode());

    // The peer answers 200 with a Fulfill.
    let result = client().handle_outcome(OutboundEvent::Response(200, Some(fulfill().encode())));
    assert_eq!(result.unwrap(), fulfill());
}

#[test]
fn test_outgoing_max_timeout() {
    let out = match client_with_timeout().request(make_request(), &prepare(), NOW) {
        ClientStep::Send(out) => out,
        ClientStep::Reject(j) => panic!("unexpected reject: {:?}", j),
    };
    // The configured cap is below the packet's 20s of remaining life.
    assert_eq!(out.deadline, MAX_TIMEOUT);

    let reject = client_with_timeout()
        .handle_outcome(OutboundEvent::TimedOut)
        .unwrap_err();
    assert_eq!(reject.code, ErrorCode(*b"R00"));
    assert_eq!(reject.message, b"request timed out".to_vec());
}

#[test]
fn test_outgoing_prepare_expiry() {
    // A Prepare with a short expiry bounds the deadline below the cap.
    let mut prepare = prepare();
    prepare.expires_at = NOW + 100_000;

    let out = match client().request(make_request(), &prepare, NOW) {
        ClientStep::Send(out) => out,
        ClientStep::Reject(j) => panic!("unexpected reject: {:?}", j),
    };
    assert_eq!(out.deadline, 100_000);

    // The peer takes 101ms: the deadline fires first.
    let reject = client().handle_outcome(OutboundEvent::TimedOut).unwrap_err();
    assert_eq!(reject.code, ErrorCode(*b"R00"));
    assert_eq!(reject.message, b"request timed out".to_vec());
}

#[test]
fn test_expired_prepare_is_rejected_without_sending() {
    let mut prepare = prepare();
    prepare.expires_at = NOW;

    match client().request(make_request(), &prepare, NOW) {
        ClientStep::Send(_) => panic!("an expired Prepare must not go out"),
        ClientStep::Reject(reject) => {
            assert_eq!(reject.code, ErrorCode(*b"R02"));
            assert_eq!(reject.message, b"insufficient timeout".to_vec());
            assert_eq!(reject.triggered_by, ADDRESS.to_vec());
            assert!(reject.data.is_empty());
        }
    }
}

#[test]
fn test_incoming_reject() {
    // A Reject from the peer passes through unchanged.
    let result =
        client().handle_outcome(OutboundEvent::Response(200, Some(peer_reject().encode())));
    assert_eq!(result.unwrap_err(), peer_reject());
}

#[test]
fn test_incoming_invalid_packet() {
    let expect_reject = Reject {
        code: ErrorCode(*b"T00"),
        message: b"invalid response body from peer".to_vec(),
        triggered_by: ADDRESS.to_vec(),
        data: Vec::new(),
    };
    let result = client().handle_outcome(OutboundEvent::Response(
        200,
        Some(b"this is not a packet".to_vec()),
    ));
    assert_eq!(result.unwrap_err(), expect_reject);
}

#[test]
fn test_incoming_prepare_is_invalid() {
    // A Prepare in the response body is as invalid as garbage.
    let result = client().handle_outcome(OutboundEvent::Response(200, Some(prepare().encode())));
    let reject = result.unwrap_err();
    assert_eq!(reject.code, ErrorCode(*b"T00"));
    assert_eq!(reject.message, b"invalid response body from peer".to_vec());
}

#[test]
fn test_incoming_unreadable_body() {
    let result = client().handle_outcome(OutboundEvent::Response(200, None));
    let reject = result.unwrap_err();
    assert_eq!(reject.code, ErrorCode(*b"T00"));
    assert_eq!(reject.message, b"invalid response body from peer".to_vec());
}

#[test]
fn test_incoming_abort() {
    let expect_reject = Reject {
        code: ErrorCode(*b"T01"),
        message: b"peer connection error".to_vec(),
        triggered_by: ADDRESS.to_vec(),
        data: Vec::new(),
    };
    let result = client().handle_outcome(OutboundEvent::TransportError);
    assert_eq!(result.unwrap_err(), expect_reject);
}

#[test]
fn test_incoming_300() {
    let result = client().handle_outcome(OutboundEvent::Response(300, Some(fulfill().encode())));
    let reject = result.unwrap_err();
    assert_eq!(reject.code, ErrorCode(*b"T00"));
    assert_eq!(reject.message, b"unexpected response code from peer".to_vec());
}

#[test]
fn test_incoming_400() {
    let result = client().handle_outcome(OutboundEvent::Response(400, Some(fulfill().encode())));
    let reject = result.unwrap_err();
    assert_eq!(reject.code, ErrorCode(*b"F00"));
    assert_eq!(reject.message, b"bad request to peer".to_vec());
}

#[test]
fn test_incoming_500() {
    let result = client().handle_outcome(OutboundEvent::Response(500, Some(fulfill().encode())));
    let reject = result.unwrap_err();
    assert_eq!(reject.code, ErrorCode(*b"T01"));
    assert_eq!(reject.message, b"peer internal error".to_vec());
}
