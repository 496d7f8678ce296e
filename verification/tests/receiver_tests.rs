use interledger_relay::packet::{ErrorCode, Fulfill, Prepare, Reject};
use interledger_relay::receiver::{make_http_response, receive, ReceiverStep};

const NOW: u64 = 1_700_000_000_000_000;

const CONDITION: [u8; 32] = [
    0x11, 0x7b, 0x43, 0x4f, 0x1a, 0x54, 0xe9, 0x04, 0x4f, 0x4f, 0x54, 0x92, 0x3b, 0x2c, 0xff,
    0x9e, 0x4a, 0x6d, 0x42, 0x0a, 0xe2, 0x81, 0xd5, 0x02, 0x5d, 0x7b, 0xb0, 0x40, 0xc4, 0xb4,
    0xc0, 0x4a,
];

fn prepare() -> Prepare {
    Prepare {
        amount: 123,
        expires_at: NOW + 20_000_000,
        execution_condition: CONDITION,
        destination: b"test.bob.1234".to_vec(),
        data: b"prepare data".to_vec(),
    }
}

fn fulfill() -> Fulfill {
    Fulfill {
        fulfillment: CONDITION,
        data: b"fulfill data".to_vec(),
    }
}

fn reject() -> Reject {
    Reject {
        code: ErrorCode(*b"F99"),
        message: b"Some error".to_vec(),
        triggered_by: b"example.connector".to_vec(),
        data: b"reject data".to_vec(),
    }
}

fn assert_packet_response(packet: Result<Fulfill, Reject>) {
    let expected_body = match &packet {
        Ok(f) => f.encode(),
        Err(j) => j.encode(),
    };
    let response = make_http_response(packet);
    assert_eq!(response.status, 200);
    assert!(response.octet_stream);
    assert_eq!(response.content_length, response.body.len());
    assert_eq!(response.body, expected_body);
}

#[test]
fn test_prepare() {
    match receive(&prepare().encode()) {
        ReceiverStep::Forward(p) => assert_eq!(p, prepare()),
        ReceiverStep::Respond(resp) => panic!("expected forward, got {}", resp.status),
    }
    assert_packet_response(Ok(fulfill()));
    assert_packet_response(Err(reject()));
}

#[test]
fn test_call() {
    // Both outcomes of the inner service travel back the same way.
    match receive(&prepare().encode()) {
        ReceiverStep::Forward(p) => assert_eq!(p, prepare()),
        ReceiverStep::Respond(resp) => panic!("expected forward, got {}", resp.status),
    }
    assert_packet_response(Ok(fulfill()));
    assert_packet_response(Err(reject()));
}

#[test]
fn test_bad_request() {
    match receive(b"this is not a prepare") {
        ReceiverStep::Forward(p) => panic!("nothing may go inward: {:?}", p),
        ReceiverStep::Respond(response) => {
            assert_eq!(response.status, 400);
            assert_eq!(response.body, b"Error parsing ILP Prepare".to_vec());
            assert_eq!(response.content_length, response.body.len());
        }
    }
}

#[test]
fn test_fulfill_body_is_not_a_prepare() {
    // A well-formed packet of the wrong kind is refused at the boundary.
    match receive(&fulfill().encode()) {
        ReceiverStep::Forward(p) => panic!("nothing may go inward: {:?}", p),
        ReceiverStep::Respond(response) => assert_eq!(response.status, 400),
    }
}
