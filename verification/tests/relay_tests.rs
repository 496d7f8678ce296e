use interledger_relay::client::{ClientBuilder, ClientStep, OutboundEvent};
use interledger_relay::packet::{ErrorCode, Fulfill, Prepare, Reject};
use interledger_relay::relay::{NextHop, Relay, Route};

static ADDRESS: &[u8] = b"example.relay";
static RECEIVER_ORIGIN: &[u8] = b"http://127.0.0.1:3001";
const NOW: u64 = 1_700_000_000_000_000;

const CONDITION: [u8; 32] = [
    0x11, 0x7b, 0x43, 0x4f, 0x1a, 0x54, 0xe9, 0x04, 0x4f, 0x4f, 0x54, 0x92, 0x3b, 0x2c, 0xff,
    0x9e, 0x4a, 0x6d, 0x42, 0x0a, 0xe2, 0x81, 0xd5, 0x02, 0x5d, 0x7b, 0xb0, 0x40, 0xc4, 0xb4,
    0xc0, 0x4a,
];

fn prepare() -> Prepare {
    Prepare {
        amount: 123,
        expires_at: NOW + 20_000_000,
        execution_condition: CONDITION,
        destination: b"test.bob.1234".to_vec(),
        data: b"prepare data".to_vec(),
    }
}

fn fulfill() -> Fulfill {
    Fulfill {
        fulfillment: CONDITION,
        data: b"fulfill data".to_vec(),
    }
}

fn endpoint(path: &str) -> Vec<u8> {
    let mut url = RECEIVER_ORIGIN.to_vec();
    url.extend_from_slice(path.as_bytes());
    url
}

fn routes() -> Vec<Route> {
    vec![
        Route::new(
            b"test.alice.".to_vec(),
            NextHop::new(endpoint("/alice"), Some(b"alice_auth".to_vec())),
        ),
        Route::new(
            b"test.bob.".to_vec(),
            NextHop::new(endpoint("/bob"), Some(b"bob_auth".to_vec())),
        ),
        Route::new(
            b"".to_vec(),
            NextHop::new(endpoint("/default"), Some(b"default_auth".to_vec())),
        ),
    ]
}

fn relay() -> Relay {
    Relay::new(ClientBuilder::new(ADDRESS.to_vec()).build(), routes())
}

#[test]
fn relay_test_outgoing_request() {
    let out = match relay().forward(&prepare(), NOW) {
        ClientStep::Send(out) => out,
        ClientStep::Reject(j) => panic!("unexpected reject: {:?}", j),
    };
    assert_eq!(out.method, b"POST".to_vec());
    assert_eq!(out.endpoint, endpoint("/bob"));
    assert_eq!(out.auth, Some(b"bob_auth".to_vec()));
    assert!(out.octet_stream);
    assert_eq!(out.body, prepare().encode());

    let result = relay()
        .client
        .handle_outcome(OutboundEvent::Response(200, Some(fulfill().encode())));
    assert_eq!(result.unwrap(), fulfill());
}

#[test]
fn test_no_route() {
    let expect_reject = Reject {
        code: ErrorCode(*b"F02"),
        message: b"no route found".to_vec(),
        triggered_by: b"example.relay".to_vec(),
        data: Vec::new(),
    };
    // Only the alice route: test.bob.1234 resolves nowhere.
    let relay = Relay::new(
        ClientBuilder::new(ADDRESS.to_vec()).build(),
        vec![routes().remove(0)],
    );
    match relay.forward(&prepare(), NOW) {
        ClientStep::Send(_) => panic!("nothing may be sent without a route"),
        ClientStep::Reject(reject) => assert_eq!(reject, expect_reject),
    }
}

#[test]
fn test_set_routes() {
    let mut relay = relay();
    relay.set_routes(vec![Route::new(
        b"test.bob.".to_vec(),
        NextHop::new(endpoint("/new_bob"), None),
    )]);
    let out = match relay.forward(&prepare(), NOW) {
        ClientStep::Send(out) => out,
        ClientStep::Reject(j) => panic!("unexpected reject: {:?}", j),
    };
    assert_eq!(out.endpoint, endpoint("/new_bob"));
    assert_eq!(out.auth, None);

    let result = relay
        .client
        .handle_outcome(OutboundEvent::Response(200, Some(fulfill().encode())));
    assert_eq!(result.unwrap(), fulfill());
}
