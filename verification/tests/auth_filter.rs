use interledger_relay::auth::{AuthToken, AuthTokenFilter};
use interledger_relay::http::{FilterOutcome, HttpRequest};

fn post(authorization: Option<&[u8]>) -> HttpRequest {
    HttpRequest {
        method: b"POST".to_vec(),
        authorization: authorization.map(|a| a.to_vec()),
        body: Vec::new(),
    }
}

#[test]
fn test_service() {
    let service = AuthTokenFilter::new(vec![
        AuthToken::new(b"token_1".to_vec()),
        AuthToken::new(b"token_2".to_vec()),
    ]);

    // Correct token: the request passes through unchanged.
    match service.call(post(Some(b"token_1"))) {
        FilterOutcome::Forward(req) => assert_eq!(req, post(Some(b"token_1"))),
        FilterOutcome::Respond(resp) => panic!("expected forward, got {}", resp.status),
    }

    // No token.
    match service.call(post(None)) {
        FilterOutcome::Forward(_) => panic!("expected 401"),
        FilterOutcome::Respond(resp) => {
            assert_eq!(resp.status, 401);
            assert!(resp.body.is_empty());
        }
    }

    // Incorrect token.
    match service.call(post(Some(b"not_a_token"))) {
        FilterOutcome::Forward(_) => panic!("expected 401"),
        FilterOutcome::Respond(resp) => {
            assert_eq!(resp.status, 401);
            assert!(resp.body.is_empty());
        }
    }
}

#[test]
fn test_second_token_accepted() {
    let service = AuthTokenFilter::new(vec![
        AuthToken::new(b"token_1".to_vec()),
        AuthToken::new(b"token_2".to_vec()),
    ]);
    assert!(service.accepts(b"token_2"));
    assert!(!service.accepts(b"token_22"));
    assert!(!service.accepts(b"token_"));
}

#[test]
fn test_empty_token_set_accepts_nothing() {
    let service = AuthTokenFilter::new(Vec::new());
    assert!(!service.accepts(b""));
    assert!(!service.accepts(b"anything"));
}
