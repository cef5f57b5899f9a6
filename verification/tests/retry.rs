use retry_connector::connector::{ConnectRequest, ScriptedConnector};
use retry_connector::message::{Body, RequestDescriptor, RequestHead, Version};
use retry_connector::outcome::{
    AttemptResult, ConnectionHandle, ResponseHead, ResponseOutcome, TransportError,
};
use retry_connector::policy::{AcceptAll, RejectServerErrors, Retry, RetryPolicy};
use retry_connector::service::RetryService;

fn sample_head() -> RequestHead {
    RequestHead {
        method: String::from("POST"),
        uri: String::from("http://example.test/items"),
        version: Version::Http11,
        peer_addr: Some(String::from("10.0.0.1:8080")),
        headers: vec![
            (String::from("accept"), String::from("text/plain")),
            (String::from("x-tag"), String::from("one")),
            (String::from("x-tag"), String::from("two")),
        ],
    }
}

fn empty_descriptor() -> RequestDescriptor {
    RequestDescriptor { head: sample_head(), body: Body::Empty }
}

fn response(status: u16) -> AttemptResult {
    AttemptResult::Success(ResponseOutcome::Direct {
        head: ResponseHead { status, version: Version::Http11, headers: vec![] },
        body: bytes::Bytes::new(),
    })
}

fn failure(kind: TransportError) -> AttemptResult {
    AttemptResult::TransportFailure(kind)
}

fn service_with(
    retries: u8,
    script: Vec<AttemptResult>,
) -> RetryService<ScriptedConnector, AcceptAll> {
    Retry::new(retries).new_transform(ScriptedConnector::new(script))
}

fn status_service(
    retries: u8,
    codes: Vec<u16>,
    script: Vec<AttemptResult>,
) -> RetryService<ScriptedConnector, AcceptAll> {
    Retry::new(retries)
        .policy(codes)
        .new_transform(ScriptedConnector::new(script))
}

#[test]
fn all_failures_exhaust_budget() {
    let mut svc = service_with(
        2,
        vec![
            failure(TransportError::Connect),
            failure(TransportError::Timeout),
            failure(TransportError::Send),
        ],
    );
    let res = svc.call(ConnectRequest::Client(empty_descriptor()));
    assert_eq!(svc.connector.calls_made(), 3);
    assert_eq!(res.unwrap_err(), TransportError::Send);
}

#[test]
fn stops_at_first_valid_success() {
    let mut svc = service_with(
        2,
        vec![failure(TransportError::Connect), response(200), response(201)],
    );
    let res = svc.call(ConnectRequest::Client(empty_descriptor()));
    assert_eq!(svc.connector.calls_made(), 2);
    match res {
        Ok(ResponseOutcome::Direct { head, .. }) => assert_eq!(head.status, 200),
        other => panic!("expected a direct response, got {:?}", other),
    }
}

#[test]
fn invalid_responses_exhaust_budget_and_surface_last() {
    let mut svc = status_service(
        1,
        vec![200],
        vec![response(500), response(502), response(200)],
    );
    let res = svc.call(ConnectRequest::Client(empty_descriptor()));
    assert_eq!(svc.connector.calls_made(), 2);
    match res {
        Ok(ResponseOutcome::Direct { head, .. }) => assert_eq!(head.status, 502),
        other => panic!("expected the last invalid response, got {:?}", other),
    }
}

#[test]
fn three_failures_then_success_with_budget_two() {
    let mut svc = service_with(
        2,
        vec![
            failure(TransportError::Connect),
            failure(TransportError::Connect),
            response(200),
        ],
    );
    let res = svc.call(ConnectRequest::Client(empty_descriptor()));
    assert_eq!(svc.connector.calls_made(), 3);
    match res {
        Ok(ResponseOutcome::Direct { head, .. }) => assert_eq!(head.status, 200),
        other => panic!("expected a direct response, got {:?}", other),
    }
}

#[test]
fn zero_budget_fails_immediately() {
    let mut svc = service_with(0, vec![failure(TransportError::Timeout), response(200)]);
    let res = svc.call(ConnectRequest::Client(empty_descriptor()));
    assert_eq!(svc.connector.calls_made(), 1);
    assert_eq!(res.unwrap_err(), TransportError::Timeout);
}

#[test]
fn status_policy_retries_then_accepts() {
    let mut svc = status_service(1, vec![200], vec![response(500), response(200)]);
    let res = svc.call(ConnectRequest::Client(empty_descriptor()));
    assert_eq!(svc.connector.calls_made(), 2);
    match res {
        Ok(ResponseOutcome::Direct { head, .. }) => assert_eq!(head.status, 200),
        other => panic!("expected the accepted response, got {:?}", other),
    }
}

#[test]
fn replayed_heads_are_identical_on_every_attempt() {
    let mut svc = service_with(
        2,
        vec![
            failure(TransportError::Connect),
            failure(TransportError::Timeout),
            response(200),
        ],
    );
    let desc = RequestDescriptor { head: sample_head(), body: Body::Empty };
    let _ = svc.call(ConnectRequest::Client(desc));
    let sent = svc.connector.received();
    assert_eq!(sent.len(), 3);
    let original = sample_head();
    for req in sent.iter() {
        match req {
            ConnectRequest::Client(d) => {
                assert_eq!(d.head, original);
                assert!(matches!(d.body, Body::Empty));
            }
            other => panic!("expected a client request, got {:?}", other),
        }
    }
}

#[test]
fn buffered_body_is_replayed_byte_for_byte() {
    let mut svc = service_with(2, vec![failure(TransportError::Connect), response(200)]);
    let desc = RequestDescriptor {
        head: sample_head(),
        body: Body::buffered(b"hello".to_vec()),
    };
    let res = svc.call(ConnectRequest::Client(desc));
    assert!(res.is_ok());
    let sent = svc.connector.received();
    assert_eq!(sent.len(), 2);
    for req in sent.iter() {
        match req {
            ConnectRequest::Client(d) => {
                assert_eq!(d.body.bytes_of().as_deref(), Some(b"hello".as_slice()));
            }
            other => panic!("expected a client request, got {:?}", other),
        }
    }
}

#[test]
fn unreplayable_body_is_sent_exactly_once() {
    let mut svc = status_service(
        5,
        vec![200],
        vec![response(500), response(200)],
    );
    let desc = RequestDescriptor { head: sample_head(), body: Body::Unreplayable };
    let res = svc.call(ConnectRequest::Client(desc));
    assert_eq!(svc.connector.calls_made(), 1);
    match res {
        Ok(ResponseOutcome::Direct { head, .. }) => assert_eq!(head.status, 500),
        other => panic!("expected the first response unmodified, got {:?}", other),
    }
}

#[test]
fn unreplayable_body_failure_is_not_retried() {
    let mut svc = service_with(5, vec![failure(TransportError::Send), response(200)]);
    let desc = RequestDescriptor { head: sample_head(), body: Body::Unreplayable };
    let res = svc.call(ConnectRequest::Client(desc));
    assert_eq!(svc.connector.calls_made(), 1);
    assert_eq!(res.unwrap_err(), TransportError::Send);
}

#[test]
fn tunnel_request_is_sent_exactly_once() {
    let tunnel_ok = AttemptResult::Success(ResponseOutcome::TunnelEstablished {
        head: ResponseHead { status: 101, version: Version::Http11, headers: vec![] },
        handle: ConnectionHandle { id: 7 },
    });
    let mut svc = service_with(5, vec![tunnel_ok, response(200)]);
    let res = svc.call(ConnectRequest::Tunnel(sample_head()));
    assert_eq!(svc.connector.calls_made(), 1);
    match res {
        Ok(ResponseOutcome::TunnelEstablished { head, handle }) => {
            assert_eq!(head.status, 101);
            assert_eq!(handle, ConnectionHandle { id: 7 });
        }
        other => panic!("expected the tunnel outcome, got {:?}", other),
    }
}

#[test]
fn tunnel_failure_is_not_retried() {
    let mut svc = service_with(5, vec![failure(TransportError::Connect), response(200)]);
    let res = svc.call(ConnectRequest::Tunnel(sample_head()));
    assert_eq!(svc.connector.calls_made(), 1);
    assert_eq!(res.unwrap_err(), TransportError::Connect);
}

#[test]
fn empty_policy_set_accepts_first_success() {
    let mut svc = service_with(3, vec![response(500)]);
    let res = svc.call(ConnectRequest::Client(empty_descriptor()));
    assert_eq!(svc.connector.calls_made(), 1);
    match res {
        Ok(ResponseOutcome::Direct { head, .. }) => assert_eq!(head.status, 500),
        other => panic!("expected the response, got {:?}", other),
    }
}

#[test]
fn custom_policy_is_consulted() {
    let mut svc = Retry::new(1)
        .policy(RetryPolicy::Custom(AcceptAll))
        .new_transform(ScriptedConnector::new(vec![response(500), response(200)]));
    let res = svc.call(ConnectRequest::Client(empty_descriptor()));
    assert_eq!(svc.connector.calls_made(), 1);
    match res {
        Ok(ResponseOutcome::Direct { head, .. }) => assert_eq!(head.status, 500),
        other => panic!("expected the first response, got {:?}", other),
    }
}

#[test]
fn policy_evaluation_applies_to_tunnel_outcomes_in_client_requests() {
    let tunnel_bad = AttemptResult::Success(ResponseOutcome::TunnelEstablished {
        head: ResponseHead { status: 500, version: Version::Http11, headers: vec![] },
        handle: ConnectionHandle { id: 1 },
    });
    let mut svc = status_service(1, vec![200], vec![tunnel_bad, response(200)]);
    let res = svc.call(ConnectRequest::Client(empty_descriptor()));
    assert_eq!(svc.connector.calls_made(), 2);
    match res {
        Ok(ResponseOutcome::Direct { head, .. }) => assert_eq!(head.status, 200),
        other => panic!("expected the accepted response, got {:?}", other),
    }
}

#[test]
fn rejecting_custom_policy_triggers_a_retry() {
    let mut svc = Retry::new(1)
        .policy(RetryPolicy::Custom(RejectServerErrors))
        .new_transform(ScriptedConnector::new(vec![response(503), response(200)]));
    let res = svc.call(ConnectRequest::Client(empty_descriptor()));
    assert_eq!(svc.connector.calls_made(), 2);
    match res {
        Ok(ResponseOutcome::Direct { head, .. }) => assert_eq!(head.status, 200),
        other => panic!("expected the accepted response, got {:?}", other),
    }
}

#[test]
fn all_policies_must_accept() {
    let mut svc: RetryService<ScriptedConnector, AcceptAll> = Retry::new(1)
        .policy(vec![200u16, 201])
        .policy(vec![200u16])
        .new_transform(ScriptedConnector::new(vec![response(201), response(200)]));
    let res = svc.call(ConnectRequest::Client(empty_descriptor()));
    assert_eq!(svc.connector.calls_made(), 2);
    match res {
        Ok(ResponseOutcome::Direct { head, .. }) => assert_eq!(head.status, 200),
        other => panic!("expected the response both policies accept, got {:?}", other),
    }
}

#[test]
fn readiness_delegates_to_inner_connector() {
    let svc = service_with(0, vec![]);
    assert!(svc.poll_ready());
}

#[test]
fn every_failure_kind_is_surfaced_verbatim() {
    for kind in [
        TransportError::Connect,
        TransportError::Timeout,
        TransportError::Send,
        TransportError::Response,
        TransportError::Other,
    ] {
        let mut svc = service_with(0, vec![failure(kind)]);
        let res = svc.call(ConnectRequest::Client(empty_descriptor()));
        assert_eq!(res.unwrap_err(), kind);
    }
}

#[test]
fn buffered_body_round_trip() {
    let body = Body::buffered(vec![0u8, 1, 2, 254, 255]);
    assert_eq!(body.bytes_of(), Some(vec![0u8, 1, 2, 254, 255]));
    assert_eq!(Body::Empty.bytes_of(), None);
    assert_eq!(Body::Unreplayable.bytes_of(), None);
}
