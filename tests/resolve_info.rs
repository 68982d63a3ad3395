use waku_test_automation::model::{ApiResponse, NodeInfo};
use waku_test_automation::resolve::{
    decode_node_info, info_step, resolve_from_replies, InfoError, InfoReply, InfoStep,
    INFO_RETRY_DELAY_SECS, MAX_INFO_ATTEMPTS,
};

fn info(enr: &str) -> NodeInfo {
    NodeInfo { enr_uri: enr.to_string(), listen_addresses: vec!["/ip4/127.0.0.1/tcp/60000".to_string()] }
}

fn good_body() -> InfoReply {
    InfoReply::Body { bare: Some(info("enr:-good")), wrapped: None }
}

#[test]
fn four_failures_then_success_resolves_on_fifth() {
    let replies = vec![
        InfoReply::Unreachable,
        InfoReply::Status(503),
        InfoReply::Unreachable,
        InfoReply::Status(500),
        good_body(),
    ];
    let (r, attempts) = resolve_from_replies(replies);
    assert_eq!(attempts, 5);
    assert_eq!(r.unwrap().enr_uri, "enr:-good");
}

#[test]
fn always_failing_exhausts_five_attempts() {
    let replies = vec![
        InfoReply::Unreachable,
        InfoReply::Unreachable,
        InfoReply::Unreachable,
        InfoReply::Unreachable,
        InfoReply::Unreachable,
        good_body(),
    ];
    let (r, attempts) = resolve_from_replies(replies);
    assert_eq!(attempts, 5);
    assert_eq!(r.unwrap_err(), InfoError::Exhausted { attempts: 5 });
    let (r, attempts) = resolve_from_replies(vec![]);
    assert_eq!(attempts, 5);
    assert_eq!(r.unwrap_err(), InfoError::Exhausted { attempts: 5 });
}

#[test]
fn malformed_body_fails_without_retry() {
    let replies = vec![
        InfoReply::Status(404),
        InfoReply::Body { bare: None, wrapped: None },
        good_body(),
    ];
    let (r, attempts) = resolve_from_replies(replies);
    assert_eq!(attempts, 2);
    assert_eq!(r.unwrap_err(), InfoError::Malformed);
}

#[test]
fn unreadable_body_fails_at_once() {
    let (r, attempts) = resolve_from_replies(vec![InfoReply::Unreadable, good_body()]);
    assert_eq!(attempts, 1);
    assert_eq!(r.unwrap_err(), InfoError::Unreadable);
}

#[test]
fn bare_and_enveloped_records_decode_alike() {
    let bare = decode_node_info(Some(info("enr:-same")), None).unwrap();
    let wrapped = decode_node_info(None, Some(ApiResponse { data: info("enr:-same") })).unwrap();
    assert_eq!(bare.enr_uri, wrapped.enr_uri);
    assert_eq!(bare.listen_addresses, wrapped.listen_addresses);
    let first = decode_node_info(Some(info("enr:-bare")), Some(ApiResponse { data: info("enr:-env") }));
    assert_eq!(first.unwrap().enr_uri, "enr:-bare");
    let (r, attempts) =
        resolve_from_replies(vec![InfoReply::Body { bare: None, wrapped: Some(ApiResponse { data: info("enr:-env") }) }]);
    assert_eq!(attempts, 1);
    assert_eq!(r.unwrap().enr_uri, "enr:-env");
}

#[test]
fn step_waits_two_seconds_between_attempts() {
    match info_step(1, InfoReply::Unreachable) {
        InfoStep::RetryAfter { delay_secs, next_attempt } => {
            assert_eq!(delay_secs, 2);
            assert_eq!(next_attempt, 2);
        }
        _ => panic!("expected a retry"),
    }
    assert_eq!(INFO_RETRY_DELAY_SECS, 2);
    match info_step(MAX_INFO_ATTEMPTS, InfoReply::Status(502)) {
        InfoStep::Failed(e) => assert_eq!(e, InfoError::Exhausted { attempts: 5 }),
        _ => panic!("expected failure"),
    }
    match info_step(3, good_body()) {
        InfoStep::Resolved(i) => assert_eq!(i.enr_uri, "enr:-good"),
        _ => panic!("expected resolution"),
    }
}
