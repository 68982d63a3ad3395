use waku_test_automation::codec::{create_test_message, PayloadError};
use waku_test_automation::convergence::{
    any_connected, poll_converged, poll_due, wait_for_peer_scripted, PeerPoll, PEER_POLL_INTERVAL_SECS,
};
use waku_test_automation::gateway::{
    info_url, listing_outcome, peers_url, publish_outcome, publish_url, status_is_success,
    subscription_outcome, subscriptions_url, topic_messages_url, GatewayError,
};
use waku_test_automation::model::{PeerInfo, ReceivedMessage};
use waku_test_automation::provision::{
    containers_to_clean, network_cleanup_failures, network_outcome, node_cleanup_failures,
    CleanupAction, NetworkError, NETWORK_NAME,
};

fn peer(connected: bool) -> PeerInfo {
    PeerInfo { peer_id: "16Uiu2".to_string(), multiaddr: "/ip4/172.18.111.227/tcp/23172".to_string(), connected }
}

#[test]
fn converges_on_third_poll() {
    let polls = vec![
        PeerPoll::Listed(vec![]),
        PeerPoll::Listed(vec![peer(false)]),
        PeerPoll::Listed(vec![peer(false), peer(true)]),
    ];
    assert_eq!(wait_for_peer_scripted(&polls, 180), Some(2));
    assert_eq!(PEER_POLL_INTERVAL_SECS, 5);
}

#[test]
fn deadline_stops_polling() {
    let polls = vec![PeerPoll::Failed, PeerPoll::Listed(vec![peer(false)]), PeerPoll::Listed(vec![peer(true)])];
    assert_eq!(wait_for_peer_scripted(&polls, 10), None);
    assert_eq!(wait_for_peer_scripted(&polls, 11), Some(2));
    assert_eq!(wait_for_peer_scripted(&polls, 0), None);
    assert_eq!(wait_for_peer_scripted(&vec![PeerPoll::Failed], 180), None);
}

#[test]
fn poll_predicates() {
    assert!(!poll_converged(&PeerPoll::Failed));
    assert!(!poll_converged(&PeerPoll::Listed(vec![])));
    assert!(poll_converged(&PeerPoll::Listed(vec![peer(true)])));
    assert!(!any_connected(&vec![peer(false), peer(false)]));
    assert!(poll_due(4, 5));
    assert!(!poll_due(5, 5));
}

#[test]
fn status_policy() {
    assert!(status_is_success(200));
    assert!(status_is_success(299));
    assert!(!status_is_success(300));
    assert!(!status_is_success(199));
    assert_eq!(subscription_outcome(200), Ok(()));
    assert_eq!(subscription_outcome(500), Err(GatewayError::SubscriptionFailed { status: 500 }));
    assert_eq!(publish_outcome(204), Ok(()));
    assert_eq!(publish_outcome(400), Err(GatewayError::PublishFailed { status: 400 }));
}

#[test]
fn listings_on_failure_status_are_empty() {
    let r: Result<Vec<PeerInfo>, GatewayError> = listing_outcome(503, Some(vec![peer(true)]));
    assert!(r.unwrap().is_empty());
    let r: Result<Vec<ReceivedMessage>, GatewayError> = listing_outcome(404, None);
    assert!(r.unwrap().is_empty());
    let r = listing_outcome(200, Some(vec![peer(true)]));
    assert_eq!(r.unwrap().len(), 1);
    let r: Result<Vec<PeerInfo>, GatewayError> = listing_outcome(200, None);
    assert_eq!(r.unwrap_err(), GatewayError::MalformedListing);
}

#[test]
fn endpoint_urls() {
    assert_eq!(info_url(22161), "http://127.0.0.1:22161/debug/v1/info");
    assert_eq!(subscriptions_url(22161), "http://127.0.0.1:22161/relay/v1/auto/subscriptions");
    assert_eq!(publish_url(1), "http://127.0.0.1:1/relay/v1/auto/messages");
    assert_eq!(peers_url(23171), "http://127.0.0.1:23171/admin/v1/peers");
    assert_eq!(
        topic_messages_url(22161, "/my-app/2/chatroom-1/proto"),
        "http://127.0.0.1:22161/relay/v1/auto/messages/%2Fmy-app%2F2%2Fchatroom-1%2Fproto"
    );
    assert_eq!(topic_messages_url(8, "a b~é"), "http://127.0.0.1:8/relay/v1/auto/messages/a%20b~%C3%A9");
}

#[test]
fn publish_then_list_round_trip() {
    let topic = "/my-app/2/chatroom-1/proto";
    let sent = create_test_message("Relay works!!", topic, 1_700_000_000);
    assert_eq!(sent.payload, "UmVsYXkgd29ya3MhIQ==");
    assert_eq!(sent.content_topic, topic);
    assert_eq!(sent.timestamp, 1_700_000_000);
    let listed = vec![ReceivedMessage {
        payload: sent.payload.clone(),
        content_topic: sent.content_topic.clone(),
        timestamp: sent.timestamp,
    }];
    assert_eq!(listed.len(), 1);
    let bytes = listed[0].decoded_payload().unwrap();
    assert_eq!(String::from_utf8(bytes).unwrap(), "Relay works!!");
    assert_eq!(listed[0].content_topic, "/my-app/2/chatroom-1/proto");
}

#[test]
fn payload_edges() {
    assert_eq!(create_test_message("", "t", 0).payload, "");
    assert_eq!(create_test_message("Test message", "t", 0).payload, "VGVzdCBtZXNzYWdl");
    let bad = ReceivedMessage { payload: "not base64!".to_string(), content_topic: "t".to_string(), timestamp: 0 };
    assert_eq!(bad.decoded_payload(), Err(PayloadError::NotBase64));
    let noncanonical = ReceivedMessage { payload: "UmVsYXkgd29ya3MhIR==".to_string(), content_topic: "t".to_string(), timestamp: 0 };
    assert_eq!(noncanonical.decoded_payload(), Err(PayloadError::NotBase64));
}

#[test]
fn network_creation_is_idempotent() {
    assert!(network_outcome(None).is_ok());
    assert!(network_outcome(Some("network with name waku already exists".to_string())).is_ok());
    match network_outcome(Some("permission denied".to_string())) {
        Err(NetworkError::Runtime { message }) => assert_eq!(message, "permission denied"),
        Ok(()) => panic!("expected an error"),
    }
    assert_eq!(NETWORK_NAME, "waku");
}

#[test]
fn cleanup_of_removed_container_reports_both_steps() {
    let id = "deadbeef".to_string();
    let report = node_cleanup_failures(&id, Some("No such container".to_string()), Some("No such container".to_string()));
    assert_eq!(report.len(), 2);
    assert_eq!(report[0].action, CleanupAction::StopContainer);
    assert_eq!(report[1].action, CleanupAction::RemoveContainer);
    assert_eq!(report[1].target, "deadbeef");
    assert!(node_cleanup_failures(&id, None, None).is_empty());
    let only_remove = node_cleanup_failures(&id, None, Some("busy".to_string()));
    assert_eq!(only_remove.len(), 1);
    assert_eq!(only_remove[0].message, "busy");
    let net = network_cleanup_failures(&"waku".to_string(), Some("in use".to_string()));
    assert_eq!(net[0].action, CleanupAction::RemoveNetwork);
}

#[test]
fn containers_with_ids_are_cleaned() {
    let ids = vec![Some("a".to_string()), None, Some("b".to_string())];
    assert_eq!(containers_to_clean(&ids), vec!["a".to_string(), "b".to_string()]);
    assert!(containers_to_clean(&vec![]).is_empty());
}
