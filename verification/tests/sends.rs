//! Sends and retries in flight.

use thinwire_core::protocol::ProtocolId;
use thinwire_core::sends::{Pending, SEND_TIMEOUT, SendTracker};

#[test]
fn one_send_per_chat_and_the_same_chat_id_in_two_protocols_does_not_block() {
    let mut sends = SendTracker::default();
    let first = sends
        .begin_send(ProtocolId::Slack, "c1", "hi", 0)
        .expect("first");
    assert!(sends.begin_send(ProtocolId::Slack, "c1", "again", 0).is_none());
    assert!(sends.begin_retry(ProtocolId::Slack, "c1", "m1", 0).is_none());
    let other = sends
        .begin_send(ProtocolId::Discord, "c1", "hi", 0)
        .expect("another protocol");
    assert_ne!(first, other, "request ids are unique for the app");
    assert!(sends.in_flight(ProtocolId::Slack, "c1"));
    assert!(!sends.in_flight(ProtocolId::Slack, "c2"));
}

#[test]
fn only_the_matching_request_settles() {
    let mut sends = SendTracker::default();
    let request = sends
        .begin_send(ProtocolId::Telegram, "telegram:1", "hi", 0)
        .expect("send");
    assert_eq!(
        sends.settle(ProtocolId::Telegram, "telegram:1", request + 7),
        None
    );
    assert!(sends.in_flight(ProtocolId::Telegram, "telegram:1"));
    assert_eq!(
        sends.settle(ProtocolId::Telegram, "telegram:1", request),
        Some(Pending::Send {
            request,
            body: "hi".into()
        })
    );
    assert!(!sends.in_flight(ProtocolId::Telegram, "telegram:1"));
    assert_eq!(
        sends.settle(ProtocolId::Telegram, "telegram:1", request),
        None
    );
}

#[test]
fn a_retry_is_tracked_like_a_send() {
    let mut sends = SendTracker::default();
    let request = sends
        .begin_retry(ProtocolId::WhatsApp, "wa:1", "wa:1:9", 0)
        .expect("retry");
    assert!(
        sends
            .begin_send(ProtocolId::WhatsApp, "wa:1", "new", 0)
            .is_none()
    );
    assert_eq!(
        sends.settle(ProtocolId::WhatsApp, "wa:1", request),
        Some(Pending::Retry {
            request,
            message_id: "wa:1:9".into()
        })
    );
}

#[test]
fn drop_protocol_clears_only_that_protocol() {
    let mut sends = SendTracker::default();
    sends.begin_send(ProtocolId::Slack, "c1", "a", 0);
    sends.begin_retry(ProtocolId::Slack, "c2", "m", 0);
    sends.begin_send(ProtocolId::Telegram, "telegram:1", "b", 0);
    sends.drop_protocol(ProtocolId::Slack);
    assert!(!sends.in_flight(ProtocolId::Slack, "c1"));
    assert!(!sends.in_flight(ProtocolId::Slack, "c2"));
    assert!(sends.in_flight(ProtocolId::Telegram, "telegram:1"));
}

#[test]
fn a_send_expires_after_its_time() {
    let mut sends = SendTracker::default();
    let request = sends
        .begin_send(ProtocolId::Slack, "c1", "a", 5)
        .expect("send");
    assert_eq!(sends.next_deadline(), Some(5 + SEND_TIMEOUT));
    assert!(sends.expire(4 + SEND_TIMEOUT).is_empty());
    assert!(sends.in_flight(ProtocolId::Slack, "c1"));
    assert_eq!(sends.expire(5 + SEND_TIMEOUT).len(), 1);
    assert!(!sends.in_flight(ProtocolId::Slack, "c1"));
    assert!(sends.is_empty() || sends.next_deadline().is_none());
    assert!(
        sends
            .settle_expired(ProtocolId::Slack, "c1", request)
            .is_some(),
        "a late answer still finds its send"
    );
    assert!(
        sends
            .settle_expired(ProtocolId::Slack, "c1", request)
            .is_none()
    );
}
