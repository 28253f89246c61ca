use reth_custom_db::db::{BlockEvent, EntityEvent, EventType};
use reth_custom_db::rpc::block_events::{block_event_from_notification, CanonStateNotification, ChainTip};
use reth_custom_db::rpc::notifier::EVENT_CHANNEL_CAPACITY;
use reth_custom_db::rpc::subscription::{
    EventSubscription, SubscriptionAction, SubscriptionInput, SubscriptionPhase,
};
use reth_custom_db::rpc::{internal_error, INTERNAL_ERROR_CODE};

fn saved(key: &str, value: &str) -> EntityEvent {
    EntityEvent::saved(key.to_string(), value.to_string())
}

/// Feeds `events` to an accepted subscription whose deliveries all succeed,
/// and returns the events it forwarded.
fn forwarded(filter: Option<&str>, events: Vec<EntityEvent>) -> Vec<EntityEvent> {
    let mut sub = EventSubscription::new(filter.map(|f| f.to_string()));
    assert_eq!(sub.step(SubscriptionInput::Accepted), SubscriptionAction::Receive);
    let mut out = Vec::new();
    for event in events {
        match sub.step(SubscriptionInput::Received(event)) {
            SubscriptionAction::Send(e) => {
                out.push(e);
                assert_eq!(sub.step(SubscriptionInput::Sent), SubscriptionAction::Receive);
            }
            SubscriptionAction::Receive => {}
            SubscriptionAction::Stop => panic!("subscription ended"),
        }
    }
    out
}

#[test]
fn save_and_delete_events() {
    assert_eq!(
        saved("k1", "v1"),
        EntityEvent { event: EventType::Saved, key: "k1".into(), value: Some("v1".into()) }
    );
    assert_eq!(
        EntityEvent::deleted("k1".to_string()),
        EntityEvent { event: EventType::Deleted, key: "k1".into(), value: None }
    );
    assert_eq!(
        EntityEvent::for_delete("k2".to_string(), true),
        Some(EntityEvent { event: EventType::Deleted, key: "k2".into(), value: None })
    );
    assert_eq!(EntityEvent::for_delete("k_nonexistent".to_string(), false), None);
}

#[test]
fn filter_passes_only_its_key() {
    let event = saved("k1", "v1");
    assert!(event.passes_filter(&None));
    assert!(event.passes_filter(&Some("k1".to_string())));
    assert!(!event.passes_filter(&Some("k2".to_string())));
    assert!(!event.passes_filter(&Some("k".to_string())));
}

#[test]
fn subscription_with_key_filter_skips_other_keys() {
    let out = forwarded(Some("k1"), vec![saved("k2", "v2"), saved("k1", "v1")]);
    assert_eq!(out, vec![saved("k1", "v1")]);
}

#[test]
fn subscription_without_filter_forwards_all_in_order() {
    let events = vec![
        saved("k1", "v1"),
        saved("k1", "v11"),
        saved("k2", "v2"),
        EntityEvent::deleted("k2".to_string()),
    ];
    assert_eq!(forwarded(None, events.clone()), events);
}

#[test]
fn subscription_with_no_matching_event_forwards_nothing() {
    let out = forwarded(Some("k1"), vec![saved("k2", "v2"), saved("k3", "v3")]);
    assert!(out.is_empty());
}

#[test]
fn subscription_ends_when_not_accepted() {
    let mut sub = EventSubscription::new(None);
    assert_eq!(sub.phase(), SubscriptionPhase::Accepting);
    assert_eq!(sub.step(SubscriptionInput::Rejected), SubscriptionAction::Stop);
    assert_eq!(sub.phase(), SubscriptionPhase::Finished);
    assert_eq!(sub.step(SubscriptionInput::Received(saved("k1", "v1"))), SubscriptionAction::Stop);
}

#[test]
fn subscription_ends_when_client_is_gone() {
    let mut sub = EventSubscription::new(None);
    sub.step(SubscriptionInput::Accepted);
    assert_eq!(
        sub.step(SubscriptionInput::Received(saved("k1", "v1"))),
        SubscriptionAction::Send(saved("k1", "v1"))
    );
    assert_eq!(sub.phase(), SubscriptionPhase::Sending);
    assert_eq!(sub.step(SubscriptionInput::SendFailed), SubscriptionAction::Stop);
    assert_eq!(sub.step(SubscriptionInput::Sent), SubscriptionAction::Stop);
    assert_eq!(sub.phase(), SubscriptionPhase::Finished);
}

#[test]
fn subscription_ends_with_the_channel() {
    let mut sub = EventSubscription::new(Some("k1".to_string()));
    sub.step(SubscriptionInput::Accepted);
    assert_eq!(sub.step(SubscriptionInput::ChannelEnded), SubscriptionAction::Stop);
    assert_eq!(sub.phase(), SubscriptionPhase::Finished);
}

#[test]
fn unexpected_input_ends_the_subscription() {
    let mut sub = EventSubscription::new(None);
    assert_eq!(sub.step(SubscriptionInput::Sent), SubscriptionAction::Stop);
    let mut sub = EventSubscription::new(None);
    sub.step(SubscriptionInput::Accepted);
    assert_eq!(sub.step(SubscriptionInput::Accepted), SubscriptionAction::Stop);
}

#[test]
fn block_event_describes_the_new_tip() {
    let tip = ChainTip {
        number: 1,
        hash: "0xabc".into(),
        parent_hash: "0x000".into(),
        timestamp: 1234567890,
        tx_count: 5,
    };
    let expected = BlockEvent {
        block_number: 1,
        block_hash: "0xabc".into(),
        parent_hash: "0x000".into(),
        timestamp: 1234567890,
        tx_count: 5,
    };
    let commit = CanonStateNotification::Commit { new: tip.clone() };
    assert_eq!(block_event_from_notification(&commit), expected);
    let old = ChainTip {
        number: 7,
        hash: "0xdef".into(),
        parent_hash: "0x111".into(),
        timestamp: 1,
        tx_count: 0,
    };
    let reorg = CanonStateNotification::Reorg { old, new: tip };
    assert_eq!(block_event_from_notification(&reorg), expected);
}

#[test]
fn internal_error_object() {
    let error = internal_error("boom".to_string());
    assert_eq!(error.code, -32000);
    assert_eq!(error.code, INTERNAL_ERROR_CODE);
    assert_eq!(error.message, "boom");
}

#[test]
fn event_channel_capacity() {
    assert_eq!(EVENT_CHANNEL_CAPACITY, 256);
}

#[test]
fn lagging_subscriber_keeps_receiving() {
    let mut sub = EventSubscription::new(Some("k1".to_string()));
    sub.step(SubscriptionInput::Accepted);
    assert_eq!(sub.step(SubscriptionInput::Lagged), SubscriptionAction::Receive);
    assert_eq!(sub.phase(), SubscriptionPhase::Receiving);
    assert_eq!(sub.step(SubscriptionInput::Lagged), SubscriptionAction::Receive);
    assert_eq!(
        sub.step(SubscriptionInput::Received(saved("k1", "v1"))),
        SubscriptionAction::Send(saved("k1", "v1"))
    );
    assert_eq!(sub.step(SubscriptionInput::Sent), SubscriptionAction::Receive);
}
