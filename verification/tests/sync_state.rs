use kukuri::ids::ChannelId;
use kukuri::sync_state::{
    begin_subscription, subscription_key_channel_id, SubscriptionTable, PublicTopicDelivery, PublicTopicDeliveryStatus,
    ReplicaSyncRestartDeadlines, SubscriptionGenerations,
};

#[test]
fn replica_restart_cooldown_is_five_seconds() {
    let mut deadlines = ReplicaSyncRestartDeadlines::new();
    assert!(deadlines.claim_replica_sync_restart("replica-a", 100));
    assert!(!deadlines.claim_replica_sync_restart("replica-a", 104));
    assert!(deadlines.claim_replica_sync_restart("replica-b", 104));
    assert!(deadlines.claim_replica_sync_restart("replica-a", 105));
}

#[test]
fn subscription_generations_count_up_per_key() {
    let mut generations = SubscriptionGenerations::new();
    assert_eq!(generations.next_subscription_generation("topic"), 1);
    assert_eq!(generations.next_subscription_generation("topic"), 2);
    assert_eq!(generations.next_subscription_generation("other"), 1);
}

#[test]
fn stale_generation_does_not_record_docs_activity() {
    let mut delivery = PublicTopicDelivery::new();
    delivery.reset_public_topic_delivery_generation("kukuri:topic:a", 2);
    delivery.record_public_topic_docs_activity_if_current("kukuri:topic:a", 1, 500);
    assert_eq!(
        delivery.public_topic_delivery_status("kukuri:topic:a"),
        Some(PublicTopicDeliveryStatus { generation: 2, last_docs_activity_at: None })
    );
    delivery.record_public_topic_docs_activity_if_current("kukuri:topic:a", 2, 600);
    assert_eq!(
        delivery.public_topic_delivery_status("kukuri:topic:a"),
        Some(PublicTopicDeliveryStatus { generation: 2, last_docs_activity_at: Some(600) })
    );
    delivery.record_public_topic_docs_activity_if_current("kukuri:topic:b", 2, 700);
    assert_eq!(delivery.public_topic_delivery_status("kukuri:topic:b"), None);
    delivery.clear_public_topic_delivery("kukuri:topic:a");
    assert_eq!(delivery.public_topic_delivery_status("kukuri:topic:a"), None);
    assert_eq!(
        PublicTopicDeliveryStatus::default(),
        PublicTopicDeliveryStatus { generation: 0, last_docs_activity_at: None }
    );
}

#[test]
fn channel_id_is_the_second_part_of_a_subscription_key() {
    assert_eq!(
        subscription_key_channel_id("kukuri:topic:demo::chan-1::replica"),
        Some("chan-1".to_string())
    );
    assert_eq!(subscription_key_channel_id("topic::chan"), Some("chan".to_string()));
    assert_eq!(subscription_key_channel_id("a:::b"), Some(":b".to_string()));
    assert_eq!(subscription_key_channel_id("no-separator"), None);
    assert_eq!(subscription_key_channel_id("a::"), Some(String::new()));
}

#[test]
fn subscription_setup_picks_key_table_and_public_tracking() {
    let mut generations = SubscriptionGenerations::new();
    let mut delivery = PublicTopicDelivery::new();
    let public = begin_subscription(&mut generations, &mut delivery, "kukuri:topic:a", None, None);
    assert_eq!(public.subscription_key, "kukuri:topic:a");
    assert!(public.public_topic);
    assert_eq!(public.table, SubscriptionTable::Topics);
    assert_eq!(public.generation, 1);
    assert_eq!(
        delivery.public_topic_delivery_status("kukuri:topic:a"),
        Some(PublicTopicDeliveryStatus { generation: 1, last_docs_activity_at: None })
    );
    let again = begin_subscription(&mut generations, &mut delivery, "kukuri:topic:a", None, None);
    assert_eq!(again.generation, 2);
    let channel = ChannelId::new("chan".to_string());
    let private = begin_subscription(
        &mut generations,
        &mut delivery,
        "kukuri:topic:b",
        Some(&channel),
        Some("kukuri:topic:b::chan::r1"),
    );
    assert_eq!(private.subscription_key, "kukuri:topic:b::chan::r1");
    assert!(!private.public_topic);
    assert_eq!(private.table, SubscriptionTable::PrivateChannels);
    assert_eq!(private.generation, 1);
    assert_eq!(delivery.public_topic_delivery_status("kukuri:topic:b"), None);
}
