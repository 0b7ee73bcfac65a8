use kukuri::envelope::GossipHint;
use kukuri::hints::{
    blob_available_announcement, blobs_to_announce, hint_targets_topic, BlobCacheStatus, BlobRef,
    PayloadRef,
};
use kukuri::ids::{BlobHash, ChannelId, TopicId};

#[test]
fn blob_available_hint_targets_topic_matches() {
    let topic = "kukuri:topic:blob-hint-test";
    let hint = GossipHint::BlobAvailable {
        topic_id: TopicId::new(topic.to_string()),
        hash: BlobHash::new("deadbeef".to_string()),
        mime: "image/png".into(),
        bytes: 12,
    };
    assert!(hint_targets_topic(&hint, topic));
    assert!(!hint_targets_topic(&hint, "kukuri:topic:other"));
}

#[test]
fn public_blob_announcement_goes_to_the_topic() {
    let topic = "kukuri:topic:blob-announce-integration";
    let (hint_topic, hint) = blob_available_announcement(
        topic,
        None,
        &BlobHash::new("abc123".to_string()),
        "text/plain",
        5,
    );
    assert_eq!(hint_topic.as_str(), topic);
    assert_eq!(
        hint,
        GossipHint::BlobAvailable {
            topic_id: TopicId::new(topic.to_string()),
            hash: BlobHash::new("abc123".to_string()),
            mime: "text/plain".to_string(),
            bytes: 5,
        }
    );
    assert!(hint_targets_topic(&hint, topic));
}

#[test]
fn private_blob_announcement_goes_to_the_channel_hint_topic() {
    let channel = ChannelId::new("chan-1".to_string());
    let (hint_topic, hint) = blob_available_announcement(
        "kukuri:topic:t",
        Some(&channel),
        &BlobHash::new("h".to_string()),
        "image/png",
        12,
    );
    assert_eq!(hint_topic.as_str(), "private/chan-1");
    assert!(hint_targets_topic(&hint, "kukuri:topic:t"));
}

fn blob(hash: &str, mime: &str, bytes: u64) -> BlobRef {
    BlobRef { hash: BlobHash::new(hash.to_string()), mime: mime.to_string(), bytes }
}

#[test]
fn only_available_blobs_are_offered_for_announcement() {
    let text = PayloadRef::BlobText {
        hash: BlobHash::new("text".to_string()),
        mime: "text/plain".to_string(),
        bytes: 5,
    };
    let attachments = vec![blob("img", "image/png", 10), blob("vid", "video/mp4", 20)];
    let statuses = vec![BlobCacheStatus::Missing, BlobCacheStatus::Available];
    assert_eq!(
        blobs_to_announce(true, true, &text, BlobCacheStatus::Available, &attachments, &statuses),
        vec![blob("text", "text/plain", 5), blob("vid", "video/mp4", 20)]
    );
    assert_eq!(
        blobs_to_announce(true, true, &text, BlobCacheStatus::Missing, &attachments, &statuses),
        vec![blob("vid", "video/mp4", 20)]
    );
    let inline = PayloadRef::InlineText { text: "hi".to_string() };
    assert!(blobs_to_announce(
        true,
        true,
        &inline,
        BlobCacheStatus::Available,
        &attachments,
        &vec![BlobCacheStatus::Missing, BlobCacheStatus::Missing]
    )
    .is_empty());
    assert!(blobs_to_announce(false, true, &text, BlobCacheStatus::Available, &attachments, &statuses)
        .is_empty());
    assert!(blobs_to_announce(true, false, &text, BlobCacheStatus::Available, &attachments, &statuses)
        .is_empty());
}
