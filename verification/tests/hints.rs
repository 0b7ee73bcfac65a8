use kukuri::envelope::{DirectMessageAckV1, GossipHint, HintObjectRef};
use kukuri::hints::{
    channel_hint_topic_for, classify_doc_key, hint_event_action, hint_hydration_plan,
    hint_targets_topic, live_presence_expires_at, DocKeyKind, HintEventAction, HydrationStep,
    HydrationTarget, HintHydrationTally,
};
use kukuri::ids::{BlobHash, ChannelId, EnvelopeId, Pubkey, TopicId};

fn topic(s: &str) -> TopicId {
    TopicId::new(s.to_string())
}

#[test]
fn topicless_hints_target_every_topic() {
    let thread = GossipHint::ThreadUpdated {
        root_id: EnvelopeId::new("root".to_string()),
        object_ids: Vec::new(),
    };
    assert!(hint_targets_topic(&thread, "kukuri:topic:any"));
    let profile = GossipHint::ProfileUpdated { author: Pubkey::new("pk".to_string()) };
    assert!(hint_targets_topic(&profile, "kukuri:topic:other"));
    let ack = GossipHint::DirectMessageAck {
        topic_id: topic("dm:1"),
        ack: DirectMessageAckV1 { document_json: "{}".to_string() },
    };
    assert!(hint_targets_topic(&ack, "dm:1"));
    assert!(!hint_targets_topic(&ack, "dm:2"));
}

#[test]
fn doc_keys_are_classified_by_prefix_and_state_suffix() {
    assert_eq!(classify_doc_key("objects/abc/state"), DocKeyKind::ObjectState);
    assert_eq!(classify_doc_key("reactions/abc/x/state"), DocKeyKind::ReactionState);
    assert_eq!(classify_doc_key("sessions/live/s1/state"), DocKeyKind::LiveSessionState);
    assert_eq!(classify_doc_key("sessions/game/g1/state"), DocKeyKind::GameSessionState);
    assert_eq!(classify_doc_key("objects/abc/payload"), DocKeyKind::Other);
    assert_eq!(classify_doc_key("profiles/abc/state"), DocKeyKind::Other);
    assert_eq!(classify_doc_key("objects/state"), DocKeyKind::ObjectState);
}

#[test]
fn topic_object_hints_plan_exact_objects_and_reaction_targets() {
    let hint = GossipHint::TopicObjectsChanged {
        topic_id: topic("kukuri:topic:t"),
        objects: vec![
            HintObjectRef { object_id: "post-1".to_string(), object_kind: "post".to_string() },
            HintObjectRef { object_id: "post-2".to_string(), object_kind: "reaction".to_string() },
        ],
    };
    assert_eq!(
        hint_hydration_plan(&hint),
        vec![
            HydrationStep { target: HydrationTarget::ObjectState, id: "post-1".to_string() },
            HydrationStep { target: HydrationTarget::ReactionsForTarget, id: "post-2".to_string() },
        ]
    );
}

#[test]
fn thread_and_session_hints_plan_their_targets() {
    let thread = GossipHint::ThreadUpdated {
        root_id: EnvelopeId::new("root".to_string()),
        object_ids: vec![EnvelopeId::new("r1".to_string()), EnvelopeId::new("r2".to_string())],
    };
    assert_eq!(
        hint_hydration_plan(&thread),
        vec![
            HydrationStep { target: HydrationTarget::ObjectState, id: "r1".to_string() },
            HydrationStep { target: HydrationTarget::ObjectState, id: "r2".to_string() },
        ]
    );
    let live = GossipHint::SessionChanged {
        topic_id: topic("t"),
        session_id: "s1".to_string(),
        object_kind: "live-session".to_string(),
    };
    assert_eq!(
        hint_hydration_plan(&live),
        vec![HydrationStep { target: HydrationTarget::LiveSession, id: "s1".to_string() }]
    );
    let game = GossipHint::SessionChanged {
        topic_id: topic("t"),
        session_id: "g1".to_string(),
        object_kind: "game-session".to_string(),
    };
    assert_eq!(
        hint_hydration_plan(&game),
        vec![HydrationStep { target: HydrationTarget::GameRoom, id: "g1".to_string() }]
    );
    let other = GossipHint::SessionChanged {
        topic_id: topic("t"),
        session_id: "x".to_string(),
        object_kind: "other".to_string(),
    };
    assert!(hint_hydration_plan(&other).is_empty());
    let presence = GossipHint::Presence { topic_id: topic("t"), author: Pubkey::new("a".to_string()), ttl_ms: 5 };
    assert!(hint_hydration_plan(&presence).is_empty());
}

#[test]
fn hint_actions_follow_the_hint_kind() {
    let live = GossipHint::LivePresence {
        topic_id: topic("t"),
        session_id: "s".to_string(),
        author: Pubkey::new("a".to_string()),
        ttl_ms: 1_000,
    };
    assert_eq!(hint_event_action(&live, false), HintEventAction::UpsertLivePresence);
    let blob = GossipHint::BlobAvailable {
        topic_id: topic("t"),
        hash: BlobHash::new("h".to_string()),
        mime: "image/png".to_string(),
        bytes: 1,
    };
    assert_eq!(hint_event_action(&blob, true), HintEventAction::RecordBlobAnnouncement);
    assert_eq!(hint_event_action(&blob, false), HintEventAction::Ignore);
    let frame = GossipHint::DirectMessageFrame {
        topic_id: topic("t"),
        dm_id: "dm".to_string(),
        message_id: "m".to_string(),
        frame_hash: BlobHash::new("h".to_string()),
    };
    assert_eq!(hint_event_action(&frame, true), HintEventAction::Hydrate);
    assert_eq!(live_presence_expires_at(10_000, 1_500), 11_500);
}

#[test]
fn channel_hint_topics() {
    assert_eq!(channel_hint_topic_for("kukuri:topic:t", None).as_str(), "kukuri:topic:t");
    let channel = ChannelId::new("abc".to_string());
    assert_eq!(channel_hint_topic_for("kukuri:topic:t", Some(&channel)).as_str(), "private/abc");
}

#[test]
fn hint_hydration_tally_sums_counts_until_a_step_fails() {
    let mut tally = HintHydrationTally::new();
    assert!(tally.continues());
    tally.record(Some(2));
    tally.record(Some(3));
    assert_eq!(tally.hydrated(), 5);
    assert_eq!(tally.total(), 5);
    tally.record(None);
    assert!(!tally.continues());
    assert_eq!(tally.hydrated(), 5);
    assert_eq!(tally.total(), 0);
}

#[test]
fn hint_hydration_tally_starts_empty() {
    let tally = HintHydrationTally::new();
    assert_eq!(tally.total(), 0);
    assert!(tally.continues());
}
