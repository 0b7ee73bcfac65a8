use kukuri::channels::{
    private_channel_diagnostics, ChannelSharingState, PrivateChannelDiagnostics, RedemptionAction,
    RedemptionEvent, RotationRedemption,
    audience_label_for_storage, check_repost_source, epoch_handoff_applies,
    is_registered_participant, rotated_policy_matches, rotation_required,
    should_auto_rotate_for_owner, stale_participant_count, ChannelAudienceKind, EpochParticipant,
    ParticipantRelationship, PrivateChannelOwnerAction, RepostSourceError,
};
use kukuri::ids::EnvelopeId;
use kukuri::timeline::ObjectProjectionRow;

#[test]
fn storage_labels() {
    assert_eq!(audience_label_for_storage("public", Some("ignored")), "Public");
    assert_eq!(audience_label_for_storage("chan", Some("Friends")), "Friends");
    assert_eq!(audience_label_for_storage("chan", None), "Private channel");
}

#[test]
fn stale_participants_only_count_for_owned_friend_only_channels() {
    let participants = vec![
        ParticipantRelationship { is_owner: true, mutual: Some(false) },
        ParticipantRelationship { is_owner: false, mutual: Some(false) },
        ParticipantRelationship { is_owner: false, mutual: Some(true) },
        ParticipantRelationship { is_owner: false, mutual: None },
        ParticipantRelationship { is_owner: false, mutual: Some(false) },
    ];
    assert_eq!(stale_participant_count(ChannelAudienceKind::FriendOnly, true, &participants), 2);
    assert_eq!(stale_participant_count(ChannelAudienceKind::FriendOnly, false, &participants), 0);
    assert_eq!(stale_participant_count(ChannelAudienceKind::InviteOnly, true, &participants), 0);
    assert!(rotation_required(ChannelAudienceKind::FriendOnly, 2));
    assert!(!rotation_required(ChannelAudienceKind::FriendOnly, 0));
    assert!(!rotation_required(ChannelAudienceKind::FriendPlus, 3));
}

#[test]
fn owner_actions_that_rotate() {
    assert!(should_auto_rotate_for_owner(true, ChannelAudienceKind::InviteOnly, PrivateChannelOwnerAction::Share, false));
    assert!(!should_auto_rotate_for_owner(true, ChannelAudienceKind::InviteOnly, PrivateChannelOwnerAction::Write, true));
    assert!(should_auto_rotate_for_owner(true, ChannelAudienceKind::FriendPlus, PrivateChannelOwnerAction::Share, false));
    assert!(should_auto_rotate_for_owner(true, ChannelAudienceKind::FriendOnly, PrivateChannelOwnerAction::Write, true));
    assert!(!should_auto_rotate_for_owner(true, ChannelAudienceKind::FriendOnly, PrivateChannelOwnerAction::Share, false));
    assert!(!should_auto_rotate_for_owner(false, ChannelAudienceKind::InviteOnly, PrivateChannelOwnerAction::Share, true));
}

#[test]
fn epoch_handoff_checks() {
    let known = vec!["epoch-1".to_string(), "epoch-0".to_string()];
    assert!(epoch_handoff_applies("epoch-1", "epoch-2", "epoch-1", &known));
    assert!(!epoch_handoff_applies("epoch-0", "epoch-2", "epoch-1", &known));
    assert!(!epoch_handoff_applies("epoch-1", "epoch-0", "epoch-1", &known));
    assert!(rotated_policy_matches(ChannelAudienceKind::FriendOnly, ChannelAudienceKind::FriendOnly, "e2", Some("e1"), "e1", "e2"));
    assert!(!rotated_policy_matches(ChannelAudienceKind::FriendPlus, ChannelAudienceKind::FriendOnly, "e2", Some("e1"), "e1", "e2"));
    assert!(!rotated_policy_matches(ChannelAudienceKind::FriendOnly, ChannelAudienceKind::FriendOnly, "e3", Some("e1"), "e1", "e2"));
    assert!(!rotated_policy_matches(ChannelAudienceKind::FriendOnly, ChannelAudienceKind::FriendOnly, "e2", None, "e1", "e2"));
}

#[test]
fn registered_participants() {
    let participants = vec![
        EpochParticipant { participant_pubkey: "me".to_string(), epoch_id: "e1".to_string(), left_at: None },
        EpochParticipant { participant_pubkey: "me".to_string(), epoch_id: "e2".to_string(), left_at: Some(5) },
    ];
    assert!(is_registered_participant(&participants, "me", "e1"));
    assert!(!is_registered_participant(&participants, "me", "e2"));
    assert!(!is_registered_participant(&participants, "you", "e1"));
}

fn row(topic: &str, channel: &str, kind: &str) -> ObjectProjectionRow {
    ObjectProjectionRow {
        object_id: EnvelopeId::new("o".to_string()),
        topic_id: topic.to_string(),
        channel_id: channel.to_string(),
        object_kind: kind.to_string(),
        content: None,
    }
}

#[test]
fn repost_sources_must_be_public_posts_or_comments_of_the_topic() {
    assert_eq!(check_repost_source(&row("t", "public", "post"), "t"), Ok(()));
    assert_eq!(check_repost_source(&row("t", "public", "comment"), "t"), Ok(()));
    assert_eq!(
        check_repost_source(&row("u", "public", "post"), "t"),
        Err(RepostSourceError::TopicMismatch)
    );
    assert_eq!(
        check_repost_source(&row("t", "chan", "post"), "t"),
        Err(RepostSourceError::NotPublicPostOrComment)
    );
    assert_eq!(
        check_repost_source(&row("t", "public", "repost"), "t"),
        Err(RepostSourceError::NotPublicPostOrComment)
    );
    assert_eq!(
        RepostSourceError::NotPublicPostOrComment.message(),
        "only public posts and comments can be reposted"
    );
}

#[test]
fn diagnostics_fall_back_to_open_sharing() {
    let participants = vec![
        ParticipantRelationship { is_owner: true, mutual: None },
        ParticipantRelationship { is_owner: false, mutual: Some(false) },
    ];
    assert_eq!(
        private_channel_diagnostics(None, ChannelAudienceKind::FriendOnly, true, &participants),
        PrivateChannelDiagnostics {
            sharing_state: ChannelSharingState::Open,
            participant_count: 2,
            stale_participant_count: 1,
            rotation_required: true,
        }
    );
    assert_eq!(
        private_channel_diagnostics(
            Some(ChannelSharingState::Frozen),
            ChannelAudienceKind::InviteOnly,
            true,
            &participants
        ),
        PrivateChannelDiagnostics {
            sharing_state: ChannelSharingState::Frozen,
            participant_count: 2,
            stale_participant_count: 0,
            rotation_required: false,
        }
    );
}

#[test]
fn redemption_loop_redeems_one_handoff_then_stops() {
    let (mut loop_state, first) = RotationRedemption::new();
    assert_eq!(first, RedemptionAction::LoadJoinedState);
    assert_eq!(
        loop_state.advance(RedemptionEvent::JoinedState { present: true }),
        RedemptionAction::FetchLocalGrant
    );
    assert_eq!(
        loop_state.advance(RedemptionEvent::LocalGrant { found: false }),
        RedemptionAction::CheckPeers
    );
    assert_eq!(
        loop_state.advance(RedemptionEvent::Peers { connected: true }),
        RedemptionAction::RestartSyncAndFetchRemoteGrant
    );
    assert_eq!(
        loop_state.advance(RedemptionEvent::RemoteGrant { found: true }),
        RedemptionAction::DecryptGrant
    );
    assert_eq!(
        loop_state.advance(RedemptionEvent::GrantDecrypted { decrypted: true, applies: true }),
        RedemptionAction::AdoptNextEpoch
    );
    assert_eq!(
        loop_state.advance(RedemptionEvent::EpochSnapshot {
            loaded: true,
            policy_matches: true,
            participant_registered: false
        }),
        RedemptionAction::PersistParticipant
    );
    assert_eq!(
        loop_state.advance(RedemptionEvent::ParticipantPersisted),
        RedemptionAction::RegisterJoinedState
    );
    assert_eq!(
        loop_state.advance(RedemptionEvent::JoinedStateRegistered),
        RedemptionAction::LoadJoinedState
    );
    assert_eq!(
        loop_state.advance(RedemptionEvent::JoinedState { present: true }),
        RedemptionAction::FetchLocalGrant
    );
    assert_eq!(
        loop_state.advance(RedemptionEvent::LocalGrant { found: true }),
        RedemptionAction::DecryptGrant
    );
    assert_eq!(
        loop_state.advance(RedemptionEvent::GrantDecrypted { decrypted: true, applies: false }),
        RedemptionAction::Finish { redeemed: true }
    );
}

#[test]
fn redemption_without_peers_finishes_unredeemed() {
    let (mut loop_state, _) = RotationRedemption::new();
    loop_state.advance(RedemptionEvent::JoinedState { present: true });
    loop_state.advance(RedemptionEvent::LocalGrant { found: false });
    assert_eq!(
        loop_state.advance(RedemptionEvent::Peers { connected: false }),
        RedemptionAction::Finish { redeemed: false }
    );
    assert!(!loop_state.fits(RedemptionEvent::StepFailed));
    assert!(!loop_state.fits(RedemptionEvent::JoinedState { present: true }));
}

#[test]
fn redemption_step_failures_fit_only_fallible_steps() {
    let (mut loop_state, _) = RotationRedemption::new();
    assert!(!loop_state.fits(RedemptionEvent::StepFailed));
    assert!(loop_state.fits(RedemptionEvent::JoinedState { present: true }));
    loop_state.advance(RedemptionEvent::JoinedState { present: true });
    assert!(loop_state.fits(RedemptionEvent::StepFailed));
    loop_state.advance(RedemptionEvent::LocalGrant { found: true });
    assert!(!loop_state.fits(RedemptionEvent::StepFailed));
    assert!(!loop_state.fits(RedemptionEvent::LocalGrant { found: true }));
    loop_state.advance(RedemptionEvent::GrantDecrypted { decrypted: true, applies: true });
    assert!(loop_state.fits(RedemptionEvent::StepFailed));
    assert_eq!(loop_state.advance(RedemptionEvent::StepFailed), RedemptionAction::Fail);
    assert!(!loop_state.fits(RedemptionEvent::StepFailed));
}

#[test]
fn redemption_with_unmatched_policy_finishes() {
    let (mut loop_state, _) = RotationRedemption::new();
    loop_state.advance(RedemptionEvent::JoinedState { present: true });
    loop_state.advance(RedemptionEvent::LocalGrant { found: true });
    loop_state.advance(RedemptionEvent::GrantDecrypted { decrypted: true, applies: true });
    assert_eq!(
        loop_state.advance(RedemptionEvent::EpochSnapshot {
            loaded: true,
            policy_matches: false,
            participant_registered: true
        }),
        RedemptionAction::Finish { redeemed: false }
    );
}
