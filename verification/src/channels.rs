//! Decisions about private channels: labels, rotation, epoch handoff and
//! repost eligibility.
use vstd::prelude::*;

use crate::text::text_eq;
use crate::timeline::ObjectProjectionRow;

verus! {

/// The channel id under which public posts of a topic are stored.
pub const PUBLIC_CHANNEL_ID: &'static str = "public";

/// Who may join a private channel.
#[derive(Clone, Copy, Debug, PartialEq, Eq, Structural)]
pub enum ChannelAudienceKind {
    InviteOnly,
    FriendOnly,
    FriendPlus,
}

/// Whether new members may still be brought into a private channel.
#[derive(Clone, Copy, Debug, PartialEq, Eq, Structural)]
pub enum ChannelSharingState {
    Open,
    Frozen,
}

/// What the owner of a private channel is about to do with it.
#[derive(Clone, Copy, Debug, PartialEq, Eq, Structural)]
pub enum PrivateChannelOwnerAction {
    Write,
    Share,
}

/// The label stored with content of a channel: `Public` for the public
/// channel, the joined channel's label for a private one, and `Private
/// channel` when the private channel is not joined.
pub open spec fn audience_label(channel_id: Seq<char>, joined_label: Option<Seq<char>>) -> Seq<char> {
    if channel_id == "public"@ {
        "Public"@
    } else {
        match joined_label {
            Some(label) => label,
            None => "Private channel"@,
        }
    }
}

/// The label under which content of a channel is stored.
pub fn audience_label_for_storage(channel_id: &str, joined_label: Option<&str>) -> (res: String)
    ensures
        res@ == audience_label(
            channel_id@,
            match joined_label {
                Some(l) => Some(l@),
                None => None,
            },
        ),
{
    proof {
        reveal_strlit("public");
    }
    if text_eq(channel_id, PUBLIC_CHANNEL_ID) {
        return "Public".to_string();
    }
    match joined_label {
        Some(label) => label.to_string(),
        None => "Private channel".to_string(),
    }
}

/// What the owner's diagnostics know of one participant of the current epoch.
#[derive(Clone, Copy, Debug, PartialEq, Eq, Structural)]
pub struct ParticipantRelationship {
    pub is_owner: bool,
    /// Whether the follow relationship with the owner is mutual; `None` when
    /// no relationship is projected.
    pub mutual: Option<bool>,
}

/// Whether a participant counts as stale: a non-owner whose projected
/// relationship with the owner is not mutual.
pub open spec fn participant_is_stale(p: ParticipantRelationship) -> bool {
    !p.is_owner && p.mutual == Some(false)
}

/// The number of stale participants among the first `n`.
pub open spec fn stale_count(participants: Seq<ParticipantRelationship>, n: int) -> nat
    decreases n,
{
    if n <= 0 {
        0
    } else {
        stale_count(participants, n - 1) + if participant_is_stale(participants[n - 1]) {
            1nat
        } else {
            0nat
        }
    }
}

proof fn lemma_stale_count_bounded(participants: Seq<ParticipantRelationship>, n: int)
    requires
        0 <= n,
    ensures
        stale_count(participants, n) <= n,
    decreases n,
{
    if n > 0 {
        lemma_stale_count_bounded(participants, n - 1);
    }
}

/// Stale participants are only counted for a friend-only channel that the
/// local author owns.
pub fn stale_participant_count(
    audience_kind: ChannelAudienceKind,
    local_is_owner: bool,
    participants: &Vec<ParticipantRelationship>,
) -> (res: usize)
    ensures
        res == if audience_kind == ChannelAudienceKind::FriendOnly && local_is_owner {
            stale_count(participants@, participants@.len() as int)
        } else {
            0
        },
{
    if !(audience_kind == ChannelAudienceKind::FriendOnly && local_is_owner) {
        return 0;
    }
    let n = participants.len();
    let mut count: usize = 0;
    let mut i: usize = 0;
    while i < n
        invariant
            n == participants@.len(),
            i <= n,
            count == stale_count(participants@, i as int),
        decreases n - i,
    {
        proof {
            lemma_stale_count_bounded(participants@, i as int);
        }
        let participant = participants[i];
        if !participant.is_owner && participant.mutual == Some(false) {
            count = count + 1;
        }
        i = i + 1;
    }
    count
}

/// Whether a channel must rotate to a new epoch: a friend-only channel with
/// stale participants.
pub fn rotation_required(audience_kind: ChannelAudienceKind, stale_participant_count: usize) -> (res:
    bool)
    ensures
        res == (audience_kind == ChannelAudienceKind::FriendOnly && stale_participant_count > 0),
{
    audience_kind == ChannelAudienceKind::FriendOnly && stale_participant_count > 0
}

/// What the owner and the members see of a private channel's health.
#[derive(Clone, Copy, Debug, PartialEq, Eq, Structural)]
pub struct PrivateChannelDiagnostics {
    pub sharing_state: ChannelSharingState,
    pub participant_count: usize,
    pub stale_participant_count: usize,
    pub rotation_required: bool,
}

/// The diagnostics of a channel from what its current epoch's replica holds:
/// the sharing state of its policy (`Open` when no policy is found), the
/// number of present participants, the stale ones among them (counted only
/// for a friend-only channel the local author owns), and whether rotation is
/// required.
pub fn private_channel_diagnostics(
    policy_sharing_state: Option<ChannelSharingState>,
    audience_kind: ChannelAudienceKind,
    local_is_owner: bool,
    participants: &Vec<ParticipantRelationship>,
) -> (res: PrivateChannelDiagnostics)
    ensures
        res.sharing_state == match policy_sharing_state {
            Some(state) => state,
            None => ChannelSharingState::Open,
        },
        res.participant_count == participants@.len(),
        res.stale_participant_count == if audience_kind == ChannelAudienceKind::FriendOnly
            && local_is_owner {
            stale_count(participants@, participants@.len() as int)
        } else {
            0
        },
        res.rotation_required == (audience_kind == ChannelAudienceKind::FriendOnly
            && res.stale_participant_count > 0),
{
    let sharing_state = match policy_sharing_state {
        Some(state) => state,
        None => ChannelSharingState::Open,
    };
    let stale = stale_participant_count(audience_kind, local_is_owner, participants);
    PrivateChannelDiagnostics {
        sharing_state,
        participant_count: participants.len(),
        stale_participant_count: stale,
        rotation_required: rotation_required(audience_kind, stale),
    }
}

/// Whether the owner's action rotates the channel first: never for a channel
/// owned by someone else; for invite-only and friend-plus channels before
/// sharing; for friend-only channels when rotation is required.
pub open spec fn owner_action_rotates(
    local_is_owner: bool,
    audience_kind: ChannelAudienceKind,
    action: PrivateChannelOwnerAction,
    rotation_is_required: bool,
) -> bool {
    local_is_owner && match audience_kind {
        ChannelAudienceKind::InviteOnly | ChannelAudienceKind::FriendPlus => action
            == PrivateChannelOwnerAction::Share,
        ChannelAudienceKind::FriendOnly => rotation_is_required,
    }
}

/// The decision `owner_action_rotates`.
pub fn should_auto_rotate_for_owner(
    local_is_owner: bool,
    audience_kind: ChannelAudienceKind,
    action: PrivateChannelOwnerAction,
    rotation_is_required: bool,
) -> (res: bool)
    ensures
        res == owner_action_rotates(local_is_owner, audience_kind, action, rotation_is_required),
{
    if !local_is_owner {
        return false;
    }
    match audience_kind {
        ChannelAudienceKind::InviteOnly | ChannelAudienceKind::FriendPlus => action
            == PrivateChannelOwnerAction::Share,
        ChannelAudienceKind::FriendOnly => rotation_is_required,
    }
}

/// Whether an epoch handoff grant moves the channel on: it must hand off from
/// the current epoch to an epoch not yet known.
pub fn epoch_handoff_applies(
    old_epoch_id: &str,
    new_epoch_id: &str,
    current_epoch_id: &str,
    known_epoch_ids: &Vec<String>,
) -> (res: bool)
    ensures
        res == (old_epoch_id@ == current_epoch_id@ && !(exists|i: int|
            0 <= i < known_epoch_ids@.len() && (#[trigger] known_epoch_ids@[i])@ == new_epoch_id@)),
{
    if !text_eq(old_epoch_id, current_epoch_id) {
        return false;
    }
    let n = known_epoch_ids.len();
    let mut i: usize = 0;
    while i < n
        invariant
            n == known_epoch_ids@.len(),
            i <= n,
            forall|k: int| 0 <= k < i ==> (#[trigger] known_epoch_ids@[k])@ != new_epoch_id@,
        decreases n - i,
    {
        if text_eq(known_epoch_ids[i].as_str(), new_epoch_id) {
            return false;
        }
        i = i + 1;
    }
    true
}

/// Whether the policy found in the rotated replica matches the handoff: the
/// same audience, the new epoch, and the old epoch as its predecessor.
pub fn rotated_policy_matches(
    policy_audience: ChannelAudienceKind,
    channel_audience: ChannelAudienceKind,
    policy_epoch_id: &str,
    policy_previous_epoch_id: Option<&str>,
    old_epoch_id: &str,
    new_epoch_id: &str,
) -> (res: bool)
    ensures
        res == (policy_audience == channel_audience && policy_epoch_id@ == new_epoch_id@
            && match policy_previous_epoch_id {
            Some(p) => p@ == old_epoch_id@,
            None => false,
        }),
{
    if policy_audience != channel_audience {
        return false;
    }
    if !text_eq(policy_epoch_id, new_epoch_id) {
        return false;
    }
    match policy_previous_epoch_id {
        Some(previous) => text_eq(previous, old_epoch_id),
        None => false,
    }
}

/// What a step of redeeming rotation grants has just learned.
#[derive(Clone, Copy, Debug, PartialEq, Eq, Structural)]
pub enum RedemptionEvent {
    /// The channel's joined state was looked up.
    JoinedState { present: bool },
    /// The local replica was searched for a grant addressed to the local author.
    LocalGrant { found: bool },
    /// The transport was asked for connected peers.
    Peers { connected: bool },
    /// After a sync restart, the replica was searched again for a grant.
    RemoteGrant { found: bool },
    /// The grant was decrypted (or not), and checked with `epoch_handoff_applies`.
    GrantDecrypted { decrypted: bool, applies: bool },
    /// The next epoch's replica was loaded (or not); its policy was checked
    /// with `rotated_policy_matches` and its participants with
    /// `is_registered_participant`.
    EpochSnapshot { loaded: bool, policy_matches: bool, participant_registered: bool },
    /// The local author was written as a participant of the next epoch.
    ParticipantPersisted,
    /// The channel's state was replaced by the one of the next epoch.
    JoinedStateRegistered,
    /// A step failed with an error that ends the redemption with that error.
    StepFailed,
}

/// What the redemption loop does next.
#[derive(Clone, Copy, Debug, PartialEq, Eq, Structural)]
pub enum RedemptionAction {
    LoadJoinedState,
    FetchLocalGrant,
    CheckPeers,
    RestartSyncAndFetchRemoteGrant,
    DecryptGrant,
    /// Register the next epoch's secret, restart its sync and load its snapshot.
    AdoptNextEpoch,
    PersistParticipant,
    RegisterJoinedState,
    /// Stop, answering whether any handoff was redeemed.
    Finish { redeemed: bool },
    /// Stop with the error of the failed step.
    Fail,
}

/// The redemption state after an event, and the next action.
pub open spec fn redemption_next(redeemed: bool, event: RedemptionEvent) -> (bool, RedemptionAction) {
    match event {
        RedemptionEvent::JoinedState { present } => if present {
            (redeemed, RedemptionAction::FetchLocalGrant)
        } else {
            (redeemed, RedemptionAction::Finish { redeemed })
        },
        RedemptionEvent::LocalGrant { found } => if found {
            (redeemed, RedemptionAction::DecryptGrant)
        } else {
            (redeemed, RedemptionAction::CheckPeers)
        },
        RedemptionEvent::Peers { connected } => if connected {
            (redeemed, RedemptionAction::RestartSyncAndFetchRemoteGrant)
        } else {
            (redeemed, RedemptionAction::Finish { redeemed })
        },
        RedemptionEvent::RemoteGrant { found } => if found {
            (redeemed, RedemptionAction::DecryptGrant)
        } else {
            (redeemed, RedemptionAction::Finish { redeemed })
        },
        RedemptionEvent::GrantDecrypted { decrypted, applies } => if decrypted && applies {
            (redeemed, RedemptionAction::AdoptNextEpoch)
        } else {
            (redeemed, RedemptionAction::Finish { redeemed })
        },
        RedemptionEvent::EpochSnapshot { loaded, policy_matches, participant_registered } => if !(
        loaded && policy_matches) {
            (redeemed, RedemptionAction::Finish { redeemed })
        } else if participant_registered {
            (redeemed, RedemptionAction::RegisterJoinedState)
        } else {
            (redeemed, RedemptionAction::PersistParticipant)
        },
        RedemptionEvent::ParticipantPersisted => (redeemed, RedemptionAction::RegisterJoinedState),
        RedemptionEvent::JoinedStateRegistered => (true, RedemptionAction::LoadJoinedState),
        RedemptionEvent::StepFailed => (redeemed, RedemptionAction::Fail),
    }
}

/// Whether an event answers the pending action.  Each action is answered by
/// its own event; a step failure answers only the steps whose error ends the
/// redemption (fetching a grant, adopting the next epoch, persisting the
/// participant and registering the joined state).  Once the loop has stopped,
/// no event answers.
pub open spec fn event_fits(pending: RedemptionAction, event: RedemptionEvent) -> bool {
    match pending {
        RedemptionAction::LoadJoinedState => event is JoinedState,
        RedemptionAction::FetchLocalGrant => event is LocalGrant || event is StepFailed,
        RedemptionAction::CheckPeers => event is Peers,
        RedemptionAction::RestartSyncAndFetchRemoteGrant => event is RemoteGrant || event is StepFailed,
        RedemptionAction::DecryptGrant => event is GrantDecrypted,
        RedemptionAction::AdoptNextEpoch => event is EpochSnapshot || event is StepFailed,
        RedemptionAction::PersistParticipant => event is ParticipantPersisted || event is StepFailed,
        RedemptionAction::RegisterJoinedState => event is JoinedStateRegistered || event is StepFailed,
        RedemptionAction::Finish { .. } => false,
        RedemptionAction::Fail => false,
    }
}

/// The loop that redeems rotation grants of a joined channel, one epoch
/// handoff after another, until no further grant applies.
#[derive(Clone, Copy, Debug, PartialEq, Eq)]
pub struct RotationRedemption {
    redeemed_any: bool,
    pending: RedemptionAction,
}

impl RotationRedemption {
    /// Whether a handoff has been redeemed so far.
    pub closed spec fn redeemed(&self) -> bool {
        self.redeemed_any
    }

    /// The action whose outcome the loop waits for.
    pub closed spec fn pending(&self) -> RedemptionAction {
        self.pending
    }

    /// A redemption that has redeemed nothing; its first action is to look
    /// up the channel's joined state.
    pub fn new() -> (res: (RotationRedemption, RedemptionAction))
        ensures
            !res.0.redeemed(),
            res.1 == RedemptionAction::LoadJoinedState,
            res.0.pending() == res.1,
    {
        (
            RotationRedemption { redeemed_any: false, pending: RedemptionAction::LoadJoinedState },
            RedemptionAction::LoadJoinedState,
        )
    }

    /// Whether `event` answers the pending action.
    pub fn fits(&self, event: RedemptionEvent) -> (res: bool)
        ensures
            res == event_fits(self.pending(), event),
    {
        match self.pending {
            RedemptionAction::LoadJoinedState => matches!(event, RedemptionEvent::JoinedState { .. }),
            RedemptionAction::FetchLocalGrant => matches!(
                event,
                RedemptionEvent::LocalGrant { .. } | RedemptionEvent::StepFailed
            ),
            RedemptionAction::CheckPeers => matches!(event, RedemptionEvent::Peers { .. }),
            RedemptionAction::RestartSyncAndFetchRemoteGrant => matches!(
                event,
                RedemptionEvent::RemoteGrant { .. } | RedemptionEvent::StepFailed
            ),
            RedemptionAction::DecryptGrant => matches!(event, RedemptionEvent::GrantDecrypted { .. }),
            RedemptionAction::AdoptNextEpoch => matches!(
                event,
                RedemptionEvent::EpochSnapshot { .. } | RedemptionEvent::StepFailed
            ),
            RedemptionAction::PersistParticipant => matches!(
                event,
                RedemptionEvent::ParticipantPersisted | RedemptionEvent::StepFailed
            ),
            RedemptionAction::RegisterJoinedState => matches!(
                event,
                RedemptionEvent::JoinedStateRegistered | RedemptionEvent::StepFailed
            ),
            RedemptionAction::Finish { .. } => false,
            RedemptionAction::Fail => false,
        }
    }

    /// Takes in what the pending action learned and gives the next action,
    /// which becomes the pending one.
    pub fn advance(&mut self, event: RedemptionEvent) -> (res: RedemptionAction)
        requires
            event_fits(old(self).pending(), event),
        ensures
            (final(self).redeemed(), res) == redemption_next(old(self).redeemed(), event),
            final(self).pending() == res,
    {
        let next = match event {
            RedemptionEvent::JoinedState { present } => if present {
                RedemptionAction::FetchLocalGrant
            } else {
                RedemptionAction::Finish { redeemed: self.redeemed_any }
            },
            RedemptionEvent::LocalGrant { found } => if found {
                RedemptionAction::DecryptGrant
            } else {
                RedemptionAction::CheckPeers
            },
            RedemptionEvent::Peers { connected } => if connected {
                RedemptionAction::RestartSyncAndFetchRemoteGrant
            } else {
                RedemptionAction::Finish { redeemed: self.redeemed_any }
            },
            RedemptionEvent::RemoteGrant { found } => if found {
                RedemptionAction::DecryptGrant
            } else {
                RedemptionAction::Finish { redeemed: self.redeemed_any }
            },
            RedemptionEvent::GrantDecrypted { decrypted, applies } => if decrypted && applies {
                RedemptionAction::AdoptNextEpoch
            } else {
                RedemptionAction::Finish { redeemed: self.redeemed_any }
            },
            RedemptionEvent::EpochSnapshot { loaded, policy_matches, participant_registered } => {
                if !(loaded && policy_matches) {
                    RedemptionAction::Finish { redeemed: self.redeemed_any }
                } else if participant_registered {
                    RedemptionAction::RegisterJoinedState
                } else {
                    RedemptionAction::PersistParticipant
                }
            },
            RedemptionEvent::ParticipantPersisted => RedemptionAction::RegisterJoinedState,
            RedemptionEvent::JoinedStateRegistered => {
                self.redeemed_any = true;
                RedemptionAction::LoadJoinedState
            },
            RedemptionEvent::StepFailed => RedemptionAction::Fail,
        };
        self.pending = next;
        next
    }
}

/// Redemption never forgets a redeemed handoff, and when it finishes it
/// answers whether one was redeemed.
pub proof fn redemption_reports_what_it_redeemed(redeemed: bool, event: RedemptionEvent)
    ensures
        redeemed ==> redemption_next(redeemed, event).0,
        redemption_next(redeemed, event).1 matches RedemptionAction::Finish { redeemed: r } ==> r
            == redeemed && redemption_next(redeemed, event).0 == redeemed,
        event == RedemptionEvent::JoinedStateRegistered ==> redemption_next(redeemed, event).0,
{
}

/// The redemption fails only right after fetching a grant, adopting the next
/// epoch, persisting the participant or registering the joined state; every
/// other step either moves on or finishes.
pub proof fn redemption_fails_only_on_fallible_steps(
    redeemed: bool,
    pending: RedemptionAction,
    event: RedemptionEvent,
)
    requires
        event_fits(pending, event),
    ensures
        redemption_next(redeemed, event).1 == RedemptionAction::Fail ==> (pending
            == RedemptionAction::FetchLocalGrant || pending
            == RedemptionAction::RestartSyncAndFetchRemoteGrant || pending
            == RedemptionAction::AdoptNextEpoch || pending == RedemptionAction::PersistParticipant
            || pending == RedemptionAction::RegisterJoinedState),
{
}

/// The redemption ends with an error exactly on a step failure.  Whenever
/// there is nothing more to redeem (the channel is no longer joined, no grant
/// is found locally and no peer is connected, no grant is found after the
/// sync restart, the grant cannot be decrypted or does not apply, the next
/// epoch cannot be loaded or its policy does not match) it finishes,
/// answering whether a handoff was redeemed so far.  A grant found locally or
/// after the restart is decrypted next; none found locally asks for peers,
/// and connected peers restart the sync to look again.
pub proof fn redemption_stops_only_as_its_outcomes_say(redeemed: bool, event: RedemptionEvent)
    ensures
        (redemption_next(redeemed, event).1 == RedemptionAction::Fail) <==> (event
            == RedemptionEvent::StepFailed),
        ((event == (RedemptionEvent::JoinedState { present: false })) || (event
            == (RedemptionEvent::Peers { connected: false })) || (event
            == (RedemptionEvent::RemoteGrant { found: false })) || (event is GrantDecrypted && !(
        event->decrypted && event->applies)) || (event is EpochSnapshot && !(event->loaded
            && event->policy_matches))) ==> (redemption_next(redeemed, event) == (
            redeemed,
            (RedemptionAction::Finish { redeemed }),
        )),
        ((event == (RedemptionEvent::LocalGrant { found: true })) || (event
            == (RedemptionEvent::RemoteGrant { found: true }))) ==> (redemption_next(
            redeemed,
            event,
        ).1 == RedemptionAction::DecryptGrant),
        (event == (RedemptionEvent::LocalGrant { found: false })) ==> (redemption_next(
            redeemed,
            event,
        ).1 == RedemptionAction::CheckPeers),
        (event == (RedemptionEvent::Peers { connected: true })) ==> (redemption_next(
            redeemed,
            event,
        ).1 == RedemptionAction::RestartSyncAndFetchRemoteGrant),
        (event == (RedemptionEvent::JoinedState { present: true })) ==> (redemption_next(
            redeemed,
            event,
        ).1 == RedemptionAction::FetchLocalGrant),
        (event == (RedemptionEvent::GrantDecrypted { decrypted: true, applies: true })) ==> (
        redemption_next(redeemed, event).1 == RedemptionAction::AdoptNextEpoch),
        (event is EpochSnapshot && event->loaded && event->policy_matches) ==> (redemption_next(
            redeemed,
            event,
        ).1 == if event->participant_registered {
            RedemptionAction::RegisterJoinedState
        } else {
            RedemptionAction::PersistParticipant
        }),
        (event == RedemptionEvent::ParticipantPersisted) ==> (redemption_next(redeemed, event).1
            == RedemptionAction::RegisterJoinedState),
        (event == RedemptionEvent::JoinedStateRegistered) ==> (redemption_next(redeemed, event) == (
            true,
            RedemptionAction::LoadJoinedState,
        )),
        (event != RedemptionEvent::JoinedStateRegistered) ==> (redemption_next(redeemed, event).0
            == redeemed),
{
}

/// When an owner action rotates the channel first.  A participant who is not
/// the owner never rotates.  The owner of an invite-only or friend-plus
/// channel rotates exactly when sharing it.  The owner of a friend-only
/// channel rotates exactly when its diagnostics require a rotation, whatever
/// the action, writing or sharing.
pub proof fn owner_rotation_follows_audience(
    local_is_owner: bool,
    audience_kind: ChannelAudienceKind,
    action: PrivateChannelOwnerAction,
    rotation_is_required: bool,
)
    ensures
        !local_is_owner ==> !owner_action_rotates(
            local_is_owner,
            audience_kind,
            action,
            rotation_is_required,
        ),
        local_is_owner && audience_kind == ChannelAudienceKind::FriendOnly ==> owner_action_rotates(
            local_is_owner,
            audience_kind,
            action,
            rotation_is_required,
        ) == rotation_is_required,
        local_is_owner && audience_kind != ChannelAudienceKind::FriendOnly ==> owner_action_rotates(
            local_is_owner,
            audience_kind,
            action,
            rotation_is_required,
        ) == (action == PrivateChannelOwnerAction::Share),
        owner_action_rotates(
            local_is_owner,
            ChannelAudienceKind::FriendOnly,
            PrivateChannelOwnerAction::Write,
            rotation_is_required,
        ) == owner_action_rotates(
            local_is_owner,
            ChannelAudienceKind::FriendOnly,
            PrivateChannelOwnerAction::Share,
            rotation_is_required,
        ),
{
}

/// A participant record of a channel epoch, as the handoff reads it.
#[derive(Clone, Debug, PartialEq, Eq)]
pub struct EpochParticipant {
    pub participant_pubkey: String,
    pub epoch_id: String,
    pub left_at: Option<i64>,
}

/// Whether a participant record shows `pubkey` as a present member of `epoch_id`.
pub open spec fn is_active_member(p: EpochParticipant, pubkey: Seq<char>, epoch_id: Seq<char>) -> bool {
    p.participant_pubkey@ == pubkey && p.epoch_id@ == epoch_id && p.left_at is None
}

/// Whether the local author is already a present participant of the epoch;
/// when not, the handoff registers it.
pub fn is_registered_participant(
    participants: &Vec<EpochParticipant>,
    local_pubkey: &str,
    epoch_id: &str,
) -> (res: bool)
    ensures
        res == exists|i: int|
            0 <= i < participants@.len() && is_active_member(
                #[trigger] participants@[i],
                local_pubkey@,
                epoch_id@,
            ),
{
    let n = participants.len();
    let mut i: usize = 0;
    while i < n
        invariant
            n == participants@.len(),
            i <= n,
            forall|k: int|
                0 <= k < i ==> !is_active_member(#[trigger] participants@[k], local_pubkey@, epoch_id@),
        decreases n - i,
    {
        let p = &participants[i];
        if text_eq(p.participant_pubkey.as_str(), local_pubkey) && text_eq(p.epoch_id.as_str(), epoch_id)
            && p.left_at.is_none() {
            return true;
        }
        i = i + 1;
    }
    false
}

/// Why an object cannot be the source of a repost.
#[derive(Clone, Copy, Debug, PartialEq, Eq, Structural)]
pub enum RepostSourceError {
    TopicMismatch,
    NotPublicPostOrComment,
}

/// The message that describes a repost-source error.
pub open spec fn repost_source_error_message(error: RepostSourceError) -> Seq<char> {
    match error {
        RepostSourceError::TopicMismatch => "repost source topic does not match"@,
        RepostSourceError::NotPublicPostOrComment => "only public posts and comments can be reposted"@,
    }
}

impl RepostSourceError {
    /// The message that describes the error.
    pub fn message(&self) -> (res: &'static str)
        ensures
            res@ == repost_source_error_message(*self),
    {
        match self {
            RepostSourceError::TopicMismatch => "repost source topic does not match",
            RepostSourceError::NotPublicPostOrComment => "only public posts and comments can be reposted",
        }
    }
}

/// The verdict on a projected repost source: it must belong to the named
/// topic, to the public channel, and be a post or a comment.
pub open spec fn repost_source_verdict(row: ObjectProjectionRow, source_topic_id: Seq<char>) -> Result<
    (),
    RepostSourceError,
> {
    if row.topic_id@ != source_topic_id {
        Err(RepostSourceError::TopicMismatch)
    } else if row.channel_id@ != "public"@ {
        Err(RepostSourceError::NotPublicPostOrComment)
    } else if row.object_kind@ != "post"@ && row.object_kind@ != "comment"@ {
        Err(RepostSourceError::NotPublicPostOrComment)
    } else {
        Ok(())
    }
}

/// Checks that a projected object may be reposted from `source_topic_id`.
pub fn check_repost_source(row: &ObjectProjectionRow, source_topic_id: &str) -> (res: Result<
    (),
    RepostSourceError,
>)
    ensures
        res == repost_source_verdict(*row, source_topic_id@),
{
    proof {
        reveal_strlit("public");
    }
    if !text_eq(row.topic_id.as_str(), source_topic_id) {
        return Err(RepostSourceError::TopicMismatch);
    }
    if !text_eq(row.channel_id.as_str(), PUBLIC_CHANNEL_ID) {
        return Err(RepostSourceError::NotPublicPostOrComment);
    }
    if !text_eq(row.object_kind.as_str(), "post") && !text_eq(row.object_kind.as_str(), "comment") {
        return Err(RepostSourceError::NotPublicPostOrComment);
    }
    Ok(())
}

} // verus!
