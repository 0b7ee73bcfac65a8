//! Which topic a gossip hint is about, and which projections a hint or a
//! document event asks to hydrate.
use vstd::prelude::*;

use crate::envelope::{GossipHint, HintObjectRef};
use crate::ids::{BlobHash, ChannelId, TopicId};
use crate::text::{seq_has_prefix, seq_has_suffix, text_eq, text_has_prefix, text_has_suffix};

verus! {

/// The topic a hint names, or `None` for the hints that name no topic
/// (`ThreadUpdated`, `ProfileUpdated`).
pub open spec fn hint_topic(hint: GossipHint) -> Option<Seq<char>> {
    match hint {
        GossipHint::TopicObjectsChanged { topic_id, .. } => Some(topic_id@),
        GossipHint::ThreadUpdated { .. } => None,
        GossipHint::ProfileUpdated { .. } => None,
        GossipHint::Presence { topic_id, .. } => Some(topic_id@),
        GossipHint::Typing { topic_id, .. } => Some(topic_id@),
        GossipHint::SessionChanged { topic_id, .. } => Some(topic_id@),
        GossipHint::LivePresence { topic_id, .. } => Some(topic_id@),
        GossipHint::DirectMessageFrame { topic_id, .. } => Some(topic_id@),
        GossipHint::DirectMessageAck { topic_id, .. } => Some(topic_id@),
        GossipHint::BlobAvailable { topic_id, .. } => Some(topic_id@),
    }
}

/// Whether a subscription to `topic` should handle `hint`: a hint that names
/// a topic targets exactly that topic; one that names none targets every topic.
pub fn hint_targets_topic(hint: &GossipHint, topic: &str) -> (res: bool)
    ensures
        res == match hint_topic(*hint) {
            Some(t) => t == topic@,
            None => true,
        },
{
    match hint {
        GossipHint::TopicObjectsChanged { topic_id, .. }
        | GossipHint::Presence { topic_id, .. }
        | GossipHint::Typing { topic_id, .. }
        | GossipHint::SessionChanged { topic_id, .. }
        | GossipHint::LivePresence { topic_id, .. }
        | GossipHint::DirectMessageFrame { topic_id, .. }
        | GossipHint::DirectMessageAck { topic_id, .. }
        | GossipHint::BlobAvailable { topic_id, .. } => text_eq(topic_id.as_str(), topic),
        GossipHint::ThreadUpdated { .. } | GossipHint::ProfileUpdated { .. } => true,
    }
}

/// A hint that carries a topic id names that topic, so a subscription
/// handles it exactly when it subscribes to that topic; only `ThreadUpdated`
/// and `ProfileUpdated`, which carry none, name no topic and reach every
/// subscription.
pub proof fn hint_names_the_topic_it_carries(hint: GossipHint, topic: Seq<char>)
    ensures
        hint_topic(hint) is None <==> (hint is ThreadUpdated || hint is ProfileUpdated),
        hint matches GossipHint::TopicObjectsChanged { topic_id, .. } ==> hint_topic(hint) == Some(
            topic_id@,
        ),
        hint matches GossipHint::Presence { topic_id, .. } ==> hint_topic(hint) == Some(topic_id@),
        hint matches GossipHint::Typing { topic_id, .. } ==> hint_topic(hint) == Some(topic_id@),
        hint matches GossipHint::SessionChanged { topic_id, .. } ==> hint_topic(hint) == Some(
            topic_id@,
        ),
        hint matches GossipHint::LivePresence { topic_id, .. } ==> hint_topic(hint) == Some(
            topic_id@,
        ),
        hint matches GossipHint::DirectMessageFrame { topic_id, .. } ==> hint_topic(hint) == Some(
            topic_id@,
        ),
        hint matches GossipHint::DirectMessageAck { topic_id, .. } ==> hint_topic(hint) == Some(
            topic_id@,
        ),
        hint matches GossipHint::BlobAvailable { topic_id, .. } ==> hint_topic(hint) == Some(
            topic_id@,
        ),
{
}

/// The kind of projection a document key holds.
#[derive(Clone, Copy, Debug, PartialEq, Eq, Structural)]
pub enum DocKeyKind {
    ObjectState,
    ReactionState,
    LiveSessionState,
    GameSessionState,
    Other,
}

/// The kind of a document key: a state key (ending in `/state`) under
/// `objects/`, `reactions/`, `sessions/live/` or `sessions/game/`, checked in
/// that order; any other key is `Other`.
pub open spec fn doc_key_kind(key: Seq<char>) -> DocKeyKind {
    if !seq_has_suffix(key, "/state"@) {
        DocKeyKind::Other
    } else if seq_has_prefix(key, "objects/"@) {
        DocKeyKind::ObjectState
    } else if seq_has_prefix(key, "reactions/"@) {
        DocKeyKind::ReactionState
    } else if seq_has_prefix(key, "sessions/live/"@) {
        DocKeyKind::LiveSessionState
    } else if seq_has_prefix(key, "sessions/game/"@) {
        DocKeyKind::GameSessionState
    } else {
        DocKeyKind::Other
    }
}

/// Classifies the key of a document event: which projection, if any, the
/// event hydrates.
pub fn classify_doc_key(key: &str) -> (res: DocKeyKind)
    ensures
        res == doc_key_kind(key@),
{
    if !text_has_suffix(key, "/state") {
        DocKeyKind::Other
    } else if text_has_prefix(key, "objects/") {
        DocKeyKind::ObjectState
    } else if text_has_prefix(key, "reactions/") {
        DocKeyKind::ReactionState
    } else if text_has_prefix(key, "sessions/live/") {
        DocKeyKind::LiveSessionState
    } else if text_has_prefix(key, "sessions/game/") {
        DocKeyKind::GameSessionState
    } else {
        DocKeyKind::Other
    }
}

/// What one hydration step reads.
#[derive(Clone, Copy, Debug, PartialEq, Eq, Structural)]
pub enum HydrationTarget {
    /// All reactions whose target is the object.
    ReactionsForTarget,
    /// The state document of the object.
    ObjectState,
    /// The state document of a live session.
    LiveSession,
    /// The state document of a game room.
    GameRoom,
}

/// One hydration step: a target kind and the id of the object or session.
#[derive(Clone, Debug, PartialEq, Eq)]
pub struct HydrationStep {
    pub target: HydrationTarget,
    pub id: String,
}

impl View for HydrationStep {
    type V = (HydrationTarget, Seq<char>);

    open spec fn view(&self) -> (HydrationTarget, Seq<char>) {
        (self.target, self.id@)
    }
}

/// The step for one object named in a `TopicObjectsChanged` hint.
pub open spec fn object_ref_step(object: HintObjectRef) -> (HydrationTarget, Seq<char>) {
    if object.object_kind@ == "reaction"@ {
        (HydrationTarget::ReactionsForTarget, object.object_id@)
    } else {
        (HydrationTarget::ObjectState, object.object_id@)
    }
}

/// The steps a hint asks for, in order.
pub open spec fn hint_hydration_steps(hint: GossipHint) -> Seq<(HydrationTarget, Seq<char>)> {
    match hint {
        GossipHint::TopicObjectsChanged { objects, .. } => Seq::new(
            objects@.len(),
            |i: int| object_ref_step(objects@[i]),
        ),
        GossipHint::ThreadUpdated { object_ids, .. } => Seq::new(
            object_ids@.len(),
            |i: int| (HydrationTarget::ObjectState, object_ids@[i]@),
        ),
        GossipHint::SessionChanged { session_id, object_kind, .. } => if object_kind@
            == "live-session"@ {
            seq![(HydrationTarget::LiveSession, session_id@)]
        } else if object_kind@ == "game-session"@ {
            seq![(HydrationTarget::GameRoom, session_id@)]
        } else {
            Seq::empty()
        },
        _ => Seq::empty(),
    }
}

/// The hydration steps that a received hint asks for: each changed object
/// (or, for a reaction, the reactions of its target), each object of an
/// updated thread, or the changed live session or game room.
pub fn hint_hydration_plan(hint: &GossipHint) -> (res: Vec<HydrationStep>)
    ensures
        res@.map_values(|s: HydrationStep| s@) == hint_hydration_steps(*hint),
{
    let mut steps: Vec<HydrationStep> = Vec::new();
    match hint {
        GossipHint::TopicObjectsChanged { objects, .. } => {
            let n = objects.len();
            let mut i: usize = 0;
            while i < n
                invariant
                    n == objects@.len(),
                    i <= n,
                    steps@.len() == i,
                    forall|k: int| 0 <= k < i ==> #[trigger] steps@[k]@ == object_ref_step(objects@[k]),
                decreases n - i,
            {
                let object = &objects[i];
                let target = if text_eq(object.object_kind.as_str(), "reaction") {
                    HydrationTarget::ReactionsForTarget
                } else {
                    HydrationTarget::ObjectState
                };
                steps.push(HydrationStep { target, id: object.object_id.clone() });
                i = i + 1;
            }
        },
        GossipHint::ThreadUpdated { object_ids, .. } => {
            let n = object_ids.len();
            let mut i: usize = 0;
            while i < n
                invariant
                    n == object_ids@.len(),
                    i <= n,
                    steps@.len() == i,
                    forall|k: int|
                        0 <= k < i ==> #[trigger] steps@[k]@ == (
                            HydrationTarget::ObjectState,
                            object_ids@[k]@,
                        ),
                decreases n - i,
            {
                steps.push(
                    HydrationStep {
                        target: HydrationTarget::ObjectState,
                        id: object_ids[i].0.clone(),
                    },
                );
                i = i + 1;
            }
        },
        GossipHint::SessionChanged { session_id, object_kind, .. } => {
            if text_eq(object_kind.as_str(), "live-session") {
                steps.push(
                    HydrationStep { target: HydrationTarget::LiveSession, id: session_id.clone() },
                );
            } else if text_eq(object_kind.as_str(), "game-session") {
                steps.push(
                    HydrationStep { target: HydrationTarget::GameRoom, id: session_id.clone() },
                );
            }
        },
        _ => {},
    }
    proof {
        assert(steps@.map_values(|s: HydrationStep| s@) =~= hint_hydration_steps(*hint));
    }
    steps
}

/// The running count of a hint's hydration steps, taken in plan order.  The
/// first failing step ends the hint's hydration: no later step runs, and the
/// hint counts as having hydrated nothing, which sends the subscription to a
/// full hydration of its replica.
#[derive(Clone, Copy, Debug, PartialEq, Eq)]
pub struct HintHydrationTally {
    hydrated: usize,
    failed: bool,
}

impl HintHydrationTally {
    /// The sum of the counts of the steps that succeeded so far.
    pub closed spec fn count(&self) -> nat {
        self.hydrated as nat
    }

    /// Whether a step has failed.
    pub closed spec fn has_failed(&self) -> bool {
        self.failed
    }

    /// The hint's hydrated count as it stands: zero once a step failed,
    /// else the sum of the steps' counts.
    pub open spec fn total_spec(&self) -> nat {
        if self.has_failed() {
            0
        } else {
            self.count()
        }
    }

    /// No step has run yet.
    pub fn new() -> (res: HintHydrationTally)
        ensures
            res.count() == 0,
            !res.has_failed(),
    {
        HintHydrationTally { hydrated: 0, failed: false }
    }

    /// The sum of the counts of the steps that succeeded so far.
    pub fn hydrated(&self) -> (res: usize)
        ensures
            res == self.count(),
    {
        self.hydrated
    }

    /// Whether the next step runs: only while no step has failed.
    pub fn continues(&self) -> (res: bool)
        ensures
            res == !self.has_failed(),
    {
        !self.failed
    }

    /// Records the outcome of the next step: the count it hydrated, or
    /// `None` where it failed.
    pub fn record(&mut self, outcome: Option<usize>)
        requires
            !old(self).has_failed(),
            outcome matches Some(n) ==> old(self).count() + n <= usize::MAX,
        ensures
            outcome matches Some(n) ==> final(self).count() == old(self).count() + n
                && !final(self).has_failed(),
            outcome is None ==> final(self).count() == old(self).count()
                && final(self).has_failed(),
    {
        match outcome {
            Some(n) => {
                self.hydrated = self.hydrated + n;
            },
            None => {
                self.failed = true;
            },
        }
    }

    /// The hint's hydrated count: zero once a step failed, else the sum of
    /// the steps' counts.
    pub fn total(&self) -> (res: usize)
        ensures
            res == self.total_spec(),
    {
        if self.failed {
            0
        } else {
            self.hydrated
        }
    }
}

/// What a subscription does with a hint that targets its topic.
#[derive(Clone, Copy, Debug, PartialEq, Eq, Structural)]
pub enum HintEventAction {
    /// Refresh the author's presence in a live session.
    UpsertLivePresence,
    /// Remember that the sending peer holds the announced blob.
    RecordBlobAnnouncement,
    /// Nothing to do.
    Ignore,
    /// Hydrate the projections the hint names (see `hint_hydration_plan`).
    Hydrate,
}

/// The action for a hint: live presence is recorded, a blob announcement is
/// remembered when the sending peer is known, and every other hint hydrates.
pub open spec fn hint_event_action_spec(hint: GossipHint, has_source_peer: bool) -> HintEventAction {
    match hint {
        GossipHint::LivePresence { .. } => HintEventAction::UpsertLivePresence,
        GossipHint::BlobAvailable { .. } => if has_source_peer {
            HintEventAction::RecordBlobAnnouncement
        } else {
            HintEventAction::Ignore
        },
        _ => HintEventAction::Hydrate,
    }
}

/// Decides what to do with a received hint.
pub fn hint_event_action(hint: &GossipHint, has_source_peer: bool) -> (res: HintEventAction)
    ensures
        res == hint_event_action_spec(*hint, has_source_peer),
{
    match hint {
        GossipHint::LivePresence { .. } => HintEventAction::UpsertLivePresence,
        GossipHint::BlobAvailable { .. } => if has_source_peer {
            HintEventAction::RecordBlobAnnouncement
        } else {
            HintEventAction::Ignore
        },
        _ => HintEventAction::Hydrate,
    }
}

/// When a live presence announced at `now_ms` with a time to live of
/// `ttl_ms` expires.
pub fn live_presence_expires_at(now_ms: i64, ttl_ms: u32) -> (res: i64)
    requires
        now_ms + ttl_ms <= i64::MAX,
    ensures
        res == now_ms + ttl_ms,
{
    now_ms + ttl_ms as i64
}

/// The topic on which hints about a channel are published: the community
/// topic itself for the public channel, `private/{channel_id}` for a private one.
pub open spec fn channel_hint_topic(topic_id: Seq<char>, channel_id: Option<Seq<char>>) -> Seq<char> {
    match channel_id {
        None => topic_id,
        Some(channel) => "private/"@ + channel,
    }
}

/// The id of an optional channel.
pub open spec fn channel_view(channel_id: Option<&ChannelId>) -> Option<Seq<char>> {
    match channel_id {
        Some(c) => Some(c@),
        None => None,
    }
}

/// The hint topic for a channel of a topic.
pub fn channel_hint_topic_for(topic_id: &str, channel_id: Option<&ChannelId>) -> (res: TopicId)
    ensures
        res@ == channel_hint_topic(topic_id@, channel_view(channel_id)),
{
    match channel_id {
        None => TopicId(topic_id.to_string()),
        Some(channel) => {
            let mut topic = "private/".to_string();
            topic.append(channel.as_str());
            TopicId(topic)
        },
    }
}

/// Where the text of an object is kept.
#[derive(Clone, Debug, PartialEq, Eq)]
pub enum PayloadRef {
    InlineText { text: String },
    BlobText { hash: BlobHash, mime: String, bytes: u64 },
}

/// A blob that an object refers to (its text or an attachment).
#[derive(Clone, Debug, PartialEq, Eq)]
pub struct BlobRef {
    pub hash: BlobHash,
    pub mime: String,
    pub bytes: u64,
}

impl View for BlobRef {
    type V = (Seq<char>, Seq<char>, u64);

    open spec fn view(&self) -> (Seq<char>, Seq<char>, u64) {
        (self.hash@, self.mime@, self.bytes)
    }
}

/// Whether a blob is in the local cache.
#[derive(Clone, Copy, Debug, PartialEq, Eq, Structural)]
pub enum BlobCacheStatus {
    Available,
    Missing,
}

/// The attachments among the first `n` whose blobs are available.
pub open spec fn available_attachments(
    attachments: Seq<BlobRef>,
    statuses: Seq<BlobCacheStatus>,
    n: int,
) -> Seq<(Seq<char>, Seq<char>, u64)>
    decreases n,
{
    if n <= 0 {
        Seq::empty()
    } else {
        let earlier = available_attachments(attachments, statuses, n - 1);
        if statuses[n - 1] == BlobCacheStatus::Available {
            earlier.push(attachments[n - 1]@)
        } else {
            earlier
        }
    }
}

/// The blobs of a hydrated object that are announced as available, in order:
/// none unless a hint transport and the topic are known; otherwise the text
/// blob when it is available (inline text is never announced), then each
/// available attachment.
pub open spec fn announced_blobs(
    can_announce: bool,
    payload: PayloadRef,
    payload_status: BlobCacheStatus,
    attachments: Seq<BlobRef>,
    statuses: Seq<BlobCacheStatus>,
) -> Seq<(Seq<char>, Seq<char>, u64)> {
    if !can_announce {
        Seq::empty()
    } else {
        let text_blob = match payload {
            PayloadRef::BlobText { hash, mime, bytes } => if payload_status
                == BlobCacheStatus::Available {
                seq![(hash@, mime@, bytes)]
            } else {
                Seq::empty()
            },
            PayloadRef::InlineText { .. } => Seq::empty(),
        };
        text_blob + available_attachments(attachments, statuses, attachments.len() as int)
    }
}

proof fn lemma_available_attachments_members(
    attachments: Seq<BlobRef>,
    statuses: Seq<BlobCacheStatus>,
    n: int,
)
    requires
        0 <= n <= attachments.len(),
        attachments.len() == statuses.len(),
    ensures
        forall|k: int|
            0 <= k < available_attachments(attachments, statuses, n).len() ==> exists|i: int|
                0 <= i < n && statuses[i] == BlobCacheStatus::Available && attachments[i]@
                    == #[trigger] available_attachments(attachments, statuses, n)[k],
    decreases n,
{
    if n > 0 {
        lemma_available_attachments_members(attachments, statuses, n - 1);
        let earlier = available_attachments(attachments, statuses, n - 1);
        assert forall|k: int|
            0 <= k < available_attachments(attachments, statuses, n).len() implies exists|i: int|
                0 <= i < n && statuses[i] == BlobCacheStatus::Available && attachments[i]@
                    == #[trigger] available_attachments(attachments, statuses, n)[k] by {
            if k < earlier.len() {
                let i = choose|i: int|
                    0 <= i < n - 1 && statuses[i] == BlobCacheStatus::Available && attachments[i]@
                        == earlier[k];
                assert(available_attachments(attachments, statuses, n)[k] == earlier[k]);
            } else {
                assert(statuses[n - 1] == BlobCacheStatus::Available);
            }
        }
    }
}

/// Only blobs found available are announced: every announced blob is the
/// object's text blob with status `Available` or an attachment with status
/// `Available`; an object with inline text and no available attachment
/// announces nothing, and nothing is announced without a hint transport and
/// a topic.
pub proof fn only_available_blobs_are_announced(
    can_announce: bool,
    payload: PayloadRef,
    payload_status: BlobCacheStatus,
    attachments: Seq<BlobRef>,
    statuses: Seq<BlobCacheStatus>,
)
    requires
        attachments.len() == statuses.len(),
    ensures
        !can_announce ==> announced_blobs(can_announce, payload, payload_status, attachments, statuses).len() == 0,
        forall|k: int|
            0 <= k < announced_blobs(can_announce, payload, payload_status, attachments, statuses).len()
                ==> (exists|i: int|
                0 <= i < attachments.len() && statuses[i] == BlobCacheStatus::Available
                    && attachments[i]@ == #[trigger] announced_blobs(
                    can_announce,
                    payload,
                    payload_status,
                    attachments,
                    statuses,
                )[k]) || (payload_status == BlobCacheStatus::Available && match payload {
                PayloadRef::BlobText { hash, mime, bytes } => announced_blobs(
                    can_announce,
                    payload,
                    payload_status,
                    attachments,
                    statuses,
                )[k] == (hash@, mime@, bytes),
                PayloadRef::InlineText { .. } => false,
            }),
{
    lemma_available_attachments_members(attachments, statuses, attachments.len() as int);
    let all = announced_blobs(can_announce, payload, payload_status, attachments, statuses);
    let tail = available_attachments(attachments, statuses, attachments.len() as int);
    if can_announce {
        let head = all.len() - tail.len();
        assert forall|k: int| 0 <= k < all.len() implies (exists|i: int|
            0 <= i < attachments.len() && statuses[i] == BlobCacheStatus::Available
                && attachments[i]@ == #[trigger] all[k]) || (payload_status
            == BlobCacheStatus::Available && match payload {
            PayloadRef::BlobText { hash, mime, bytes } => all[k] == (hash@, mime@, bytes),
            PayloadRef::InlineText { .. } => false,
        }) by {
            if k >= head {
                assert(all[k] == tail[k - head]);
            }
        }
    }
}

proof fn lemma_available_attachments_contains(
    attachments: Seq<BlobRef>,
    statuses: Seq<BlobCacheStatus>,
    n: int,
    i: int,
)
    requires
        0 <= i < n,
        statuses[i] == BlobCacheStatus::Available,
    ensures
        available_attachments(attachments, statuses, n).contains(attachments[i]@),
    decreases n,
{
    let all = available_attachments(attachments, statuses, n);
    if i == n - 1 {
        assert(all[all.len() - 1] == attachments[i]@);
    } else {
        lemma_available_attachments_contains(attachments, statuses, n - 1, i);
        let earlier = available_attachments(attachments, statuses, n - 1);
        let k = choose|k: int| 0 <= k < earlier.len() && earlier[k] == attachments[i]@;
        assert(all[k] == earlier[k]);
    }
}

/// With a hint transport and a topic, every attachment whose blob is
/// available is announced, whatever the kind of the payload; the text blob,
/// when it is a blob that is available, is announced first.
pub proof fn available_attachments_are_announced(
    payload: PayloadRef,
    payload_status: BlobCacheStatus,
    attachments: Seq<BlobRef>,
    statuses: Seq<BlobCacheStatus>,
)
    requires
        attachments.len() == statuses.len(),
    ensures
        forall|i: int|
            0 <= i < attachments.len() && statuses[i] == BlobCacheStatus::Available
                ==> announced_blobs(true, payload, payload_status, attachments, statuses).contains(
                #[trigger] attachments[i]@,
            ),
        (payload is BlobText && payload_status == BlobCacheStatus::Available) ==> announced_blobs(
            true,
            payload,
            payload_status,
            attachments,
            statuses,
        )[0] == (payload->hash@, payload->mime@, payload->bytes),
{
    let all = announced_blobs(true, payload, payload_status, attachments, statuses);
    let tail = available_attachments(attachments, statuses, attachments.len() as int);
    let head = all.len() - tail.len();
    assert forall|i: int|
        0 <= i < attachments.len() && statuses[i] == BlobCacheStatus::Available implies all.contains(
        #[trigger] attachments[i]@,
    ) by {
        lemma_available_attachments_contains(attachments, statuses, attachments.len() as int, i);
        let k = choose|k: int| 0 <= k < tail.len() && tail[k] == attachments[i]@;
        assert(all[head + k] == tail[k]);
    }
}

/// How the announced blobs grow with the attachments, with a hint transport
/// and a topic: with no attachment, only the text blob is announced, and only
/// when the text is a blob that is available; one more attachment adds itself
/// at the end exactly when its blob is available.
pub proof fn announced_blobs_grow_with_attachments(
    payload: PayloadRef,
    payload_status: BlobCacheStatus,
    attachments: Seq<BlobRef>,
    statuses: Seq<BlobCacheStatus>,
    attachment: BlobRef,
    status: BlobCacheStatus,
)
    requires
        attachments.len() == statuses.len(),
    ensures
        announced_blobs(true, payload, payload_status, Seq::empty(), Seq::empty()) == if payload
            is BlobText && payload_status == BlobCacheStatus::Available {
            seq![(payload->hash@, payload->mime@, payload->bytes)]
        } else {
            Seq::empty()
        },
        announced_blobs(
            true,
            payload,
            payload_status,
            attachments.push(attachment),
            statuses.push(status),
        ) == announced_blobs(true, payload, payload_status, attachments, statuses) + if status
            == BlobCacheStatus::Available {
            seq![attachment@]
        } else {
            Seq::empty()
        },
{
    let n = attachments.len() as int;
    lemma_available_attachments_frame(attachments, statuses, attachments.push(attachment), statuses.push(status), n);
    let before = announced_blobs(true, payload, payload_status, attachments, statuses);
    let after = announced_blobs(
        true,
        payload,
        payload_status,
        attachments.push(attachment),
        statuses.push(status),
    );
    assert(announced_blobs(true, payload, payload_status, Seq::empty(), Seq::empty()) =~= if payload
        is BlobText && payload_status == BlobCacheStatus::Available {
        seq![(payload->hash@, payload->mime@, payload->bytes)]
    } else {
        Seq::empty()
    });
    assert(after =~= before + if status == BlobCacheStatus::Available {
        seq![attachment@]
    } else {
        Seq::empty()
    });
}

proof fn lemma_available_attachments_frame(
    a: Seq<BlobRef>,
    s: Seq<BlobCacheStatus>,
    b: Seq<BlobRef>,
    t: Seq<BlobCacheStatus>,
    n: int,
)
    requires
        0 <= n <= a.len(),
        n <= b.len(),
        n <= s.len(),
        n <= t.len(),
        forall|i: int| 0 <= i < n ==> a[i] == b[i] && s[i] == t[i],
    ensures
        available_attachments(a, s, n) == available_attachments(b, t, n),
    decreases n,
{
    if n > 0 {
        lemma_available_attachments_frame(a, s, b, t, n - 1);
    }
}

/// The blobs that hydrating an object offers to announce (each is then
/// announced once, when the blob service marks it as newly announced).
pub fn blobs_to_announce(
    hint_transport_present: bool,
    topic_known: bool,
    payload: &PayloadRef,
    payload_status: BlobCacheStatus,
    attachments: &Vec<BlobRef>,
    attachment_statuses: &Vec<BlobCacheStatus>,
) -> (res: Vec<BlobRef>)
    requires
        attachments@.len() == attachment_statuses@.len(),
    ensures
        res@.map_values(|b: BlobRef| b@) == announced_blobs(
            hint_transport_present && topic_known,
            *payload,
            payload_status,
            attachments@,
            attachment_statuses@,
        ),
{
    let mut blobs: Vec<BlobRef> = Vec::new();
    if !(hint_transport_present && topic_known) {
        proof {
            assert(blobs@.map_values(|b: BlobRef| b@) =~= Seq::<(Seq<char>, Seq<char>, u64)>::empty());
        }
        return blobs;
    }
    match payload {
        PayloadRef::BlobText { hash, mime, bytes } => {
            if payload_status == BlobCacheStatus::Available {
                blobs.push(BlobRef { hash: BlobHash(hash.0.clone()), mime: mime.clone(), bytes: *bytes });
            }
        },
        PayloadRef::InlineText { .. } => {},
    }
    let ghost text_blobs = blobs@.map_values(|b: BlobRef| b@);
    let n = attachments.len();
    let mut i: usize = 0;
    while i < n
        invariant
            n == attachments@.len(),
            n == attachment_statuses@.len(),
            i <= n,
            blobs@.map_values(|b: BlobRef| b@) == text_blobs + available_attachments(
                attachments@,
                attachment_statuses@,
                i as int,
            ),
        decreases n - i,
    {
        if attachment_statuses[i] == BlobCacheStatus::Available {
            let ghost before = blobs@;
            let attachment = &attachments[i];
            blobs.push(
                BlobRef {
                    hash: BlobHash(attachment.hash.0.clone()),
                    mime: attachment.mime.clone(),
                    bytes: attachment.bytes,
                },
            );
            assert(blobs@.map_values(|b: BlobRef| b@) =~= before.map_values(|b: BlobRef| b@).push(
                attachments@[i as int]@,
            ));
        }
        i = i + 1;
    }
    proof {
        assert(blobs@.map_values(|b: BlobRef| b@) =~= announced_blobs(
            true,
            *payload,
            payload_status,
            attachments@,
            attachment_statuses@,
        ));
    }
    blobs
}

/// The announcement that a blob is available locally: the hint topic it goes
/// to and the `BlobAvailable` hint naming the community topic.
pub fn blob_available_announcement(
    topic_id: &str,
    channel_id: Option<&ChannelId>,
    hash: &BlobHash,
    mime: &str,
    bytes: u64,
) -> (res: (TopicId, GossipHint))
    ensures
        res.0@ == channel_hint_topic(topic_id@, channel_view(channel_id)),
        res.1 matches GossipHint::BlobAvailable { topic_id: t, hash: h, mime: m, bytes: b } && t@
            == topic_id@ && h@ == hash@ && m@ == mime@ && b == bytes,
        hint_topic(res.1) == Some(topic_id@),
{
    let hint_topic = channel_hint_topic_for(topic_id, channel_id);
    let hint = GossipHint::BlobAvailable {
        topic_id: TopicId(topic_id.to_string()),
        hash: BlobHash(hash.0.clone()),
        mime: mime.to_string(),
        bytes,
    };
    (hint_topic, hint)
}

} // verus!
