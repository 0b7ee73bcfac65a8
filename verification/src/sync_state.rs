//! Per-key bookkeeping of the sync layer: restart cooldowns, subscription
//! generations and docs-delivery status of public topics.
use vstd::hash_map::StringHashMap;
use vstd::prelude::*;

use crate::recovery::{saturating_add_i64, saturating_sum};
use crate::ids::ChannelId;
use crate::text::{seq_has_prefix, text_has_prefix};

verus! {

/// Seconds that a replica-sync restart blocks the next one for the same replica.
pub const REPLICA_SYNC_RESTART_RETRY_SECONDS: i64 = 5;

/// The deadline recorded for a key, 0 when none is.
pub open spec fn deadline_of(deadlines: Map<Seq<char>, i64>, key: Seq<char>) -> i64 {
    if deadlines.contains_key(key) {
        deadlines[key]
    } else {
        0
    }
}

/// The deadlines after a restart of `replica` is asked for at `now_secs`:
/// when the recorded deadline has passed, the restart is claimed and the next
/// one is blocked for the retry interval.
pub open spec fn deadlines_after_claim(
    deadlines: Map<Seq<char>, i64>,
    replica: Seq<char>,
    now_secs: i64,
) -> Map<Seq<char>, i64> {
    if deadline_of(deadlines, replica) <= now_secs {
        deadlines.insert(
            replica,
            saturating_sum(now_secs as int, REPLICA_SYNC_RESTART_RETRY_SECONDS as int),
        )
    } else {
        deadlines
    }
}

/// The restart cooldowns of replica syncs, by replica id.
pub struct ReplicaSyncRestartDeadlines {
    deadlines: StringHashMap<i64>,
}

impl View for ReplicaSyncRestartDeadlines {
    type V = Map<Seq<char>, i64>;

    closed spec fn view(&self) -> Map<Seq<char>, i64> {
        self.deadlines@
    }
}

impl ReplicaSyncRestartDeadlines {
    /// No replica is cooling down.
    pub fn new() -> (res: ReplicaSyncRestartDeadlines)
        ensures
            res@ == Map::<Seq<char>, i64>::empty(),
    {
        ReplicaSyncRestartDeadlines { deadlines: StringHashMap::new() }
    }

    /// Decides whether the replica sync of `replica` is restarted at
    /// `now_secs` (seconds): only when its cooldown has passed, and claiming
    /// the restart starts a new cooldown.
    pub fn claim_replica_sync_restart(&mut self, replica: &str, now_secs: i64) -> (res: bool)
        ensures
            res == (deadline_of(old(self)@, replica@) <= now_secs),
            final(self)@ == deadlines_after_claim(old(self)@, replica@, now_secs),
    {
        let next_due_at = match self.deadlines.get(replica) {
            Some(due) => *due,
            None => 0,
        };
        if next_due_at > now_secs {
            return false;
        }
        self.deadlines.insert(
            replica.to_string(),
            saturating_add_i64(now_secs, REPLICA_SYNC_RESTART_RETRY_SECONDS),
        );
        true
    }
}

/// After a claimed restart, no other restart of the same replica is claimed
/// before the retry interval has passed.
pub proof fn restart_cooldown_blocks_repeats(
    deadlines: Map<Seq<char>, i64>,
    replica: Seq<char>,
    first: i64,
    second: i64,
)
    requires
        deadline_of(deadlines, replica) <= first,
        second < saturating_sum(first as int, REPLICA_SYNC_RESTART_RETRY_SECONDS as int),
    ensures
        deadline_of(deadlines_after_claim(deadlines, replica, first), replica) > second,
        deadlines_after_claim(deadlines_after_claim(deadlines, replica, first), replica, second)
            == deadlines_after_claim(deadlines, replica, first),
{
}

/// The generation that follows the one recorded for a key (0 when none is),
/// saturating at `u64::MAX`.
pub open spec fn following_generation(generations: Map<Seq<char>, u64>, key: Seq<char>) -> u64 {
    let current: u64 = if generations.contains_key(key) {
        generations[key]
    } else {
        0
    };
    if current == u64::MAX {
        u64::MAX
    } else {
        (current + 1) as u64
    }
}

/// The latest subscription generation of each subscription key.
pub struct SubscriptionGenerations {
    generations: StringHashMap<u64>,
}

impl View for SubscriptionGenerations {
    type V = Map<Seq<char>, u64>;

    closed spec fn view(&self) -> Map<Seq<char>, u64> {
        self.generations@
    }
}

impl SubscriptionGenerations {
    /// No generation has started.
    pub fn new() -> (res: SubscriptionGenerations)
        ensures
            res@ == Map::<Seq<char>, u64>::empty(),
    {
        SubscriptionGenerations { generations: StringHashMap::new() }
    }

    /// Starts a new generation for a subscription key and returns it.
    pub fn next_subscription_generation(&mut self, key: &str) -> (res: u64)
        ensures
            res == following_generation(old(self)@, key@),
            final(self)@ == old(self)@.insert(key@, res),
    {
        let current = match self.generations.get(key) {
            Some(generation) => *generation,
            None => 0,
        };
        let generation = current.saturating_add(1);
        self.generations.insert(key.to_string(), generation);
        generation
    }
}

/// Successive generations of a key grow strictly until they reach `u64::MAX`.
pub proof fn generations_increase(generations: Map<Seq<char>, u64>, key: Seq<char>)
    ensures
        generations.contains_key(key) && generations[key] < u64::MAX ==> following_generation(
            generations,
            key,
        ) > generations[key],
        following_generation(generations, key) >= 1,
        following_generation(
            generations.insert(key, following_generation(generations, key)),
            key,
        ) > following_generation(generations, key) || following_generation(generations, key)
            == u64::MAX,
{
}

/// Docs-assisted delivery seen by the current subscription of a public topic.
#[derive(Clone, Copy, Debug, PartialEq, Eq, Structural)]
pub struct PublicTopicDeliveryStatus {
    pub generation: u64,
    pub last_docs_activity_at: Option<i64>,
}

impl Default for PublicTopicDeliveryStatus {
    fn default() -> (res: PublicTopicDeliveryStatus)
        ensures
            res == (PublicTopicDeliveryStatus { generation: 0, last_docs_activity_at: None }),
    {
        PublicTopicDeliveryStatus { generation: 0, last_docs_activity_at: None }
    }
}

/// The delivery table after a new subscription generation starts for a topic.
pub open spec fn delivery_after_reset(
    delivery: Map<Seq<char>, PublicTopicDeliveryStatus>,
    topic: Seq<char>,
    generation: u64,
) -> Map<Seq<char>, PublicTopicDeliveryStatus> {
    delivery.insert(topic, PublicTopicDeliveryStatus { generation, last_docs_activity_at: None })
}

/// The delivery table after activity at `at_ms` is reported by the
/// subscription of generation `generation`: only the current generation of
/// the topic records it.
pub open spec fn delivery_after_activity(
    delivery: Map<Seq<char>, PublicTopicDeliveryStatus>,
    topic: Seq<char>,
    generation: u64,
    at_ms: i64,
) -> Map<Seq<char>, PublicTopicDeliveryStatus> {
    if delivery.contains_key(topic) && delivery[topic].generation == generation {
        delivery.insert(
            topic,
            PublicTopicDeliveryStatus { generation, last_docs_activity_at: Some(at_ms) },
        )
    } else {
        delivery
    }
}

/// The docs-delivery status of the current subscription of each public topic.
pub struct PublicTopicDelivery {
    delivery: StringHashMap<PublicTopicDeliveryStatus>,
}

impl View for PublicTopicDelivery {
    type V = Map<Seq<char>, PublicTopicDeliveryStatus>;

    closed spec fn view(&self) -> Map<Seq<char>, PublicTopicDeliveryStatus> {
        self.delivery@
    }
}

impl PublicTopicDelivery {
    /// No topic is tracked.
    pub fn new() -> (res: PublicTopicDelivery)
        ensures
            res@ == Map::<Seq<char>, PublicTopicDeliveryStatus>::empty(),
    {
        PublicTopicDelivery { delivery: StringHashMap::new() }
    }

    /// Starts tracking delivery for a new generation of a topic's subscription.
    pub fn reset_public_topic_delivery_generation(&mut self, topic_id: &str, generation: u64)
        ensures
            final(self)@ == delivery_after_reset(old(self)@, topic_id@, generation),
    {
        self.delivery.insert(
            topic_id.to_string(),
            PublicTopicDeliveryStatus { generation, last_docs_activity_at: None },
        );
    }

    /// Stops tracking delivery for a topic.
    pub fn clear_public_topic_delivery(&mut self, topic_id: &str)
        ensures
            final(self)@ == old(self)@.remove(topic_id@),
    {
        self.delivery.remove(topic_id);
    }

    /// The delivery status tracked for a topic, if any.
    pub fn public_topic_delivery_status(&self, topic_id: &str) -> (res: Option<
        PublicTopicDeliveryStatus,
    >)
        ensures
            res == if self@.contains_key(topic_id@) {
                Some(self@[topic_id@])
            } else {
                None
            },
    {
        match self.delivery.get(topic_id) {
            Some(status) => Some(*status),
            None => None,
        }
    }

    /// Records docs activity for a topic when `generation` is still its
    /// current subscription generation; reports of an older subscription are
    /// ignored.
    pub fn record_public_topic_docs_activity_if_current(
        &mut self,
        topic_id: &str,
        generation: u64,
        at_ms: i64,
    )
        ensures
            final(self)@ == delivery_after_activity(old(self)@, topic_id@, generation, at_ms),
    {
        let current = self.public_topic_delivery_status(topic_id);
        if let Some(status) = current {
            if status.generation == generation {
                self.delivery.insert(
                    topic_id.to_string(),
                    PublicTopicDeliveryStatus { generation, last_docs_activity_at: Some(at_ms) },
                );
            }
        }
    }
}

/// After a topic's subscription restarts with a new generation, activity
/// reported by an older generation is ignored, and activity of the new one is
/// recorded.
pub proof fn only_current_generation_records_activity(
    delivery: Map<Seq<char>, PublicTopicDeliveryStatus>,
    topic: Seq<char>,
    current: u64,
    reported: u64,
    at_ms: i64,
)
    ensures
        reported != current ==> delivery_after_activity(
            delivery_after_reset(delivery, topic, current),
            topic,
            reported,
            at_ms,
        ) == delivery_after_reset(delivery, topic, current),
        delivery_after_activity(delivery_after_reset(delivery, topic, current), topic, current, at_ms)[topic]
            == (PublicTopicDeliveryStatus { generation: current, last_docs_activity_at: Some(at_ms) }),
{
}

/// Which table keeps the task of a subscription.
#[derive(Clone, Copy, Debug, PartialEq, Eq, Structural)]
pub enum SubscriptionTable {
    /// Topic subscriptions, keyed by topic id.
    Topics,
    /// Private-channel subscriptions, keyed by their subscription key.
    PrivateChannels,
}

/// How a new subscription task is set up.
#[derive(Clone, Debug, PartialEq, Eq)]
pub struct SubscriptionSetup {
    /// The key whose generation the task carries, and under which its table keeps it.
    pub subscription_key: String,
    /// Whether the task follows a public topic (no channel, no private key).
    pub public_topic: bool,
    pub table: SubscriptionTable,
    /// Which generation of its key this subscription is.
    pub generation: u64,
}

/// Sets up a subscription task: its key is the private key when there is
/// one, else the topic id; it starts the key's next generation; a public
/// topic (no channel and no private key) starts tracking delivery for that
/// generation; the task is kept in the private-channel table exactly when a
/// private key is given.
pub fn begin_subscription(
    generations: &mut SubscriptionGenerations,
    delivery: &mut PublicTopicDelivery,
    topic_id: &str,
    channel_id: Option<&ChannelId>,
    private_key: Option<&str>,
) -> (res: SubscriptionSetup)
    ensures
        res.subscription_key@ == match private_key {
            Some(k) => k@,
            None => topic_id@,
        },
        res.public_topic == (channel_id is None && private_key is None),
        res.table == if private_key is Some {
            SubscriptionTable::PrivateChannels
        } else {
            SubscriptionTable::Topics
        },
        res.generation == following_generation(old(generations)@, res.subscription_key@),
        final(generations)@ == old(generations)@.insert(res.subscription_key@, res.generation),
        final(delivery)@ == if res.public_topic {
            delivery_after_reset(old(delivery)@, topic_id@, res.generation)
        } else {
            old(delivery)@
        },
{
    let subscription_key = match private_key {
        Some(key) => key.to_string(),
        None => topic_id.to_string(),
    };
    let generation = generations.next_subscription_generation(subscription_key.as_str());
    let public_topic = channel_id.is_none() && private_key.is_none();
    if public_topic {
        delivery.reset_public_topic_delivery_generation(topic_id, generation);
    }
    let table = if private_key.is_some() {
        SubscriptionTable::PrivateChannels
    } else {
        SubscriptionTable::Topics
    };
    SubscriptionSetup { subscription_key, public_topic, table, generation }
}

/// The keys that start with `prefix`, in their given order.
pub open spec fn keys_with_prefix(keys: Seq<Seq<char>>, prefix: Seq<char>) -> Seq<Seq<char>>
    decreases keys.len(),
{
    if keys.len() == 0 {
        Seq::empty()
    } else {
        let earlier = keys_with_prefix(keys.drop_last(), prefix);
        if seq_has_prefix(keys.last(), prefix) {
            earlier.push(keys.last())
        } else {
            earlier
        }
    }
}

/// The subscription keys of one private channel: those that start with its
/// subscription prefix.
pub fn subscription_keys_with_prefix(keys: &Vec<String>, prefix: &str) -> (res: Vec<String>)
    ensures
        res@.map_values(|k: String| k@) == keys_with_prefix(
            keys@.map_values(|k: String| k@),
            prefix@,
        ),
{
    let ghost all = keys@.map_values(|k: String| k@);
    let mut selected: Vec<String> = Vec::new();
    let n = keys.len();
    let mut i: usize = 0;
    while i < n
        invariant
            n == keys@.len(),
            all == keys@.map_values(|k: String| k@),
            i <= n,
            selected@.map_values(|k: String| k@) == keys_with_prefix(all.take(i as int), prefix@),
        decreases n - i,
    {
        assert(all.take(i + 1).drop_last() =~= all.take(i as int));
        assert(all.take(i + 1).last() == keys@[i as int]@);
        if text_has_prefix(keys[i].as_str(), prefix) {
            let ghost before = selected@;
            selected.push(keys[i].clone());
            assert(selected@.map_values(|k: String| k@) =~= before.map_values(|k: String| k@).push(
                keys@[i as int]@,
            ));
        }
        i = i + 1;
    }
    assert(all.take(n as int) =~= all);
    selected
}

/// Whether `::` starts at position `i` of `s`.
pub open spec fn separator_at(s: Seq<char>, i: int) -> bool {
    0 <= i && i + 1 < s.len() && s[i] == ':' && s[i + 1] == ':'
}

/// The first position at or after `from` where `::` starts, or -1.
pub open spec fn find_separator(s: Seq<char>, from: int) -> int
    decreases s.len() - from,
{
    if from < 0 || from + 1 >= s.len() {
        -1
    } else if separator_at(s, from) {
        from
    } else {
        find_separator(s, from + 1)
    }
}

/// The second `::`-separated part of a key (what `key.split("::").nth(1)`
/// gives), or `None` when the key holds no `::`.
pub open spec fn second_key_part(key: Seq<char>) -> Option<Seq<char>> {
    let i = find_separator(key, 0);
    if i < 0 {
        None
    } else {
        let rest = key.subrange(i + 2, key.len() as int);
        let j = find_separator(rest, 0);
        Some(if j < 0 { rest } else { rest.subrange(0, j) })
    }
}

proof fn lemma_find_separator_bounds(s: Seq<char>, from: int)
    ensures
        find_separator(s, from) == -1 || (from <= find_separator(s, from) && separator_at(
            s,
            find_separator(s, from),
        )),
    decreases s.len() - from,
{
    if !(from < 0 || from + 1 >= s.len()) && !separator_at(s, from) {
        lemma_find_separator_bounds(s, from + 1);
    }
}

fn first_separator(s: &str, len: usize) -> (res: Option<usize>)
    requires
        len == s@.len(),
    ensures
        match res {
            Some(i) => find_separator(s@, 0) == i as int,
            None => find_separator(s@, 0) == -1,
        },
{
    if len < 2 {
        return None;
    }
    let mut i: usize = 0;
    while i < len - 1
        invariant
            len == s@.len(),
            len >= 2,
            find_separator(s@, 0) == find_separator(s@, i as int),
        decreases len - i,
    {
        if s.get_char(i) == ':' && s.get_char(i + 1) == ':' {
            return Some(i);
        }
        i = i + 1;
    }
    None
}

/// The channel id in the key of a private-channel subscription: its second
/// `::`-separated part.
pub fn subscription_key_channel_id(key: &str) -> (res: Option<String>)
    ensures
        match res {
            Some(c) => second_key_part(key@) == Some(c@),
            None => second_key_part(key@) is None,
        },
{
    let len = key.unicode_len();
    let i = match first_separator(key, len) {
        Some(i) => i,
        None => return None,
    };
    proof {
        lemma_find_separator_bounds(key@, 0);
    }
    let rest = key.substring_char(i + 2, len);
    let rest_len = rest.unicode_len();
    match first_separator(rest, rest_len) {
        Some(j) => {
            proof {
                lemma_find_separator_bounds(rest@, 0);
            }
            Some(rest.substring_char(0, j).to_string())
        },
        None => Some(rest.to_string()),
    }
}

} // verus!
