//! What tearing subscriptions down unsubscribes: on shutdown, when leaving a
//! private channel, and when restarting a private channel's subscription.
use vstd::prelude::*;

use crate::hints::channel_hint_topic_for;
use crate::ids::ChannelId;
use crate::sync_state::{keys_with_prefix, second_key_part, subscription_key_channel_id, subscription_keys_with_prefix};
use crate::text::{lemma_lex_lt_total, lemma_lex_lt_transitive, seq_lex_lt, text_eq, text_lex_lt};

verus! {

/// The texts of a list of strings.
pub open spec fn texts(v: Seq<String>) -> Seq<Seq<char>> {
    v.map_values(|s: String| s@)
}

/// Each text comes strictly before the next: the list is ascending and
/// names nothing twice.
pub open spec fn strictly_ascending(s: Seq<Seq<char>>) -> bool {
    forall|i: int, j: int| 0 <= i < j < s.len() ==> seq_lex_lt(#[trigger] s[i], #[trigger] s[j])
}

/// The hint topic of a private channel.
pub open spec fn private_channel_hint_topic(channel_id: Seq<char>) -> Seq<char> {
    "private/"@ + channel_id
}

/// The hint topics of the private channels that subscription keys name (by
/// their second `::`-separated part), in key order; a key without such a part
/// names none.
pub open spec fn private_hint_topics(keys: Seq<Seq<char>>) -> Seq<Seq<char>>
    decreases keys.len(),
{
    if keys.len() == 0 {
        Seq::empty()
    } else {
        let earlier = private_hint_topics(keys.drop_last());
        match second_key_part(keys.last()) {
            Some(channel) => earlier.push(private_channel_hint_topic(channel)),
            None => earlier,
        }
    }
}

proof fn lemma_insert_keeps_ascending(s: Seq<Seq<char>>, i: int, x: Seq<char>)
    requires
        strictly_ascending(s),
        0 <= i <= s.len(),
        forall|k: int| 0 <= k < i ==> seq_lex_lt(#[trigger] s[k], x),
        i < s.len() ==> seq_lex_lt(x, s[i]),
    ensures
        strictly_ascending(s.insert(i, x)),
        s.insert(i, x).to_set() == s.to_set().insert(x),
{
    let t = s.insert(i, x);
    assert forall|a: int, b: int| 0 <= a < b < t.len() implies seq_lex_lt(
        #[trigger] t[a],
        #[trigger] t[b],
    ) by {
        if b == i {
            assert(t[a] == s[a]);
        } else if a == i {
            assert(t[b] == s[b - 1]);
            if b - 1 > i {
                assert(seq_lex_lt(s[i], s[b - 1]));
                lemma_lex_lt_transitive(x, s[i], s[b - 1]);
            }
        } else if b < i {
            assert(t[a] == s[a] && t[b] == s[b]);
        } else if a < i {
            assert(t[a] == s[a] && t[b] == s[b - 1]);
        } else {
            assert(t[a] == s[a - 1] && t[b] == s[b - 1]);
        }
    }
    assert forall|y: Seq<char>| #[trigger] t.to_set().contains(y) == s.to_set().insert(x).contains(
        y,
    ) by {
        if t.contains(y) {
            let k = choose|k: int| 0 <= k < t.len() && t[k] == y;
            if k < i {
                assert(s[k] == y);
            } else if k > i {
                assert(s[k - 1] == y);
            }
        }
        if s.contains(y) {
            let k = choose|k: int| 0 <= k < s.len() && s[k] == y;
            if k < i {
                assert(t[k] == y);
            } else {
                assert(t[k + 1] == y);
            }
        }
        if y == x {
            assert(t[i] == x);
        }
    }
    assert(t.to_set() =~= s.to_set().insert(x));
}

/// Adds `item` to a strictly ascending list at its place, unless the list
/// already holds it.
fn insert_ascending(list: &mut Vec<String>, item: String)
    requires
        strictly_ascending(texts(old(list)@)),
    ensures
        strictly_ascending(texts(final(list)@)),
        texts(final(list)@).to_set() == texts(old(list)@).to_set().insert(item@),
{
    let ghost before = texts(list@);
    let n = list.len();
    let mut i: usize = 0;
    while i < n
        invariant
            n == list@.len(),
            list@ == old(list)@,
            before == texts(list@),
            strictly_ascending(before),
            i <= n,
            forall|k: int| 0 <= k < i ==> seq_lex_lt(#[trigger] before[k], item@),
        decreases n - i,
    {
        if !text_lex_lt(list[i].as_str(), item.as_str()) {
            if text_eq(list[i].as_str(), item.as_str()) {
                proof {
                    assert(before[i as int] == item@);
                    assert(before.to_set().insert(item@) =~= before.to_set());
                }
                return;
            }
            proof {
                lemma_lex_lt_total(before[i as int], item@);
                lemma_insert_keeps_ascending(before, i as int, item@);
            }
            list.insert(i, item);
            proof {
                assert(texts(list@) =~= before.insert(i as int, item@));
            }
            return;
        }
        i = i + 1;
    }
    proof {
        lemma_insert_keeps_ascending(before, n as int, item@);
    }
    list.insert(n, item);
    proof {
        assert(texts(list@) =~= before.insert(n as int, item@));
    }
}

/// The hint topics that shutting down unsubscribes, in two groups taken in
/// turn.
#[derive(Clone, Debug, PartialEq, Eq)]
pub struct ShutdownUnsubscriptions {
    /// The hint topic of each private channel that a private-channel
    /// subscription key names, once each, in ascending order.
    pub private_channel_topics: Vec<String>,
    /// Each subscribed topic, once each, in ascending order.
    pub topics: Vec<String>,
}

/// What shutting down unsubscribes, given the keys of the topic
/// subscriptions and of the private-channel subscriptions.
pub fn shutdown_unsubscriptions(topic_keys: &Vec<String>, private_keys: &Vec<String>) -> (res:
    ShutdownUnsubscriptions)
    ensures
        strictly_ascending(texts(res.private_channel_topics@)),
        texts(res.private_channel_topics@).to_set() == private_hint_topics(
            texts(private_keys@),
        ).to_set(),
        strictly_ascending(texts(res.topics@)),
        texts(res.topics@).to_set() == texts(topic_keys@).to_set(),
{
    let mut private_channel_topics: Vec<String> = Vec::new();
    let n = private_keys.len();
    let mut i: usize = 0;
    while i < n
        invariant
            n == private_keys@.len(),
            i <= n,
            strictly_ascending(texts(private_channel_topics@)),
            texts(private_channel_topics@).to_set() == private_hint_topics(
                texts(private_keys@).take(i as int),
            ).to_set(),
        decreases n - i,
    {
        proof {
            assert(texts(private_keys@).take(i + 1).drop_last() =~= texts(private_keys@).take(
                i as int,
            ));
            assert(texts(private_keys@).take(i + 1).last() == private_keys@[i as int]@);
        }
        match subscription_key_channel_id(private_keys[i].as_str()) {
            Some(channel) => {
                let topic = channel_hint_topic_for("", Some(&ChannelId(channel)));
                proof {
                    private_hint_topics(texts(private_keys@).take(i as int)).lemma_push_to_set_commute(
                        topic@,
                    );
                    assert(topic@ == private_channel_hint_topic(
                        second_key_part(private_keys@[i as int]@)->0,
                    ));
                }
                insert_ascending(&mut private_channel_topics, topic.0);
            },
            None => {},
        }
        i = i + 1;
    }
    proof {
        assert(texts(private_keys@).take(n as int) =~= texts(private_keys@));
    }
    let mut topics: Vec<String> = Vec::new();
    let m = topic_keys.len();
    let mut j: usize = 0;
    while j < m
        invariant
            m == topic_keys@.len(),
            j <= m,
            strictly_ascending(texts(topics@)),
            texts(topics@).to_set() == texts(topic_keys@).take(j as int).to_set(),
        decreases m - j,
    {
        proof {
            texts(topic_keys@).take(j as int).lemma_push_to_set_commute(topic_keys@[j as int]@);
            assert(texts(topic_keys@).take(j + 1) =~= texts(topic_keys@).take(j as int).push(
                topic_keys@[j as int]@,
            ));
        }
        insert_ascending(&mut topics, topic_keys[j].clone());
        j = j + 1;
    }
    proof {
        assert(texts(topic_keys@).take(m as int) =~= texts(topic_keys@));
    }
    ShutdownUnsubscriptions { private_channel_topics, topics }
}

/// What leaving or restarting a private channel tears down.
#[derive(Clone, Debug, PartialEq, Eq)]
pub struct ChannelTeardown {
    /// The channel's subscription keys, whose tasks stop, in their given order.
    pub subscription_keys: Vec<String>,
    /// The hint topic to unsubscribe, if any.
    pub unsubscribe_hint_topic: Option<String>,
}

/// Leaving a private channel: its subscriptions (the keys that start with
/// its subscription prefix) stop, and its hint topic is unsubscribed only
/// when the transport reported peers (`peer_count` is `None` where asking
/// for them failed).
pub fn leave_channel_teardown(
    subscription_keys: &Vec<String>,
    prefix: &str,
    channel_id: &str,
    peer_count: Option<usize>,
) -> (res: ChannelTeardown)
    ensures
        texts(res.subscription_keys@) == keys_with_prefix(texts(subscription_keys@), prefix@),
        res.unsubscribe_hint_topic is Some <==> (peer_count matches Some(n) && n > 0),
        res.unsubscribe_hint_topic matches Some(topic) ==> topic@ == private_channel_hint_topic(
            channel_id@,
        ),
{
    let keys = subscription_keys_with_prefix(subscription_keys, prefix);
    proof {
        assert(keys@.map_values(|k: String| k@) == texts(keys@));
    }
    let has_peers = match peer_count {
        Some(n) => n > 0,
        None => false,
    };
    let unsubscribe_hint_topic = if has_peers {
        Some(channel_hint_topic_for("", Some(&ChannelId(channel_id.to_string()))).0)
    } else {
        None
    };
    ChannelTeardown { subscription_keys: keys, unsubscribe_hint_topic }
}

/// Restarting a private channel's subscription: its subscriptions stop and
/// its hint topic is always unsubscribed before the subscription starts again.
pub fn restart_channel_teardown(subscription_keys: &Vec<String>, prefix: &str, channel_id: &str) -> (res:
    ChannelTeardown)
    ensures
        texts(res.subscription_keys@) == keys_with_prefix(texts(subscription_keys@), prefix@),
        res.unsubscribe_hint_topic matches Some(topic) && topic@ == private_channel_hint_topic(
            channel_id@,
        ),
{
    let keys = subscription_keys_with_prefix(subscription_keys, prefix);
    proof {
        assert(keys@.map_values(|k: String| k@) == texts(keys@));
    }
    let topic = channel_hint_topic_for("", Some(&ChannelId(channel_id.to_string())));
    ChannelTeardown { subscription_keys: keys, unsubscribe_hint_topic: Some(topic.0) }
}

} // verus!
