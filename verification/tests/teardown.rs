use kukuri::teardown::{
    leave_channel_teardown, restart_channel_teardown, shutdown_unsubscriptions,
    ShutdownUnsubscriptions,
};

fn strings(items: &[&str]) -> Vec<String> {
    items.iter().map(|s| s.to_string()).collect()
}

#[test]
fn shutdown_unsubscribes_each_hint_topic_once_in_order() {
    let topics = strings(&["kukuri:topic:b", "kukuri:topic:a"]);
    let private = strings(&[
        "kukuri:topic:a::chan-2::epoch-1",
        "kukuri:topic:a::chan-1::epoch-1",
        "kukuri:topic:a::chan-2::epoch-2",
        "no-separator",
    ]);
    assert_eq!(
        shutdown_unsubscriptions(&topics, &private),
        ShutdownUnsubscriptions {
            private_channel_topics: strings(&["private/chan-1", "private/chan-2"]),
            topics: strings(&["kukuri:topic:a", "kukuri:topic:b"]),
        }
    );
}

#[test]
fn shutdown_with_one_topic_unsubscribes_it() {
    let topics = strings(&["kukuri:topic:shutdown"]);
    let plan = shutdown_unsubscriptions(&topics, &Vec::new());
    assert!(plan.private_channel_topics.is_empty());
    assert_eq!(plan.topics, vec!["kukuri:topic:shutdown".to_string()]);
}

#[test]
fn leaving_unsubscribes_hint_topic_only_with_peers() {
    let keys = strings(&["t::c1::e1", "t::c2::e1", "t::c1::e2"]);
    let with_peers = leave_channel_teardown(&keys, "t::c1::", "c1", Some(2));
    assert_eq!(with_peers.subscription_keys, strings(&["t::c1::e1", "t::c1::e2"]));
    assert_eq!(with_peers.unsubscribe_hint_topic, Some("private/c1".to_string()));
    let no_peers = leave_channel_teardown(&keys, "t::c1::", "c1", Some(0));
    assert_eq!(no_peers.unsubscribe_hint_topic, None);
    let unknown = leave_channel_teardown(&keys, "t::c1::", "c1", None);
    assert_eq!(unknown.unsubscribe_hint_topic, None);
    assert_eq!(unknown.subscription_keys, strings(&["t::c1::e1", "t::c1::e2"]));
}

#[test]
fn restarting_always_unsubscribes_hint_topic() {
    let keys = strings(&["t::c1::e1", "t::c2::e1"]);
    let plan = restart_channel_teardown(&keys, "t::c2::", "c2");
    assert_eq!(plan.subscription_keys, strings(&["t::c2::e1"]));
    assert_eq!(plan.unsubscribe_hint_topic, Some("private/c2".to_string()));
}
