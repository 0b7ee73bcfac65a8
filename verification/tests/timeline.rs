use kukuri::ids::EnvelopeId;
use kukuri::timeline::{
    profile_timeline_page, projection_page_needs_hydration, ObjectProjectionRow, Page, ProfilePost,
    ProfileRepost, ProfileTimelineItem, TimelineCursor,
};

fn post(id: &str, created_at: i64) -> ProfileTimelineItem {
    ProfileTimelineItem::Post(ProfilePost { object_id: EnvelopeId::new(id.to_string()), created_at })
}

fn repost(id: &str, created_at: i64) -> ProfileTimelineItem {
    ProfileTimelineItem::Repost(ProfileRepost {
        object_id: EnvelopeId::new(id.to_string()),
        created_at,
    })
}

fn items() -> Vec<ProfileTimelineItem> {
    vec![post("e", 50), repost("d", 40), post("c", 40), post("b", 30), repost("a", 20)]
}

fn cursor(created_at: i64, id: &str) -> TimelineCursor {
    TimelineCursor { created_at, object_id: EnvelopeId::new(id.to_string()) }
}

#[test]
fn first_page_takes_limit_items_and_points_at_the_next() {
    let page = profile_timeline_page(items(), None, 2);
    assert_eq!(page.items, vec![post("e", 50), repost("d", 40)]);
    assert_eq!(page.next_cursor, Some(cursor(40, "c")));
}

#[test]
fn cursor_keeps_older_items_and_same_time_smaller_ids() {
    let page = profile_timeline_page(items(), Some(cursor(40, "d")), 10);
    assert_eq!(page.items, vec![post("c", 40), post("b", 30), repost("a", 20)]);
    assert_eq!(page.next_cursor, None);
}

#[test]
fn zero_limit_returns_no_items_and_the_same_cursor() {
    let page = profile_timeline_page(items(), Some(cursor(40, "d")), 0);
    assert!(page.items.is_empty());
    assert_eq!(page.next_cursor, Some(cursor(40, "d")));
}

#[test]
fn exact_fit_has_no_next_cursor() {
    let page = profile_timeline_page(items(), None, 5);
    assert_eq!(page.items.len(), 5);
    assert_eq!(page.next_cursor, None);
    let empty = profile_timeline_page(Vec::new(), None, 3);
    assert!(empty.items.is_empty());
    assert_eq!(empty.next_cursor, None);
}

#[test]
fn item_accessors_read_either_kind() {
    assert_eq!(repost("x", 7).created_at(), 7);
    assert_eq!(repost("x", 7).object_id().as_str(), "x");
    assert_eq!(post("y", 8).object_id().as_str(), "y");
}

fn row(content: Option<&str>) -> ObjectProjectionRow {
    ObjectProjectionRow {
        object_id: EnvelopeId::new("o".to_string()),
        topic_id: "kukuri:topic:t".to_string(),
        channel_id: "public".to_string(),
        object_kind: "post".to_string(),
        content: content.map(str::to_string),
    }
}

#[test]
fn page_with_missing_content_needs_hydration() {
    let complete = Page { items: vec![row(Some("a")), row(Some("b"))], next_cursor: None };
    assert!(!projection_page_needs_hydration(&complete));
    let missing = Page { items: vec![row(Some("a")), row(None)], next_cursor: None };
    assert!(projection_page_needs_hydration(&missing));
    let empty: Page<ObjectProjectionRow> = Page { items: Vec::new(), next_cursor: None };
    assert!(!projection_page_needs_hydration(&empty));
}
