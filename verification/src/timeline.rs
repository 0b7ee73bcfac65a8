//! Pages of timelines, ordered newest first and continued by a cursor.
use vstd::prelude::*;

use crate::ids::EnvelopeId;
use crate::text::{seq_lex_lt, text_lex_lt};

verus! {

/// Where the next page of a timeline starts: items strictly older than this
/// time, or as old and with a smaller object id.
#[derive(Clone, Debug, PartialEq, Eq)]
pub struct TimelineCursor {
    pub created_at: i64,
    pub object_id: EnvelopeId,
}

/// One page of items and the cursor of the page after it, if any.
#[derive(Clone, Debug, PartialEq, Eq)]
pub struct Page<T> {
    pub items: Vec<T>,
    pub next_cursor: Option<TimelineCursor>,
}

/// A post of an author's profile, as the profile timeline reads it.
#[derive(Clone, Debug, PartialEq, Eq)]
pub struct ProfilePost {
    pub object_id: EnvelopeId,
    pub created_at: i64,
}

/// A repost of an author's profile, as the profile timeline reads it.
#[derive(Clone, Debug, PartialEq, Eq)]
pub struct ProfileRepost {
    pub object_id: EnvelopeId,
    pub created_at: i64,
}

/// An entry of an author's profile timeline.
#[derive(Clone, Debug, PartialEq, Eq)]
pub enum ProfileTimelineItem {
    Post(ProfilePost),
    Repost(ProfileRepost),
}

/// A projected object of a topic, as the timeline reads it.
#[derive(Clone, Debug, PartialEq, Eq)]
pub struct ObjectProjectionRow {
    pub object_id: EnvelopeId,
    pub topic_id: String,
    pub channel_id: String,
    pub object_kind: String,
    /// The text of the object, `None` while its blob is not available.
    pub content: Option<String>,
}

impl ProfileTimelineItem {
    pub open spec fn created_at_spec(&self) -> i64 {
        match self {
            ProfileTimelineItem::Post(post) => post.created_at,
            ProfileTimelineItem::Repost(repost) => repost.created_at,
        }
    }

    pub open spec fn object_id_spec(&self) -> Seq<char> {
        match self {
            ProfileTimelineItem::Post(post) => post.object_id@,
            ProfileTimelineItem::Repost(repost) => repost.object_id@,
        }
    }

    pub fn created_at(&self) -> (res: i64)
        ensures
            res == self.created_at_spec(),
    {
        match self {
            ProfileTimelineItem::Post(post) => post.created_at,
            ProfileTimelineItem::Repost(repost) => repost.created_at,
        }
    }

    pub fn object_id(&self) -> (res: &EnvelopeId)
        ensures
            res@ == self.object_id_spec(),
    {
        match self {
            ProfileTimelineItem::Post(post) => &post.object_id,
            ProfileTimelineItem::Repost(repost) => &repost.object_id,
        }
    }
}

/// Whether an item comes after the cursor (every item does when there is none).
pub open spec fn follows_cursor(item: ProfileTimelineItem, cursor: Option<TimelineCursor>) -> bool {
    match cursor {
        None => true,
        Some(c) => item.created_at_spec() < c.created_at || (item.created_at_spec() == c.created_at
            && seq_lex_lt(item.object_id_spec(), c.object_id@)),
    }
}

/// The items that come after the cursor, in their given order.
pub open spec fn items_after_cursor(
    items: Seq<ProfileTimelineItem>,
    cursor: Option<TimelineCursor>,
) -> Seq<ProfileTimelineItem>
    decreases items.len(),
{
    if items.len() == 0 {
        Seq::empty()
    } else {
        let earlier = items_after_cursor(items.drop_last(), cursor);
        if follows_cursor(items.last(), cursor) {
            earlier.push(items.last())
        } else {
            earlier
        }
    }
}

/// The cursor that starts at an item.
pub open spec fn cursor_at(item: ProfileTimelineItem) -> (i64, Seq<char>) {
    (item.created_at_spec(), item.object_id_spec())
}

/// A cursor's position as values.
pub open spec fn cursor_view(cursor: Option<TimelineCursor>) -> Option<(i64, Seq<char>)> {
    match cursor {
        Some(c) => Some((c.created_at, c.object_id@)),
        None => None,
    }
}

/// The items of the page: the first `limit` items after the cursor.
pub open spec fn profile_page_items(
    posts: Seq<ProfileTimelineItem>,
    cursor: Option<TimelineCursor>,
    limit: nat,
) -> Seq<ProfileTimelineItem> {
    let kept = items_after_cursor(posts, cursor);
    if limit == 0 {
        Seq::empty()
    } else if kept.len() <= limit {
        kept
    } else {
        kept.take(limit as int)
    }
}

proof fn lemma_after_cursor_members(items: Seq<ProfileTimelineItem>, cursor: Option<TimelineCursor>)
    ensures
        forall|k: int|
            0 <= k < items_after_cursor(items, cursor).len() ==> follows_cursor(
                #[trigger] items_after_cursor(items, cursor)[k],
                cursor,
            ) && items.contains(items_after_cursor(items, cursor)[k]),
    decreases items.len(),
{
    if items.len() > 0 {
        let shorter = items.drop_last();
        lemma_after_cursor_members(shorter, cursor);
        assert forall|k: int| 0 <= k < items_after_cursor(items, cursor).len() implies follows_cursor(
            #[trigger] items_after_cursor(items, cursor)[k],
            cursor,
        ) && items.contains(items_after_cursor(items, cursor)[k]) by {
            let earlier = items_after_cursor(shorter, cursor);
            if k < earlier.len() {
                let j = choose|j: int| 0 <= j < shorter.len() && shorter[j] == earlier[k];
                assert(items[j] == earlier[k]);
            } else {
                assert(items[items.len() - 1] == items.last());
            }
        }
    }
}

/// A page never holds more than `limit` items, and each of them is one of
/// the given posts that comes after the cursor.
pub proof fn profile_page_respects_cursor_and_limit(
    posts: Seq<ProfileTimelineItem>,
    cursor: Option<TimelineCursor>,
    limit: nat,
)
    ensures
        profile_page_items(posts, cursor, limit).len() <= limit,
        forall|k: int|
            0 <= k < profile_page_items(posts, cursor, limit).len() ==> follows_cursor(
                #[trigger] profile_page_items(posts, cursor, limit)[k],
                cursor,
            ) && posts.contains(profile_page_items(posts, cursor, limit)[k]),
{
    lemma_after_cursor_members(posts, cursor);
    let kept = items_after_cursor(posts, cursor);
    assert forall|k: int| 0 <= k < profile_page_items(posts, cursor, limit).len() implies follows_cursor(
        #[trigger] profile_page_items(posts, cursor, limit)[k],
        cursor,
    ) && posts.contains(profile_page_items(posts, cursor, limit)[k]) by {
        assert(profile_page_items(posts, cursor, limit)[k] == kept[k]);
    }
}

proof fn lemma_after_cursor_contains(
    items: Seq<ProfileTimelineItem>,
    cursor: Option<TimelineCursor>,
    x: ProfileTimelineItem,
)
    ensures
        items_after_cursor(items, cursor).contains(x) <==> (items.contains(x) && follows_cursor(
            x,
            cursor,
        )),
    decreases items.len(),
{
    if items.len() > 0 {
        let shorter = items.drop_last();
        lemma_after_cursor_contains(shorter, cursor, x);
        let earlier = items_after_cursor(shorter, cursor);
        let kept = items_after_cursor(items, cursor);
        if kept.contains(x) {
            let k = choose|k: int| 0 <= k < kept.len() && kept[k] == x;
            if k < earlier.len() {
                assert(earlier[k] == x);
                let j = choose|j: int| 0 <= j < shorter.len() && shorter[j] == x;
                assert(items[j] == x);
            } else {
                assert(items[items.len() - 1] == x);
            }
        }
        if items.contains(x) && follows_cursor(x, cursor) {
            let j = choose|j: int| 0 <= j < items.len() && items[j] == x;
            if j < items.len() - 1 {
                assert(shorter[j] == x);
                let k = choose|k: int| 0 <= k < earlier.len() && earlier[k] == x;
                assert(kept[k] == x);
            } else {
                assert(kept[kept.len() - 1] == x);
            }
        }
    }
}

proof fn lemma_after_no_cursor(items: Seq<ProfileTimelineItem>)
    ensures
        items_after_cursor(items, None) == items,
    decreases items.len(),
{
    if items.len() > 0 {
        lemma_after_no_cursor(items.drop_last());
        assert(items.drop_last().push(items.last()) =~= items);
    }
}

proof fn lemma_after_cursor_len(items: Seq<ProfileTimelineItem>, cursor: Option<TimelineCursor>)
    ensures
        items_after_cursor(items, cursor).len() <= items.len(),
    decreases items.len(),
{
    if items.len() > 0 {
        lemma_after_cursor_len(items.drop_last(), cursor);
    }
}

/// When the limit does not cut the page, the page holds exactly the given
/// items that come after the cursor.  With no cursor that is all of them, in
/// their order.  With a cursor at time `t` and object id `id`, an item is on
/// the page exactly when it is older than `t`, whatever its id, or was
/// created at `t` with an id that comes before `id`.
pub proof fn profile_page_holds_items_after_cursor(
    posts: Seq<ProfileTimelineItem>,
    cursor: Option<TimelineCursor>,
    limit: nat,
)
    requires
        posts.len() <= limit,
    ensures
        cursor is None ==> profile_page_items(posts, cursor, limit) == posts,
        forall|i: int|
            0 <= i < posts.len() ==> (profile_page_items(posts, cursor, limit).contains(
                #[trigger] posts[i],
            ) <==> match cursor {
                None => true,
                Some(c) => posts[i].created_at_spec() < c.created_at || (posts[i].created_at_spec()
                    == c.created_at && seq_lex_lt(posts[i].object_id_spec(), c.object_id@)),
            }),
{
    lemma_after_cursor_len(posts, cursor);
    if cursor is None {
        lemma_after_no_cursor(posts);
    }
    assert forall|i: int| 0 <= i < posts.len() implies (profile_page_items(
        posts,
        cursor,
        limit,
    ).contains(#[trigger] posts[i]) <==> match cursor {
        None => true,
        Some(c) => posts[i].created_at_spec() < c.created_at || (posts[i].created_at_spec()
            == c.created_at && seq_lex_lt(posts[i].object_id_spec(), c.object_id@)),
    }) by {
        lemma_after_cursor_contains(posts, cursor, posts[i]);
        assert(posts.contains(posts[i]));
    }
}

/// Pages of one timeline after one cursor differ only in how far they
/// reach: the page of any limit is the start, as long as the limit allows,
/// of the page that takes everything, and that page is the list of items
/// after the cursor from which the next cursor is taken.
pub proof fn profile_pages_are_prefixes(
    posts: Seq<ProfileTimelineItem>,
    cursor: Option<TimelineCursor>,
    limit: nat,
)
    ensures
        ({
            let all = profile_page_items(posts, cursor, posts.len());
            &&& items_after_cursor(posts, cursor) == all
            &&& profile_page_items(posts, cursor, limit) == all.take(
                if limit < all.len() {
                    limit as int
                } else {
                    all.len() as int
                },
            )
        }),
{
    lemma_after_cursor_len(posts, cursor);
    let kept = items_after_cursor(posts, cursor);
    if posts.len() == 0 {
        assert(kept =~= Seq::<ProfileTimelineItem>::empty());
    }
    assert(kept.take(kept.len() as int) =~= kept);
}

proof fn lemma_after_cursor_prefix(
    items: Seq<ProfileTimelineItem>,
    cursor: Option<TimelineCursor>,
    j: int,
)
    requires
        0 <= j <= items.len(),
    ensures
        items_after_cursor(items.take(j), cursor).len() <= items_after_cursor(items, cursor).len(),
        forall|k: int|
            0 <= k < items_after_cursor(items.take(j), cursor).len() ==> #[trigger] items_after_cursor(
                items.take(j),
                cursor,
            )[k] == items_after_cursor(items, cursor)[k],
    decreases items.len(),
{
    if j == items.len() {
        assert(items.take(j) =~= items);
    } else {
        let shorter = items.drop_last();
        assert(items.take(j) =~= shorter.take(j));
        lemma_after_cursor_prefix(shorter, cursor, j);
    }
}

/// The profile timeline page after `cursor`: the first `limit` items that
/// follow the cursor, in the given order, with a cursor at the next such item
/// when one is left.  A zero limit gives no items and keeps the cursor.
pub fn profile_timeline_page(
    posts: Vec<ProfileTimelineItem>,
    cursor: Option<TimelineCursor>,
    limit: usize,
) -> (res: Page<ProfileTimelineItem>)
    ensures
        limit == 0 ==> res.items@.len() == 0 && cursor_view(res.next_cursor) == cursor_view(cursor),
        limit > 0 ==> {
            let kept = items_after_cursor(posts@, cursor);
            &&& res.items@ == profile_page_items(posts@, cursor, limit as nat)
            &&& cursor_view(res.next_cursor) == if kept.len() > limit {
                Some(cursor_at(kept[limit as int]))
            } else {
                None
            }
        },
{
    if limit == 0 {
        return Page { items: Vec::new(), next_cursor: cursor };
    }
    let ghost all = posts@;
    let mut items: Vec<ProfileTimelineItem> = Vec::new();
    let mut next_cursor: Option<TimelineCursor> = None;
    let mut done = false;
    let ghost mut idx: int = 0;
    for post in it: posts.into_iter()
        invariant
            limit > 0,
            it.seq() == all,
            idx == it.index(),
            idx <= all.len(),
            !done ==> items@ == items_after_cursor(all.take(idx as int), cursor) && items@.len()
                <= limit && next_cursor is None,
            done ==> {
                let kept = items_after_cursor(all.take(idx as int), cursor);
                &&& kept.len() > limit
                &&& items@ == kept.take(limit as int)
                &&& cursor_view(next_cursor) == Some(cursor_at(kept[limit as int]))
            },
    {
        assert(all.take(idx + 1).drop_last() =~= all.take(idx as int));
        assert(all.take(idx + 1).last() == post);
        if !done {
            let follows = match &cursor {
                None => true,
                Some(current) => {
                    let created_at = post.created_at();
                    created_at < current.created_at || (created_at == current.created_at
                        && text_lex_lt(post.object_id().as_str(), current.object_id.as_str()))
                },
            };
            if follows {
                if items.len() >= limit {
                    next_cursor = Some(
                        TimelineCursor {
                            created_at: post.created_at(),
                            object_id: EnvelopeId(post.object_id().0.clone()),
                        },
                    );
                    done = true;
                    assert(items_after_cursor(all.take(idx + 1), cursor) =~= items@.push(post));
                    assert(items@ =~= items@.push(post).take(limit as int));
                } else {
                    items.push(post);
                }
            }
        } else {
            proof {
                lemma_after_cursor_prefix(all.take(idx + 1), cursor, idx as int);
                assert(all.take(idx + 1).take(idx as int) =~= all.take(idx as int));
                let a = items_after_cursor(all.take(idx as int), cursor);
                let b = items_after_cursor(all.take(idx + 1), cursor);
                assert(a.take(limit as int) =~= b.take(limit as int));
            }
        }
        proof {
            idx = idx + 1;
        }
    }
    assert(all.take(idx as int) =~= all);
    Page { items, next_cursor }
}

/// Whether a page of projected objects holds an object whose content is
/// still missing, so that the topic must be hydrated again.
pub fn projection_page_needs_hydration(page: &Page<ObjectProjectionRow>) -> (res: bool)
    ensures
        res == exists|i: int| 0 <= i < page.items@.len() && (#[trigger] page.items@[i]).content is None,
{
    let n = page.items.len();
    let mut i: usize = 0;
    while i < n
        invariant
            n == page.items@.len(),
            i <= n,
            forall|k: int| 0 <= k < i ==> (#[trigger] page.items@[k]).content is Some,
        decreases n - i,
    {
        if page.items[i].content.is_none() {
            return true;
        }
        i = i + 1;
    }
    false
}

} // verus!
