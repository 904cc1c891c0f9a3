//! The content selector: which message or feed item a firing posts.
//!
//! A job either posts in order, taking the newest candidate, or at random,
//! taking any candidate with equal chance. A random pick is made by drawing
//! a number from 1 to the number of candidates and counting that far into
//! the candidates as ordered from the newest to the oldest.
use crate::model::{EnabledTask, Message, RssFeed, RssItem, RssTask};
use crate::random::draw_between;
use crate::recency::{
    is_most_recent,
    lemma_most_recent_exists,
    lemma_most_recent_is_unique,
    lemma_newest_first_exists,
    most_recent,
    most_recent_position,
    newest_first,
    newest_first_order,
};
use crate::timestamp::Timestamp;
use vstd::prelude::*;

verus! {

/// The keys that messages are ordered by: the instants they were created at.
pub open spec fn created_keys(messages: Seq<Message>) -> Seq<i128> {
    messages.map_values(|m: Message| m.created_at.unix_nanos)
}

/// The keys that feed items are ordered by: the instants they were published at.
pub open spec fn published_keys(items: Seq<RssItem>) -> Seq<i128> {
    items.map_values(|i: RssItem| i.pub_date.unix_nanos)
}

/// The position that draw number `draw` selects among the candidates with
/// `keys`: the one at place `draw`, counted from 1, in the newest-first
/// order. A draw outside `1..=keys.len()` selects nothing.
pub open spec fn drawn(keys: Seq<i128>, draw: int) -> Option<int> {
    if 1 <= draw <= keys.len() {
        Some(newest_first(keys)[draw - 1])
    } else {
        None
    }
}

/// The position in `messages` that a fixed task posts.
///
/// With no message there is nothing to post. A task that posts in order
/// takes the most recently created message whatever was drawn; a random task
/// takes the message that `draw` selects.
pub open spec fn chosen_message(messages: Seq<Message>, random: bool, draw: int) -> Option<int> {
    if messages.len() == 0 {
        None
    } else if random {
        drawn(created_keys(messages), draw)
    } else {
        Some(most_recent(created_keys(messages)))
    }
}

/// Whether a feed item published at `published` is news to a job with
/// watermark `watermark`: there is no watermark yet, or the item is
/// strictly later than it.
pub open spec fn is_news(published: Timestamp, watermark: Option<Timestamp>) -> bool {
    match watermark {
        Some(w) => published.unix_nanos > w.unix_nanos,
        None => true,
    }
}

/// The position in `items` that a feed task posts.
///
/// A random task takes the item that `draw` selects among all items and
/// does not look at the watermark. A task that posts in order takes the
/// most recently published item, and only if it is news to the watermark.
pub open spec fn chosen_item(
    items: Seq<RssItem>,
    random: bool,
    watermark: Option<Timestamp>,
    draw: int,
) -> Option<int> {
    if random {
        drawn(published_keys(items), draw)
    } else if items.len() == 0 {
        None
    } else {
        let p = most_recent(published_keys(items));
        if is_news(items[p].pub_date, watermark) {
            Some(p)
        } else {
            None
        }
    }
}

/// The plain form of a chosen position.
pub open spec fn position(r: Option<usize>) -> Option<int> {
    match r {
        Some(p) => Some(p as int),
        None => None,
    }
}

fn keys_of_messages(messages: &Vec<Message>) -> (keys: Vec<i128>)
    ensures
        keys@ == created_keys(messages@),
{
    let mut keys: Vec<i128> = Vec::new();
    let mut i: usize = 0;
    while i < messages.len()
        invariant
            0 <= i <= messages.len(),
            keys@ == created_keys(messages@).take(i as int),
        decreases messages.len() - i,
    {
        keys.push(messages[i].created_at.unix_nanos);
        assert(keys@ =~= created_keys(messages@).take(i + 1));
        i = i + 1;
    }
    assert(keys@ =~= created_keys(messages@));
    keys
}

fn keys_of_items(items: &Vec<RssItem>) -> (keys: Vec<i128>)
    ensures
        keys@ == published_keys(items@),
{
    let mut keys: Vec<i128> = Vec::new();
    let mut i: usize = 0;
    while i < items.len()
        invariant
            0 <= i <= items.len(),
            keys@ == published_keys(items@).take(i as int),
        decreases items.len() - i,
    {
        keys.push(items[i].pub_date.unix_nanos);
        assert(keys@ =~= published_keys(items@).take(i + 1));
        i = i + 1;
    }
    assert(keys@ =~= published_keys(items@));
    keys
}

/// The position that draw number `draw` selects among `keys`.
fn draw_position(keys: &Vec<i128>, draw: usize) -> (r: Option<usize>)
    ensures
        position(r) == drawn(keys@, draw as int),
{
    if 1 <= draw && draw <= keys.len() {
        let order = newest_first_order(keys);
        assert(crate::recency::positions(order@)[draw - 1] == order@[draw - 1]);
        Some(order[draw - 1])
    } else {
        None
    }
}

/// The position of the most recent of `keys`.
fn latest_position(keys: &Vec<i128>) -> (r: usize)
    requires
        keys@.len() > 0,
    ensures
        r == most_recent(keys@),
        is_most_recent(keys@, r as int),
{
    match most_recent_position(keys) {
        Some(p) => {
            proof {
                lemma_most_recent_is_unique(keys@, p as int, most_recent(keys@));
            }
            p
        },
        None => 0,
    }
}

impl EnabledTask {
    /// The position of the message to post when `draw` was drawn.
    pub fn select(&self, draw: usize) -> (r: Option<usize>)
        ensures
            position(r) == chosen_message(self.messages@, self.random, draw as int),
            r matches Some(p) ==> p < self.messages@.len(),
    {
        if self.messages.len() == 0 {
            return None;
        }
        let keys = keys_of_messages(&self.messages);
        if self.random {
            let r = draw_position(&keys, draw);
            proof {
                lemma_choice_in_range(keys@, draw as int);
            }
            r
        } else {
            Some(latest_position(&keys))
        }
    }

    /// Chooses the message to post, drawing a number if the task is random.
    ///
    /// The result is what `select` gives for some draw from 1 to the number
    /// of messages; a task with a message always gets one.
    pub fn pick(&self) -> (r: Option<usize>)
        ensures
            r.is_some() <==> self.messages@.len() > 0,
            r matches Some(p) ==> p < self.messages@.len(),
            self.messages@.len() > 0 ==> exists|draw: int|
                1 <= draw <= self.messages@.len() && position(r) == #[trigger] chosen_message(
                    self.messages@,
                    self.random,
                    draw,
                ),
    {
        let n = self.messages.len();
        if n == 0 {
            return None;
        }
        let draw = if self.random {
            draw_between(1, n)
        } else {
            1
        };
        let r = self.select(draw);
        proof {
            lemma_choice_in_range(created_keys(self.messages@), draw as int);
        }
        r
    }
}

impl RssTask {
    /// The position of the item of `feed` to post when `draw` was drawn.
    pub fn select(&self, feed: &RssFeed, draw: usize) -> (r: Option<usize>)
        ensures
            position(r) == chosen_item(feed.items@, self.random, self.last_pub_date, draw as int),
            r matches Some(p) ==> p < feed.items@.len(),
    {
        let keys = keys_of_items(&feed.items);
        if self.random {
            let r = draw_position(&keys, draw);
            proof {
                lemma_choice_in_range(keys@, draw as int);
            }
            r
        } else if feed.items.len() == 0 {
            None
        } else {
            let p = latest_position(&keys);
            let fresh = match self.last_pub_date {
                Some(w) => feed.items[p].pub_date.unix_nanos > w.unix_nanos,
                None => true,
            };
            if fresh {
                Some(p)
            } else {
                None
            }
        }
    }

    /// Chooses the item of `feed` to post, drawing a number if the task is
    /// random.
    ///
    /// An empty feed gives nothing. Otherwise the result is what `select`
    /// gives for some draw from 1 to the number of items, so a random task
    /// always gets an item.
    pub fn pick(&self, feed: &RssFeed) -> (r: Option<usize>)
        ensures
            feed.items@.len() == 0 ==> r.is_none(),
            self.random && feed.items@.len() > 0 ==> r.is_some(),
            r matches Some(p) ==> p < feed.items@.len(),
            feed.items@.len() > 0 ==> exists|draw: int|
                1 <= draw <= feed.items@.len() && position(r) == #[trigger] chosen_item(
                    feed.items@,
                    self.random,
                    self.last_pub_date,
                    draw,
                ),
    {
        let n = feed.items.len();
        if n == 0 {
            return None;
        }
        let draw = if self.random {
            draw_between(1, n)
        } else {
            1
        };
        let r = self.select(feed, draw);
        proof {
            lemma_choice_in_range(published_keys(feed.items@), draw as int);
        }
        r
    }
}

/// A draw from 1 to the number of candidates selects a candidate; any other
/// draw selects none.
pub proof fn lemma_choice_in_range(keys: Seq<i128>, draw: int)
    ensures
        drawn(keys, draw).is_some() <==> 1 <= draw <= keys.len(),
        drawn(keys, draw) matches Some(p) ==> 0 <= p < keys.len(),
{
    if 1 <= draw <= keys.len() {
        lemma_newest_first_exists(keys);
        assert(0 <= newest_first(keys)[draw - 1] < keys.len());
    }
}

/// A task that posts in order selects the same message at every firing, as
/// long as its messages stay the same: the most recently created one, and of
/// several created at the same instant the first in the list.
pub proof fn lemma_in_order_task_selects_most_recent(
    messages: Seq<Message>,
    draw_a: int,
    draw_b: int,
)
    requires
        messages.len() > 0,
    ensures
        chosen_message(messages, false, draw_a) == chosen_message(messages, false, draw_b),
        chosen_message(messages, false, draw_a) matches Some(p) && is_most_recent(
            created_keys(messages),
            p,
        ),
{
    lemma_most_recent_exists(created_keys(messages));
}

/// A random feed task selects among all items of the feed, whatever its
/// watermark says.
pub proof fn lemma_random_feed_task_ignores_the_watermark(
    items: Seq<RssItem>,
    watermark_a: Option<Timestamp>,
    watermark_b: Option<Timestamp>,
    draw: int,
)
    ensures
        chosen_item(items, true, watermark_a, draw) == chosen_item(items, true, watermark_b, draw),
        1 <= draw <= items.len() ==> chosen_item(items, true, watermark_a, draw).is_some(),
{
    lemma_choice_in_range(published_keys(items), draw);
}

/// A feed task that posts in order never selects an item that is not
/// strictly later than its watermark.
pub proof fn lemma_stale_item_is_never_selected(
    items: Seq<RssItem>,
    watermark: Timestamp,
    draw: int,
)
    ensures
        chosen_item(items, false, Some(watermark), draw) matches Some(p) ==> 0 <= p < items.len()
            && items[p].pub_date.unix_nanos > watermark.unix_nanos,
{
    if items.len() > 0 {
        lemma_most_recent_exists(published_keys(items));
    }
}

/// Once the watermark stands at the channel's instant, a feed task that
/// posts in order selects nothing from the same feed, provided that no item
/// of the feed is later than the channel itself.
pub proof fn lemma_same_feed_selects_nothing_twice(
    items: Seq<RssItem>,
    channel_published: Timestamp,
    draw: int,
)
    requires
        forall|i: int|
            0 <= i < items.len() ==> (#[trigger] items[i]).pub_date.unix_nanos
                <= channel_published.unix_nanos,
    ensures
        chosen_item(items, false, Some(channel_published), draw).is_none(),
{
    if items.len() > 0 {
        lemma_most_recent_exists(published_keys(items));
    }
}

/// For a feed task that posts in order, moving the watermark to the
/// channel's instant after a post moves it forward, provided that no item
/// of the feed is later than the channel itself.
pub proof fn lemma_watermark_moves_forward(
    items: Seq<RssItem>,
    watermark: Timestamp,
    channel_published: Timestamp,
    draw: int,
)
    requires
        forall|i: int|
            0 <= i < items.len() ==> (#[trigger] items[i]).pub_date.unix_nanos
                <= channel_published.unix_nanos,
        chosen_item(items, false, Some(watermark), draw).is_some(),
    ensures
        channel_published.unix_nanos > watermark.unix_nanos,
{
    lemma_stale_item_is_never_selected(items, watermark, draw);
}

} // verus!
