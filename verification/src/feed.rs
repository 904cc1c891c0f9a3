//! Reading a fetched feed document.
//!
//! The document's XML is read by the `rss` crate. What this module adds is
//! the rule for which channels make a usable feed: the channel and every
//! item must say when they were published, in RFC 2822 form, and every item
//! must have a title and a link.
use crate::error::FiringError;
use crate::model::{RssFeed, RssItem};
use crate::sequence::reversed;
use crate::timestamp::{rfc2822_reading, timestamp_of, Timestamp};
use vstd::prelude::*;

verus! {

/// The error of the `rss` crate's reader.
#[verifier::external_type_specification]
#[verifier::external_body]
pub struct ExRssError(rss::Error);

/// One item of a channel as the `rss` crate read it.
pub struct RawItem {
    pub title: Option<String>,
    pub link: Option<String>,
    pub pub_date: Option<String>,
}

/// A channel as the `rss` crate read it, cut down to what the engine uses.
pub struct RawChannel {
    pub title: String,
    pub link: String,
    pub pub_date: Option<String>,
    pub items: Vec<RawItem>,
}

/// The text of an optional string.
pub open spec fn text_of(s: Option<String>) -> Option<Seq<char>> {
    match s {
        Some(s) => Some(s@),
        None => None,
    }
}

/// The contents of a `RawItem`.
pub struct ItemReading {
    pub title: Option<Seq<char>>,
    pub link: Option<Seq<char>>,
    pub pub_date: Option<Seq<char>>,
}

/// The contents of a `RawChannel`.
pub struct ChannelReading {
    pub title: Seq<char>,
    pub link: Seq<char>,
    pub pub_date: Option<Seq<char>>,
    pub items: Seq<ItemReading>,
}

impl View for RawItem {
    type V = ItemReading;

    open spec fn view(&self) -> ItemReading {
        ItemReading {
            title: text_of(self.title),
            link: text_of(self.link),
            pub_date: text_of(self.pub_date),
        }
    }
}

impl View for RawChannel {
    type V = ChannelReading;

    open spec fn view(&self) -> ChannelReading {
        ChannelReading {
            title: self.title@,
            link: self.link@,
            pub_date: text_of(self.pub_date),
            items: self.items@.map_values(|i: RawItem| i@),
        }
    }
}

/// What the `rss` crate reads from a document: the channel's title, link
/// and date of publication and, for every item in the document's order, the
/// item's title, link and date of publication; `None` where it rejects the
/// document.
pub uninterp spec fn rss_reading(document: Seq<u8>) -> Option<ChannelReading>;

/// `rss::Channel::read_from` on a byte slice. The contract claims only that
/// the outcome is the one named `rss_reading` for these bytes: the fields
/// `title`, `link`, `pub_date` and `items` of the channel, and `title`,
/// `link` and `pub_date` of each item.
#[verifier::external_body]
fn read_channel(document: &[u8]) -> (r: Result<RawChannel, rss::Error>)
    ensures
        r.is_ok() == rss_reading(document@).is_some(),
        r matches Ok(c) ==> rss_reading(document@) == Some(c@),
{
    let channel = rss::Channel::read_from(document)?;
    Ok(
        RawChannel {
            title: channel.title,
            link: channel.link,
            pub_date: channel.pub_date,
            items: channel.items.into_iter().map(
                |i| RawItem { title: i.title, link: i.link, pub_date: i.pub_date },
            ).collect(),
        },
    )
}

/// The instant that a date of publication stands for, if it is present and
/// in RFC 2822 form.
pub open spec fn published_at(pub_date: Option<Seq<char>>) -> Option<Timestamp> {
    match pub_date {
        Some(d) => timestamp_of(rfc2822_reading(d)),
        None => None,
    }
}

/// Whether an item has all that a feed item needs.
pub open spec fn item_is_complete(item: ItemReading) -> bool {
    item.title.is_some() && item.link.is_some() && published_at(item.pub_date).is_some()
}

/// Whether a channel makes a usable feed.
pub open spec fn channel_is_complete(channel: ChannelReading) -> bool {
    &&& published_at(channel.pub_date).is_some()
    &&& forall|i: int| 0 <= i < channel.items.len() ==> item_is_complete(#[trigger] channel.items[i])
}

/// Whether `item` is the feed item that `reading` stands for.
pub open spec fn item_matches(item: RssItem, reading: ItemReading) -> bool {
    &&& Some(item.title@) == reading.title
    &&& Some(item.link@) == reading.link
    &&& Some(item.pub_date) == published_at(reading.pub_date)
}

/// Whether `feed` is the feed that `channel` stands for: the same title and
/// link, the channel's instant of publication, and the same items in the
/// same order.
pub open spec fn feed_matches(feed: RssFeed, channel: ChannelReading) -> bool {
    &&& feed.title@ == channel.title
    &&& feed.link@ == channel.link
    &&& Some(feed.pub_date) == published_at(channel.pub_date)
    &&& feed.items@.len() == channel.items.len()
    &&& forall|i: int|
        0 <= i < channel.items.len() ==> item_matches(#[trigger] feed.items@[i], channel.items[i])
}

/// Reads an optional RFC 2822 date.
fn read_published(pub_date: &Option<String>) -> (r: Option<Timestamp>)
    ensures
        r == published_at(text_of(*pub_date)),
{
    match pub_date {
        Some(d) => Timestamp::parse_rfc2822(d.as_str()),
        None => None,
    }
}

impl RssItem {
    /// The feed item that a raw item stands for; `None` exactly when the raw
    /// item is not complete.
    pub fn from_raw(raw: RawItem) -> (r: Option<RssItem>)
        ensures
            r.is_some() <==> item_is_complete(raw@),
            r matches Some(item) ==> item_matches(item, raw@),
    {
        let pub_date = read_published(&raw.pub_date);
        match (raw.title, raw.link, pub_date) {
            (Some(title), Some(link), Some(pub_date)) => Some(RssItem { title, link, pub_date }),
            _ => None,
        }
    }
}

impl RssFeed {
    /// The feed that a channel stands for.
    ///
    /// Fails with `FiringError::FeedParse`, and with nothing else, exactly when
    /// the channel is not complete.
    pub fn from_channel(raw: RawChannel) -> (r: Result<RssFeed, FiringError>)
        ensures
            r.is_ok() <==> channel_is_complete(raw@),
            r matches Ok(feed) ==> feed_matches(feed, raw@),
            r matches Err(e) ==> e == FiringError::FeedParse,
    {
        let ghost reading = raw@;
        let pub_date = match read_published(&raw.pub_date) {
            Some(t) => t,
            None => {
                return Err(FiringError::FeedParse);
            },
        };
        let ghost all = raw.items@;
        let mut rest = reversed(raw.items);
        let mut items: Vec<RssItem> = Vec::new();
        while rest.len() > 0
            invariant
                reading == raw@,
                reading.items == all.map_values(|i: RawItem| i@),
                rest@.len() + items@.len() == all.len(),
                forall|k: int| 0 <= k < rest@.len() ==> #[trigger] rest@[k] == all[all.len() - 1 - k],
                forall|k: int|
                    0 <= k < items@.len() ==> item_is_complete(#[trigger] all[k]@) && item_matches(
                        items@[k],
                        all[k]@,
                    ),
            decreases rest@.len(),
        {
            let ghost at = items@.len() as int;
            match rest.pop() {
                Some(raw_item) => {
                    assert(raw_item == all[at]);
                    match RssItem::from_raw(raw_item) {
                        Some(item) => {
                            items.push(item);
                        },
                        None => {
                            assert(reading.items[at] == all[at]@);
                            assert(!item_is_complete(reading.items[at]));
                            return Err(FiringError::FeedParse);
                        },
                    }
                },
                None => {},
            }
        }
        let feed = RssFeed { title: raw.title, link: raw.link, pub_date, items };
        proof {
            assert forall|i: int| 0 <= i < reading.items.len() implies item_is_complete(
                #[trigger] reading.items[i],
            ) && item_matches(feed.items@[i], reading.items[i]) by {
                assert(reading.items[i] == all[i]@);
                assert(item_is_complete(all[i]@));
            }
        }
        Ok(feed)
    }

    /// Reads a fetched feed document.
    ///
    /// Fails with `FiringError::FeedParse`, and with nothing else, exactly when
    /// the `rss` crate rejects the document or the channel it reads is not
    /// complete.
    pub fn parse(document: &[u8]) -> (r: Result<RssFeed, FiringError>)
        ensures
            match rss_reading(document@) {
                Some(channel) => {
                    &&& r.is_ok() <==> channel_is_complete(channel)
                    &&& r matches Ok(feed) ==> feed_matches(feed, channel)
                },
                None => r.is_err(),
            },
            r matches Err(e) ==> e == FiringError::FeedParse,
    {
        match read_channel(document) {
            Ok(raw) => RssFeed::from_channel(raw),
            Err(_) => Err(FiringError::FeedParse),
        }
    }
}

} // verus!
