//! The records the engine works on: messages, jobs, users, feeds, tokens and
//! post payloads. All of them are plain data; the engine never changes a
//! record in place.
use crate::calendar::Schedule;
use crate::timestamp::Timestamp;
use vstd::prelude::*;

verus! {

/// Identifiers are made and compared by the `uuid` crate; the engine only
/// carries them from the records it is given to the requests it makes.
#[verifier::external_type_specification]
#[verifier::external_body]
pub struct ExUuid(uuid::Uuid);

/// `Clone::clone` on `uuid::Uuid`. The type is `Copy` and derives `Clone`,
/// so the clone is the value itself.
pub assume_specification[ <uuid::Uuid as Clone>::clone ](id: &uuid::Uuid) -> (r: uuid::Uuid)
    ensures
        r == *id,
;

/// The validity assumed for a token that was stored without one: two hours.
pub const DEFAULT_VALIDITY_SECONDS: u64 = 7200;

/// How long before its expiry a token is already treated as expired: five minutes.
pub const EXPIRY_MARGIN_SECONDS: u64 = 300;

/// A user's access credential for the social network.
///
/// A token is replaced as a whole when it is refreshed; it is stored outside
/// the engine under its `id`, the user's identifier.
#[derive(Clone, Debug)]
pub struct Token {
    pub id: String,
    pub access_token: String,
    pub refresh_token: Option<String>,
    pub issued_at: Timestamp,
    /// Validity in whole seconds, counted from `issued_at`.
    pub expires_in: Option<u64>,
}

impl Token {
    /// The token that a stored session record stands for. The stored
    /// validity is a 32-bit count of seconds; it is read as an unsigned
    /// 64-bit number, which leaves every count from zero up as it is.
    pub fn from_session(
        id: String,
        access_token: String,
        refresh_token: Option<String>,
        expires_in: Option<i32>,
        issued_at: Timestamp,
    ) -> (r: Token)
        ensures
            r.id == id,
            r.access_token == access_token,
            r.refresh_token == refresh_token,
            r.issued_at == issued_at,
            r.expires_in == match expires_in {
                Some(v) => Some(v as u64),
                None => None,
            },
    {
        let expires_in = match expires_in {
            Some(v) => Some(#[verifier::truncate] (v as u64)),
            None => None,
        };
        Token { id, access_token, refresh_token, issued_at, expires_in }
    }
}

/// A message of a user, written outside the engine and only read by it.
#[derive(Clone, Debug)]
pub struct Message {
    pub id: uuid::Uuid,
    pub user_id: String,
    pub text: String,
    pub media_id: Option<uuid::Uuid>,
    pub priority: i32,
    pub created_at: Timestamp,
    pub updated_at: Timestamp,
}

impl Message {
    pub fn new(
        id: uuid::Uuid,
        user_id: String,
        text: String,
        media_id: Option<uuid::Uuid>,
        priority: i32,
        created_at: Timestamp,
        updated_at: Timestamp,
    ) -> (r: Message)
        ensures
            r == (Message { id, user_id, text, media_id, priority, created_at, updated_at }),
    {
        Message { id, user_id, text, media_id, priority, created_at, updated_at }
    }
}

/// A job that rotates among a user's messages; also known as a fixed task.
#[derive(Clone, Debug)]
pub struct EnabledTask {
    pub schedule: Schedule,
    pub user_id: String,
    pub messages: Vec<Message>,
    /// Pick any message with equal chance, instead of the most recent one.
    pub random: bool,
}

impl EnabledTask {
    pub fn new(schedule: Schedule, user_id: String, messages: Vec<Message>, random: bool) -> (r:
        EnabledTask)
        ensures
            r == (EnabledTask { schedule, user_id, messages, random }),
    {
        EnabledTask { schedule, user_id, messages, random }
    }
}

/// A job that posts one item of an external feed per firing; also known as
/// a feed task.
#[derive(Clone, Debug)]
pub struct RssTask {
    pub id: uuid::Uuid,
    pub schedule: Schedule,
    pub user_id: String,
    pub url: String,
    /// Pick any item with equal chance, instead of the newest unseen one.
    pub random: bool,
    /// The watermark: what was newest when the job last posted.
    pub last_pub_date: Option<Timestamp>,
    /// The text to post, with placeholders for the item's fields.
    pub template: Option<String>,
}

impl RssTask {
    pub fn new(
        id: uuid::Uuid,
        schedule: Schedule,
        user_id: String,
        url: String,
        random: bool,
        last_pub_date: Option<Timestamp>,
        template: Option<String>,
    ) -> (r: RssTask)
        ensures
            r == (RssTask { id, schedule, user_id, url, random, last_pub_date, template }),
    {
        RssTask { id, schedule, user_id, url, random, last_pub_date, template }
    }
}

/// The unit of work of one job host: a user and the jobs that are enabled.
#[derive(Clone, Debug)]
pub struct ActiveUser {
    pub user_id: String,
    pub tasks: Vec<EnabledTask>,
    pub rss_tasks: Vec<RssTask>,
}

impl ActiveUser {
    pub fn new(user_id: String, tasks: Vec<EnabledTask>, rss_tasks: Vec<RssTask>) -> (r:
        ActiveUser)
        ensures
            r == (ActiveUser { user_id, tasks, rss_tasks }),
    {
        ActiveUser { user_id, tasks, rss_tasks }
    }
}

/// A user whose rows in the data store's answer could not be read. Such a
/// user gets no host; every other user of the answer is not touched by it.
#[derive(Clone, Debug)]
pub struct UnreadableUser {
    pub user_id: String,
}

impl ActiveUser {
    /// Whether the user has a task that is enabled, of either kind. Only
    /// such a user gets a host.
    pub open spec fn has_enabled_task(self) -> bool {
        self.tasks@.len() > 0 || self.rss_tasks@.len() > 0
    }

    /// Whether the user has a task that is enabled, of either kind.
    pub fn has_task(&self) -> (r: bool)
        ensures
            r == self.has_enabled_task(),
    {
        self.tasks.len() > 0 || self.rss_tasks.len() > 0
    }
}

/// One entry of a feed.
#[derive(Clone, Debug)]
pub struct RssItem {
    pub title: String,
    pub link: String,
    pub pub_date: Timestamp,
}

impl RssItem {
    pub fn new(title: String, link: String, pub_date: Timestamp) -> (r: RssItem)
        ensures
            r == (RssItem { title, link, pub_date }),
    {
        RssItem { title, link, pub_date }
    }
}

/// A feed as it was fetched for one firing.
#[derive(Clone, Debug)]
pub struct RssFeed {
    pub title: String,
    pub link: String,
    /// When the channel as a whole says it was published.
    pub pub_date: Timestamp,
    pub items: Vec<RssItem>,
}

/// The identifiers of uploaded media that a post refers to.
#[derive(Clone, Debug)]
pub struct MediaIds {
    pub media_ids: Vec<String>,
}

/// The payload of a post that is text only.
#[derive(Clone, Debug)]
pub struct Tweet {
    pub text: String,
}

/// The payload of a post with attached media.
#[derive(Clone, Debug)]
pub struct TweetWithMedia {
    pub text: String,
    pub media: MediaIds,
}

/// The payload of a post.
#[derive(Clone, Debug)]
pub enum TweetJson {
    Tweet(Tweet),
    TweetWithMedia(TweetWithMedia),
}

/// What a user may do, from least to most.
#[derive(Clone, Copy, Debug, PartialEq, Eq, Structural)]
pub enum Role {
    Anonymous,
    Basic,
    Premium,
}

/// A stored media object of a user.
#[derive(Debug)]
pub struct Media {
    pub id: uuid::Uuid,
    pub user_id: String,
    pub thumbnail: String,
    pub uploaded_at: Timestamp,
}

impl Media {
    pub fn new(id: uuid::Uuid, user_id: String, thumbnail: String, uploaded_at: Timestamp) -> (r:
        Media)
        ensures
            r == (Media { id, user_id, thumbnail, uploaded_at }),
    {
        Media { id, user_id, thumbnail, uploaded_at }
    }
}

/// A user as the data store knows the user.
#[derive(Clone, Debug)]
pub struct HasuraUser {
    pub id: String,
    pub email: String,
    pub role: Role,
    pub active: bool,
    pub last_seen: Timestamp,
    pub email_confirmed: bool,
    pub email_confirmed_at: Option<Timestamp>,
    pub email_confirm_code: Option<String>,
    pub email_confirm_code_issued_at: Option<Timestamp>,
}

impl HasuraUser {
    pub fn new(
        id: String,
        email: String,
        role: Role,
        active: bool,
        last_seen: Timestamp,
        email_confirmed: bool,
        email_confirmed_at: Option<Timestamp>,
        email_confirm_code: Option<String>,
        email_confirm_code_issued_at: Option<Timestamp>,
    ) -> (r: HasuraUser)
        ensures
            r == (HasuraUser {
                id,
                email,
                role,
                active,
                last_seen,
                email_confirmed,
                email_confirmed_at,
                email_confirm_code,
                email_confirm_code_issued_at,
            }),
    {
        HasuraUser {
            id,
            email,
            role,
            active,
            last_seen,
            email_confirmed,
            email_confirmed_at,
            email_confirm_code,
            email_confirm_code_issued_at,
        }
    }
}

} // verus!
