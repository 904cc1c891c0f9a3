//! One firing of one job, as a state machine.
//!
//! A firing alternates between decisions, which are made here, and outside
//! work, which the host carries out: it is told what to ask of the outside
//! world with a `Request`, and answers with the matching `Reply`. The order
//! is fixed: content is selected first, then the session gate is passed,
//! then media is resolved if the message has any, then the post is made,
//! and after a feed post the job's watermark is moved up: it is persisted
//! outside, and handed out with the outcome for the host to put it into
//! the job.
//!
//! Every failure ends the firing at once. Nothing is tried twice, and
//! nothing but the outcome leaves the firing.
use crate::error::FiringError;
use crate::model::{
    EnabledTask,
    MediaIds,
    RssFeed,
    RssTask,
    Token,
    Tweet,
    TweetJson,
    TweetWithMedia,
};
use crate::selector::{chosen_item, chosen_message};
use crate::session::{gate_on_loaded, gate_on_refreshed, gate_on_stored, is_expired, GateStep};
use crate::session::{session_loaded, session_refreshed, session_stored};
use crate::template::rendered;
use crate::timestamp::{display_text, Timestamp};
use vstd::prelude::*;

verus! {

/// A job of either kind.
#[derive(Clone, Debug)]
pub enum Job {
    /// Rotates among a user's messages.
    Fixed(EnabledTask),
    /// Posts items of a feed.
    Feed(RssTask),
}

/// The job with its watermark at `watermark`: a feed task has its
/// watermark set and is otherwise as it was; a fixed task has no watermark
/// and stays as it is.
pub open spec fn marked(job: Job, watermark: Timestamp) -> Job {
    match job {
        Job::Fixed(task) => Job::Fixed(task),
        Job::Feed(task) => Job::Feed(RssTask { last_pub_date: Some(watermark), ..task }),
    }
}

impl Job {
    /// The job with its watermark at `watermark`; see `marked`.
    pub fn mark_posted(self, watermark: Timestamp) -> (r: Job)
        ensures
            r == marked(self, watermark),
    {
        match self {
            Job::Fixed(task) => Job::Fixed(task),
            Job::Feed(task) => Job::Feed(
                RssTask {
                    id: task.id,
                    schedule: task.schedule,
                    user_id: task.user_id,
                    url: task.url,
                    random: task.random,
                    last_pub_date: Some(watermark),
                    template: task.template,
                },
            ),
        }
    }
}

/// Where a feed job's watermark goes once its post has gone out.
#[derive(Clone, Copy, Debug)]
pub struct Mark {
    pub task_id: uuid::Uuid,
    pub watermark: Timestamp,
}

/// What a firing has decided to post, before it has a token to post with.
#[derive(Clone, Debug)]
pub struct Draft {
    pub user_id: String,
    pub text: String,
    pub media_id: Option<uuid::Uuid>,
    pub mark: Option<Mark>,
}

/// What the host is to ask of the outside world.
#[derive(Clone, Debug)]
pub enum Request {
    /// Fetch and read the feed at `url`.
    FetchFeed { url: String },
    /// Load the stored token of `user_id`.
    LoadSession { user_id: String },
    /// Get a new token for `user_id` in exchange for `refresh_token`.
    RefreshSession { user_id: String, refresh_token: String },
    /// Persist `token` under its user.
    StoreSession { token: Token },
    /// Turn the stored media `media_id` of `user_id` into an uploaded handle.
    ResolveMedia { user_id: String, media_id: uuid::Uuid },
    /// Post `payload` with `token`.
    Post { token: Token, payload: TweetJson },
    /// Set the watermark of feed job `task_id` to `watermark`.
    UpdateWatermark { task_id: uuid::Uuid, watermark: Timestamp },
}

/// What the outside world answered.
#[derive(Debug)]
pub enum Reply {
    /// To `FetchFeed`: the feed as it was read.
    Feed(Result<RssFeed, FiringError>),
    /// To `LoadSession`: the stored token, if there is one.
    Session(Result<Option<Token>, FiringError>),
    /// To `RefreshSession`: the new token.
    Refreshed(Result<Token, FiringError>),
    /// To `StoreSession`: the token as the store now holds it.
    Stored(Result<Token, FiringError>),
    /// To `ResolveMedia`: the handle of the uploaded media.
    Media(Result<String, FiringError>),
    /// To `Post`: the identifier of the new post.
    Posted(Result<String, FiringError>),
    /// To `UpdateWatermark`: whether the watermark was persisted.
    Marked(bool),
}

/// How a firing ended.
#[derive(Clone, Debug)]
pub enum Outcome {
    /// The post went out. After a feed post, `mark` says where the job's
    /// watermark stands from now on; the host puts it into the job, so
    /// that the job's next firing sees it.
    Posted { post_id: String, mark: Option<Mark> },
    /// There was nothing to post. This is no fault.
    Skipped,
    /// The firing was abandoned.
    Failed(FiringError),
}

/// The place of an outcome among the failures of a firing: none for a
/// post that went out, `NoEligibleContent` for a skip.
pub open spec fn error_of(outcome: Outcome) -> Option<FiringError> {
    match outcome {
        Outcome::Posted { .. } => None,
        Outcome::Skipped => Some(FiringError::NoEligibleContent),
        Outcome::Failed(e) => Some(e),
    }
}

impl Outcome {
    /// Why no post went out, if none did. A skip counts as
    /// `NoEligibleContent`, which is no fault.
    pub fn error(&self) -> (r: Option<FiringError>)
        ensures
            r == error_of(*self),
    {
        match self {
            Outcome::Posted { .. } => None,
            Outcome::Skipped => Some(FiringError::NoEligibleContent),
            Outcome::Failed(e) => Some(*e),
        }
    }
}

/// What comes next in a firing.
#[derive(Clone, Debug)]
pub enum Step {
    /// Carry out the request and come back with its reply.
    Ask(Request),
    /// The firing is over.
    Done(Outcome),
}

/// A firing in progress: what it is waiting for, and what it keeps until then.
#[derive(Clone, Debug)]
pub enum Firing {
    /// Waiting for the feed of `task`.
    AwaitFeed { task: RssTask },
    /// Waiting for the stored token.
    AwaitSession { draft: Draft },
    /// Waiting for a refreshed token.
    AwaitRefresh { draft: Draft },
    /// Waiting for the refreshed token to be persisted.
    AwaitStore { draft: Draft },
    /// Waiting for the handle of the uploaded media.
    AwaitMedia { draft: Draft, token: Token },
    /// Waiting for the post to go out.
    AwaitPost { mark: Option<Mark> },
    /// Waiting for the watermark to be persisted.
    AwaitMark { post_id: String, mark: Mark },
    /// Over.
    Finished,
}

/// The end of a firing with `outcome`.
pub open spec fn ended(outcome: Outcome) -> (Firing, Step) {
    (Firing::Finished, Step::Done(outcome))
}

/// Where a firing of `job` starts when `draw` was drawn.
///
/// A fixed task selects its message at once: with no message the firing is
/// skipped, otherwise it asks for the user's token. A feed task asks for
/// its feed.
pub open spec fn started(job: Job, draw: int) -> (Firing, Step) {
    match job {
        Job::Fixed(task) => match chosen_message(task.messages@, task.random, draw) {
            Some(p) => (
                Firing::AwaitSession {
                    draft: Draft {
                        user_id: task.user_id,
                        text: task.messages@[p].text,
                        media_id: task.messages@[p].media_id,
                        mark: None,
                    },
                },
                Step::Ask(Request::LoadSession { user_id: task.user_id }),
            ),
            None => ended(Outcome::Skipped),
        },
        Job::Feed(task) => (Firing::AwaitFeed { task }, Step::Ask(Request::FetchFeed { url: task.url })),
    }
}

/// What a firing does with a token in hand: a draft with media has the
/// media resolved first, any other is posted as text.
pub open spec fn with_token(draft: Draft, token: Token) -> (Firing, Step) {
    match draft.media_id {
        Some(media_id) => (
            Firing::AwaitMedia { draft, token },
            Step::Ask(Request::ResolveMedia { user_id: draft.user_id, media_id }),
        ),
        None => (
            Firing::AwaitPost { mark: draft.mark },
            Step::Ask(Request::Post { token, payload: TweetJson::Tweet(Tweet { text: draft.text }) }),
        ),
    }
}

/// What a firing does on a decision of the session gate.
pub open spec fn after_gate(draft: Draft, gate: GateStep) -> (Firing, Step) {
    match gate {
        GateStep::Ready(token) => with_token(draft, token),
        GateStep::Refresh { user_id, refresh_token } => (
            Firing::AwaitRefresh { draft },
            Step::Ask(Request::RefreshSession { user_id, refresh_token }),
        ),
        GateStep::Store(token) => (
            Firing::AwaitStore { draft },
            Step::Ask(Request::StoreSession { token }),
        ),
        GateStep::Failed(e) => ended(Outcome::Failed(e)),
    }
}

/// What a firing does when its post was answered: a failure ends it; a
/// feed post is followed by moving the watermark up; any other post ends
/// the firing with success.
pub open spec fn after_post(mark: Option<Mark>, posted: Result<String, FiringError>) -> (
    Firing,
    Step,
) {
    match posted {
        Ok(post_id) => match mark {
            Some(m) => (
                Firing::AwaitMark { post_id, mark: m },
                Step::Ask(Request::UpdateWatermark { task_id: m.task_id, watermark: m.watermark }),
            ),
            None => ended(Outcome::Posted { post_id, mark: None }),
        },
        Err(e) => ended(Outcome::Failed(e)),
    }
}

/// Whether `(after, step)` is what a feed task does with its feed when
/// `draw` was drawn.
///
/// With no item selected the firing is skipped. Otherwise the text is
/// rendered from the selected item, the watermark to set after the post is
/// the channel's instant of publication, and the firing asks for the user's
/// token. An item whose instant has no text form cannot be rendered under a
/// template; the firing then fails with `FeedParse`.
pub open spec fn after_feed(task: RssTask, feed: RssFeed, draw: int, after: Firing, step: Step) -> bool {
    match chosen_item(feed.items@, task.random, task.last_pub_date, draw) {
        None => (after, step) == ended(Outcome::Skipped),
        Some(p) => {
            let item = feed.items@[p];
            let published = display_text(
                item.pub_date.unix_nanos as int,
                item.pub_date.offset_seconds as int,
            );
            if task.template.is_some() && published.is_none() {
                (after, step) == ended(Outcome::Failed(FiringError::FeedParse))
            } else {
                &&& step == Step::Ask(Request::LoadSession { user_id: task.user_id })
                &&& after matches Firing::AwaitSession { draft }
                &&& draft.user_id == task.user_id
                &&& draft.media_id.is_none()
                &&& draft.mark == Some(Mark { task_id: task.id, watermark: feed.pub_date })
                &&& draft.text@ == match task.template {
                    Some(t) => rendered(Some(t@), item.title@, published.unwrap(), item.link@),
                    None => rendered(None, item.title@, Seq::empty(), item.link@),
                }
            }
        },
    }
}

/// Whether `(after, step)` is what a firing does when its media was
/// resolved: the post carries the draft's text and the one handle.
pub open spec fn after_media(
    draft: Draft,
    token: Token,
    resolved: Result<String, FiringError>,
    after: Firing,
    step: Step,
) -> bool {
    match resolved {
        Ok(handle) => {
            &&& after == Firing::AwaitPost { mark: draft.mark }
            &&& step matches Step::Ask(
                Request::Post { token: with, payload: TweetJson::TweetWithMedia(payload) },
            )
            &&& with == token
            &&& payload.text == draft.text
            &&& payload.media.media_ids@ == seq![handle]
        },
        Err(e) => (after, step) == ended(Outcome::Failed(e)),
    }
}

/// Whether `(after, step)` is what the firing `before` does on `reply`,
/// received at `now`, when `draw` was drawn.
///
/// A reply that does not answer what the firing is waiting for ends it
/// with `UpstreamData`. A watermark that could not be persisted does not
/// take the success of the post away.
pub open spec fn advanced(
    before: Firing,
    reply: Reply,
    now: Timestamp,
    draw: int,
    after: Firing,
    step: Step,
) -> bool {
    match (before, reply) {
        (Firing::AwaitFeed { task }, Reply::Feed(Ok(feed))) => after_feed(
            task,
            feed,
            draw,
            after,
            step,
        ),
        (Firing::AwaitFeed { task }, Reply::Feed(Err(e))) => (after, step) == ended(
            Outcome::Failed(e),
        ),
        (Firing::AwaitSession { draft }, Reply::Session(loaded)) => (after, step) == after_gate(
            draft,
            gate_on_loaded(loaded, now),
        ),
        (Firing::AwaitRefresh { draft }, Reply::Refreshed(refreshed)) => (after, step)
            == after_gate(draft, gate_on_refreshed(refreshed)),
        (Firing::AwaitStore { draft }, Reply::Stored(stored)) => (after, step) == after_gate(
            draft,
            gate_on_stored(stored),
        ),
        (Firing::AwaitMedia { draft, token }, Reply::Media(resolved)) => after_media(
            draft,
            token,
            resolved,
            after,
            step,
        ),
        (Firing::AwaitPost { mark }, Reply::Posted(posted)) => (after, step) == after_post(
            mark,
            posted,
        ),
        (Firing::AwaitMark { post_id, mark }, Reply::Marked(_)) => (after, step) == ended(
            Outcome::Posted { post_id, mark: Some(mark) },
        ),
        _ => (after, step) == ended(Outcome::Failed(FiringError::UpstreamData)),
    }
}

fn end(outcome: Outcome) -> (r: (Firing, Step))
    ensures
        r == ended(outcome),
{
    (Firing::Finished, Step::Done(outcome))
}

fn go_on_with_token(draft: Draft, token: Token) -> (r: (Firing, Step))
    ensures
        r == with_token(draft, token),
{
    match draft.media_id {
        Some(media_id) => {
            let user_id = draft.user_id.clone();
            (Firing::AwaitMedia { draft, token }, Step::Ask(Request::ResolveMedia { user_id, media_id }))
        },
        None => (
            Firing::AwaitPost { mark: draft.mark },
            Step::Ask(Request::Post { token, payload: TweetJson::Tweet(Tweet { text: draft.text }) }),
        ),
    }
}

fn go_on_after_gate(draft: Draft, gate: GateStep) -> (r: (Firing, Step))
    ensures
        r == after_gate(draft, gate),
{
    match gate {
        GateStep::Ready(token) => go_on_with_token(draft, token),
        GateStep::Refresh { user_id, refresh_token } => (
            Firing::AwaitRefresh { draft },
            Step::Ask(Request::RefreshSession { user_id, refresh_token }),
        ),
        GateStep::Store(token) => (
            Firing::AwaitStore { draft },
            Step::Ask(Request::StoreSession { token }),
        ),
        GateStep::Failed(e) => end(Outcome::Failed(e)),
    }
}

fn go_on_after_feed(task: RssTask, feed: RssFeed, draw: usize) -> (r: (Firing, Step))
    ensures
        after_feed(task, feed, draw as int, r.0, r.1),
{
    let p = match task.select(&feed, draw) {
        Some(p) => p,
        None => {
            return end(Outcome::Skipped);
        },
    };
    let text = match feed.items[p].to_message(&task.template) {
        Some(text) => text,
        None => {
            return end(Outcome::Failed(FiringError::FeedParse));
        },
    };
    let mark = Mark { task_id: task.id, watermark: feed.pub_date };
    let user_id = task.user_id.clone();
    let draft = Draft { user_id: task.user_id, text, media_id: None, mark: Some(mark) };
    (Firing::AwaitSession { draft }, Step::Ask(Request::LoadSession { user_id }))
}

fn go_on_after_media(draft: Draft, token: Token, resolved: Result<String, FiringError>) -> (r: (
    Firing,
    Step,
))
    ensures
        after_media(draft, token, resolved, r.0, r.1),
{
    match resolved {
        Ok(handle) => {
            let mut media_ids: Vec<String> = Vec::new();
            media_ids.push(handle);
            let payload = TweetJson::TweetWithMedia(
                TweetWithMedia { text: draft.text, media: MediaIds { media_ids } },
            );
            (Firing::AwaitPost { mark: draft.mark }, Step::Ask(Request::Post { token, payload }))
        },
        Err(e) => end(Outcome::Failed(e)),
    }
}

fn go_on_after_post(mark: Option<Mark>, posted: Result<String, FiringError>) -> (r: (Firing, Step))
    ensures
        r == after_post(mark, posted),
{
    match posted {
        Ok(post_id) => match mark {
            Some(m) => (
                Firing::AwaitMark { post_id, mark: m },
                Step::Ask(Request::UpdateWatermark { task_id: m.task_id, watermark: m.watermark }),
            ),
            None => end(Outcome::Posted { post_id, mark: None }),
        },
        Err(e) => end(Outcome::Failed(e)),
    }
}

impl Firing {
    /// Starts a firing of `job` with `draw` as the number drawn; see `started`.
    pub fn start(job: Job, draw: usize) -> (r: (Firing, Step))
        ensures
            r == started(job, draw as int),
    {
        match job {
            Job::Fixed(task) => {
                let p = match task.select(draw) {
                    Some(p) => p,
                    None => {
                        return end(Outcome::Skipped);
                    },
                };
                let mut messages = task.messages;
                let message = messages.swap_remove(p);
                let user_id = task.user_id.clone();
                let draft = Draft {
                    user_id: task.user_id,
                    text: message.text,
                    media_id: message.media_id,
                    mark: None,
                };
                (Firing::AwaitSession { draft }, Step::Ask(Request::LoadSession { user_id }))
            },
            Job::Feed(task) => {
                let url = task.url.clone();
                (Firing::AwaitFeed { task }, Step::Ask(Request::FetchFeed { url }))
            },
        }
    }

    /// Starts a firing of `job`, drawing a number if the job is a random
    /// fixed task.
    ///
    /// The result is what `start` gives for some draw from 1 to the number
    /// of the task's messages.
    pub fn begin(job: Job) -> (r: (Firing, Step))
        ensures
            exists|draw: int| 1 <= draw && r == #[trigger] started(job, draw),
            match job {
                Job::Fixed(task) => task.messages@.len() > 0 ==> exists|draw: int|
                    1 <= draw <= task.messages@.len() && r == #[trigger] started(job, draw),
                Job::Feed(_) => true,
            },
    {
        let draw = match &job {
            Job::Fixed(task) => if task.random && task.messages.len() > 0 {
                crate::random::draw_between(1, task.messages.len())
            } else {
                1
            },
            Job::Feed(_) => 1,
        };
        let r = Firing::start(job, draw);
        assert(r == started(job, draw as int));
        r
    }

    /// Takes the firing one step on with `reply`, received at `now`, and
    /// `draw` as the number drawn; see `advanced`.
    pub fn advance_with(self, reply: Reply, now: Timestamp, draw: usize) -> (r: (Firing, Step))
        ensures
            advanced(self, reply, now, draw as int, r.0, r.1),
    {
        match (self, reply) {
            (Firing::AwaitFeed { task }, Reply::Feed(Ok(feed))) => go_on_after_feed(task, feed, draw),
            (Firing::AwaitFeed { task }, Reply::Feed(Err(e))) => end(Outcome::Failed(e)),
            (Firing::AwaitSession { draft }, Reply::Session(loaded)) => go_on_after_gate(
                draft,
                session_loaded(loaded, now),
            ),
            (Firing::AwaitRefresh { draft }, Reply::Refreshed(refreshed)) => go_on_after_gate(
                draft,
                session_refreshed(refreshed),
            ),
            (Firing::AwaitStore { draft }, Reply::Stored(stored)) => go_on_after_gate(
                draft,
                session_stored(stored),
            ),
            (Firing::AwaitMedia { draft, token }, Reply::Media(resolved)) => go_on_after_media(
                draft,
                token,
                resolved,
            ),
            (Firing::AwaitPost { mark }, Reply::Posted(posted)) => go_on_after_post(mark, posted),
            (Firing::AwaitMark { post_id, mark }, Reply::Marked(_)) => end(
                Outcome::Posted { post_id, mark: Some(mark) },
            ),
            _ => end(Outcome::Failed(FiringError::UpstreamData)),
        }
    }

    /// Takes the firing one step on with `reply`, received at `now`,
    /// drawing a number if the reply is the feed of a random feed task.
    ///
    /// The result is what `advance_with` gives for some draw; for a feed
    /// with items the draw is from 1 to their number.
    pub fn advance(self, reply: Reply, now: Timestamp) -> (r: (Firing, Step))
        ensures
            exists|draw: int| 1 <= draw && #[trigger] advanced(self, reply, now, draw, r.0, r.1),
            match reply {
                Reply::Feed(Ok(feed)) => feed.items@.len() > 0 ==> exists|draw: int|
                    1 <= draw <= feed.items@.len() && #[trigger] advanced(
                        self,
                        reply,
                        now,
                        draw,
                        r.0,
                        r.1,
                    ),
                _ => true,
            },
    {
        let draw = match (&self, &reply) {
            (Firing::AwaitFeed { task }, Reply::Feed(Ok(feed))) => if task.random
                && feed.items.len() > 0 {
                crate::random::draw_between(1, feed.items.len())
            } else {
                1
            },
            _ => 1,
        };
        let r = self.advance_with(reply, now, draw);
        assert(advanced(self, reply, now, draw as int, r.0, r.1));
        r
    }

    /// Whether the firing is over.
    pub fn is_finished(&self) -> (r: bool)
        ensures
            r == (*self is Finished),
    {
        match self {
            Firing::Finished => true,
            _ => false,
        }
    }
}

/// A fixed task that posts in order starts every firing in the same way,
/// whatever is drawn: with the text and media of its most recently created
/// message, as long as its messages stay the same.
pub proof fn lemma_in_order_firing_ignores_the_draw(task: EnabledTask, draw_a: int, draw_b: int)
    requires
        !task.random,
    ensures
        started(Job::Fixed(task), draw_a) == started(Job::Fixed(task), draw_b),
        task.messages@.len() > 0 ==> (started(Job::Fixed(task), draw_a).0 matches Firing::AwaitSession {
            draft,
        } && crate::recency::is_most_recent(
            crate::selector::created_keys(task.messages@),
            crate::recency::most_recent(crate::selector::created_keys(task.messages@)),
        ) && draft.text == task.messages@[crate::recency::most_recent(
            crate::selector::created_keys(task.messages@),
        )].text),
{
    if task.messages@.len() > 0 {
        crate::recency::lemma_most_recent_exists(crate::selector::created_keys(task.messages@));
    }
}

/// Whether a reply reports a failure of the outside world.
pub open spec fn reports_failure(reply: Reply) -> Option<FiringError> {
    match reply {
        Reply::Feed(Err(e)) => Some(e),
        Reply::Session(Err(e)) => Some(e),
        Reply::Refreshed(Err(e)) => Some(e),
        Reply::Stored(Err(e)) => Some(e),
        Reply::Media(Err(e)) => Some(e),
        Reply::Posted(Err(e)) => Some(e),
        _ => None,
    }
}

/// Whether `reply` answers what the firing `before` is waiting for.
pub open spec fn answers(before: Firing, reply: Reply) -> bool {
    match (before, reply) {
        (Firing::AwaitFeed { .. }, Reply::Feed(_)) => true,
        (Firing::AwaitSession { .. }, Reply::Session(_)) => true,
        (Firing::AwaitRefresh { .. }, Reply::Refreshed(_)) => true,
        (Firing::AwaitStore { .. }, Reply::Stored(_)) => true,
        (Firing::AwaitMedia { .. }, Reply::Media(_)) => true,
        (Firing::AwaitPost { .. }, Reply::Posted(_)) => true,
        (Firing::AwaitMark { .. }, Reply::Marked(_)) => true,
        _ => false,
    }
}

/// A failure of the outside world ends the firing at once, with that
/// failure as its outcome: nothing is tried again and nothing is asked
/// for after it.
pub proof fn lemma_failure_ends_the_firing(
    before: Firing,
    reply: Reply,
    now: Timestamp,
    draw: int,
    after: Firing,
    step: Step,
)
    requires
        advanced(before, reply, now, draw, after, step),
        answers(before, reply),
        reports_failure(reply).is_some(),
    ensures
        (after, step) == ended(Outcome::Failed(reports_failure(reply).unwrap())),
{
}

/// Whatever the reply, a firing that ends has ended for good, and a
/// firing's step is a request exactly as long as it has not ended.
pub proof fn lemma_firing_ends_with_its_outcome(
    before: Firing,
    reply: Reply,
    now: Timestamp,
    draw: int,
    after: Firing,
    step: Step,
)
    requires
        advanced(before, reply, now, draw, after, step),
    ensures
        after is Finished <==> step is Done,
        before is Finished ==> (after, step) == ended(Outcome::Failed(FiringError::UpstreamData)),
{
}

/// The token that a firing goes on with after the session store's answer
/// is the stored one, and it has not expired at the time of the check. No
/// post and no media upload is asked for with an expired stored token.
pub proof fn lemma_stored_token_is_used_only_while_valid(
    draft: Draft,
    loaded: Result<Option<Token>, FiringError>,
    now: Timestamp,
    draw: int,
    after: Firing,
    step: Step,
)
    requires
        advanced(Firing::AwaitSession { draft }, Reply::Session(loaded), now, draw, after, step),
    ensures
        step matches Step::Ask(Request::Post { token, .. }) ==> loaded == Ok::<
            Option<Token>,
            FiringError,
        >(Some(token)) && !is_expired(token.issued_at, token.expires_in, now),
        after matches Firing::AwaitMedia { token, .. } ==> loaded == Ok::<
            Option<Token>,
            FiringError,
        >(Some(token)) && !is_expired(token.issued_at, token.expires_in, now),
        step matches Step::Ask(Request::RefreshSession { user_id, refresh_token }) ==> (
        loaded matches Ok(Some(token)) && is_expired(token.issued_at, token.expires_in, now)
            && token.refresh_token == Some(refresh_token) && token.id == user_id),
{
}

/// A refreshed token is persisted before anything is posted with it, and
/// the post is made with the store's copy.
pub proof fn lemma_refreshed_token_is_stored_first(
    draft: Draft,
    fresh: Token,
    kept: Token,
    now: Timestamp,
    draw: int,
    after_a: Firing,
    step_a: Step,
    after_b: Firing,
    step_b: Step,
)
    requires
        advanced(
            Firing::AwaitRefresh { draft },
            Reply::Refreshed(Ok(fresh)),
            now,
            draw,
            after_a,
            step_a,
        ),
        advanced(after_a, Reply::Stored(Ok(kept)), now, draw, after_b, step_b),
    ensures
        step_a == Step::Ask(Request::StoreSession { token: fresh }),
        (after_b, step_b) == with_token(draft, kept),
{
}

/// After a feed post has gone out, the job's watermark is set to the
/// instant the channel was published at, not the item's; a post that
/// failed moves no watermark. Whether or not the watermark can be
/// persisted, the firing then ends with the post's identifier and hands
/// the new watermark out for the job.
pub proof fn lemma_feed_post_moves_watermark_to_channel_instant(
    task: RssTask,
    feed: RssFeed,
    token: Token,
    posted: Result<String, FiringError>,
    persisted: bool,
    now: Timestamp,
    draw: int,
    firings: Seq<Firing>,
    steps: Seq<Step>,
)
    requires
        firings.len() == 4,
        steps.len() == 4,
        advanced(Firing::AwaitFeed { task }, Reply::Feed(Ok(feed)), now, draw, firings[0], steps[0]),
        steps[0] is Ask,
        !is_expired(token.issued_at, token.expires_in, now),
        advanced(firings[0], Reply::Session(Ok(Some(token))), now, draw, firings[1], steps[1]),
        advanced(firings[1], Reply::Posted(posted), now, draw, firings[2], steps[2]),
        advanced(firings[2], Reply::Marked(persisted), now, draw, firings[3], steps[3]),
    ensures
        steps[1] matches Step::Ask(Request::Post { token: with, payload: TweetJson::Tweet(tweet) })
            && with == token,
        match posted {
            Ok(post_id) => steps[2] == Step::Ask(
                Request::UpdateWatermark { task_id: task.id, watermark: feed.pub_date },
            ) && (firings[3], steps[3]) == ended(
                Outcome::Posted {
                    post_id,
                    mark: Some(Mark { task_id: task.id, watermark: feed.pub_date }),
                },
            ),
            Err(e) => (firings[2], steps[2]) == ended(Outcome::Failed(e)),
        },
{
}

/// Fire, mark, fire again: a feed task that posts in order, fired on a feed
/// with a valid token, posts and hands out the channel's instant as its
/// new watermark; once that watermark is put into the job, a second firing
/// on the same feed selects nothing and asks for nothing, provided that no
/// item of the feed is later than the channel itself.
pub proof fn lemma_second_firing_on_the_same_feed_is_skipped(
    task: RssTask,
    feed: RssFeed,
    token: Token,
    post_id: String,
    persisted: bool,
    now: Timestamp,
    draw: int,
    firings: Seq<Firing>,
    steps: Seq<Step>,
    again: Firing,
    again_step: Step,
)
    requires
        !task.random,
        forall|i: int|
            0 <= i < feed.items@.len() ==> (#[trigger] feed.items@[i]).pub_date.unix_nanos
                <= feed.pub_date.unix_nanos,
        firings.len() == 4,
        steps.len() == 4,
        advanced(Firing::AwaitFeed { task }, Reply::Feed(Ok(feed)), now, draw, firings[0], steps[0]),
        steps[0] is Ask,
        !is_expired(token.issued_at, token.expires_in, now),
        advanced(firings[0], Reply::Session(Ok(Some(token))), now, draw, firings[1], steps[1]),
        advanced(firings[1], Reply::Posted(Ok(post_id)), now, draw, firings[2], steps[2]),
        advanced(firings[2], Reply::Marked(persisted), now, draw, firings[3], steps[3]),
        steps[3] matches Step::Done(Outcome::Posted { mark: Some(m), .. }) && marked(
            Job::Feed(task),
            m.watermark,
        ) matches Job::Feed(next) && advanced(
            Firing::AwaitFeed { task: next },
            Reply::Feed(Ok(feed)),
            now,
            draw,
            again,
            again_step,
        ),
    ensures
        steps[3] == Step::Done(
            Outcome::Posted {
                post_id,
                mark: Some(Mark { task_id: task.id, watermark: feed.pub_date }),
            },
        ),
        marked(Job::Feed(task), feed.pub_date) == Job::Feed(
            RssTask { last_pub_date: Some(feed.pub_date), ..task },
        ),
        (again, again_step) == ended(Outcome::Skipped),
{
    lemma_feed_post_moves_watermark_to_channel_instant(
        task,
        feed,
        token,
        Ok(post_id),
        persisted,
        now,
        draw,
        firings,
        steps,
    );
    crate::selector::lemma_same_feed_selects_nothing_twice(feed.items@, feed.pub_date, draw);
}

} // verus!
