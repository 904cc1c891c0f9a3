//! From the rows of the active-task query to the jobs of each user.
//!
//! The query answers with every active user, the user's enabled fixed
//! tasks with the messages under each task's tag, and the user's enabled
//! feed tasks. Rows carry instants and clock times as text. A row whose
//! text cannot be read makes its own user unreadable and no other: every
//! user of the answer is read by itself.
use crate::calendar::Schedule;
use crate::gq::{time_of_day_reading, Time, Timestamptz};
use crate::sequence::reversed;
use crate::model::{ActiveUser, EnabledTask, Message, RssTask, UnreadableUser};
use crate::timestamp::{rfc3339_reading, timestamp_of, Timestamp};
use vstd::prelude::*;

verus! {

/// A message row.
#[allow(non_camel_case_types)]
#[derive(Debug)]
pub struct message {
    pub priority: i32,
    pub media_id: Option<uuid::Uuid>,
    pub text: String,
    pub id: uuid::Uuid,
    pub created_at: Timestamptz,
    pub updated_at: Timestamptz,
}

/// A tag row: the messages filed under the tag.
#[allow(non_camel_case_types)]
#[derive(Debug)]
pub struct tag {
    pub messages: Vec<message>,
}

/// A fixed task row.
#[allow(non_camel_case_types)]
#[derive(Debug)]
pub struct task_fixed_time {
    pub fri: bool,
    pub id: uuid::Uuid,
    pub mon: bool,
    pub random: bool,
    pub sat: bool,
    pub sun: bool,
    pub thu: bool,
    pub tue: bool,
    pub tweet_at: Time,
    pub wed: bool,
    pub tag: Option<tag>,
}

/// A feed task row.
#[derive(Debug)]
pub struct TaskRss {
    pub fri: bool,
    pub id: uuid::Uuid,
    pub mon: bool,
    pub random: bool,
    pub sat: bool,
    pub sun: bool,
    pub thu: bool,
    pub tue: bool,
    pub tweet_at: Time,
    pub wed: bool,
    pub template: Option<String>,
    pub url: String,
    pub last_pub_date: Option<Timestamptz>,
}

/// A user row.
#[allow(non_camel_case_types)]
#[derive(Debug)]
pub struct user {
    pub id: String,
    pub tasks_fixed_time: Vec<task_fixed_time>,
    pub tasks_rss: Vec<TaskRss>,
}

/// The answer to the active-task query.
#[derive(Debug)]
pub struct ListActiveTasks {
    pub user: Vec<user>,
}

/// The instant that a stored text stands for.
pub open spec fn instant_of(stored: Timestamptz) -> Option<Timestamp> {
    timestamp_of(rfc3339_reading(stored.0@))
}

/// Whether a message row can be read.
pub open spec fn message_is_readable(row: message) -> bool {
    instant_of(row.created_at).is_some() && instant_of(row.updated_at).is_some()
}

/// Whether `m` is the message of `owner` that `row` stands for.
pub open spec fn message_matches(m: Message, row: message, owner: String) -> bool {
    &&& m.id == row.id
    &&& m.user_id == owner
    &&& m.text == row.text
    &&& m.media_id == row.media_id
    &&& m.priority == row.priority
    &&& Some(m.created_at) == instant_of(row.created_at)
    &&& Some(m.updated_at) == instant_of(row.updated_at)
}

/// Whether all of `rows` can be read.
pub open spec fn messages_are_readable(rows: Seq<message>) -> bool {
    forall|i: int| 0 <= i < rows.len() ==> message_is_readable(#[trigger] rows[i])
}

/// Whether `messages` are the messages of `owner` that `rows` stand for,
/// in the same order.
pub open spec fn messages_match(messages: Seq<Message>, rows: Seq<message>, owner: String) -> bool {
    &&& messages.len() == rows.len()
    &&& forall|i: int|
        0 <= i < rows.len() ==> message_matches(#[trigger] messages[i], rows[i], owner)
}

/// The message of `owner` that a row stands for; `None` exactly when the
/// row cannot be read.
pub fn message_of(row: message, owner: &String) -> (r: Option<Message>)
    ensures
        r.is_some() <==> message_is_readable(row),
        r matches Some(m) ==> message_matches(m, row, *owner),
{
    let created_at = match row.created_at.to_timestamp() {
        Some(t) => t,
        None => {
            return None;
        },
    };
    let updated_at = match row.updated_at.to_timestamp() {
        Some(t) => t,
        None => {
            return None;
        },
    };
    Some(
        Message::new(
            row.id,
            owner.clone(),
            row.text,
            row.media_id,
            row.priority,
            created_at,
            updated_at,
        ),
    )
}

/// The messages of `owner` that rows stand for; `None` exactly when one of
/// the rows cannot be read.
pub fn messages_of(rows: Vec<message>, owner: &String) -> (r: Option<Vec<Message>>)
    ensures
        r.is_some() <==> messages_are_readable(rows@),
        r matches Some(ms) ==> messages_match(ms@, rows@, *owner),
{
    let ghost all = rows@;
    let mut rest = reversed(rows);
    let mut out: Vec<Message> = Vec::new();
    while rest.len() > 0
        invariant
            all == rows@,
            rest@.len() + out@.len() == all.len(),
            forall|k: int| 0 <= k < rest@.len() ==> #[trigger] rest@[k] == all[all.len() - 1 - k],
            forall|i: int|
                0 <= i < out@.len() ==> message_is_readable(#[trigger] all[i]) && message_matches(
                    out@[i],
                    all[i],
                    *owner,
                ),
        decreases rest@.len(),
    {
        let ghost at = out@.len() as int;
        match rest.pop() {
            Some(row) => {
                assert(row == all[at]);
                match message_of(row, owner) {
                    Some(m) => {
                        out.push(m);
                    },
                    None => {
                        assert(!message_is_readable(all[at]));
                        return None;
                    },
                }
            },
            None => {},
        }
    }
    proof {
        assert forall|i: int| 0 <= i < all.len() implies message_matches(
            #[trigger] out@[i],
            all[i],
            *owner,
        ) by {
            assert(message_is_readable(all[i]));
        }
    }
    Some(out)
}

/// The message rows of a fixed task: those under its tag, none without a tag.
pub open spec fn rows_under(t: Option<tag>) -> Seq<message> {
    match t {
        Some(t) => t.messages@,
        None => Seq::empty(),
    }
}

/// Whether `schedule` is the one that a row's flags and clock time stand for.
pub open spec fn schedule_matches(
    schedule: Schedule,
    tweet_at: Time,
    sun: bool,
    mon: bool,
    tue: bool,
    wed: bool,
    thu: bool,
    fri: bool,
    sat: bool,
) -> bool {
    &&& schedule.wf()
    &&& Some(schedule.tweet_at.seconds()) == time_of_day_reading(tweet_at.0@)
    &&& schedule.sun == sun
    &&& schedule.mon == mon
    &&& schedule.tue == tue
    &&& schedule.wed == wed
    &&& schedule.thu == thu
    &&& schedule.fri == fri
    &&& schedule.sat == sat
}

/// Whether a fixed task row can be read.
pub open spec fn fixed_task_is_readable(row: task_fixed_time) -> bool {
    time_of_day_reading(row.tweet_at.0@).is_some() && messages_are_readable(rows_under(row.tag))
}

/// Whether `task` is the fixed task of `owner` that `row` stands for.
pub open spec fn fixed_task_matches(task: EnabledTask, row: task_fixed_time, owner: String) -> bool {
    &&& schedule_matches(
        task.schedule,
        row.tweet_at,
        row.sun,
        row.mon,
        row.tue,
        row.wed,
        row.thu,
        row.fri,
        row.sat,
    )
    &&& task.user_id == owner
    &&& task.random == row.random
    &&& messages_match(task.messages@, rows_under(row.tag), owner)
}

/// Whether a feed task row can be read.
pub open spec fn feed_task_is_readable(row: TaskRss) -> bool {
    &&& time_of_day_reading(row.tweet_at.0@).is_some()
    &&& row.last_pub_date matches Some(d) ==> instant_of(d).is_some()
}

/// Whether `task` is the feed task of `owner` that `row` stands for.
pub open spec fn feed_task_matches(task: RssTask, row: TaskRss, owner: String) -> bool {
    &&& schedule_matches(
        task.schedule,
        row.tweet_at,
        row.sun,
        row.mon,
        row.tue,
        row.wed,
        row.thu,
        row.fri,
        row.sat,
    )
    &&& task.id == row.id
    &&& task.user_id == owner
    &&& task.url == row.url
    &&& task.random == row.random
    &&& task.template == row.template
    &&& task.last_pub_date == match row.last_pub_date {
        Some(d) => instant_of(d),
        None => None,
    }
}

/// Whether a user row can be read.
pub open spec fn user_is_readable(row: user) -> bool {
    &&& forall|i: int|
        0 <= i < row.tasks_fixed_time@.len() ==> fixed_task_is_readable(
            #[trigger] row.tasks_fixed_time@[i],
        )
    &&& forall|i: int|
        0 <= i < row.tasks_rss@.len() ==> feed_task_is_readable(#[trigger] row.tasks_rss@[i])
}

/// Whether `active` is the user that `row` stands for: the same tasks in
/// the same order.
pub open spec fn user_matches(active: ActiveUser, row: user) -> bool {
    &&& active.user_id == row.id
    &&& active.tasks@.len() == row.tasks_fixed_time@.len()
    &&& forall|i: int|
        0 <= i < row.tasks_fixed_time@.len() ==> fixed_task_matches(
            #[trigger] active.tasks@[i],
            row.tasks_fixed_time@[i],
            row.id,
        )
    &&& active.rss_tasks@.len() == row.tasks_rss@.len()
    &&& forall|i: int|
        0 <= i < row.tasks_rss@.len() ==> feed_task_matches(
            #[trigger] active.rss_tasks@[i],
            row.tasks_rss@[i],
            row.id,
        )
}

/// Whether `loaded` is what the user row `row` stands for: the user, if
/// the row can be read, and otherwise the name of the user that cannot.
pub open spec fn loaded_matches(loaded: Result<ActiveUser, UnreadableUser>, row: user) -> bool {
    match loaded {
        Ok(active) => user_is_readable(row) && user_matches(active, row),
        Err(unreadable) => !user_is_readable(row) && unreadable.user_id == row.id,
    }
}

/// Whether `loaded` is what the answer stands for: one result for every
/// user row, in the same order, each the row's own.
pub open spec fn answer_matches(
    loaded: Seq<Result<ActiveUser, UnreadableUser>>,
    data: ListActiveTasks,
) -> bool {
    &&& loaded.len() == data.user@.len()
    &&& forall|i: int|
        0 <= i < data.user@.len() ==> loaded_matches(#[trigger] loaded[i], data.user@[i])
}

/// The fixed task of `owner` that a row stands for; `None` exactly when
/// the row cannot be read.
pub fn fixed_task_of(row: task_fixed_time, owner: &String) -> (r: Option<EnabledTask>)
    ensures
        r.is_some() <==> fixed_task_is_readable(row),
        r matches Some(t) ==> fixed_task_matches(t, row, *owner),
{
    let tweet_at = match row.tweet_at.to_time_of_day() {
        Some(t) => t,
        None => {
            return None;
        },
    };
    let rows = match row.tag {
        Some(t) => t.messages,
        None => Vec::new(),
    };
    let messages = match messages_of(rows, owner) {
        Some(ms) => ms,
        None => {
            return None;
        },
    };
    let schedule = Schedule::new(
        tweet_at,
        row.sun,
        row.mon,
        row.tue,
        row.wed,
        row.thu,
        row.fri,
        row.sat,
    );
    Some(EnabledTask::new(schedule, owner.clone(), messages, row.random))
}

/// The feed task of `owner` that a row stands for; `None` exactly when the
/// row cannot be read.
pub fn feed_task_of(row: TaskRss, owner: &String) -> (r: Option<RssTask>)
    ensures
        r.is_some() <==> feed_task_is_readable(row),
        r matches Some(t) ==> feed_task_matches(t, row, *owner),
{
    let tweet_at = match row.tweet_at.to_time_of_day() {
        Some(t) => t,
        None => {
            return None;
        },
    };
    let last_pub_date = match row.last_pub_date {
        Some(d) => match d.to_timestamp() {
            Some(t) => Some(t),
            None => {
                return None;
            },
        },
        None => None,
    };
    let schedule = Schedule::new(
        tweet_at,
        row.sun,
        row.mon,
        row.tue,
        row.wed,
        row.thu,
        row.fri,
        row.sat,
    );
    Some(
        RssTask::new(
            row.id,
            schedule,
            owner.clone(),
            row.url,
            row.random,
            last_pub_date,
            row.template,
        ),
    )
}

/// The user that a row stands for; fails, naming the user, exactly when
/// the row cannot be read.
pub fn user_of(row: user) -> (r: Result<ActiveUser, UnreadableUser>)
    ensures
        loaded_matches(r, row),
{
    let owner = row.id;
    let ghost fixed = row.tasks_fixed_time@;
    let ghost feeds = row.tasks_rss@;
    let mut rest = reversed(row.tasks_fixed_time);
    let mut tasks: Vec<EnabledTask> = Vec::new();
    while rest.len() > 0
        invariant
            fixed == row.tasks_fixed_time@,
            owner == row.id,
            rest@.len() + tasks@.len() == fixed.len(),
            forall|k: int|
                0 <= k < rest@.len() ==> #[trigger] rest@[k] == fixed[fixed.len() - 1 - k],
            forall|i: int|
                0 <= i < tasks@.len() ==> fixed_task_is_readable(#[trigger] fixed[i])
                    && fixed_task_matches(tasks@[i], fixed[i], owner),
        decreases rest@.len(),
    {
        let ghost at = tasks@.len() as int;
        match rest.pop() {
            Some(task_row) => {
                assert(task_row == fixed[at]);
                match fixed_task_of(task_row, &owner) {
                    Some(t) => {
                        tasks.push(t);
                    },
                    None => {
                        assert(!fixed_task_is_readable(fixed[at]));
                        return Err(UnreadableUser { user_id: owner });
                    },
                }
            },
            None => {},
        }
    }
    let mut rest = reversed(row.tasks_rss);
    let mut rss_tasks: Vec<RssTask> = Vec::new();
    while rest.len() > 0
        invariant
            feeds == row.tasks_rss@,
            owner == row.id,
            rest@.len() + rss_tasks@.len() == feeds.len(),
            forall|k: int|
                0 <= k < rest@.len() ==> #[trigger] rest@[k] == feeds[feeds.len() - 1 - k],
            forall|i: int|
                0 <= i < rss_tasks@.len() ==> feed_task_is_readable(#[trigger] feeds[i])
                    && feed_task_matches(rss_tasks@[i], feeds[i], owner),
        decreases rest@.len(),
    {
        let ghost at = rss_tasks@.len() as int;
        match rest.pop() {
            Some(task_row) => {
                assert(task_row == feeds[at]);
                match feed_task_of(task_row, &owner) {
                    Some(t) => {
                        rss_tasks.push(t);
                    },
                    None => {
                        assert(!feed_task_is_readable(feeds[at]));
                        return Err(UnreadableUser { user_id: owner });
                    },
                }
            },
            None => {},
        }
    }
    let active = ActiveUser::new(owner, tasks, rss_tasks);
    proof {
        assert forall|i: int| 0 <= i < fixed.len() implies fixed_task_matches(
            #[trigger] active.tasks@[i],
            fixed[i],
            row.id,
        ) by {
            assert(fixed_task_is_readable(fixed[i]));
        }
        assert forall|i: int| 0 <= i < feeds.len() implies feed_task_matches(
            #[trigger] active.rss_tasks@[i],
            feeds[i],
            row.id,
        ) by {
            assert(feed_task_is_readable(feeds[i]));
        }
    }
    Ok(active)
}

/// What the query's answer stands for, user by user.
///
/// Every user row gives one result, in the order of the rows: the user
/// with the user's tasks, or, where a row of the user holds a clock time
/// or an instant that cannot be read, the name of that user. One
/// unreadable user does not stand in the way of any other.
pub fn list_active_tasks(data: ListActiveTasks) -> (r: Vec<Result<ActiveUser, UnreadableUser>>)
    ensures
        answer_matches(r@, data),
{
    let ghost all = data.user@;
    let mut rest = reversed(data.user);
    let mut loaded: Vec<Result<ActiveUser, UnreadableUser>> = Vec::new();
    while rest.len() > 0
        invariant
            all == data.user@,
            rest@.len() + loaded@.len() == all.len(),
            forall|k: int| 0 <= k < rest@.len() ==> #[trigger] rest@[k] == all[all.len() - 1 - k],
            forall|i: int| 0 <= i < loaded@.len() ==> loaded_matches(#[trigger] loaded@[i], all[i]),
        decreases rest@.len(),
    {
        let ghost at = loaded@.len() as int;
        match rest.pop() {
            Some(row) => {
                assert(row == all[at]);
                loaded.push(user_of(row));
            },
            None => {},
        }
    }
    loaded
}

} // verus!
