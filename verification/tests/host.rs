use still_bott::calendar::{Schedule, TimeOfDay};
use still_bott::error::FiringError;
use still_bott::firing::Job;
use still_bott::host::{
    start_scheduler, start_task, start_task_for_user, start_tasks, HostState, JobHost, Scheduler,
    TICK_SECONDS,
};
use still_bott::sequence::reversed;
use still_bott::model::{ActiveUser, EnabledTask, Message, RssTask, UnreadableUser};
use still_bott::timestamp::Timestamp;

const DAY: i64 = 86_400;

fn daily(hour: u8) -> Schedule {
    Schedule::new(TimeOfDay::from_hms(hour, 0, 0).unwrap(), true, true, true, true, true, true, true)
}

fn message(n: u128) -> Message {
    Message::new(
        uuid::Uuid::from_u128(n),
        String::from("u1"),
        format!("text {}", n),
        None,
        0,
        Timestamp::from_unix_seconds(n as i64),
        Timestamp::from_unix_seconds(n as i64),
    )
}

fn fixed(user: &str, hour: u8, messages: usize) -> EnabledTask {
    EnabledTask::new(
        daily(hour),
        String::from(user),
        (0..messages).map(|n| message(n as u128)).collect(),
        false,
    )
}

fn feed(user: &str, n: u128, hour: u8, random: bool) -> RssTask {
    RssTask::new(
        uuid::Uuid::from_u128(n),
        daily(hour),
        String::from(user),
        format!("https://example.com/{}", n),
        random,
        None,
        None,
    )
}

fn kinds(scheduler: &Scheduler) -> Vec<String> {
    (0..scheduler.len())
        .map(|i| match scheduler.job(i).unwrap() {
            Job::Fixed(t) => format!("fixed {}", t.schedule.tweet_at.hour()),
            Job::Feed(t) => format!("feed {}", t.id.as_u128()),
        })
        .collect()
}

#[test]
fn host_ticks_once_per_second() {
    assert_eq!(TICK_SECONDS, 1);
}

#[test]
fn reversed_puts_the_last_first() {
    assert_eq!(reversed(vec![1, 2, 3]), vec![3, 2, 1]);
    assert_eq!(reversed(Vec::<u8>::new()), Vec::<u8>::new());
}

#[test]
fn fixed_tasks_come_before_feed_tasks_in_list_order() {
    let host = start_tasks(
        vec![fixed("u1", 3, 1), fixed("u1", 1, 2)],
        vec![feed("u1", 9, 2, false), feed("u1", 8, 2, true)],
        0,
    );
    assert_eq!(kinds(&host), vec!["fixed 3", "fixed 1", "feed 9", "feed 8"]);
    assert!(host.job(4).is_none());
}

#[test]
fn fixed_task_without_messages_is_not_registered() {
    let host = start_tasks(
        vec![fixed("u1", 3, 0), fixed("u1", 1, 2), fixed("u1", 2, 0)],
        vec![feed("u1", 9, 2, false)],
        0,
    );
    assert_eq!(kinds(&host), vec!["fixed 1", "feed 9"]);
}

#[test]
fn host_without_tasks_is_never_due() {
    let mut host = start_tasks(vec![], vec![], 0);
    assert_eq!(host.len(), 0);
    assert_eq!(host.run_pending(10 * DAY), Vec::<usize>::new());
}

#[test]
fn only_in_order_feed_tasks_poll_every_four_hours() {
    let host = start_tasks(
        vec![fixed("u1", 7, 1)],
        vec![feed("u1", 1, 7, false), feed("u1", 2, 7, true)],
        0,
    );
    let flags: Vec<bool> = host.jobs.iter().map(|j| j.trigger.every_four_hours()).collect();
    assert_eq!(flags, vec![false, true, false]);
    let next: Vec<Option<i64>> = host.jobs.iter().map(|j| j.trigger.next_run()).collect();
    assert_eq!(next, vec![Some(7 * 3600), Some(4 * 3600), Some(7 * 3600)]);
}

#[test]
fn jobs_due_in_the_same_tick_come_in_registration_order() {
    let mut host = start_tasks(
        vec![fixed("u1", 8, 1), fixed("u1", 4, 1)],
        vec![feed("u1", 1, 4, false), feed("u1", 2, 8, true)],
        0,
    );
    assert_eq!(host.run_pending(4 * 3600 - 1), Vec::<usize>::new());
    // 04:00: the second fixed task and the first feed task.
    assert_eq!(host.run_pending(4 * 3600), vec![1, 2]);
    assert_eq!(host.run_pending(4 * 3600 + 1), Vec::<usize>::new());
    // 08:00: the first fixed task, the interval of the first feed task, the second feed task.
    assert_eq!(host.run_pending(8 * 3600), vec![0, 2, 3]);
    assert_eq!(kinds(&host), vec!["fixed 8", "fixed 4", "feed 1", "feed 2"]);
}

#[test]
fn host_of_a_user() {
    let user = ActiveUser::new(
        String::from("u7"),
        vec![fixed("u7", 5, 1)],
        vec![feed("u7", 3, 6, true)],
    );
    let (user_id, host) = start_task(user, 0);
    assert_eq!(user_id, "u7");
    assert_eq!(kinds(&host), vec!["fixed 5", "feed 3"]);
}

#[test]
fn hosts_of_all_users_in_order() {
    let loaded = vec![
        Ok(ActiveUser::new(String::from("a"), vec![fixed("a", 5, 1)], vec![])),
        Ok(ActiveUser::new(String::from("c"), vec![fixed("c", 1, 0)], vec![feed("c", 3, 6, true)])),
    ];
    let hosts = start_scheduler(loaded, 0);
    let summary: Vec<(String, Option<Vec<String>>)> =
        hosts.iter().map(|(id, host)| (id.clone(), host.as_ref().map(kinds))).collect();
    assert_eq!(
        summary,
        vec![
            (String::from("a"), Some(vec![String::from("fixed 5")])),
            (String::from("c"), Some(vec![String::from("feed 3")])),
        ]
    );
}

#[test]
fn user_without_any_enabled_task_gets_no_host() {
    let loaded = vec![
        Ok(ActiveUser::new(String::from("a"), vec![fixed("a", 5, 1)], vec![])),
        Ok(ActiveUser::new(String::from("b"), vec![], vec![])),
        Ok(ActiveUser::new(String::from("c"), vec![], vec![feed("c", 3, 6, true)])),
    ];
    let hosts = start_scheduler(loaded, 0);
    let ids: Vec<&str> = hosts.iter().map(|(id, _)| id.as_str()).collect();
    assert_eq!(ids, vec!["a", "c"]);
    assert!(hosts.iter().all(|(_, host)| host.is_some()));
    assert!(start_scheduler(vec![Ok(ActiveUser::new(String::from("b"), vec![], vec![]))], 0)
        .is_empty());
    assert!(start_scheduler(vec![], 0).is_empty());
}

#[test]
fn user_with_a_task_without_messages_gets_a_host_without_jobs() {
    let loaded = vec![Ok(ActiveUser::new(String::from("a"), vec![fixed("a", 5, 0)], vec![]))];
    let hosts = start_scheduler(loaded, 0);
    assert_eq!(hosts.len(), 1);
    assert_eq!(hosts[0].1.as_ref().unwrap().len(), 0);
}

#[test]
fn unreadable_user_gets_no_host_and_the_others_get_theirs() {
    let loaded = vec![
        Ok(ActiveUser::new(String::from("a"), vec![fixed("a", 5, 1)], vec![])),
        Err(UnreadableUser { user_id: String::from("b") }),
        Ok(ActiveUser::new(String::from("c"), vec![], vec![feed("c", 3, 6, true)])),
    ];
    let hosts = start_scheduler(loaded, 0);
    let summary: Vec<(&str, bool)> =
        hosts.iter().map(|(id, host)| (id.as_str(), host.is_some())).collect();
    assert_eq!(summary, vec![("a", true), ("b", false), ("c", true)]);
}

#[test]
fn host_for_one_user_takes_the_first_answer() {
    let loaded = vec![
        Ok(ActiveUser::new(String::from("a"), vec![fixed("a", 5, 1)], vec![])),
        Ok(ActiveUser::new(String::from("b"), vec![fixed("b", 6, 1)], vec![])),
    ];
    let host = start_task_for_user(loaded, 0).unwrap().unwrap();
    assert_eq!(kinds(&host), vec!["fixed 5"]);
}

#[test]
fn host_for_one_user_fails_without_a_readable_answer() {
    assert_eq!(start_task_for_user(vec![], 0).err(), Some(FiringError::UpstreamData));
    let unreadable = vec![
        Err(UnreadableUser { user_id: String::from("a") }),
        Ok(ActiveUser::new(String::from("a"), vec![fixed("a", 5, 1)], vec![])),
    ];
    assert_eq!(start_task_for_user(unreadable, 0).err(), Some(FiringError::UpstreamData));
}

#[test]
fn user_without_tasks_is_restarted_without_a_host() {
    let loaded = vec![Ok(ActiveUser::new(String::from("a"), vec![], vec![]))];
    assert!(start_task_for_user(loaded, 0).unwrap().is_none());
}

#[test]
fn watermark_is_put_into_the_job_it_belongs_to() {
    let mut host = start_tasks(
        vec![fixed("u1", 7, 1)],
        vec![feed("u1", 1, 7, false), feed("u1", 2, 7, true)],
        0,
    );
    let mark = Timestamp::from_unix_seconds(500);
    host.mark_posted(1, mark);
    let watermarks: Vec<Option<Timestamp>> = (0..host.len())
        .map(|i| match host.job(i).unwrap() {
            Job::Fixed(_) => None,
            Job::Feed(t) => t.last_pub_date,
        })
        .collect();
    assert_eq!(watermarks, vec![None, Some(mark), None]);
    assert_eq!(kinds(&host), vec!["fixed 7", "feed 1", "feed 2"]);
    let next: Vec<Option<i64>> = host.jobs.iter().map(|j| j.trigger.next_run()).collect();
    assert_eq!(next, vec![Some(7 * 3600), Some(4 * 3600), Some(7 * 3600)]);
    // A fixed task has no watermark, and there is no job beyond the last.
    host.mark_posted(0, mark);
    host.mark_posted(3, mark);
    assert_eq!(kinds(&host), vec!["fixed 7", "feed 1", "feed 2"]);
    match host.job(1).unwrap() {
        Job::Feed(t) => {
            assert_eq!(t.url, "https://example.com/1");
            assert_eq!(t.user_id, "u1");
            assert!(!t.random);
        }
        Job::Fixed(_) => panic!("a feed task became a fixed task"),
    }
}

#[test]
fn restarted_host_has_the_fresh_tasks_only() {
    let mut old = start_tasks(vec![fixed("u1", 1, 1)], vec![], 0);
    assert_eq!(old.run_pending(3600), vec![0]);
    // The task list changed; the new host is built from it alone.
    let mut fresh = start_tasks(vec![fixed("u1", 2, 1)], vec![], 3600);
    assert_eq!(kinds(&fresh), vec!["fixed 2"]);
    assert_eq!(fresh.run_pending(2 * 3600 - 1), Vec::<usize>::new());
    assert_eq!(fresh.run_pending(2 * 3600), vec![0]);
    assert_eq!(fresh.run_pending(DAY + 3600), Vec::<usize>::new());
}

#[test]
fn started_host_runs_and_fires() {
    let user = ActiveUser::new(String::from("u1"), vec![fixed("u1", 1, 1)], vec![]);
    let mut host = JobHost::start(user, 0);
    assert_eq!(host.user_id, "u1");
    assert_eq!(host.state, HostState::Running);
    assert!(host.is_running());
    assert_eq!(host.tick(3599), Vec::<usize>::new());
    assert_eq!(host.tick(3600), vec![0]);
    assert_eq!(host.tick(3601), Vec::<usize>::new());
}

#[test]
fn aborted_host_never_fires_again() {
    let user = ActiveUser::new(String::from("u1"), vec![fixed("u1", 1, 1)], vec![]);
    let mut host = JobHost::start(user, 0);
    host.abort();
    assert_eq!(host.state, HostState::Stopped);
    assert!(!host.is_running());
    assert_eq!(host.scheduler.len(), 0);
    for tick in [3600, 3601, DAY + 3600, 100 * DAY] {
        assert_eq!(host.tick(tick), Vec::<usize>::new());
        assert_eq!(host.state, HostState::Stopped);
    }
}
