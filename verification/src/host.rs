//! The job host: one user's jobs and their triggers.
//!
//! A host is made from the user's enabled jobs when it starts. Its list of
//! jobs never changes afterwards; a change of the list takes a restart,
//! which builds a new host and throws the old one away. The one thing that
//! moves in a running host is the watermark of a feed job, which is put
//! into the job after each of its posts, so that the next firing starts
//! from it. Once per tick the host is asked which jobs are due. Jobs that
//! are due in the same tick come out in the order they were registered in:
//! fixed tasks before feed tasks, each kind in the order of its list.
//!
//! Only a user with at least one enabled task gets a host.
use crate::calendar::{Schedule, Trigger, TriggerView};
use crate::firing::{marked, Job};
use crate::model::{ActiveUser, EnabledTask, RssTask, UnreadableUser};
use crate::sequence::reversed;
use crate::timestamp::Timestamp;
use vstd::prelude::*;

verus! {

/// Seconds between two ticks of a host.
pub const TICK_SECONDS: u64 = 1;

/// A job together with its trigger.
#[derive(Debug)]
pub struct ScheduledJob {
    pub job: Job,
    pub trigger: Trigger,
}

/// The jobs of one host, in the order they were registered in.
#[derive(Debug)]
pub struct Scheduler {
    pub jobs: Vec<ScheduledJob>,
}

/// Whether a job of this kind also fires on the four-hour interval: only a
/// feed task that posts in order does.
pub open spec fn polls_on_interval(job: Job) -> bool {
    match job {
        Job::Fixed(_) => false,
        Job::Feed(task) => !task.random,
    }
}

/// The weekly schedule of a job.
pub open spec fn schedule_of(job: Job) -> Schedule {
    match job {
        Job::Fixed(task) => task.schedule,
        Job::Feed(task) => task.schedule,
    }
}

/// Whether `scheduled` is `job` with a trigger that was armed at `now`
/// under the job's own calendar.
pub open spec fn is_registered(scheduled: ScheduledJob, job: Job, now: int) -> bool {
    &&& scheduled.job == job
    &&& scheduled.trigger@ == (TriggerView {
        schedule: schedule_of(job),
        every_four_hours: polls_on_interval(job),
        armed_at: now,
    })
}

/// The positions that are due at `now` among the first `upto` of `jobs`,
/// in ascending order.
pub open spec fn due_upto(jobs: Seq<ScheduledJob>, now: int, upto: int) -> Seq<usize>
    decreases upto,
{
    if upto <= 0 {
        Seq::empty()
    } else if jobs[upto - 1].trigger@.is_due(now) {
        due_upto(jobs, now, upto - 1).push((upto - 1) as usize)
    } else {
        due_upto(jobs, now, upto - 1)
    }
}

/// The positions in `jobs` that are due at `now`, in ascending order.
pub open spec fn due_positions(jobs: Seq<ScheduledJob>, now: int) -> Seq<usize> {
    due_upto(jobs, now, jobs.len() as int)
}

/// The fixed tasks among `tasks` that have a message, as jobs, in order. A
/// fixed task without messages is not registered at all.
pub open spec fn fixed_jobs(tasks: Seq<EnabledTask>) -> Seq<Job>
    decreases tasks.len(),
{
    if tasks.len() == 0 {
        Seq::empty()
    } else if tasks.last().messages@.len() > 0 {
        fixed_jobs(tasks.drop_last()).push(Job::Fixed(tasks.last()))
    } else {
        fixed_jobs(tasks.drop_last())
    }
}

/// The feed tasks as jobs, in order.
pub open spec fn feed_jobs(tasks: Seq<RssTask>) -> Seq<Job> {
    tasks.map_values(|t: RssTask| Job::Feed(t))
}

/// The jobs that a host runs for these tasks: the fixed tasks that have a
/// message, then the feed tasks.
pub open spec fn jobs_of(tasks: Seq<EnabledTask>, rss_tasks: Seq<RssTask>) -> Seq<Job> {
    fixed_jobs(tasks) + feed_jobs(rss_tasks)
}

/// Whether `scheduled` holds exactly `jobs`, in order, each registered at `now`.
pub open spec fn all_registered(scheduled: Seq<ScheduledJob>, jobs: Seq<Job>, now: int) -> bool {
    &&& scheduled.len() == jobs.len()
    &&& forall|i: int| 0 <= i < jobs.len() ==> is_registered(#[trigger] scheduled[i], jobs[i], now)
}

impl Schedule {
    /// The trigger of a job that fires by this weekly schedule alone, armed
    /// at `now`.
    pub fn to_asyncjob(&self, now: i64) -> (r: Trigger)
        ensures
            r@ == (TriggerView { schedule: *self, every_four_hours: false, armed_at: now as int }),
    {
        Trigger::arm(*self, false, now)
    }
}

impl EnabledTask {
    /// Registers the task with `scheduler`, armed at `now`. A fixed task
    /// fires by its weekly schedule alone.
    pub fn to_schedule2(task: EnabledTask, scheduler: &mut Scheduler, now: i64)
        ensures
            final(scheduler).jobs@.len() == old(scheduler).jobs@.len() + 1,
            final(scheduler).jobs@.drop_last() == old(scheduler).jobs@,
            is_registered(final(scheduler).jobs@.last(), Job::Fixed(task), now as int),
    {
        let trigger = task.schedule.to_asyncjob(now);
        scheduler.jobs.push(ScheduledJob { job: Job::Fixed(task), trigger });
        assert(scheduler.jobs@.drop_last() =~= old(scheduler).jobs@);
    }
}

impl RssTask {
    /// Registers the task with `scheduler`, armed at `now`. A random feed
    /// task fires by its weekly schedule alone; one that posts in order
    /// fires on the four-hour interval as well.
    pub fn to_schedule2(task: RssTask, scheduler: &mut Scheduler, now: i64)
        ensures
            final(scheduler).jobs@.len() == old(scheduler).jobs@.len() + 1,
            final(scheduler).jobs@.drop_last() == old(scheduler).jobs@,
            is_registered(final(scheduler).jobs@.last(), Job::Feed(task), now as int),
    {
        let trigger = if task.random {
            task.schedule.to_asyncjob(now)
        } else {
            Trigger::arm(task.schedule, true, now)
        };
        scheduler.jobs.push(ScheduledJob { job: Job::Feed(task), trigger });
        assert(scheduler.jobs@.drop_last() =~= old(scheduler).jobs@);
    }
}

impl Scheduler {
    /// A scheduler without jobs.
    pub fn new() -> (r: Scheduler)
        ensures
            r.jobs@.len() == 0,
    {
        Scheduler { jobs: Vec::new() }
    }

    /// The number of registered jobs.
    pub fn len(&self) -> (r: usize)
        ensures
            r == self.jobs@.len(),
    {
        self.jobs.len()
    }

    /// The job at `position`, if there is one.
    pub fn job(&self, position: usize) -> (r: Option<&Job>)
        ensures
            r.is_some() <==> position < self.jobs@.len(),
            r matches Some(j) ==> *j == self.jobs@[position as int].job,
    {
        if position < self.jobs.len() {
            Some(&self.jobs[position].job)
        } else {
            None
        }
    }

    /// Puts the watermark that a firing of the job at `position` handed out
    /// into that job, so that the job's next firing starts from it.
    ///
    /// The job at `position` becomes `marked`; every other job, every
    /// trigger and the order stay as they are. A position beyond the last
    /// job changes nothing.
    pub fn mark_posted(&mut self, position: usize, watermark: Timestamp)
        ensures
            ({
                let before = old(self).jobs@;
                let after = final(self).jobs@;
                &&& after.len() == before.len()
                &&& forall|i: int|
                    0 <= i < before.len() ==> (#[trigger] after[i]).trigger == before[i].trigger
                        && after[i].job == if i == position {
                        marked(before[i].job, watermark)
                    } else {
                        before[i].job
                    }
            }),
    {
        if position < self.jobs.len() {
            let ScheduledJob { job, trigger } = self.jobs.remove(position);
            self.jobs.insert(position, ScheduledJob { job: job.mark_posted(watermark), trigger });
        }
    }

    /// Polls every trigger at `now` and returns the positions of the jobs
    /// that are due, in the order they were registered in.
    ///
    /// The jobs themselves stay as they are; every trigger that was due is
    /// armed again at `now`.
    pub fn run_pending(&mut self, now: i64) -> (due: Vec<usize>)
        ensures
            due@ == due_positions(old(self).jobs@, now as int),
            final(self).jobs@.len() == old(self).jobs@.len(),
            forall|i: int|
                0 <= i < old(self).jobs@.len() ==> (#[trigger] final(self).jobs@[i]).job == old(
                    self,
                ).jobs@[i].job && final(self).jobs@[i].trigger@ == old(
                    self,
                ).jobs@[i].trigger@.after_poll(now as int),
    {
        let ghost before = self.jobs@;
        let mut taken: Vec<ScheduledJob> = Vec::new();
        std::mem::swap(&mut self.jobs, &mut taken);
        let mut rest = reversed(taken);
        let mut due: Vec<usize> = Vec::new();
        let mut polled: Vec<ScheduledJob> = Vec::new();
        while rest.len() > 0
            invariant
                rest@.len() + polled@.len() == before.len(),
                forall|k: int|
                    0 <= k < rest@.len() ==> #[trigger] rest@[k] == before[before.len() - 1 - k],
                due@ == due_upto(before, now as int, polled@.len() as int),
                forall|i: int|
                    0 <= i < polled@.len() ==> (#[trigger] polled@[i]).job == before[i].job
                        && polled@[i].trigger@ == before[i].trigger@.after_poll(now as int),
            decreases rest@.len(),
        {
            let position = polled.len();
            match rest.pop() {
                Some(scheduled) => {
                    assert(scheduled == before[position as int]);
                    let ScheduledJob { job, trigger } = scheduled;
                    let mut trigger = trigger;
                    if trigger.poll(now) {
                        due.push(position);
                    }
                    polled.push(ScheduledJob { job, trigger });
                },
                None => {},
            }
        }
        self.jobs = polled;
        due
    }
}

/// Taking one more task into account adds it to the jobs if it has a
/// message, and changes nothing otherwise.
proof fn lemma_fixed_jobs_step(tasks: Seq<EnabledTask>, n: int)
    requires
        0 <= n < tasks.len(),
    ensures
        fixed_jobs(tasks.take(n + 1)) == if tasks[n].messages@.len() > 0 {
            fixed_jobs(tasks.take(n)).push(Job::Fixed(tasks[n]))
        } else {
            fixed_jobs(tasks.take(n))
        },
{
    assert(tasks.take(n + 1).drop_last() =~= tasks.take(n));
    assert(tasks.take(n + 1).last() == tasks[n]);
}

/// Puts the jobs of a host together: the fixed tasks that have a message,
/// then the feed tasks, each registered with its trigger armed at `now`.
pub fn start_tasks(tasks: Vec<EnabledTask>, rss_tasks: Vec<RssTask>, now: i64) -> (r: Scheduler)
    ensures
        all_registered(r.jobs@, jobs_of(tasks@, rss_tasks@), now as int),
{
    let mut scheduler = Scheduler::new();
    let ghost fixed = tasks@;
    let ghost feeds = rss_tasks@;
    let mut rest = reversed(tasks);
    let ghost mut seen: int = 0;
    while rest.len() > 0
        invariant
            0 <= seen <= fixed.len(),
            rest@.len() + seen == fixed.len(),
            forall|k: int|
                0 <= k < rest@.len() ==> #[trigger] rest@[k] == fixed[fixed.len() - 1 - k],
            all_registered(scheduler.jobs@, fixed_jobs(fixed.take(seen)), now as int),
        decreases rest@.len(),
    {
        match rest.pop() {
            Some(task) => {
                assert(task == fixed[seen]);
                proof {
                    lemma_fixed_jobs_step(fixed, seen);
                }
                if task.messages.len() > 0 {
                    let ghost before = scheduler.jobs@;
                    EnabledTask::to_schedule2(task, &mut scheduler, now);
                    proof {
                        let jobs = fixed_jobs(fixed.take(seen + 1));
                        assert forall|i: int| 0 <= i < jobs.len() implies is_registered(
                            #[trigger] scheduler.jobs@[i],
                            jobs[i],
                            now as int,
                        ) by {
                            if i < before.len() {
                                assert(scheduler.jobs@[i] == scheduler.jobs@.drop_last()[i]);
                            }
                        }
                    }
                }
                proof {
                    seen = seen + 1;
                }
            },
            None => {},
        }
    }
    assert(fixed.take(seen) =~= fixed);
    let mut rest = reversed(rss_tasks);
    let ghost mut seen: int = 0;
    while rest.len() > 0
        invariant
            0 <= seen <= feeds.len(),
            rest@.len() + seen == feeds.len(),
            forall|k: int|
                0 <= k < rest@.len() ==> #[trigger] rest@[k] == feeds[feeds.len() - 1 - k],
            all_registered(
                scheduler.jobs@,
                fixed_jobs(fixed) + feed_jobs(feeds.take(seen)),
                now as int,
            ),
        decreases rest@.len(),
    {
        match rest.pop() {
            Some(task) => {
                assert(task == feeds[seen]);
                let ghost before = scheduler.jobs@;
                RssTask::to_schedule2(task, &mut scheduler, now);
                proof {
                    let jobs = fixed_jobs(fixed) + feed_jobs(feeds.take(seen + 1));
                    let known = fixed_jobs(fixed) + feed_jobs(feeds.take(seen));
                    assert(jobs =~= known.push(Job::Feed(feeds[seen])));
                    assert forall|i: int| 0 <= i < jobs.len() implies is_registered(
                        #[trigger] scheduler.jobs@[i],
                        jobs[i],
                        now as int,
                    ) by {
                        if i < before.len() {
                            assert(scheduler.jobs@[i] == scheduler.jobs@.drop_last()[i]);
                        }
                    }
                    seen = seen + 1;
                }
            },
            None => {},
        }
    }
    assert(feeds.take(seen) =~= feeds);
    scheduler
}

/// Puts the host of one user together; see `start_tasks`.
pub fn start_task(user: ActiveUser, now: i64) -> (r: (String, Scheduler))
    ensures
        r.0 == user.user_id,
        all_registered(r.1.jobs@, jobs_of(user.tasks@, user.rss_tasks@), now as int),
{
    let scheduler = start_tasks(user.tasks, user.rss_tasks, now);
    (user.user_id, scheduler)
}

/// The results that get an entry in the registry when all users are
/// started, in order: every user that has an enabled task, and every user
/// that could not be read. A user without any enabled task gets no host
/// and no entry.
pub open spec fn entries_of(loaded: Seq<Result<ActiveUser, UnreadableUser>>) -> Seq<
    Result<ActiveUser, UnreadableUser>,
>
    decreases loaded.len(),
{
    if loaded.len() == 0 {
        Seq::empty()
    } else {
        match loaded.last() {
            Ok(user) => if user.has_enabled_task() {
                entries_of(loaded.drop_last()).push(loaded.last())
            } else {
                entries_of(loaded.drop_last())
            },
            Err(_) => entries_of(loaded.drop_last()).push(loaded.last()),
        }
    }
}

/// Whether `host` is what `entry` asks for: for a user, the user's name
/// and a host with the user's jobs registered at `now`; for a user that
/// could not be read, the user's name and no host.
pub open spec fn host_matches(
    host: (String, Option<Scheduler>),
    entry: Result<ActiveUser, UnreadableUser>,
    now: int,
) -> bool {
    match entry {
        Ok(user) => {
            &&& host.0 == user.user_id
            &&& host.1 matches Some(scheduler)
            &&& all_registered(scheduler.jobs@, jobs_of(user.tasks@, user.rss_tasks@), now)
        },
        Err(unreadable) => host.0 == unreadable.user_id && host.1.is_none(),
    }
}

/// Whether `hosts` are what `entries` ask for, one for one and in order.
pub open spec fn hosts_match(
    hosts: Seq<(String, Option<Scheduler>)>,
    entries: Seq<Result<ActiveUser, UnreadableUser>>,
    now: int,
) -> bool {
    &&& hosts.len() == entries.len()
    &&& forall|i: int| 0 <= i < entries.len() ==> host_matches(#[trigger] hosts[i], entries[i], now)
}

/// Taking one more result into account adds it to the entries unless it is
/// a user without any enabled task.
proof fn lemma_entries_step(loaded: Seq<Result<ActiveUser, UnreadableUser>>, n: int)
    requires
        0 <= n < loaded.len(),
    ensures
        entries_of(loaded.take(n + 1)) == match loaded[n] {
            Ok(user) => if user.has_enabled_task() {
                entries_of(loaded.take(n)).push(loaded[n])
            } else {
                entries_of(loaded.take(n))
            },
            Err(_) => entries_of(loaded.take(n)).push(loaded[n]),
        },
{
    assert(loaded.take(n + 1).drop_last() =~= loaded.take(n));
    assert(loaded.take(n + 1).last() == loaded[n]);
}

/// Puts the hosts together when all users are started.
///
/// A host is made for exactly the users that have at least one enabled
/// task, in the order of `loaded`. A user that could not be read is given
/// back by name with no host, and stands in the way of no other user. A
/// user without any enabled task is left out.
pub fn start_scheduler(loaded: Vec<Result<ActiveUser, UnreadableUser>>, now: i64) -> (r: Vec<
    (String, Option<Scheduler>),
>)
    ensures
        hosts_match(r@, entries_of(loaded@), now as int),
{
    let ghost all = loaded@;
    let mut rest = reversed(loaded);
    let mut hosts: Vec<(String, Option<Scheduler>)> = Vec::new();
    let ghost mut seen: int = 0;
    while rest.len() > 0
        invariant
            0 <= seen <= all.len(),
            rest@.len() + seen == all.len(),
            forall|k: int| 0 <= k < rest@.len() ==> #[trigger] rest@[k] == all[all.len() - 1 - k],
            hosts_match(hosts@, entries_of(all.take(seen)), now as int),
        decreases rest@.len(),
    {
        match rest.pop() {
            Some(result) => {
                assert(result == all[seen]);
                proof {
                    lemma_entries_step(all, seen);
                }
                let ghost before = hosts@;
                match result {
                    Ok(user) => {
                        if user.has_task() {
                            let (user_id, scheduler) = start_task(user, now);
                            hosts.push((user_id, Some(scheduler)));
                        }
                    },
                    Err(unreadable) => {
                        hosts.push((unreadable.user_id, None));
                    },
                }
                proof {
                    let entries = entries_of(all.take(seen + 1));
                    assert forall|i: int| 0 <= i < entries.len() implies host_matches(
                        #[trigger] hosts@[i],
                        entries[i],
                        now as int,
                    ) by {
                        if i < before.len() {
                            assert(hosts@[i] == before[i]);
                        }
                    }
                    seen = seen + 1;
                }
            },
            None => {},
        }
    }
    assert(all.take(seen) =~= all);
    hosts
}

/// Puts the host of one user together from what the store answered for
/// that user: the first result of the answer counts.
///
/// Fails with `UpstreamData`, and with nothing else, exactly when the
/// answer holds no user or its first user could not be read. A user
/// without any enabled task gets no host, which is no failure.
pub fn start_task_for_user(loaded: Vec<Result<ActiveUser, UnreadableUser>>, now: i64) -> (r: Result<
    Option<Scheduler>,
    crate::error::FiringError,
>)
    ensures
        r.is_ok() <==> (loaded@.len() > 0 && loaded@[0].is_ok()),
        r matches Ok(host) ==> ({
            let user = loaded@[0]->Ok_0;
            if user.has_enabled_task() {
                host matches Some(scheduler) && all_registered(
                    scheduler.jobs@,
                    jobs_of(user.tasks@, user.rss_tasks@),
                    now as int,
                )
            } else {
                host.is_none()
            }
        }),
        r matches Err(e) ==> e == crate::error::FiringError::UpstreamData,
{
    let mut loaded = loaded;
    if loaded.len() == 0 {
        return Err(crate::error::FiringError::UpstreamData);
    }
    match loaded.swap_remove(0) {
        Ok(user) => {
            if user.has_task() {
                Ok(Some(start_tasks(user.tasks, user.rss_tasks, now)))
            } else {
                Ok(None)
            }
        },
        Err(_) => Err(crate::error::FiringError::UpstreamData),
    }
}

/// Whether a host runs.
#[derive(Clone, Copy, Debug, PartialEq, Eq, Structural)]
pub enum HostState {
    /// The host holds no triggers and is never due.
    Stopped,
    /// The host holds the triggers of its jobs and is ticked.
    Running,
}

/// The job host of one user.
///
/// A host starts running with the jobs it was made from. It stops only by
/// being aborted, which throws its triggers away; a host that has stopped
/// does not run again. What is in flight when a host is aborted is the
/// runtime's to discard.
#[derive(Debug)]
pub struct JobHost {
    pub user_id: String,
    pub state: HostState,
    pub scheduler: Scheduler,
}

impl JobHost {
    /// Starts the host of `user` at `now`: every job is registered with its
    /// trigger armed, and the host runs.
    pub fn start(user: ActiveUser, now: i64) -> (r: JobHost)
        ensures
            r.user_id == user.user_id,
            r.state == HostState::Running,
            all_registered(r.scheduler.jobs@, jobs_of(user.tasks@, user.rss_tasks@), now as int),
    {
        let (user_id, scheduler) = start_task(user, now);
        JobHost { user_id, state: HostState::Running, scheduler }
    }

    /// One tick at `now`: the positions of the jobs that are due, in the
    /// order they were registered in. A host that has stopped is never due
    /// and stays as it is.
    pub fn tick(&mut self, now: i64) -> (due: Vec<usize>)
        ensures
            final(self).user_id == old(self).user_id,
            final(self).state == old(self).state,
            ({
                let before = old(self).scheduler.jobs@;
                let after = final(self).scheduler.jobs@;
                match old(self).state {
                    HostState::Running => {
                        &&& due@ == due_positions(before, now as int)
                        &&& after.len() == before.len()
                        &&& forall|i: int|
                            0 <= i < before.len() ==> (#[trigger] after[i]).job == before[i].job
                                && after[i].trigger@ == before[i].trigger@.after_poll(now as int)
                    },
                    HostState::Stopped => due@.len() == 0 && after == before,
                }
            }),
    {
        match self.state {
            HostState::Running => self.scheduler.run_pending(now),
            HostState::Stopped => Vec::new(),
        }
    }

    /// Puts the watermark that a firing of the job at `position` handed out
    /// into that job; see `Scheduler::mark_posted`. The host's state and
    /// every trigger stay as they are.
    pub fn mark_posted(&mut self, position: usize, watermark: Timestamp)
        ensures
            final(self).user_id == old(self).user_id,
            final(self).state == old(self).state,
            ({
                let before = old(self).scheduler.jobs@;
                let after = final(self).scheduler.jobs@;
                &&& after.len() == before.len()
                &&& forall|i: int|
                    0 <= i < before.len() ==> (#[trigger] after[i]).trigger == before[i].trigger
                        && after[i].job == if i == position {
                        marked(before[i].job, watermark)
                    } else {
                        before[i].job
                    }
            }),
    {
        self.scheduler.mark_posted(position, watermark);
    }

    /// Aborts the host: it stops at once and its triggers are thrown away.
    pub fn abort(&mut self)
        ensures
            final(self).user_id == old(self).user_id,
            final(self).state == HostState::Stopped,
            final(self).scheduler.jobs@.len() == 0,
    {
        self.state = HostState::Stopped;
        self.scheduler = Scheduler::new();
    }

    /// Whether the host runs.
    pub fn is_running(&self) -> (r: bool)
        ensures
            r == (self.state == HostState::Running),
    {
        match self.state {
            HostState::Running => true,
            HostState::Stopped => false,
        }
    }
}

} // verus!
