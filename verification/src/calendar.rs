//! The weekly calendar: which instants a schedule fires at, and the trigger
//! that turns a calendar into one due-or-not decision per tick.
//!
//! Instants are whole seconds of local civil time counted from
//! 1970-01-01 00:00:00, a Thursday. Every day has 86 400 seconds.
use vstd::prelude::*;

verus! {

/// Seconds in one civil day.
pub const SECONDS_PER_DAY: i64 = 86_400;

/// Seconds between two firings of the interval fallback (four hours).
pub const POLL_INTERVAL_SECONDS: i64 = 14_400;

/// The day number of instant `t`: days since 1970-01-01, negative before it.
pub open spec fn day_of(t: int) -> int {
    t / 86_400
}

/// The second within its day of instant `t`, in `0..86_400`.
pub open spec fn second_of_day(t: int) -> int {
    t % 86_400
}

/// The weekday of day number `day`: 0 is Sunday, 6 is Saturday.
pub open spec fn weekday_of_day(day: int) -> int {
    (day + 4) % 7
}

/// The weekday of instant `t`: 0 is Sunday, 6 is Saturday.
pub open spec fn weekday_of(t: int) -> int {
    weekday_of_day(day_of(t))
}

/// A clock time with one-second resolution.
#[derive(Clone, Copy, Debug, PartialEq, Eq, Structural)]
pub struct TimeOfDay {
    secs: u32,
}

impl TimeOfDay {
    /// Seconds since midnight.
    pub closed spec fn seconds(self) -> int {
        self.secs as int
    }

    /// Every clock time lies inside one civil day.
    #[verifier::type_invariant]
    pub open spec fn wf(self) -> bool {
        0 <= self.seconds() < 86_400
    }

    /// The hour of the day, in `0..24`.
    pub open spec fn spec_hour(self) -> int {
        self.seconds() / 3600
    }

    /// The minute of the hour, in `0..60`.
    pub open spec fn spec_minute(self) -> int {
        (self.seconds() % 3600) / 60
    }

    /// The second of the minute, in `0..60`.
    pub open spec fn spec_second(self) -> int {
        self.seconds() % 60
    }

    /// Builds a clock time; `None` exactly when a field is out of range.
    pub fn from_hms(hour: u8, minute: u8, second: u8) -> (r: Option<TimeOfDay>)
        ensures
            r.is_some() <==> (hour < 24 && minute < 60 && second < 60),
            r matches Some(t) ==> t.wf() && t.seconds() == hour * 3600 + minute * 60 + second,
    {
        if hour < 24 && minute < 60 && second < 60 {
            let h: u32 = hour as u32;
            let m: u32 = minute as u32;
            let s: u32 = second as u32;
            Some(TimeOfDay { secs: h * 3600 + m * 60 + s })
        } else {
            None
        }
    }

    /// The hour of the day.
    pub fn hour(&self) -> (r: u8)
        ensures
            r == self.spec_hour(),
            r < 24,
    {
        proof {
            use_type_invariant(self);
        }
        (self.secs / 3600) as u8
    }

    /// The minute of the hour.
    pub fn minute(&self) -> (r: u8)
        ensures
            r == self.spec_minute(),
            r < 60,
    {
        proof {
            use_type_invariant(self);
        }
        ((self.secs % 3600) / 60) as u8
    }

    /// The second of the minute.
    pub fn second(&self) -> (r: u8)
        ensures
            r == self.spec_second(),
            r < 60,
    {
        proof {
            use_type_invariant(self);
        }
        (self.secs % 60) as u8
    }

    /// Seconds since midnight, as a machine integer.
    pub fn seconds_since_midnight(&self) -> (r: i64)
        ensures
            r == self.seconds(),
            0 <= r < 86_400,
            self.wf(),
    {
        proof {
            use_type_invariant(self);
        }
        self.secs as i64
    }
}

/// A weekly calendar: fire at `tweet_at` on each weekday whose flag is set.
///
/// A schedule with every flag cleared is legal and never fires; it pauses a
/// job without deleting it.
#[derive(Clone, Copy, Debug, PartialEq, Eq, Structural)]
pub struct Schedule {
    pub tweet_at: TimeOfDay,
    pub sun: bool,
    pub mon: bool,
    pub tue: bool,
    pub wed: bool,
    pub thu: bool,
    pub fri: bool,
    pub sat: bool,
}

/// A day offset used to move every instant of the 64-bit range to a
/// non-negative day number without changing its weekday: 7 * 2^44 days.
const DAY_SHIFT: i128 = 123_145_302_310_912;

/// `DAY_SHIFT` days in seconds.
const SECOND_SHIFT: i128 = 10_639_754_119_662_796_800;

/// Splits an instant into its day number, moved up by `DAY_SHIFT`, and its
/// second within the day.
fn split_instant(t: i64) -> (r: (i128, i128))
    ensures
        r.0 == day_of(t as int) + DAY_SHIFT,
        r.1 == second_of_day(t as int),
        0 <= r.0,
        0 <= r.1 < 86_400,
{
    let shifted: i128 = t as i128 + SECOND_SHIFT;
    (shifted / 86_400, shifted % 86_400)
}

/// The weekday of a day number that was moved up by `DAY_SHIFT`.
fn weekday_of_shifted(day: i128) -> (r: u8)
    requires
        0 <= day,
        day + 4 <= i128::MAX,
    ensures
        r == weekday_of_day(day - DAY_SHIFT),
        r < 7,
{
    ((day + 4) % 7) as u8
}

impl Schedule {
    /// A schedule that fires at `tweet_at` on the flagged weekdays.
    pub fn new(
        tweet_at: TimeOfDay,
        sun: bool,
        mon: bool,
        tue: bool,
        wed: bool,
        thu: bool,
        fri: bool,
        sat: bool,
    ) -> (r: Schedule)
        ensures
            r == (Schedule { tweet_at, sun, mon, tue, wed, thu, fri, sat }),
    {
        Schedule { tweet_at, sun, mon, tue, wed, thu, fri, sat }
    }

    /// The schedule's clock time is a valid one.
    pub open spec fn wf(self) -> bool {
        self.tweet_at.wf()
    }

    /// Whether the flag of `weekday` (0 is Sunday) is set.
    pub open spec fn enabled_on(self, weekday: int) -> bool {
        ||| weekday == 0 && self.sun
        ||| weekday == 1 && self.mon
        ||| weekday == 2 && self.tue
        ||| weekday == 3 && self.wed
        ||| weekday == 4 && self.thu
        ||| weekday == 5 && self.fri
        ||| weekday == 6 && self.sat
    }

    /// Whether no weekday is flagged.
    pub open spec fn is_paused(self) -> bool {
        !self.sun && !self.mon && !self.tue && !self.wed && !self.thu && !self.fri && !self.sat
    }

    /// Whether `weekday` is the one and only flagged weekday.
    pub open spec fn only_on(self, weekday: int) -> bool {
        forall|d: int| 0 <= d < 7 ==> (#[trigger] self.enabled_on(d) <==> d == weekday)
    }

    /// The calendar itself: the schedule fires at instant `t` when `t` falls
    /// on a flagged weekday at exactly the schedule's clock time.
    pub open spec fn fires_at(self, t: int) -> bool {
        self.enabled_on(weekday_of(t)) && second_of_day(t) == self.tweet_at.seconds()
    }

    /// `t` is the first firing instant strictly after `from`.
    pub open spec fn is_next_after(self, from: int, t: int) -> bool {
        &&& from < t
        &&& self.fires_at(t)
        &&& forall|u: int| from < u < t ==> !#[trigger] self.fires_at(u)
    }

    /// No firing instant lies in `from < u <= until`.
    pub open spec fn silent_between(self, from: int, until: int) -> bool {
        forall|u: int| from < u <= until ==> !#[trigger] self.fires_at(u)
    }

    /// Whether the flag of `weekday` (0 is Sunday) is set.
    pub fn is_enabled_on(&self, weekday: u8) -> (r: bool)
        ensures
            r == self.enabled_on(weekday as int),
    {
        match weekday {
            0 => self.sun,
            1 => self.mon,
            2 => self.tue,
            3 => self.wed,
            4 => self.thu,
            5 => self.fri,
            6 => self.sat,
            _ => false,
        }
    }

    /// Whether no weekday is flagged.
    pub fn paused(&self) -> (r: bool)
        ensures
            r == self.is_paused(),
    {
        !self.sun && !self.mon && !self.tue && !self.wed && !self.thu && !self.fri && !self.sat
    }

    /// The first firing instant strictly after `from`.
    ///
    /// `None` means that the schedule does not fire again within the range
    /// of 64-bit instants; for a paused schedule that is always the case.
    pub fn next_after(&self, from: i64) -> (r: Option<i64>)
        ensures
            match r {
                Some(t) => self.is_next_after(from as int, t as int),
                None => self.silent_between(from as int, i64::MAX as int),
            },
    {
        let tod: i64 = self.tweet_at.seconds_since_midnight();
        let (day0, sec0) = split_instant(from);
        let base: i128 = from as i128 - sec0;
        let mut k: i128 = 0;
        while k < 8
            invariant
                0 <= k <= 8,
                self.wf(),
                tod == self.tweet_at.seconds(),
                0 <= tod < 86_400,
                day0 == day_of(from as int) + DAY_SHIFT,
                0 <= day0 <= DAY_SHIFT * 2,
                base == day_of(from as int) * 86_400,
                forall|j: int|
                    0 <= j < k ==> !(from < base + j * 86_400 + tod && self.enabled_on(
                        #[trigger] weekday_of_day(day_of(from as int) + j),
                    )),
            decreases 8 - k,
        {
            let candidate: i128 = base + k * 86_400 + tod as i128;
            if candidate > i64::MAX as i128 {
                proof {
                    assert forall|u: int| from < u <= i64::MAX implies !#[trigger] self.fires_at(
                        u,
                    ) by {
                        if self.fires_at(u) {
                            let j = day_of(u) - day_of(from as int);
                            assert(u == base + j * 86_400 + tod);
                            assert(0 <= j < k);
                            assert(weekday_of(u) == weekday_of_day(day_of(from as int) + j));
                        }
                    }
                }
                return None;
            }
            let weekday = weekday_of_shifted(day0 + k);
            if candidate > from as i128 && self.is_enabled_on(weekday) {
                proof {
                    assert(day_of(candidate as int) == day_of(from as int) + k);
                    assert(second_of_day(candidate as int) == tod);
                    assert forall|u: int| from < u < candidate implies !#[trigger] self.fires_at(
                        u,
                    ) by {
                        if self.fires_at(u) {
                            let j = day_of(u) - day_of(from as int);
                            assert(u == base + j * 86_400 + tod);
                            assert(0 <= j < k);
                            assert(weekday_of(u) == weekday_of_day(day_of(from as int) + j));
                        }
                    }
                }
                return Some(candidate as i64);
            }
            k = k + 1;
        }
        proof {
            assert forall|u: int| from < u <= i64::MAX implies !#[trigger] self.fires_at(u) by {
                if self.fires_at(u) {
                    let wd = weekday_of(u);
                    // One of the seven days after `from` has the weekday of `u`.
                    let d0 = day_of(from as int);
                    let j = ((wd - weekday_of_day(d0) - 1) % 7) + 1;
                    assert(1 <= j <= 7);
                    assert(weekday_of_day(d0 + j) == wd);
                    assert(from < base + j * 86_400 + tod);
                }
            }
        }
        None
    }
}

/// Whether the interval fallback fires at instant `t`: every four hours,
/// counted from midnight, on every day.
pub open spec fn poll_fires_at(t: int) -> bool {
    second_of_day(t) % 14_400 == 0
}

/// The first instant strictly after `from` at which the interval fallback
/// fires; `None` where that instant is beyond the 64-bit range.
pub fn next_poll_after(from: i64) -> (r: Option<i64>)
    ensures
        match r {
            Some(t) => from < t && poll_fires_at(t as int) && forall|u: int|
                from < u < t ==> !#[trigger] poll_fires_at(u),
            None => forall|u: int| from < u <= i64::MAX ==> !#[trigger] poll_fires_at(u),
        },
{
    let (_day, sec) = split_instant(from);
    let candidate: i128 = from as i128 - sec % 14_400 + 14_400;
    if candidate > i64::MAX as i128 {
        None
    } else {
        Some(candidate as i64)
    }
}

/// The abstract state of a trigger: its calendar and the instant it was last
/// armed at. A trigger waits for the first firing instant after that one.
pub struct TriggerView {
    pub schedule: Schedule,
    pub every_four_hours: bool,
    pub armed_at: int,
}

impl TriggerView {
    /// Whether the trigger's calendar has a firing instant at `t`.
    pub open spec fn fires_at(self, t: int) -> bool {
        self.schedule.fires_at(t) || (self.every_four_hours && poll_fires_at(t))
    }

    /// Whether a poll at `now` finds the trigger due: some firing instant
    /// lies after the instant it was armed at and not after `now`.
    pub open spec fn is_due(self, now: int) -> bool {
        exists|u: int| self.armed_at < u <= now && #[trigger] self.fires_at(u)
    }

    /// The state after a poll at `now`: a due trigger is armed again at `now`.
    pub open spec fn after_poll(self, now: int) -> TriggerView {
        if self.is_due(now) {
            TriggerView { armed_at: now, ..self }
        } else {
            self
        }
    }

    /// The state after polling at each of `ticks` in turn.
    pub open spec fn after_polls(self, ticks: Seq<int>) -> TriggerView
        decreases ticks.len(),
    {
        if ticks.len() == 0 {
            self
        } else {
            self.after_poll(ticks[0]).after_polls(ticks.drop_first())
        }
    }

    /// What polling at each of `ticks` in turn returns.
    pub open spec fn polls(self, ticks: Seq<int>) -> Seq<bool>
        decreases ticks.len(),
    {
        if ticks.len() == 0 {
            Seq::empty()
        } else {
            seq![self.is_due(ticks[0])] + self.after_poll(ticks[0]).polls(ticks.drop_first())
        }
    }
}

/// The first instant after `from` at which the schedule or, if asked for,
/// the interval fallback fires.
fn next_fire_after(schedule: &Schedule, every_four_hours: bool, from: i64) -> (r: Option<i64>)
    ensures
        ({
            let v = TriggerView { schedule: *schedule, every_four_hours, armed_at: from as int };
            match r {
                Some(t) => from < t && v.fires_at(t as int) && forall|u: int|
                    from < u < t ==> !#[trigger] v.fires_at(u),
                None => forall|u: int| from < u <= i64::MAX ==> !#[trigger] v.fires_at(u),
            }
        }),
{
    let weekly = schedule.next_after(from);
    if !every_four_hours {
        return weekly;
    }
    let polled = next_poll_after(from);
    match (weekly, polled) {
        (Some(a), Some(b)) => if a <= b {
            Some(a)
        } else {
            Some(b)
        },
        (Some(a), None) => Some(a),
        (None, Some(b)) => Some(b),
        (None, None) => None,
    }
}

/// One job's trigger: a calendar and the next instant it is waiting for.
///
/// A trigger fires at most once per poll. A poll that comes late still finds
/// the trigger due, once, and arms it for the first firing instant after the
/// poll.
#[derive(Clone, Copy, Debug)]
pub struct Trigger {
    schedule: Schedule,
    every_four_hours: bool,
    armed_at: i64,
    next_run: Option<i64>,
}

impl View for Trigger {
    type V = TriggerView;

    closed spec fn view(&self) -> TriggerView {
        TriggerView {
            schedule: self.schedule,
            every_four_hours: self.every_four_hours,
            armed_at: self.armed_at as int,
        }
    }
}

impl Trigger {
    /// The instant the trigger waits for is the first firing instant after
    /// the one it was armed at.
    #[verifier::type_invariant]
    closed spec fn inv(self) -> bool {
        match self.next_run {
            Some(t) => self.armed_at < t && self@.fires_at(t as int) && forall|u: int|
                self.armed_at < u < t ==> !#[trigger] self@.fires_at(u),
            None => forall|u: int| self.armed_at < u <= i64::MAX ==> !#[trigger] self@.fires_at(u),
        }
    }

    /// Arms a trigger at `now` for `schedule`, with the four-hour interval
    /// fallback if `every_four_hours` is set.
    pub fn arm(schedule: Schedule, every_four_hours: bool, now: i64) -> (r: Trigger)
        ensures
            r@ == (TriggerView { schedule, every_four_hours, armed_at: now as int }),
    {
        let next_run = next_fire_after(&schedule, every_four_hours, now);
        Trigger { schedule, every_four_hours, armed_at: now, next_run }
    }

    /// The trigger's weekly schedule.
    pub fn schedule(&self) -> (r: Schedule)
        ensures
            r == self@.schedule,
    {
        self.schedule
    }

    /// Whether the trigger also fires on the four-hour interval.
    pub fn every_four_hours(&self) -> (r: bool)
        ensures
            r == self@.every_four_hours,
    {
        self.every_four_hours
    }

    /// The firing instant the trigger is waiting for, if there is one within
    /// the 64-bit range.
    pub fn next_run(&self) -> (r: Option<i64>)
        ensures
            match r {
                Some(t) => self@.armed_at < t && self@.fires_at(t as int) && forall|u: int|
                    self@.armed_at < u < t ==> !#[trigger] self@.fires_at(u),
                None => forall|u: int|
                    self@.armed_at < u <= i64::MAX ==> !#[trigger] self@.fires_at(u),
            },
    {
        proof {
            use_type_invariant(self);
        }
        self.next_run
    }

    /// Whether a poll at `now` would find the trigger due.
    pub fn is_pending(&self, now: i64) -> (due: bool)
        ensures
            due == self@.is_due(now as int),
    {
        proof {
            use_type_invariant(self);
        }
        match self.next_run {
            Some(t) => {
                let due = t <= now;
                proof {
                    if due {
                        assert(self@.armed_at < t <= now && self@.fires_at(t as int));
                    }
                }
                due
            },
            None => false,
        }
    }

    /// Polls the trigger at `now`: says whether the job is due, and if it is,
    /// arms the trigger again at `now`.
    pub fn poll(&mut self, now: i64) -> (due: bool)
        ensures
            due == old(self)@.is_due(now as int),
            final(self)@ == old(self)@.after_poll(now as int),
    {
        let due = self.is_pending(now);
        if due {
            *self = Trigger::arm(self.schedule, self.every_four_hours, now);
        }
        due
    }
}

/// With every weekday flag cleared and no interval fallback, a trigger is
/// never due, whatever instants it is polled at and in whatever order.
pub proof fn lemma_paused_schedule_never_fires(v: TriggerView, ticks: Seq<int>)
    requires
        v.schedule.is_paused(),
        !v.every_four_hours,
    ensures
        v.polls(ticks).len() == ticks.len(),
        forall|i: int| 0 <= i < ticks.len() ==> !v.polls(ticks)[i],
        forall|t: int| !v.fires_at(t),
    decreases ticks.len(),
{
    assert forall|t: int| !v.fires_at(t) by {}
    if ticks.len() > 0 {
        assert(!v.is_due(ticks[0]));
        lemma_paused_schedule_never_fires(v.after_poll(ticks[0]), ticks.drop_first());
    }
}

/// Whether `ticks` are the consecutive seconds that follow `start`.
pub open spec fn ticks_every_second(start: int, ticks: Seq<int>) -> bool {
    forall|i: int| 0 <= i < ticks.len() ==> #[trigger] ticks[i] == start + 1 + i
}

/// Polled once per second from the instant it was armed at, a trigger is due
/// at a tick exactly when that tick is a firing instant of its calendar.
pub proof fn lemma_ticked_trigger_follows_calendar(v: TriggerView, ticks: Seq<int>)
    requires
        ticks_every_second(v.armed_at, ticks),
    ensures
        v.polls(ticks).len() == ticks.len(),
        forall|i: int| 0 <= i < ticks.len() ==> (#[trigger] v.polls(ticks)[i] <==> v.fires_at(ticks[i])),
    decreases ticks.len(),
{
    if ticks.len() > 0 {
        let t0 = ticks[0];
        assert(t0 == v.armed_at + 1);
        assert(v.is_due(t0) <==> v.fires_at(t0)) by {
            if v.fires_at(t0) {
                assert(v.armed_at < t0 <= t0 && v.fires_at(t0));
            }
        }
        let next = v.after_poll(t0);
        let rest = ticks.drop_first();
        // Due or not, the trigger now waits for the first firing instant after `t0`.
        let shifted = TriggerView { armed_at: t0, ..v };
        assert forall|i: int| 0 <= i < rest.len() implies #[trigger] rest[i] == t0 + 1 + i by {
            assert(rest[i] == ticks[i + 1]);
        }
        lemma_ticked_trigger_follows_calendar(shifted, rest);
        if !v.is_due(t0) {
            lemma_same_polls_without_firing(v, t0, rest);
        }
        assert forall|i: int| 0 <= i < ticks.len() implies (#[trigger] v.polls(ticks)[i]
            <==> v.fires_at(ticks[i])) by {
            if i > 0 {
                assert(v.polls(ticks)[i] == next.polls(rest)[i - 1]);
                assert(rest[i - 1] == ticks[i]);
            }
        }
    }
}

/// A trigger that has no firing instant between the instant it was armed at
/// and `t0` behaves, from `t0` on, like one armed at `t0`.
proof fn lemma_same_polls_without_firing(v: TriggerView, t0: int, ticks: Seq<int>)
    requires
        v.armed_at <= t0,
        !v.is_due(t0),
        forall|i: int| 0 <= i < ticks.len() ==> t0 <= #[trigger] ticks[i],
    ensures
        v.polls(ticks) == (TriggerView { armed_at: t0, ..v }).polls(ticks),
    decreases ticks.len(),
{
    let w = TriggerView { armed_at: t0, ..v };
    if ticks.len() > 0 {
        let t = ticks[0];
        assert(v.is_due(t) == w.is_due(t)) by {
            if v.is_due(t) {
                let u = choose|u: int| v.armed_at < u <= t && #[trigger] v.fires_at(u);
                if u <= t0 {
                    assert(v.armed_at < u <= t0 && v.fires_at(u));
                }
                assert(w.armed_at < u <= t && w.fires_at(u));
            }
            if w.is_due(t) {
                let u = choose|u: int| w.armed_at < u <= t && #[trigger] w.fires_at(u);
                assert(v.armed_at < u <= t && v.fires_at(u));
            }
        }
        let rest = ticks.drop_first();
        if v.is_due(t) {
            assert(v.after_poll(t) == w.after_poll(t));
        } else {
            assert forall|i: int| 0 <= i < rest.len() implies t0 <= #[trigger] rest[i] by {
                assert(rest[i] == ticks[i + 1]);
            }
            // Both stay as they are; compare them from `t` on.
            lemma_same_polls_without_firing(v, t0, rest);
        }
    }
}

/// With exactly one weekday flagged and no interval fallback, a trigger that
/// is polled once per second is due exactly once on every day of that
/// weekday, at the schedule's clock time, and never on another weekday: it
/// is due at a tick exactly when the tick is that clock time on that
/// weekday, no two such ticks fall on one day, and every day of that
/// weekday whose clock time is ticked has one.
pub proof fn lemma_single_weekday_fires_once_per_matching_day(
    v: TriggerView,
    weekday: int,
    ticks: Seq<int>,
)
    requires
        v.schedule.wf(),
        0 <= weekday < 7,
        v.schedule.only_on(weekday),
        !v.every_four_hours,
        ticks_every_second(v.armed_at, ticks),
    ensures
        v.polls(ticks).len() == ticks.len(),
        forall|i: int|
            0 <= i < ticks.len() ==> (#[trigger] v.polls(ticks)[i] <==> (weekday_of(ticks[i])
                == weekday && second_of_day(ticks[i]) == v.schedule.tweet_at.seconds())),
        forall|i: int, j: int|
            0 <= i < ticks.len() && 0 <= j < ticks.len() && #[trigger] v.polls(ticks)[i]
                && #[trigger] v.polls(ticks)[j] && day_of(ticks[i]) == day_of(ticks[j]) ==> i == j,
        forall|day: int|
            #![trigger weekday_of_day(day)]
            weekday_of_day(day) == weekday && v.armed_at < day * 86_400
                + v.schedule.tweet_at.seconds() <= v.armed_at + ticks.len() ==> v.polls(
                ticks,
            )[day * 86_400 + v.schedule.tweet_at.seconds() - v.armed_at - 1],
{
    lemma_ticked_trigger_follows_calendar(v, ticks);
    assert forall|day: int|
        #![trigger weekday_of_day(day)]
        weekday_of_day(day) == weekday && v.armed_at < day * 86_400
            + v.schedule.tweet_at.seconds() <= v.armed_at + ticks.len() implies v.polls(
        ticks,
    )[day * 86_400 + v.schedule.tweet_at.seconds() - v.armed_at - 1] by {
        let t = day * 86_400 + v.schedule.tweet_at.seconds();
        let i = t - v.armed_at - 1;
        assert(ticks[i] == t);
        assert(day_of(t) == day);
        assert(second_of_day(t) == v.schedule.tweet_at.seconds());
        assert(v.schedule.enabled_on(weekday));
        assert(v.polls(ticks)[i] <==> v.fires_at(ticks[i]));
    }
    assert forall|i: int| 0 <= i < ticks.len() implies (#[trigger] v.polls(ticks)[i] <==> (
    weekday_of(ticks[i]) == weekday && second_of_day(ticks[i])
        == v.schedule.tweet_at.seconds())) by {
        let wd = weekday_of(ticks[i]);
        assert(0 <= wd < 7);
        assert(v.schedule.enabled_on(wd) <==> wd == weekday);
    }
    assert forall|i: int, j: int|
        0 <= i < ticks.len() && 0 <= j < ticks.len() && #[trigger] v.polls(ticks)[i]
            && #[trigger] v.polls(ticks)[j] && day_of(ticks[i]) == day_of(ticks[j]) implies i
        == j by {
        assert(ticks[i] == v.armed_at + 1 + i);
        assert(ticks[j] == v.armed_at + 1 + j);
        assert(ticks[i] == day_of(ticks[i]) * 86_400 + second_of_day(ticks[i]));
        assert(ticks[j] == day_of(ticks[j]) * 86_400 + second_of_day(ticks[j]));
    }
}

} // verus!
