//! The closed set of recurring poll kinds and their pure policy: default
//! send time, multi-answer flag, question text, overdue threshold, and the
//! next-occurrence computation with its 12-hour rollover rule.
use vstd::prelude::*;

use crate::times::{
    valid_time_of_day, valid_ts, spec_replace_time, replace_time, HALF_DAY, SECONDS_PER_DAY,
    SECONDS_PER_HOUR, TS_SCHEDULE_MAX,
};

verus! {

/// Describes the possible kinds of polls.
#[derive(Debug, Clone, Copy, PartialEq, Eq, Structural, PartialOrd, Ord, Hash)]
pub enum PollKind {
    /// Ask the user how their day was.
    HowWasYourDay,
    /// Ask about reactions after a meal.
    FoodAllergy,
    /// Ask which events happened during the day.
    DailyEvents,
}

/// The stored (snake_case) name of each kind.
pub open spec fn spec_kind_name(kind: PollKind) -> Seq<char> {
    match kind {
        PollKind::HowWasYourDay => "how_was_your_day"@,
        PollKind::FoodAllergy => "food_allergy"@,
        PollKind::DailyEvents => "daily_events"@,
    }
}

/// Default send time of each kind, in seconds since midnight UTC.
pub open spec fn spec_send_at(kind: PollKind) -> int {
    match kind {
        PollKind::HowWasYourDay => (19 * 3600) as int,
        PollKind::DailyEvents => (19 * 3600) as int,
        PollKind::FoodAllergy => (18 * 3600) as int,
    }
}

/// The next occurrence of the time of day `send_at` after `current`,
/// rolled over by one day when it would come sooner than twelve hours.
pub open spec fn spec_schedule_next_at(current: i64, send_at: i64) -> int
    recommends
        valid_ts(current),
        valid_time_of_day(send_at),
{
    let candidate = spec_replace_time(current, send_at);
    if candidate >= current + HALF_DAY {
        candidate
    } else {
        candidate + SECONDS_PER_DAY
    }
}

/// The 12-hour rollover law: the next occurrence keeps the requested time of
/// day and always lies strictly after `current`, and never more than a day
/// and a half after it.
pub proof fn lemma_schedule_next_strictly_after(current: i64, send_at: i64)
    requires
        valid_ts(current),
        valid_time_of_day(send_at),
    ensures
        spec_schedule_next_at(current, send_at) > current,
        spec_schedule_next_at(current, send_at) % (SECONDS_PER_DAY as int) == send_at,
        spec_schedule_next_at(current, send_at) <= current + SECONDS_PER_DAY + HALF_DAY,
{
    let r = spec_schedule_next_at(current, send_at);
    assert(r % (SECONDS_PER_DAY as int) == send_at) by (nonlinear_arith)
        requires
            valid_ts(current),
            valid_time_of_day(send_at),
            r == spec_schedule_next_at(current, send_at),
    ;
}

impl PollKind {
    /// Every kind, in its fixed order.
    pub fn all() -> (r: Vec<PollKind>)
        ensures
            r@ == seq![PollKind::HowWasYourDay, PollKind::FoodAllergy, PollKind::DailyEvents],
    {
        let mut r: Vec<PollKind> = Vec::new();
        r.push(PollKind::HowWasYourDay);
        r.push(PollKind::FoodAllergy);
        r.push(PollKind::DailyEvents);
        proof {
            assert(r@ =~= seq![
                PollKind::HowWasYourDay,
                PollKind::FoodAllergy,
                PollKind::DailyEvents,
            ]);
        }
        r
    }

    /// The name under which this kind is persisted.
    pub fn name(self) -> (r: &'static str)
        ensures
            r@ == spec_kind_name(self),
    {
        match self {
            PollKind::HowWasYourDay => "how_was_your_day",
            PollKind::FoodAllergy => "food_allergy",
            PollKind::DailyEvents => "daily_events",
        }
    }

    /// The default daily send time (UTC), in seconds since midnight.
    pub fn send_at(self) -> (r: i64)
        ensures
            r == spec_send_at(self),
            valid_time_of_day(r),
    {
        match self {
            PollKind::HowWasYourDay => 19 * SECONDS_PER_HOUR,
            PollKind::DailyEvents => 19 * SECONDS_PER_HOUR,
            PollKind::FoodAllergy => 18 * SECONDS_PER_HOUR,
        }
    }

    /// The question the poll asks.
    pub fn question(self) -> (r: String)
        ensures
            r@ == self.spec_question(),
    {
        let q: &str = match self {
            PollKind::HowWasYourDay => "Как прошёл твой день?",
            PollKind::FoodAllergy => {
                "Had you encountered any of described feelings after the meal today?"
            },
            PollKind::DailyEvents => "Что было сегодня?",
        };
        q.to_owned()
    }

    pub open spec fn spec_question(self) -> Seq<char> {
        match self {
            PollKind::HowWasYourDay => "Как прошёл твой день?"@,
            PollKind::FoodAllergy => {
                "Had you encountered any of described feelings after the meal today?"@
            },
            PollKind::DailyEvents => "Что было сегодня?"@,
        }
    }

    /// Whether a poll of this kind lets the user pick several options.
    pub fn allows_multiple_answers(self) -> (r: bool)
        ensures
            r == self.spec_allows_multiple_answers(),
    {
        match self {
            PollKind::HowWasYourDay => false,
            PollKind::FoodAllergy => true,
            PollKind::DailyEvents => true,
        }
    }

    pub open spec fn spec_allows_multiple_answers(self) -> bool {
        match self {
            PollKind::HowWasYourDay => false,
            PollKind::FoodAllergy => true,
            PollKind::DailyEvents => true,
        }
    }

    /// How much time must pass after publication before an unanswered poll
    /// of this kind counts as overdue, in seconds.
    pub fn overdue_interval(self) -> (r: i64)
        ensures
            r == self.spec_overdue_interval(),
            0 < r < SECONDS_PER_DAY * 2,
    {
        match self {
            PollKind::HowWasYourDay => (2 * 24 - 1) * SECONDS_PER_HOUR,
            PollKind::DailyEvents => (2 * 24 - 1) * SECONDS_PER_HOUR,
            PollKind::FoodAllergy => 23 * SECONDS_PER_HOUR,
        }
    }

    pub open spec fn spec_overdue_interval(self) -> int {
        match self {
            PollKind::HowWasYourDay => (47 * 3600) as int,
            PollKind::DailyEvents => (47 * 3600) as int,
            PollKind::FoodAllergy => (23 * 3600) as int,
        }
    }

    /// The next time to send a poll of this kind after `current`, at the
    /// kind's default send time.
    pub fn schedule_next(self, current: i64) -> (r: i64)
        requires
            valid_ts(current),
            current <= TS_SCHEDULE_MAX,
        ensures
            r == spec_schedule_next_at(current, spec_send_at(self) as i64),
            valid_ts(r),
            r > current,
    {
        Self::schedule_next_at(current, self.send_at())
    }

    /// The next time to send a poll after `current`, at the time of day
    /// `send_at`: same-day when that is at least twelve hours away,
    /// next-day otherwise.
    pub fn schedule_next_at(current: i64, send_at: i64) -> (r: i64)
        requires
            valid_ts(current),
            current <= TS_SCHEDULE_MAX,
            valid_time_of_day(send_at),
        ensures
            r == spec_schedule_next_at(current, send_at),
            valid_ts(r),
            r > current,
    {
        let candidate = replace_time(current, send_at);
        if candidate >= current + HALF_DAY {
            candidate
        } else {
            candidate + SECONDS_PER_DAY
        }
    }
}

} // verus!
