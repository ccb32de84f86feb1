//! The decision cores of the bot's user-facing flows: subscription,
//! overdue cleanup, and the schedule-override submission.
use vstd::prelude::*;
use vstd::string::StrSliceExecFns;

use crate::poll::{Poll, PollSettings, User};
use crate::poll_kind::PollKind;
use crate::poll_store::{is_scheduled_for, spec_new_row};
use crate::settings_store::spec_override;
use crate::store::{has_settings, settings_index, user_is_active, user_with_id, user_index, Storage};
use crate::text::{is_digits, parse_u64, spec_digits_value};
use crate::times::{
    spec_replace_time, replace_time, valid_time_of_day, valid_ts, SECONDS_PER_DAY, TS_SCHEDULE_MAX,
};
use crate::Error;

verus! {

/// The outcome of a subscription request.
#[derive(Debug)]
pub enum StartOutcome {
    /// The user already exists and is active; nothing was created.
    AlreadyActive,
    /// The user was created or reactivated, with one immediately due
    /// initial poll per subscribed kind.
    Activated { user: User, polls: Vec<Poll> },
}

impl Storage {
    /// Handle a subscription request: an already-active user gets a
    /// greeting and nothing else; otherwise the user is (re)activated and
    /// one initial poll per subscribed kind is created, dated `now`.
    pub fn handle_start(&mut self, chat_tg_id: i64, now: i64) -> (r: StartOutcome)
        requires
            old(self).wf(),
            old(self).next_poll_id < i64::MAX,
            valid_ts(now),
        ensures
            final(self).wf(),
            final(self).answers@ == old(self).answers@,
            final(self).custom_options@ == old(self).custom_options@,
            final(self).settings@ == old(self).settings@,
            user_is_active(old(self).users@, chat_tg_id) ==> r is AlreadyActive
                && final(self).users@ == old(self).users@
                && final(self).polls@ == old(self).polls@
                && final(self).next_poll_id == old(self).next_poll_id,
            !user_is_active(old(self).users@, chat_tg_id) ==> {
                let np = spec_new_row(
                    old(self).next_poll_id,
                    chat_tg_id,
                    PollKind::HowWasYourDay,
                    now,
                );
                &&& r matches StartOutcome::Activated { user, polls } && user == (User {
                    tg_id: chat_tg_id,
                    active: true,
                }) && polls@ == seq![np]
                &&& final(self).users@ == if user_with_id(old(self).users@, chat_tg_id) {
                    old(self).users@.update(
                        user_index(old(self).users@, chat_tg_id),
                        User { tg_id: chat_tg_id, active: true },
                    )
                } else {
                    old(self).users@.push(User { tg_id: chat_tg_id, active: true })
                }
                &&& final(self).polls@ == old(self).polls@.push(np)
                &&& final(self).next_poll_id == old(self).next_poll_id + 1
            },
    {
        if self.get_user_by_id(chat_tg_id).is_some() {
            return StartOutcome::AlreadyActive;
        }
        let user = self.activate(chat_tg_id);
        let polls = self.create_for_user(&user, now);
        StartOutcome::Activated { user, polls }
    }

    /// The stored send-time override of this user and kind, when one is
    /// set.
    pub fn override_for(&self, user_tg_id: i64, kind: PollKind) -> (r: Option<i64>)
        requires
            self.wf(),
        ensures
            r == spec_override(self.settings@, user_tg_id, kind),
    {
        match self.get_settings(user_tg_id, kind) {
            Some(row) => row.send_at_utc,
            None => None,
        }
    }
}

/// The channel message an overdue poll's cleanup should delete, when one
/// is known.
///
/// A poll that was never published carries no external id; asking to clean
/// it up is a caller error (`NotPersisted`).
pub fn overdue_message(poll: &Poll) -> (r: Result<Option<i32>, Error>)
    ensures
        poll.tg_id is None ==> r == Err::<Option<i32>, Error>(Error::NotPersisted),
        poll.tg_id is Some ==> r == Ok::<Option<i32>, Error>(poll.tg_message_id),
{
    if poll.tg_id.is_none() {
        return Err(Error::NotPersisted);
    }
    Ok(poll.tg_message_id)
}

/// An upsert of one override row, as `set_send_at` performs it.
pub open spec fn spec_upsert_override(settings: Seq<PollSettings>, user_tg_id: i64, kind: PollKind, sod: i64) -> Seq<PollSettings> {
    let fresh = PollSettings { poll_kind: kind, user_tg_id, send_at_utc: Some(sod) };
    if has_settings(settings, user_tg_id, kind) {
        settings.update(settings_index(settings, user_tg_id, kind), fresh)
    } else {
        settings.push(fresh)
    }
}

/// A scheduled poll's date once the user prefers the time of day `sod`:
/// the same day at `sod`, or the next day when that already lies in the
/// past. A date too near the calendar's end is left alone.
pub open spec fn spec_retarget_date(date: i64, sod: i64, now: i64) -> int {
    if date <= TS_SCHEDULE_MAX {
        let nd = spec_replace_time(date, sod);
        if nd < now {
            nd + SECONDS_PER_DAY
        } else {
            nd
        }
    } else {
        date as int
    }
}

/// The kinds whose send time the schedule-override submission adjusts.
pub open spec fn is_overridable_kind(kind: PollKind) -> bool {
    kind == PollKind::DailyEvents || kind == PollKind::HowWasYourDay
}

/// How one stored row looks after the override is applied: a scheduled
/// poll of an adjusted kind moves to the preferred time, everything else
/// stays.
pub open spec fn spec_retarget_row(p: Poll, users: Seq<User>, user_tg_id: i64, sod: i64, now: i64) -> Poll {
    if is_overridable_kind(p.kind) && is_scheduled_for(p, users, user_tg_id, p.kind, now)
        && p.chat_tg_id == user_tg_id {
        Poll {
            id: p.id,
            tg_id: p.tg_id,
            tg_message_id: p.tg_message_id,
            chat_tg_id: p.chat_tg_id,
            kind: p.kind,
            publication_date: spec_retarget_date(p.publication_date, sod, now) as i64,
            published: p.published,
            overdue: p.overdue,
        }
    } else {
        p
    }
}

impl Storage {
    /// Apply a schedule-override submission: remember the preferred send
    /// time of day for the adjustable kinds, and move this user's already
    /// scheduled polls of those kinds to that time (rolling to the next
    /// day when it already passed).
    pub fn apply_schedule_override(&mut self, user_tg_id: i64, send_at_utc: i64, now: i64)
        requires
            old(self).wf(),
            valid_time_of_day(send_at_utc),
            valid_ts(now),
        ensures
            final(self).wf(),
            final(self).users@ == old(self).users@,
            final(self).answers@ == old(self).answers@,
            final(self).custom_options@ == old(self).custom_options@,
            final(self).next_poll_id == old(self).next_poll_id,
            final(self).settings@ == spec_upsert_override(
                spec_upsert_override(
                    old(self).settings@,
                    user_tg_id,
                    PollKind::DailyEvents,
                    send_at_utc,
                ),
                user_tg_id,
                PollKind::HowWasYourDay,
                send_at_utc,
            ),
            final(self).polls@.len() == old(self).polls@.len(),
            forall|i: int|
                0 <= i < old(self).polls@.len() ==> final(self).polls@[i] == spec_retarget_row(
                    #[trigger] old(self).polls@[i],
                    old(self).users@,
                    user_tg_id,
                    send_at_utc,
                    now,
                ),
    {
        self.set_send_at(user_tg_id, PollKind::DailyEvents, send_at_utc);
        self.set_send_at(user_tg_id, PollKind::HowWasYourDay, send_at_utc);
        proof {
            assert(self.settings@ == spec_upsert_override(
                spec_upsert_override(
                    old(self).settings@,
                    user_tg_id,
                    PollKind::DailyEvents,
                    send_at_utc,
                ),
                user_tg_id,
                PollKind::HowWasYourDay,
                send_at_utc,
            ));
        }
        let active = self.is_user_active(user_tg_id);
        let ghost users0 = self.users@;
        let ghost polls0 = self.polls@;
        let ghost settings1 = self.settings@;
        let n = self.polls.len();
        let mut i: usize = 0;
        while i < n
            invariant
                old(self).wf(),
                self.wf(),
                active == user_is_active(users0, user_tg_id),
                valid_time_of_day(send_at_utc),
                valid_ts(now),
                users0 == old(self).users@,
                polls0 == old(self).polls@,
                self.users@ == users0,
                self.answers@ == old(self).answers@,
                self.custom_options@ == old(self).custom_options@,
                self.next_poll_id == old(self).next_poll_id,
                self.settings@ == settings1,
                n == self.polls@.len(),
                n == polls0.len(),
                0 <= i <= n,
                forall|j: int|
                    0 <= j < i ==> self.polls@[j] == spec_retarget_row(
                        #[trigger] polls0[j],
                        users0,
                        user_tg_id,
                        send_at_utc,
                        now,
                    ),
                forall|j: int| i <= j < n ==> #[trigger] self.polls@[j] == polls0[j],
            decreases n - i,
        {
            let p = &self.polls[i];
            let adjust_kind = match p.kind {
                PollKind::DailyEvents => true,
                PollKind::HowWasYourDay => true,
                PollKind::FoodAllergy => false,
            };
            if adjust_kind && !p.published && p.publication_date > now && active && p.chat_tg_id
                == user_tg_id && p.publication_date <= TS_SCHEDULE_MAX {
                let date = p.publication_date;
                let nd0 = replace_time(date, send_at_utc);
                let nd = if nd0 < now {
                    nd0 + SECONDS_PER_DAY
                } else {
                    nd0
                };
                let updated = Poll {
                    id: p.id,
                    tg_id: None,
                    tg_message_id: None,
                    chat_tg_id: p.chat_tg_id,
                    kind: p.kind,
                    publication_date: nd,
                    published: p.published,
                    overdue: p.overdue,
                };
                proof {
                    assert(polls0[i as int].tg_id is None && polls0[i as int].tg_message_id
                        is None);
                }
                self.polls.set(i, updated);
                proof {
                    assert(is_scheduled_for(
                        polls0[i as int],
                        users0,
                        user_tg_id,
                        polls0[i as int].kind,
                        now,
                    ));
                    assert(self.polls@[i as int] == spec_retarget_row(
                        polls0[i as int],
                        users0,
                        user_tg_id,
                        send_at_utc,
                        now,
                    ));
                }
            } else {
                proof {
                    let q = polls0[i as int];
                    if is_overridable_kind(q.kind) && is_scheduled_for(
                        q,
                        users0,
                        user_tg_id,
                        q.kind,
                        now,
                    ) && q.chat_tg_id == user_tg_id {
                        assert(q.publication_date > TS_SCHEDULE_MAX);
                        assert(spec_retarget_date(q.publication_date, send_at_utc, now)
                            == q.publication_date as int);
                        assert(spec_retarget_row(q, users0, user_tg_id, send_at_utc, now) == q);
                    } else {
                        assert(spec_retarget_row(q, users0, user_tg_id, send_at_utc, now) == q);
                    }
                }
            }
            i += 1;
        }
    }
}

/// `s` has a first underscore preceded by a non-empty, all-digit prefix
/// whose value fits a `u64`: the shape of a schedule-override submission.
pub open spec fn spec_webapp_ok(s: Seq<char>) -> bool {
    exists|k: int|
        0 < k < s.len() && s[k] == '_' && (forall|j: int| 0 <= j < k ==> s[j] != '_') && is_digits(
            s.subrange(0, k),
        ) && spec_digits_value(s.subrange(0, k)) <= u64::MAX
}

/// The position of the first underscore of `s`.
pub open spec fn spec_first_underscore(s: Seq<char>) -> int {
    choose|k: int| 0 <= k < s.len() && s[k] == '_' && (forall|j: int| 0 <= j < k ==> s[j] != '_')
}

/// The preferred send time a well-formed submission carries: the time of
/// day (UTC seconds) of the millisecond timestamp before the underscore.
pub open spec fn spec_webapp_send_time(s: Seq<char>) -> int {
    spec_digits_value(s.subrange(0, spec_first_underscore(s))) / 1000 % 86400
}

/// Read the preferred send time of day out of a schedule-override
/// submission of the form `<milliseconds>_<offset>`.
///
/// A submission without an underscore, with nothing or a non-digit before
/// it, or with an unreadably large number, is a protocol violation.
pub fn webapp_send_time(data: &str) -> (r: Result<i64, Error>)
    ensures
        r is Ok <==> spec_webapp_ok(data@),
        r matches Ok(sod) ==> sod == spec_webapp_send_time(data@) && valid_time_of_day(sod),
        r matches Err(e) ==> e == Error::ChannelProtocolViolation,
{
    let n = data.unicode_len();
    let mut k: usize = 0;
    let mut found = false;
    while k < n && !found
        invariant
            n == data@.len(),
            0 <= k <= n,
            forall|j: int| 0 <= j < k ==> data@[j] != '_',
            found ==> k < n && data@[k as int] == '_',
        decreases n - k + if found {
            0int
        } else {
            1int
        },
    {
        if data.get_char(k) == '_' {
            found = true;
        } else {
            k += 1;
        }
    }
    if !found {
        proof {
            if spec_webapp_ok(data@) {
                let w = choose|w: int|
                    0 < w < data@.len() && data@[w] == '_' && (forall|j: int|
                        0 <= j < w ==> data@[j] != '_') && is_digits(data@.subrange(0, w))
                        && spec_digits_value(data@.subrange(0, w)) <= u64::MAX;
                assert(data@[w] == '_');
                assert(false);
            }
        }
        return Err(Error::ChannelProtocolViolation);
    }
    if k == 0 {
        proof {
            if spec_webapp_ok(data@) {
                let w = choose|w: int|
                    0 < w < data@.len() && data@[w] == '_' && (forall|j: int|
                        0 <= j < w ==> data@[j] != '_') && is_digits(data@.subrange(0, w))
                        && spec_digits_value(data@.subrange(0, w)) <= u64::MAX;
                assert(data@[0] == '_');
                assert(data@[0] != '_');
                assert(false);
            }
        }
        return Err(Error::ChannelProtocolViolation);
    }
    let prefix = data.substring_char(0, k);
    proof {
        assert(prefix@ == data@.subrange(0, k as int));
    }
    match parse_u64(prefix) {
        Some(v) => {
            let sod = ((v / 1000) % 86400) as i64;
            proof {
                assert(spec_webapp_ok(data@)) by {
                    assert(0 < k < data@.len() && data@[k as int] == '_' && (forall|j: int|
                        0 <= j < k ==> data@[j] != '_') && is_digits(data@.subrange(0, k as int))
                        && spec_digits_value(data@.subrange(0, k as int)) <= u64::MAX);
                }
                let w = spec_first_underscore(data@);
                assert(0 <= w < data@.len() && data@[w] == '_' && (forall|j: int|
                    0 <= j < w ==> data@[j] != '_'));
                assert(w == k as int) by {
                    if w < k as int {
                        assert(data@[w] != '_');
                    }
                    if w > k as int {
                        assert(data@[k as int] != '_');
                    }
                }
            }
            Ok(sod)
        },
        None => {
            proof {
                if spec_webapp_ok(data@) {
                    let w = choose|w: int|
                        0 < w < data@.len() && data@[w] == '_' && (forall|j: int|
                            0 <= j < w ==> data@[j] != '_') && is_digits(data@.subrange(0, w))
                            && spec_digits_value(data@.subrange(0, w)) <= u64::MAX;
                    assert(w == k as int) by {
                        if w < k as int {
                            assert(data@[w] != '_');
                        }
                        if w > k as int {
                            assert(data@[k as int] != '_');
                        }
                    }
                    assert(false);
                }
            }
            Err(Error::ChannelProtocolViolation)
        },
    }
}

} // verus!
