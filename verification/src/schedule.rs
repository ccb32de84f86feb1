//! Next-occurrence scheduling and cancellation of pending polls.
use vstd::prelude::*;

use crate::poll::{Poll, User};
use crate::poll_kind::{spec_schedule_next_at, spec_send_at, PollKind};
use crate::poll_store::{
    has_next_scheduled, is_next_scheduled, lemma_filter_preserves_rows, spec_new_row,
    survives_deactivation, survives_disable,
};
use crate::settings_store::spec_override;
use crate::store::{lemma_filter_push, user_index, user_is_active, user_with_id, Storage};
use crate::poll::PollSettings;
use crate::times::{valid_ts, TS_SCHEDULE_MAX};
use crate::Error;

verus! {

/// The outcome of asking for the next occurrence of a published poll.
#[derive(Debug)]
pub enum ScheduleOutcome {
    /// A new unpublished row was inserted.
    Inserted(Poll),
    /// An unpublished future poll for the pair already existed; nothing
    /// was inserted.
    AlreadyScheduled,
}

/// When the next occurrence of `kind` for this user falls, counted from
/// `current`: at the user's preferred send time when an override is set,
/// at the kind's default send time otherwise.
pub open spec fn spec_next_occurrence(settings: Seq<PollSettings>, chat_tg_id: i64, kind: PollKind, current: i64) -> int {
    match spec_override(settings, chat_tg_id, kind) {
        Some(sod) => spec_schedule_next_at(current, sod),
        None => spec_schedule_next_at(current, spec_send_at(kind) as i64),
    }
}

/// How many unpublished polls of this user and kind are dated after
/// `after`.
pub open spec fn future_unpublished_count(polls: Seq<Poll>, chat_tg_id: i64, kind: PollKind, after: i64) -> nat {
    polls.filter(|p: Poll| is_next_scheduled(p, chat_tg_id, kind, after)).len()
}

/// Idempotent next-scheduling: when no future unpublished poll of the pair
/// exists and one is inserted, exactly one exists afterwards — and the
/// guard then sees it, so scheduling again inserts nothing.
pub proof fn lemma_schedule_next_idempotent(polls: Seq<Poll>, chat_tg_id: i64, kind: PollKind, after: i64, np: Poll)
    requires
        future_unpublished_count(polls, chat_tg_id, kind, after) == 0,
        is_next_scheduled(np, chat_tg_id, kind, after),
    ensures
        future_unpublished_count(polls.push(np), chat_tg_id, kind, after) == 1,
        has_next_scheduled(polls.push(np), chat_tg_id, kind, after),
{
    let pred = |p: Poll| is_next_scheduled(p, chat_tg_id, kind, after);
    lemma_filter_push(polls, np, pred);
    assert(polls.push(np).filter(pred) == polls.filter(pred).push(np));
    assert(polls.push(np)[polls.len() as int] == np);
    assert(has_next_scheduled(polls.push(np), chat_tg_id, kind, after));
}

/// A store without a future unpublished poll of the pair has the guard
/// count at zero.
pub proof fn lemma_no_next_means_count_zero(polls: Seq<Poll>, chat_tg_id: i64, kind: PollKind, after: i64)
    requires
        !has_next_scheduled(polls, chat_tg_id, kind, after),
    ensures
        future_unpublished_count(polls, chat_tg_id, kind, after) == 0,
{
    let pred = |p: Poll| is_next_scheduled(p, chat_tg_id, kind, after);
    assert forall|i: int| 0 <= i < polls.len() implies !pred(#[trigger] polls[i]) by {
        assert(!is_next_scheduled(polls[i], chat_tg_id, kind, after));
    }
    crate::store::lemma_filter_all_false(polls, pred);
}

impl Storage {
    /// Insert the next occurrence of this poll's kind for its user, unless
    /// an unpublished future poll of the pair already exists.
    ///
    /// The new occurrence falls at the user's preferred send time when an
    /// override is set, at the kind's default send time otherwise, rolled
    /// to the next day when it would come sooner than twelve hours.
    pub fn schedule_next(&mut self, poll: &Poll) -> (r: ScheduleOutcome)
        requires
            old(self).wf(),
            old(self).next_poll_id < i64::MAX,
            valid_ts(poll.publication_date),
            poll.publication_date <= TS_SCHEDULE_MAX,
        ensures
            final(self).wf(),
            final(self).users@ == old(self).users@,
            final(self).answers@ == old(self).answers@,
            final(self).custom_options@ == old(self).custom_options@,
            final(self).settings@ == old(self).settings@,
            has_next_scheduled(
                old(self).polls@,
                poll.chat_tg_id,
                poll.kind,
                poll.publication_date,
            ) ==> r is AlreadyScheduled && final(self).polls@ == old(self).polls@
                && final(self).next_poll_id == old(self).next_poll_id,
            !has_next_scheduled(
                old(self).polls@,
                poll.chat_tg_id,
                poll.kind,
                poll.publication_date,
            ) ==> {
                let np = spec_new_row(
                    old(self).next_poll_id,
                    poll.chat_tg_id,
                    poll.kind,
                    spec_next_occurrence(
                        old(self).settings@,
                        poll.chat_tg_id,
                        poll.kind,
                        poll.publication_date,
                    ) as i64,
                );
                &&& r == ScheduleOutcome::Inserted(np)
                &&& np.publication_date > poll.publication_date
                &&& final(self).polls@ == old(self).polls@.push(np)
                &&& final(self).next_poll_id == old(self).next_poll_id + 1
                &&& is_next_scheduled(np, poll.chat_tg_id, poll.kind, poll.publication_date)
                &&& has_next_scheduled(
                    final(self).polls@,
                    poll.chat_tg_id,
                    poll.kind,
                    poll.publication_date,
                )
            },
    {
        if self.exists_next(poll.chat_tg_id, poll.kind, poll.publication_date) {
            return ScheduleOutcome::AlreadyScheduled;
        }
        let send_at = match self.get_settings(poll.chat_tg_id, poll.kind) {
            Some(row) => match row.send_at_utc {
                Some(sod) => sod,
                None => poll.kind.send_at(),
            },
            None => poll.kind.send_at(),
        };
        let next_at = PollKind::schedule_next_at(poll.publication_date, send_at);
        let np = self.insert_row(None, None, poll.chat_tg_id, poll.kind, next_at, false);
        proof {
            let m = self.polls@.len() - 1;
            assert(self.polls@[m] == np);
            assert(is_next_scheduled(np, poll.chat_tg_id, poll.kind, poll.publication_date));
            assert(has_next_scheduled(
                self.polls@,
                poll.chat_tg_id,
                poll.kind,
                poll.publication_date,
            ));
        }
        ScheduleOutcome::Inserted(np)
    }

    /// Hard-delete this user's unpublished, future-dated polls of one
    /// kind, returning how many rows were removed.
    pub fn disable_pending_for_user(&mut self, user_tg_id: i64, kind: PollKind, now: i64) -> (r:
        u64)
        requires
            old(self).wf(),
        ensures
            final(self).wf(),
            final(self).polls@ == old(self).polls@.filter(
                |p: Poll| survives_disable(p, user_tg_id, kind, now),
            ),
            r == old(self).polls@.len() - final(self).polls@.len(),
            final(self).users@ == old(self).users@,
            final(self).answers@ == old(self).answers@,
            final(self).custom_options@ == old(self).custom_options@,
            final(self).settings@ == old(self).settings@,
            final(self).next_poll_id == old(self).next_poll_id,
    {
        let n = self.polls.len();
        let mut kept: Vec<Poll> = Vec::new();
        let mut i: usize = 0;
        proof {
            assert(self.polls@.subrange(0, 0) =~= Seq::<Poll>::empty());
            reveal(Seq::filter);
        }
        while i < n
            invariant
                *self == *old(self),
                n == self.polls@.len(),
                0 <= i <= n,
                kept@ == self.polls@.subrange(0, i as int).filter(
                    |p: Poll| survives_disable(p, user_tg_id, kind, now),
                ),
                kept@.len() <= i,
            decreases n - i,
        {
            let p = &self.polls[i];
            proof {
                lemma_filter_push(
                    self.polls@.subrange(0, i as int),
                    self.polls@[i as int],
                    |p: Poll| survives_disable(p, user_tg_id, kind, now),
                );
                assert(self.polls@.subrange(0, i + 1) =~= self.polls@.subrange(0, i as int).push(
                    self.polls@[i as int],
                ));
            }
            if !(!p.published && p.publication_date > now && p.chat_tg_id == user_tg_id && p.kind
                == kind) {
                kept.push(p.clone());
            }
            i += 1;
        }
        proof {
            assert(self.polls@.subrange(0, n as int) =~= self.polls@);
        }
        let removed = (n - kept.len()) as u64;
        proof {
            lemma_filter_preserves_rows(
                self.polls@,
                |p: Poll| survives_disable(p, user_tg_id, kind, now),
            );
        }
        self.polls = kept;
        removed
    }

    /// Deactivate the user: cancel every unpublished, future-dated poll of
    /// theirs (of any kind) and mark the user row inactive.
    ///
    /// Fails with `NotFound`, changing nothing, when no user row carries
    /// this chat id.
    pub fn deactivate(&mut self, user_tg_id: i64, now: i64) -> (r: Result<User, Error>)
        requires
            old(self).wf(),
        ensures
            final(self).wf(),
            final(self).answers@ == old(self).answers@,
            final(self).custom_options@ == old(self).custom_options@,
            final(self).settings@ == old(self).settings@,
            final(self).next_poll_id == old(self).next_poll_id,
            user_with_id(old(self).users@, user_tg_id) ==> {
                &&& r == Ok::<User, Error>(User { tg_id: user_tg_id, active: false })
                &&& final(self).polls@ == old(self).polls@.filter(
                    |p: Poll| survives_deactivation(p, user_tg_id, now),
                )
                &&& final(self).users@ == old(self).users@.update(
                    user_index(old(self).users@, user_tg_id),
                    User { tg_id: user_tg_id, active: false },
                )
                &&& !user_is_active(final(self).users@, user_tg_id)
            },
            !user_with_id(old(self).users@, user_tg_id) ==> r == Err::<User, Error>(
                Error::NotFound,
            ) && final(self).users@ == old(self).users@ && final(self).polls@ == old(self).polls@,
    {
        let fresh = User { tg_id: user_tg_id, active: false };
        let nu = self.users.len();
        let mut u: usize = 0;
        let mut found = false;
        while u < nu && !found
            invariant
                *self == *old(self),
                old(self).wf(),
                fresh == (User { tg_id: user_tg_id, active: false }),
                nu == self.users@.len(),
                0 <= u <= nu,
                !found ==> forall|j: int|
                    0 <= j < u ==> (#[trigger] self.users@[j]).tg_id != user_tg_id,
                found ==> u < nu && self.users@[u as int].tg_id == user_tg_id,
            decreases nu - u + if found { 0int } else { 1int },
        {
            if self.users[u].tg_id == user_tg_id {
                found = true;
            } else {
                u += 1;
            }
        }
        if !found {
            proof {
                assert(!user_with_id(self.users@, user_tg_id));
            }
            return Err(Error::NotFound);
        }
        self.users.set(u, fresh);
        proof {
            assert(user_with_id(old(self).users@, user_tg_id)) by {
                assert(old(self).users@[u as int].tg_id == user_tg_id);
            }
            let k = user_index(old(self).users@, user_tg_id);
            assert(0 <= k < old(self).users@.len() && old(self).users@[k].tg_id == user_tg_id);
            assert(k == u as int);
            assert(self.users@ == old(self).users@.update(u as int, fresh));
            assert forall|j: int|
                0 <= j < self.users@.len() implies !((#[trigger] self.users@[j]).tg_id
                == user_tg_id && self.users@[j].active) by {
                if j != u as int {
                    assert(self.users@[j] == old(self).users@[j]);
                }
            }
        }
        let n = self.polls.len();
        let mut kept: Vec<Poll> = Vec::new();
        let mut i: usize = 0;
        let ghost users_after = self.users@;
        proof {
            assert(self.polls@.subrange(0, 0) =~= Seq::<Poll>::empty());
            reveal(Seq::filter);
        }
        while i < n
            invariant
                old(self).wf(),
                self.users@ == users_after,
                self.polls@ == old(self).polls@,
                self.answers@ == old(self).answers@,
                self.custom_options@ == old(self).custom_options@,
                self.settings@ == old(self).settings@,
                self.next_poll_id == old(self).next_poll_id,
                n == self.polls@.len(),
                0 <= i <= n,
                kept@ == self.polls@.subrange(0, i as int).filter(
                    |p: Poll| survives_deactivation(p, user_tg_id, now),
                ),
            decreases n - i,
        {
            let p = &self.polls[i];
            proof {
                lemma_filter_push(
                    self.polls@.subrange(0, i as int),
                    self.polls@[i as int],
                    |p: Poll| survives_deactivation(p, user_tg_id, now),
                );
                assert(self.polls@.subrange(0, i + 1) =~= self.polls@.subrange(0, i as int).push(
                    self.polls@[i as int],
                ));
            }
            if !(!p.published && p.publication_date > now && p.chat_tg_id == user_tg_id) {
                kept.push(p.clone());
            }
            i += 1;
        }
        proof {
            assert(self.polls@.subrange(0, n as int) =~= self.polls@);
            lemma_filter_preserves_rows(
                self.polls@,
                |p: Poll| survives_deactivation(p, user_tg_id, now),
            );
        }
        self.polls = kept;
        Ok(fresh)
    }
}

} // verus!
