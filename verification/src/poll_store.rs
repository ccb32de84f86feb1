//! The poll repository: creation, lookup, publication bookkeeping, the due
//! and overdue queries, and cancellation of pending polls.
use vstd::prelude::*;

use crate::poll::{Poll, PollAnswer, User};
use crate::poll_kind::PollKind;
use crate::store::{has_answer, has_poll_with_id, poll_index, user_is_active, Storage};
use crate::times::valid_ts;
use crate::Error;

verus! {

/// A fresh, unpublished row as the store creates it.
pub open spec fn spec_new_row(id: i64, chat_tg_id: i64, kind: PollKind, publication_date: i64) -> Poll {
    Poll {
        id: Some(id),
        tg_id: None,
        tg_message_id: None,
        chat_tg_id,
        kind,
        publication_date,
        published: false,
        overdue: false,
    }
}

/// The row `p` with its overdue flag raised.
pub open spec fn spec_with_overdue(p: Poll) -> Poll {
    Poll {
        id: p.id,
        tg_id: p.tg_id,
        tg_message_id: p.tg_message_id,
        chat_tg_id: p.chat_tg_id,
        kind: p.kind,
        publication_date: p.publication_date,
        published: p.published,
        overdue: true,
    }
}

/// `p` is an unpublished poll of this user and kind dated after `after`:
/// the guard of next-occurrence insertion.
pub open spec fn is_next_scheduled(p: Poll, chat_tg_id: i64, kind: PollKind, after: i64) -> bool {
    !p.published && p.kind == kind && p.publication_date > after && p.chat_tg_id == chat_tg_id
}

/// Some row is an unpublished poll of this user and kind dated after `after`.
pub open spec fn has_next_scheduled(polls: Seq<Poll>, chat_tg_id: i64, kind: PollKind, after: i64) -> bool {
    exists|i: int| 0 <= i < polls.len() && is_next_scheduled(polls[i], chat_tg_id, kind, after)
}

/// `p` carries this external poll id.
pub open spec fn poll_has_tg(p: Poll, tg_id: Seq<char>) -> bool {
    p.tg_id matches Some(t) && t@ == tg_id
}

/// Some row carries this external poll id.
pub open spec fn has_poll_with_tg(polls: Seq<Poll>, tg_id: Seq<char>) -> bool {
    exists|i: int| 0 <= i < polls.len() && poll_has_tg(polls[i], tg_id)
}

/// `p` is due for delivery: unpublished, dated strictly before `now`, and
/// owned by an active user.
pub open spec fn is_pending(p: Poll, users: Seq<User>, now: i64) -> bool {
    !p.published && p.publication_date < now && user_is_active(users, p.chat_tg_id)
}

/// `p` is a future, unpublished poll of this active user and kind.
pub open spec fn is_scheduled_for(p: Poll, users: Seq<User>, user_tg_id: i64, kind: PollKind, now: i64) -> bool {
    &&& !p.published
    &&& p.publication_date > now
    &&& user_is_active(users, user_tg_id)
    &&& p.chat_tg_id == user_tg_id
    &&& p.kind == kind
}

/// `p` is eligible for the overdue sweep of `kind` at `now`: published, not
/// yet marked, past the kind's overdue interval, and without any answer.
pub open spec fn is_overdue_candidate(p: Poll, answers: Seq<PollAnswer>, kind: PollKind, now: i64) -> bool {
    &&& !p.overdue
    &&& p.published
    &&& p.kind == kind
    &&& p.publication_date < now - kind.spec_overdue_interval()
    &&& !(p.tg_id matches Some(t) && has_answer(answers, t@))
}

/// `p` survives the cancellation of this user's pending polls of `kind`:
/// it is published, already due, or belongs to someone or something else.
pub open spec fn survives_disable(p: Poll, user_tg_id: i64, kind: PollKind, now: i64) -> bool {
    !(!p.published && p.publication_date > now && p.chat_tg_id == user_tg_id && p.kind == kind)
}

/// `p` survives the cancellation of all of this user's pending polls.
pub open spec fn survives_deactivation(p: Poll, user_tg_id: i64, now: i64) -> bool {
    !(!p.published && p.publication_date > now && p.chat_tg_id == user_tg_id)
}

/// Filtering keeps every row inside the original sequence and keeps
/// distinct rows' storage ids distinct.
pub proof fn lemma_filter_preserves_rows(polls: Seq<Poll>, pred: spec_fn(Poll) -> bool)
    requires
        forall|i: int, j: int|
            0 <= i < polls.len() && 0 <= j < polls.len() && i != j
                ==> (#[trigger] polls[i]).row_id() != (#[trigger] polls[j]).row_id()
                || polls[i].id is None || polls[j].id is None,
    ensures
        forall|i: int|
            0 <= i < polls.filter(pred).len() ==> polls.contains(#[trigger] polls.filter(pred)[i]),
        forall|i: int, j: int|
            0 <= i < polls.filter(pred).len() && 0 <= j < polls.filter(pred).len() && i != j
                ==> (#[trigger] polls.filter(pred)[i]).row_id()
                != (#[trigger] polls.filter(pred)[j]).row_id()
                || polls.filter(pred)[i].id is None || polls.filter(pred)[j].id is None,
    decreases polls.len(),
{
    reveal(Seq::filter);
    let f = polls.filter(pred);
    if polls.len() > 0 {
        let d = polls.drop_last();
        assert(forall|i: int, j: int|
            0 <= i < d.len() && 0 <= j < d.len() && i != j ==> (#[trigger] d[i]).row_id()
                != (#[trigger] d[j]).row_id() || d[i].id is None || d[j].id is None) by {
            assert(forall|i: int| 0 <= i < d.len() ==> #[trigger] d[i] == polls[i]);
        }
        lemma_filter_preserves_rows(d, pred);
        let fd = d.filter(pred);
        assert(forall|i: int| 0 <= i < fd.len() ==> d.contains(#[trigger] fd[i]));
        assert(forall|i: int| 0 <= i < d.len() ==> polls.contains(#[trigger] d[i])) by {
            assert(forall|i: int| 0 <= i < d.len() ==> #[trigger] d[i] == polls[i]);
        }
        assert forall|i: int| 0 <= i < fd.len() implies polls.contains(#[trigger] fd[i]) by {
            let k = choose|k: int| 0 <= k < d.len() && d[k] == fd[i];
            assert(polls.contains(d[k]));
        }
        if pred(polls.last()) {
            assert(f == fd.push(polls.last()));
            assert(polls.contains(polls.last())) by {
                assert(polls[polls.len() - 1] == polls.last());
            }
            assert forall|i: int, j: int|
                0 <= i < f.len() && 0 <= j < f.len() && i != j implies (#[trigger] f[i]).row_id()
                != (#[trigger] f[j]).row_id() || f[i].id is None || f[j].id is None by {
                if i < f.len() - 1 && j < f.len() - 1 {
                    assert(f[i] == fd[i] && f[j] == fd[j]);
                } else {
                    let k = if i < f.len() - 1 {
                        i
                    } else {
                        j
                    };
                    assert(f[k] == fd[k]);
                    assert(d.contains(fd[k]));
                    let a = choose|a: int| 0 <= a < d.len() && d[a] == fd[k];
                    assert(polls[a] == fd[k]);
                    assert(polls[polls.len() - 1] == polls.last());
                }
            }
        } else {
            assert(f == fd);
        }
    }
}

impl Storage {
    /// Insert one poll row, assigning it the next storage id.
    pub(crate) fn insert_row(
        &mut self,
        tg_id: Option<String>,
        tg_message_id: Option<i32>,
        chat_tg_id: i64,
        kind: PollKind,
        publication_date: i64,
        published: bool,
    ) -> (p: Poll)
        requires
            old(self).wf(),
            old(self).next_poll_id < i64::MAX,
            valid_ts(publication_date),
            !published ==> tg_id is None && tg_message_id is None,
        ensures
            final(self).wf(),
            p == (Poll {
                id: Some(old(self).next_poll_id),
                tg_id: tg_id,
                tg_message_id,
                chat_tg_id,
                kind,
                publication_date,
                published,
                overdue: false,
            }),
            final(self).polls@ == old(self).polls@.push(p),
            final(self).next_poll_id == old(self).next_poll_id + 1,
            final(self).users@ == old(self).users@,
            final(self).answers@ == old(self).answers@,
            final(self).custom_options@ == old(self).custom_options@,
            final(self).settings@ == old(self).settings@,
    {
        let p = Poll {
            id: Some(self.next_poll_id),
            tg_id,
            tg_message_id,
            chat_tg_id,
            kind,
            publication_date,
            published,
            overdue: false,
        };
        let r = p.clone();
        self.polls.push(p);
        self.next_poll_id = self.next_poll_id + 1;
        proof {
            assert(forall|i: int|
                0 <= i < self.polls@.len() - 1 ==> #[trigger] self.polls@[i] == old(
                    self,
                ).polls@[i]);
            assert(self.polls@[self.polls@.len() - 1] == r);
        }
        r
    }

    /// Insert a new, unpublished poll for this user and kind, dated `at`
    /// when given, `now` otherwise.
    pub fn create(&mut self, user_tg_id: i64, kind: PollKind, at: Option<i64>, now: i64) -> (p: Poll)
        requires
            old(self).wf(),
            old(self).next_poll_id < i64::MAX,
            valid_ts(now),
            at matches Some(t) ==> valid_ts(t),
        ensures
            final(self).wf(),
            p == spec_new_row(old(self).next_poll_id, user_tg_id, kind, if at is Some {
                at->0
            } else {
                now
            }),
            final(self).polls@ == old(self).polls@.push(p),
            final(self).next_poll_id == old(self).next_poll_id + 1,
            final(self).users@ == old(self).users@,
            final(self).answers@ == old(self).answers@,
            final(self).custom_options@ == old(self).custom_options@,
            final(self).settings@ == old(self).settings@,
    {
        let date = match at {
            Some(t) => t,
            None => now,
        };
        self.insert_row(None, None, user_tg_id, kind, date, false)
    }

    /// Insert one poll per subscribed kind for a freshly activated user,
    /// all dated `now` so they are immediately due.
    pub fn create_for_user(&mut self, user: &User, now: i64) -> (r: Vec<Poll>)
        requires
            old(self).wf(),
            old(self).next_poll_id < i64::MAX,
            valid_ts(now),
        ensures
            final(self).wf(),
            r@ == seq![
                spec_new_row(old(self).next_poll_id, user.tg_id, PollKind::HowWasYourDay, now),
            ],
            final(self).polls@ == old(self).polls@.push(r@[0]),
            final(self).next_poll_id == old(self).next_poll_id + 1,
            final(self).users@ == old(self).users@,
            final(self).answers@ == old(self).answers@,
            final(self).custom_options@ == old(self).custom_options@,
            final(self).settings@ == old(self).settings@,
    {
        let p = self.insert_row(None, None, user.tg_id, PollKind::HowWasYourDay, now, false);
        let mut r: Vec<Poll> = Vec::new();
        r.push(p);
        proof {
            assert(r@ =~= seq![
                spec_new_row(old(self).next_poll_id, user.tg_id, PollKind::HowWasYourDay, now),
            ]);
        }
        r
    }

    /// The idempotency guard: is a later, unpublished poll of this user and
    /// kind already on file?
    pub fn exists_next(&self, chat_tg_id: i64, kind: PollKind, after: i64) -> (r: bool)
        ensures
            r == has_next_scheduled(self.polls@, chat_tg_id, kind, after),
    {
        let n = self.polls.len();
        let mut i: usize = 0;
        while i < n
            invariant
                n == self.polls@.len(),
                0 <= i <= n,
                forall|j: int|
                    0 <= j < i ==> !is_next_scheduled(
                        #[trigger] self.polls@[j],
                        chat_tg_id,
                        kind,
                        after,
                    ),
            decreases n - i,
        {
            let p = &self.polls[i];
            if !p.published && p.kind == kind && p.publication_date > after && p.chat_tg_id
                == chat_tg_id {
                proof {
                    assert(is_next_scheduled(self.polls@[i as int], chat_tg_id, kind, after));
                }
                return true;
            }
            i += 1;
        }
        false
    }

    /// Overwrite the row carrying the poll's storage id.
    ///
    /// The stored overdue flag is kept as it is. Updating a poll that was
    /// never persisted is a programming-contract violation and fails with
    /// `NotPersisted`; a vanished row fails with `NotFound`. Either way
    /// nothing changes.
    pub fn update(&mut self, poll: &Poll) -> (r: Result<Poll, Error>)
        requires
            old(self).wf(),
            valid_ts(poll.publication_date),
            !poll.published ==> poll.tg_id is None && poll.tg_message_id is None,
        ensures
            final(self).wf(),
            final(self).users@ == old(self).users@,
            final(self).answers@ == old(self).answers@,
            final(self).custom_options@ == old(self).custom_options@,
            final(self).settings@ == old(self).settings@,
            final(self).next_poll_id == old(self).next_poll_id,
            poll.id is None ==> r == Err::<Poll, Error>(Error::NotPersisted) && final(self).polls@
                == old(self).polls@,
            poll.id is Some && has_poll_with_id(old(self).polls@, poll.id->0) ==> {
                let k = poll_index(old(self).polls@, poll.id->0);
                let updated = Poll {
                    id: poll.id,
                    tg_id: poll.tg_id,
                    tg_message_id: poll.tg_message_id,
                    chat_tg_id: poll.chat_tg_id,
                    kind: poll.kind,
                    publication_date: poll.publication_date,
                    published: poll.published,
                    overdue: old(self).polls@[k].overdue,
                };
                &&& final(self).polls@ == old(self).polls@.update(k, updated)
                &&& r == Ok::<Poll, Error>(updated)
            },
            poll.id is Some && !has_poll_with_id(old(self).polls@, poll.id->0) ==> r == Err::<
                Poll,
                Error,
            >(Error::NotFound) && final(self).polls@ == old(self).polls@,
    {
        let id = match poll.id {
            Some(id) => id,
            None => {
                return Err(Error::NotPersisted);
            },
        };
        let n = self.polls.len();
        let mut i: usize = 0;
        while i < n
            invariant
                *self == *old(self),
                old(self).wf(),
                n == self.polls@.len(),
                0 <= i <= n,
                poll.id == Some(id),
                valid_ts(poll.publication_date),
                !poll.published ==> poll.tg_id is None && poll.tg_message_id is None,
                forall|j: int| 0 <= j < i ==> (#[trigger] self.polls@[j]).id != Some(id),
            decreases n - i,
        {
            if let Some(row_id) = self.polls[i].id {
                if row_id == id {
                    let updated = Poll {
                        id: poll.id,
                        tg_id: match &poll.tg_id {
                            Some(t) => Some(t.clone()),
                            None => None,
                        },
                        tg_message_id: poll.tg_message_id,
                        chat_tg_id: poll.chat_tg_id,
                        kind: poll.kind,
                        publication_date: poll.publication_date,
                        published: poll.published,
                        overdue: self.polls[i].overdue,
                    };
                    let result = updated.clone();
                    self.polls.set(i, updated);
                    proof {
                        assert(has_poll_with_id(old(self).polls@, id)) by {
                            assert(old(self).polls@[i as int].id == Some(id));
                        }
                        let k = poll_index(old(self).polls@, id);
                        assert(0 <= k < old(self).polls@.len() && old(self).polls@[k].id == Some(
                            id,
                        ));
                        assert(k == i as int);
                    }
                    return Ok(result);
                }
            }
            i += 1;
        }
        proof {
            assert(!has_poll_with_id(self.polls@, id));
        }
        Err(Error::NotFound)
    }

    /// Raise the overdue flag of the row carrying the poll's storage id.
    ///
    /// Returns whether a row was affected; a vanished row is no error.
    pub fn set_overdue(&mut self, poll: &Poll) -> (r: bool)
        requires
            old(self).wf(),
        ensures
            final(self).wf(),
            final(self).users@ == old(self).users@,
            final(self).answers@ == old(self).answers@,
            final(self).custom_options@ == old(self).custom_options@,
            final(self).settings@ == old(self).settings@,
            final(self).next_poll_id == old(self).next_poll_id,
            poll.id is Some && has_poll_with_id(old(self).polls@, poll.id->0) ==> {
                let k = poll_index(old(self).polls@, poll.id->0);
                r && final(self).polls@ == old(self).polls@.update(
                    k,
                    spec_with_overdue(old(self).polls@[k]),
                )
            },
            (poll.id is None || !has_poll_with_id(old(self).polls@, poll.id->0))
                ==> !r && final(self).polls@ == old(self).polls@,
    {
        let id = match poll.id {
            Some(id) => id,
            None => {
                return false;
            },
        };
        let n = self.polls.len();
        let mut i: usize = 0;
        while i < n
            invariant
                *self == *old(self),
                old(self).wf(),
                n == self.polls@.len(),
                0 <= i <= n,
                poll.id == Some(id),
                forall|j: int| 0 <= j < i ==> (#[trigger] self.polls@[j]).id != Some(id),
            decreases n - i,
        {
            if let Some(row_id) = self.polls[i].id {
                if row_id == id {
                    let row = &self.polls[i];
                    let updated = Poll {
                        id: row.id,
                        tg_id: match &row.tg_id {
                            Some(t) => Some(t.clone()),
                            None => None,
                        },
                        tg_message_id: row.tg_message_id,
                        chat_tg_id: row.chat_tg_id,
                        kind: row.kind,
                        publication_date: row.publication_date,
                        published: row.published,
                        overdue: true,
                    };
                    self.polls.set(i, updated);
                    proof {
                        assert(has_poll_with_id(old(self).polls@, id)) by {
                            assert(old(self).polls@[i as int].id == Some(id));
                        }
                        let k = poll_index(old(self).polls@, id);
                        assert(0 <= k < old(self).polls@.len() && old(self).polls@[k].id == Some(
                            id,
                        ));
                        assert(k == i as int);
                        assert(updated == spec_with_overdue(old(self).polls@[i as int]));
                    }
                    return true;
                }
            }
            i += 1;
        }
        proof {
            assert(!has_poll_with_id(self.polls@, id));
        }
        false
    }

    /// The first stored poll carrying this external poll id.
    ///
    /// Fails with `NotFound` when no stored poll carries it.
    pub fn get_by_tg_id(&self, tg_id: &str) -> (r: Result<Poll, Error>)
        ensures
            r matches Ok(p) ==> exists|i: int|
                0 <= i < self.polls@.len() && self.polls@[i] == p && poll_has_tg(p, tg_id@) && (
                forall|j: int| 0 <= j < i ==> !poll_has_tg(#[trigger] self.polls@[j], tg_id@)),
            r matches Err(e) ==> e == Error::NotFound && !has_poll_with_tg(self.polls@, tg_id@),
    {
        let n = self.polls.len();
        let mut i: usize = 0;
        while i < n
            invariant
                n == self.polls@.len(),
                0 <= i <= n,
                forall|j: int| 0 <= j < i ==> !poll_has_tg(#[trigger] self.polls@[j], tg_id@),
            decreases n - i,
        {
            let p = &self.polls[i];
            let matches_id = match &p.tg_id {
                Some(t) => crate::text::str_eq(t.as_str(), tg_id),
                None => false,
            };
            if matches_id {
                proof {
                    assert(poll_has_tg(self.polls@[i as int], tg_id@));
                }
                return Ok(p.clone());
            }
            i += 1;
        }
        Err(Error::NotFound)
    }
}

} // verus!
