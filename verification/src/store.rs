//! The in-memory poll store: one transactional state holding users, polls,
//! answers, custom option sets and schedule overrides.
//!
//! Every repository operation of the scheduling core works on this state and
//! states its effect exactly; the well-formedness invariant `wf` is
//! established by the constructor and preserved by every operation.
use vstd::prelude::*;

use crate::poll::{Poll, PollAnswer, PollCustomOptionRow, PollSettings, User};
use crate::times::valid_ts;

verus! {

/// The whole persisted state.
pub struct Storage {
    pub users: Vec<User>,
    pub polls: Vec<Poll>,
    pub answers: Vec<PollAnswer>,
    pub custom_options: Vec<PollCustomOptionRow>,
    pub settings: Vec<PollSettings>,
    /// The next storage-assigned poll id.
    pub next_poll_id: i64,
}

/// Some user row carries this chat id.
pub open spec fn user_with_id(users: Seq<User>, tg_id: i64) -> bool {
    exists|i: int| 0 <= i < users.len() && users[i].tg_id == tg_id
}

/// The index of the user row carrying this chat id (unique under `wf`).
pub open spec fn user_index(users: Seq<User>, tg_id: i64) -> int {
    choose|i: int| 0 <= i < users.len() && users[i].tg_id == tg_id
}

/// Some user row carries this chat id and is active.
pub open spec fn user_is_active(users: Seq<User>, tg_id: i64) -> bool {
    exists|i: int| 0 <= i < users.len() && users[i].tg_id == tg_id && users[i].active
}

/// Some poll row carries this storage id.
pub open spec fn has_poll_with_id(polls: Seq<Poll>, id: i64) -> bool {
    exists|i: int| 0 <= i < polls.len() && polls[i].id == Some(id)
}

/// The index of the poll row carrying this storage id (unique under `wf`).
pub open spec fn poll_index(polls: Seq<Poll>, id: i64) -> int {
    choose|i: int| 0 <= i < polls.len() && polls[i].id == Some(id)
}

/// Some answer row references this external poll id.
pub open spec fn has_answer(answers: Seq<PollAnswer>, tg_id: Seq<char>) -> bool {
    exists|i: int| 0 <= i < answers.len() && answers[i].poll_tg_id@ == tg_id
}

/// A settings row for this user and kind exists.
pub open spec fn has_settings(settings: Seq<PollSettings>, user_tg_id: i64, kind: crate::poll_kind::PollKind) -> bool {
    exists|i: int|
        0 <= i < settings.len() && settings[i].user_tg_id == user_tg_id
            && settings[i].poll_kind == kind
}

/// The index of the settings row for this user and kind (unique under `wf`).
pub open spec fn settings_index(settings: Seq<PollSettings>, user_tg_id: i64, kind: crate::poll_kind::PollKind) -> int {
    choose|i: int|
        0 <= i < settings.len() && settings[i].user_tg_id == user_tg_id
            && settings[i].poll_kind == kind
}

impl Storage {
    /// Well-formedness: stored polls carry distinct valid ids below the id
    /// counter, chat ids and override rows are unique, and every row is
    /// internally consistent.
    pub open spec fn wf(self) -> bool {
        &&& 0 <= self.next_poll_id
        &&& forall|i: int|
            0 <= i < self.polls@.len() ==> (#[trigger] self.polls@[i]).wf_row()
                && self.polls@[i].row_id() < self.next_poll_id
        &&& forall|i: int, j: int|
            0 <= i < self.polls@.len() && 0 <= j < self.polls@.len() && i != j
                ==> (#[trigger] self.polls@[i]).row_id() != (#[trigger] self.polls@[j]).row_id()
        &&& forall|i: int, j: int|
            0 <= i < self.users@.len() && 0 <= j < self.users@.len() && i != j
                ==> (#[trigger] self.users@[i]).tg_id != (#[trigger] self.users@[j]).tg_id
        &&& forall|i: int| 0 <= i < self.settings@.len() ==> (#[trigger] self.settings@[i]).wf_row()
        &&& forall|i: int, j: int|
            0 <= i < self.settings@.len() && 0 <= j < self.settings@.len() && i != j ==> !(
            (#[trigger] self.settings@[i]).user_tg_id == (#[trigger] self.settings@[j]).user_tg_id
                && self.settings@[i].poll_kind == self.settings@[j].poll_kind)
    }

    /// An empty store.
    pub fn new() -> (s: Storage)
        ensures
            s.wf(),
            s.users@ == Seq::<User>::empty(),
            s.polls@ == Seq::<Poll>::empty(),
            s.answers@ == Seq::<PollAnswer>::empty(),
            s.custom_options@ == Seq::<PollCustomOptionRow>::empty(),
            s.settings@ == Seq::<PollSettings>::empty(),
            s.next_poll_id == 0,
    {
        Storage {
            users: Vec::new(),
            polls: Vec::new(),
            answers: Vec::new(),
            custom_options: Vec::new(),
            settings: Vec::new(),
            next_poll_id: 0,
        }
    }
}

/// Filtering a sequence extended by one element keeps the element exactly
/// when the predicate holds of it.
pub proof fn lemma_filter_push<A>(s: Seq<A>, x: A, pred: spec_fn(A) -> bool)
    ensures
        s.push(x).filter(pred) == if pred(x) {
            s.filter(pred).push(x)
        } else {
            s.filter(pred)
        },
{
    reveal(Seq::filter);
    assert(s.push(x).drop_last() =~= s);
    assert(s.push(x).last() == x);
}

/// Filtering with a predicate false of every element leaves nothing.
pub proof fn lemma_filter_all_false<A>(s: Seq<A>, pred: spec_fn(A) -> bool)
    requires
        forall|i: int| 0 <= i < s.len() ==> !pred(#[trigger] s[i]),
    ensures
        s.filter(pred) == Seq::<A>::empty(),
    decreases s.len(),
{
    reveal(Seq::filter);
    if s.len() > 0 {
        assert(forall|i: int| 0 <= i < s.len() - 1 ==> #[trigger] s.drop_last()[i] == s[i]);
        lemma_filter_all_false(s.drop_last(), pred);
        assert(!pred(s.last())) by {
            assert(s.last() == s[s.len() - 1]);
        }
    }
}

impl Storage {
    /// The user with this chat id, when one exists and is active.
    pub fn get_user_by_id(&self, user_tg_id: i64) -> (r: Option<User>)
        requires
            self.wf(),
        ensures
            r matches Some(u) ==> u == (User { tg_id: user_tg_id, active: true })
                && user_is_active(self.users@, user_tg_id),
            r is None ==> !user_is_active(self.users@, user_tg_id),
    {
        let n = self.users.len();
        let mut i: usize = 0;
        while i < n
            invariant
                n == self.users@.len(),
                0 <= i <= n,
                forall|j: int|
                    0 <= j < i ==> !((#[trigger] self.users@[j]).tg_id == user_tg_id
                        && self.users@[j].active),
            decreases n - i,
        {
            let u = self.users[i];
            if u.tg_id == user_tg_id && u.active {
                return Some(u);
            }
            i += 1;
        }
        None
    }

    /// Every active user.
    pub fn get_active(&self) -> (r: Vec<User>)
        ensures
            r@ == self.users@.filter(|u: User| u.active),
    {
        let n = self.users.len();
        let mut r: Vec<User> = Vec::new();
        let mut i: usize = 0;
        proof {
            assert(self.users@.subrange(0, 0) =~= Seq::<User>::empty());
            reveal(Seq::filter);
        }
        while i < n
            invariant
                n == self.users@.len(),
                0 <= i <= n,
                r@ == self.users@.subrange(0, i as int).filter(|u: User| u.active),
            decreases n - i,
        {
            let u = self.users[i];
            proof {
                assert(self.users@.subrange(0, i + 1).drop_last() =~= self.users@.subrange(
                    0,
                    i as int,
                ));
                lemma_filter_push(
                    self.users@.subrange(0, i as int),
                    self.users@[i as int],
                    |u: User| u.active,
                );
                assert(self.users@.subrange(0, i + 1) =~= self.users@.subrange(0, i as int).push(
                    self.users@[i as int],
                ));
            }
            if u.active {
                r.push(u);
            }
            i += 1;
        }
        proof {
            assert(self.users@.subrange(0, n as int) =~= self.users@);
        }
        r
    }

    /// Create the user, or mark an existing row active again.
    pub fn activate(&mut self, user_tg_id: i64) -> (u: User)
        requires
            old(self).wf(),
        ensures
            final(self).wf(),
            u == (User { tg_id: user_tg_id, active: true }),
            final(self).users@ == if user_with_id(old(self).users@, user_tg_id) {
                old(self).users@.update(
                    user_index(old(self).users@, user_tg_id),
                    User { tg_id: user_tg_id, active: true },
                )
            } else {
                old(self).users@.push(User { tg_id: user_tg_id, active: true })
            },
            user_is_active(final(self).users@, user_tg_id),
            final(self).polls@ == old(self).polls@,
            final(self).answers@ == old(self).answers@,
            final(self).custom_options@ == old(self).custom_options@,
            final(self).settings@ == old(self).settings@,
            final(self).next_poll_id == old(self).next_poll_id,
    {
        let fresh = User { tg_id: user_tg_id, active: true };
        let n = self.users.len();
        let mut i: usize = 0;
        while i < n
            invariant
                *self == *old(self),
                old(self).wf(),
                fresh == (User { tg_id: user_tg_id, active: true }),
                n == self.users@.len(),
                0 <= i <= n,
                forall|j: int| 0 <= j < i ==> (#[trigger] self.users@[j]).tg_id != user_tg_id,
            decreases n - i,
        {
            if self.users[i].tg_id == user_tg_id {
                self.users.set(i, fresh);
                proof {
                    assert(user_with_id(old(self).users@, user_tg_id)) by {
                        assert(old(self).users@[i as int].tg_id == user_tg_id);
                    }
                    let k = user_index(old(self).users@, user_tg_id);
                    assert(0 <= k < old(self).users@.len() && old(self).users@[k].tg_id
                        == user_tg_id);
                    assert(k == i as int);
                    assert(self.users@ == old(self).users@.update(i as int, fresh));
                    assert(self.users@[i as int] == fresh);
                    assert(self.users@[i as int].tg_id == user_tg_id && self.users@[
                        i as int
                    ].active);
                    assert(user_is_active(self.users@, user_tg_id));
                }
                return fresh;
            }
            i += 1;
        }
        self.users.push(fresh);
        proof {
            assert(!user_with_id(old(self).users@, user_tg_id));
            assert(user_is_active(self.users@, user_tg_id)) by {
                let m = self.users@.len() - 1;
                assert(0 <= m < self.users@.len() && self.users@[m].tg_id == user_tg_id
                    && self.users@[m].active);
            }
        }
        fresh
    }
}

} // verus!
