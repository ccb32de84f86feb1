//! The due and overdue queries of the scheduling engine.
use vstd::prelude::*;
use vstd::multiset::Multiset;
use vstd::relations::sorted_by;

use crate::poll::Poll;
use crate::poll_kind::PollKind;
use crate::poll_store::{
    is_overdue_candidate, is_pending, is_scheduled_for, lemma_filter_preserves_rows,
};
use crate::store::{lemma_filter_push, user_is_active, Storage};
use crate::times::valid_ts;

verus! {

/// The fixed rank of each kind, for the deterministic delivery order.
pub open spec fn kind_rank(kind: PollKind) -> int {
    match kind {
        PollKind::HowWasYourDay => 0,
        PollKind::FoodAllergy => 1,
        PollKind::DailyEvents => 2,
    }
}

/// The deterministic delivery order of due polls: by chat, then by kind.
pub open spec fn pending_le(a: Poll, b: Poll) -> bool {
    a.chat_tg_id < b.chat_tg_id || (a.chat_tg_id == b.chat_tg_id && kind_rank(a.kind) <= kind_rank(
        b.kind,
    ))
}

/// The exec comparison matching `pending_le`.
fn pending_le_exec(a: &Poll, b: &Poll) -> (r: bool)
    ensures
        r == pending_le(*a, *b),
{
    let ra: u8 = match a.kind {
        PollKind::HowWasYourDay => 0,
        PollKind::FoodAllergy => 1,
        PollKind::DailyEvents => 2,
    };
    let rb: u8 = match b.kind {
        PollKind::HowWasYourDay => 0,
        PollKind::FoodAllergy => 1,
        PollKind::DailyEvents => 2,
    };
    a.chat_tg_id < b.chat_tg_id || (a.chat_tg_id == b.chat_tg_id && ra <= rb)
}

/// Sort polls into the deterministic delivery order, keeping exactly the
/// same rows.
fn sort_pending(input: Vec<Poll>) -> (out: Vec<Poll>)
    ensures
        out@.to_multiset() == input@.to_multiset(),
        sorted_by(out@, |a: Poll, b: Poll| pending_le(a, b)),
{
    broadcast use vstd::seq_lib::group_to_multiset_ensures;
    broadcast use vstd::multiset::group_multiset_axioms;

    let mut rest = input;
    let mut out: Vec<Poll> = Vec::new();
    proof {
        assert(out@.to_multiset().add(rest@.to_multiset()) =~= input@.to_multiset());
    }
    while rest.len() > 0
        invariant
            out@.to_multiset().add(rest@.to_multiset()) == input@.to_multiset(),
            sorted_by(out@, |a: Poll, b: Poll| pending_le(a, b)),
            forall|k: int, l: int|
                0 <= k < out@.len() && 0 <= l < rest@.len() ==> pending_le(
                    #[trigger] out@[k],
                    #[trigger] rest@[l],
                ),
        decreases rest@.len(),
    {
        let mut m: usize = 0;
        let mut t: usize = 1;
        while t < rest.len()
            invariant
                rest@.len() > 0,
                0 <= m < rest@.len(),
                1 <= t <= rest@.len(),
                forall|k: int| 0 <= k < t ==> pending_le(rest@[m as int], #[trigger] rest@[k]),
            decreases rest@.len() - t,
        {
            if !pending_le_exec(&rest[m], &rest[t]) {
                proof {
                    assert(pending_le(rest@[t as int], rest@[m as int]));
                    assert(forall|k: int|
                        0 <= k < t ==> pending_le(rest@[t as int], #[trigger] rest@[k]));
                }
                m = t;
            }
            t += 1;
        }
        let ghost rest0 = rest@;
        let ghost out0 = out@;
        let x = rest.remove(m);
        out.push(x);
        proof {
            broadcast use vstd::seq_lib::group_to_multiset_ensures;
            broadcast use vstd::multiset::group_multiset_axioms;

            assert(x == rest0[m as int]);
            assert(rest@ == rest0.remove(m as int));
            assert(rest0.contains(x)) by {
                assert(rest0[m as int] == x);
            }
            assert(rest0.to_multiset().count(x) > 0);
            assert(out@.to_multiset() =~= out0.to_multiset().insert(x));
            assert(rest@.to_multiset() == rest0.remove(m as int).to_multiset());
            assert(rest0.remove(m as int).to_multiset() =~= rest0.to_multiset().remove(
                rest0[m as int],
            ));
            assert forall|y: Poll|
                out@.to_multiset().add(rest@.to_multiset()).count(y) == out0.to_multiset().add(
                    rest0.to_multiset(),
                ).count(y) by {
                assert(out@.to_multiset().count(y) == out0.to_multiset().insert(x).count(y));
                assert(rest@.to_multiset().count(y) == rest0.to_multiset().remove(x).count(y));
            }
            assert(out@.to_multiset().add(rest@.to_multiset()) =~= out0.to_multiset().add(
                rest0.to_multiset(),
            ));
            // the removed minimum follows everything already placed
            assert(forall|k: int| 0 <= k < out0.len() ==> pending_le(#[trigger] out0[k], x));
            assert(sorted_by(out@, |a: Poll, b: Poll| pending_le(a, b))) by {
                assert(forall|k: int| 0 <= k < out0.len() ==> #[trigger] out@[k] == out0[k]);
                assert(out@[out@.len() - 1] == x);
            }
            // and it precedes everything still unplaced
            assert(forall|l: int| 0 <= l < rest@.len() ==> pending_le(x, #[trigger] rest@[l])) by {
                assert(forall|l: int| 0 <= l < m ==> #[trigger] rest@[l] == rest0[l]);
                assert(forall|l: int|
                    m <= l < rest@.len() ==> #[trigger] rest@[l] == rest0[l + 1]);
            }
            assert(forall|k: int, l: int|
                0 <= k < out@.len() && 0 <= l < rest@.len() ==> pending_le(
                    #[trigger] out@[k],
                    #[trigger] rest@[l],
                )) by {
                assert(forall|k: int| 0 <= k < out0.len() ==> #[trigger] out@[k] == out0[k]);
                assert(out@[out@.len() - 1] == x);
                assert(forall|l: int| 0 <= l < m ==> #[trigger] rest@[l] == rest0[l]);
                assert(forall|l: int|
                    m <= l < rest@.len() ==> #[trigger] rest@[l] == rest0[l + 1]);
            }
        }
    }
    proof {
        assert(rest@.to_multiset() =~= Multiset::<Poll>::empty()) by {
            assert(rest@ =~= Seq::<Poll>::empty());
        }
        assert(out@.to_multiset() =~= input@.to_multiset());
    }
    out
}

impl Storage {
    /// Is some user row with this chat id active?
    pub fn is_user_active(&self, tg_id: i64) -> (r: bool)
        ensures
            r == user_is_active(self.users@, tg_id),
    {
        let n = self.users.len();
        let mut i: usize = 0;
        while i < n
            invariant
                n == self.users@.len(),
                0 <= i <= n,
                forall|j: int|
                    0 <= j < i ==> !((#[trigger] self.users@[j]).tg_id == tg_id
                        && self.users@[j].active),
            decreases n - i,
        {
            let u = self.users[i];
            if u.tg_id == tg_id && u.active {
                proof {
                    assert(self.users@[i as int].tg_id == tg_id && self.users@[i as int].active);
                }
                return true;
            }
            i += 1;
        }
        false
    }
}

impl Storage {
    /// Every due poll, in the deterministic delivery order: unpublished,
    /// dated strictly before `now`, and owned by an active user.
    pub fn get_pending(&self, now: i64) -> (r: Vec<Poll>)
        requires
            self.wf(),
        ensures
            r@.to_multiset() == self.polls@.filter(
                |p: Poll| is_pending(p, self.users@, now),
            ).to_multiset(),
            sorted_by(r@, |a: Poll, b: Poll| pending_le(a, b)),
            forall|i: int|
                0 <= i < r@.len() ==> is_pending(#[trigger] r@[i], self.users@, now)
                    && self.polls@.contains(r@[i]),
            forall|j: int|
                0 <= j < self.polls@.len() && is_pending(#[trigger] self.polls@[j], self.users@, now)
                    ==> r@.contains(self.polls@[j]),
    {
        broadcast use vstd::seq_lib::group_to_multiset_ensures;

        let n = self.polls.len();
        let mut found: Vec<Poll> = Vec::new();
        let mut i: usize = 0;
        proof {
            assert(self.polls@.subrange(0, 0) =~= Seq::<Poll>::empty());
            reveal(Seq::filter);
        }
        while i < n
            invariant
                n == self.polls@.len(),
                0 <= i <= n,
                found@ == self.polls@.subrange(0, i as int).filter(
                    |p: Poll| is_pending(p, self.users@, now),
                ),
            decreases n - i,
        {
            let p = &self.polls[i];
            proof {
                lemma_filter_push(
                    self.polls@.subrange(0, i as int),
                    self.polls@[i as int],
                    |p: Poll| is_pending(p, self.users@, now),
                );
                assert(self.polls@.subrange(0, i + 1) =~= self.polls@.subrange(0, i as int).push(
                    self.polls@[i as int],
                ));
            }
            if !p.published && p.publication_date < now && self.is_user_active(p.chat_tg_id) {
                found.push(p.clone());
            }
            i += 1;
        }
        proof {
            assert(self.polls@.subrange(0, n as int) =~= self.polls@);
        }
        let r = sort_pending(found);
        proof {
            let pred = |p: Poll| is_pending(p, self.users@, now);
            let f = self.polls@.filter(pred);
            lemma_filter_preserves_rows(self.polls@, pred);
            assert forall|i: int|
                0 <= i < r@.len() implies is_pending(#[trigger] r@[i], self.users@, now)
                && self.polls@.contains(r@[i]) by {
                assert(r@.contains(r@[i]));
                assert(r@.to_multiset().count(r@[i]) > 0);
                assert(f.contains(r@[i]));
                let k = choose|k: int| 0 <= k < f.len() && f[k] == r@[i];
                self.polls@.lemma_filter_pred(pred, k);
            }
            assert forall|j: int|
                0 <= j < self.polls@.len() && is_pending(
                    #[trigger] self.polls@[j],
                    self.users@,
                    now,
                ) implies r@.contains(self.polls@[j]) by {
                self.polls@.lemma_filter_contains(pred, j);
                assert(f.to_multiset().count(self.polls@[j]) > 0);
                assert(r@.to_multiset().count(self.polls@[j]) > 0);
            }
        }
        r
    }

    /// The future, unpublished polls of this active user and kind, in
    /// storage order.
    pub fn get_scheduled_for_user(&self, user_tg_id: i64, kind: PollKind, now: i64) -> (r: Vec<
        Poll,
    >)
        ensures
            r@ == self.polls@.filter(
                |p: Poll| is_scheduled_for(p, self.users@, user_tg_id, kind, now),
            ),
    {
        let active = self.is_user_active(user_tg_id);
        let n = self.polls.len();
        let mut found: Vec<Poll> = Vec::new();
        let mut i: usize = 0;
        proof {
            assert(self.polls@.subrange(0, 0) =~= Seq::<Poll>::empty());
            reveal(Seq::filter);
        }
        while i < n
            invariant
                n == self.polls@.len(),
                0 <= i <= n,
                active == user_is_active(self.users@, user_tg_id),
                found@ == self.polls@.subrange(0, i as int).filter(
                    |p: Poll| is_scheduled_for(p, self.users@, user_tg_id, kind, now),
                ),
            decreases n - i,
        {
            let p = &self.polls[i];
            proof {
                lemma_filter_push(
                    self.polls@.subrange(0, i as int),
                    self.polls@[i as int],
                    |p: Poll| is_scheduled_for(p, self.users@, user_tg_id, kind, now),
                );
                assert(self.polls@.subrange(0, i + 1) =~= self.polls@.subrange(0, i as int).push(
                    self.polls@[i as int],
                ));
            }
            if !p.published && p.publication_date > now && active && p.chat_tg_id == user_tg_id
                && p.kind == kind {
                found.push(p.clone());
            }
            i += 1;
        }
        proof {
            assert(self.polls@.subrange(0, n as int) =~= self.polls@);
        }
        found
    }

    /// Every poll of this kind eligible for the overdue sweep at `now`:
    /// published, not yet marked overdue, past the kind's interval, and
    /// without any stored answer.
    pub fn get_overdue(&self, kind: PollKind, now: i64) -> (r: Vec<Poll>)
        requires
            valid_ts(now),
        ensures
            r@ == self.polls@.filter(
                |p: Poll| is_overdue_candidate(p, self.answers@, kind, now),
            ),
    {
        let threshold = now - kind.overdue_interval();
        let n = self.polls.len();
        let mut found: Vec<Poll> = Vec::new();
        let mut i: usize = 0;
        proof {
            assert(self.polls@.subrange(0, 0) =~= Seq::<Poll>::empty());
            reveal(Seq::filter);
        }
        while i < n
            invariant
                n == self.polls@.len(),
                0 <= i <= n,
                threshold == now - kind.spec_overdue_interval(),
                found@ == self.polls@.subrange(0, i as int).filter(
                    |p: Poll| is_overdue_candidate(p, self.answers@, kind, now),
                ),
            decreases n - i,
        {
            let p = &self.polls[i];
            proof {
                lemma_filter_push(
                    self.polls@.subrange(0, i as int),
                    self.polls@[i as int],
                    |p: Poll| is_overdue_candidate(p, self.answers@, kind, now),
                );
                assert(self.polls@.subrange(0, i + 1) =~= self.polls@.subrange(0, i as int).push(
                    self.polls@[i as int],
                ));
            }
            if !p.overdue && p.published && p.kind == kind && p.publication_date < threshold {
                let answered = match &p.tg_id {
                    Some(t) => self.has_answer_for(t.as_str()),
                    None => false,
                };
                if !answered {
                    found.push(p.clone());
                }
            }
            i += 1;
        }
        proof {
            assert(self.polls@.subrange(0, n as int) =~= self.polls@);
        }
        found
    }
}

} // verus!
