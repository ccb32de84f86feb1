//! Answer ingestion: persisting the selected options of a channel poll
//! event and looking the answered poll up again.
use vstd::prelude::*;

use crate::poll::{Poll, PollAnswer};
use crate::poll_kind::PollKind;
use crate::poll_store::{has_poll_with_tg, poll_has_tg};
use crate::store::{has_answer, Storage};
use crate::text::str_eq;
use crate::Error;

verus! {

/// One option of a channel poll, with its voter count.
#[derive(Debug)]
pub struct ChannelPollOption {
    pub text: String,
    pub voter_count: i32,
}

/// A channel "poll answered" event: the external poll id and, per option,
/// how many voters picked it.
#[derive(Debug)]
pub struct ChannelPoll {
    pub id: String,
    pub options: Vec<ChannelPollOption>,
}

/// The answer rows an event produces: one per option with a positive voter
/// count, carrying the option's ordinal and its text snapshot.
pub open spec fn spec_answer_rows(poll_tg_id: String, opts: Seq<ChannelPollOption>) -> Seq<PollAnswer>
    decreases opts.len(),
{
    if opts.len() == 0 {
        Seq::<PollAnswer>::empty()
    } else {
        spec_answer_rows(poll_tg_id, opts.drop_last()) + if opts.last().voter_count > 0 {
            seq![
                PollAnswer {
                    poll_tg_id,
                    selected_value: (opts.len() - 1) as i32,
                    selected_value_text: opts.last().text,
                },
            ]
        } else {
            Seq::<PollAnswer>::empty()
        }
    }
}

/// `p` matches this chat and kind and has at least one stored answer.
pub open spec fn is_answered_match(p: Poll, answers: Seq<PollAnswer>, chat_tg_id: i64, kind: PollKind) -> bool {
    &&& p.chat_tg_id == chat_tg_id
    &&& p.kind == kind
    &&& p.tg_id is Some
    &&& has_answer(answers, p.tg_id->0@)
}

/// An earlier row already carries the same external id and matches.
pub open spec fn has_earlier_match(polls: Seq<Poll>, answers: Seq<PollAnswer>, p: Poll, chat_tg_id: i64, kind: PollKind) -> bool {
    exists|j: int|
        0 <= j < polls.len() && is_answered_match(#[trigger] polls[j], answers, chat_tg_id, kind)
            && polls[j].tg_id->0@ == p.tg_id->0@
}

/// How many distinct external poll ids of this chat and kind have at least
/// one stored answer.
pub open spec fn spec_count_answered(polls: Seq<Poll>, answers: Seq<PollAnswer>, chat_tg_id: i64, kind: PollKind) -> int
    decreases polls.len(),
{
    if polls.len() == 0 {
        0
    } else {
        let rest = polls.drop_last();
        let p = polls.last();
        spec_count_answered(rest, answers, chat_tg_id, kind) + if is_answered_match(
            p,
            answers,
            chat_tg_id,
            kind,
        ) && !has_earlier_match(rest, answers, p, chat_tg_id, kind) {
            1int
        } else {
            0int
        }
    }
}

impl Storage {
    /// Is some answer row stored for this external poll id?
    pub fn has_answer_for(&self, tg_id: &str) -> (r: bool)
        ensures
            r == has_answer(self.answers@, tg_id@),
    {
        let n = self.answers.len();
        let mut i: usize = 0;
        while i < n
            invariant
                n == self.answers@.len(),
                0 <= i <= n,
                forall|j: int| 0 <= j < i ==> (#[trigger] self.answers@[j]).poll_tg_id@ != tg_id@,
            decreases n - i,
        {
            if str_eq(self.answers[i].poll_tg_id.as_str(), tg_id) {
                proof {
                    assert(self.answers@[i as int].poll_tg_id@ == tg_id@);
                }
                return true;
            }
            i += 1;
        }
        false
    }

    /// Persist one answer row per option with a positive voter count, and
    /// return the answered poll, found by its external id.
    ///
    /// An event whose external id matches no stored poll fails with
    /// `NotFound` and changes nothing.
    pub fn save_answer(&mut self, event: &ChannelPoll) -> (r: Result<Poll, Error>)
        requires
            old(self).wf(),
            event.options@.len() <= i32::MAX,
        ensures
            final(self).wf(),
            final(self).users@ == old(self).users@,
            final(self).polls@ == old(self).polls@,
            final(self).custom_options@ == old(self).custom_options@,
            final(self).settings@ == old(self).settings@,
            final(self).next_poll_id == old(self).next_poll_id,
            r matches Ok(p) ==> {
                &&& final(self).answers@ == old(self).answers@ + spec_answer_rows(
                    event.id,
                    event.options@,
                )
                &&& exists|i: int|
                    0 <= i < old(self).polls@.len() && old(self).polls@[i] == p && poll_has_tg(
                        p,
                        event.id@,
                    ) && (forall|j: int|
                        0 <= j < i ==> !poll_has_tg(#[trigger] old(self).polls@[j], event.id@))
            },
            r matches Err(e) ==> {
                &&& e == Error::NotFound
                &&& !has_poll_with_tg(old(self).polls@, event.id@)
                &&& final(self).answers@ == old(self).answers@
            },
    {
        let poll = match self.get_by_tg_id(event.id.as_str()) {
            Ok(p) => p,
            Err(e) => {
                return Err(e);
            },
        };
        let n = event.options.len();
        let mut i: usize = 0;
        proof {
            assert(event.options@.subrange(0, 0) =~= Seq::<ChannelPollOption>::empty());
            assert(self.answers@ =~= old(self).answers@ + spec_answer_rows(
                event.id,
                event.options@.subrange(0, 0),
            ));
        }
        while i < n
            invariant
                old(self).wf(),
                self.users@ == old(self).users@,
                self.polls@ == old(self).polls@,
                self.custom_options@ == old(self).custom_options@,
                self.settings@ == old(self).settings@,
                self.next_poll_id == old(self).next_poll_id,
                n == event.options@.len(),
                n <= i32::MAX,
                0 <= i <= n,
                self.answers@ == old(self).answers@ + spec_answer_rows(
                    event.id,
                    event.options@.subrange(0, i as int),
                ),
            decreases n - i,
        {
            let opt = &event.options[i];
            proof {
                assert(event.options@.subrange(0, i + 1).drop_last() =~= event.options@.subrange(
                    0,
                    i as int,
                ));
                assert(event.options@.subrange(0, i + 1).last() == event.options@[i as int]);
            }
            if opt.voter_count > 0 {
                let row = PollAnswer {
                    poll_tg_id: event.id.clone(),
                    selected_value: i as i32,
                    selected_value_text: opt.text.clone(),
                };
                self.answers.push(row);
                proof {
                    assert(self.answers@ =~= old(self).answers@ + spec_answer_rows(
                        event.id,
                        event.options@.subrange(0, i + 1),
                    ));
                }
            } else {
                proof {
                    assert(self.answers@ =~= old(self).answers@ + spec_answer_rows(
                        event.id,
                        event.options@.subrange(0, i + 1),
                    ));
                }
            }
            i += 1;
        }
        proof {
            assert(event.options@.subrange(0, n as int) =~= event.options@);
        }
        Ok(poll)
    }

    /// How many distinct polls of this chat and kind have been answered.
    pub fn count_answered_polls(&self, user_tg_id: i64, kind: PollKind) -> (r: i64)
        requires
            self.polls@.len() < i64::MAX,
        ensures
            r == spec_count_answered(self.polls@, self.answers@, user_tg_id, kind),
            r >= 0,
    {
        let n = self.polls.len();
        let mut count: i64 = 0;
        let mut i: usize = 0;
        proof {
            assert(self.polls@.subrange(0, 0) =~= Seq::<Poll>::empty());
        }
        while i < n
            invariant
                n == self.polls@.len(),
                n < i64::MAX,
                0 <= i <= n,
                0 <= count <= i,
                count == spec_count_answered(
                    self.polls@.subrange(0, i as int),
                    self.answers@,
                    user_tg_id,
                    kind,
                ),
            decreases n - i,
        {
            let p = &self.polls[i];
            proof {
                assert(self.polls@.subrange(0, i + 1).drop_last() =~= self.polls@.subrange(
                    0,
                    i as int,
                ));
                assert(self.polls@.subrange(0, i + 1).last() == self.polls@[i as int]);
            }
            let mut counted = false;
            if p.chat_tg_id == user_tg_id && p.kind == kind {
                let answered = match &p.tg_id {
                    Some(t) => self.has_answer_for(t.as_str()),
                    None => false,
                };
                if answered {
                    // only the first matching row per external id is counted
                    let mut dup = false;
                    let mut j: usize = 0;
                    while j < i
                        invariant
                            n == self.polls@.len(),
                            0 <= j <= i < n,
                            *p == self.polls@[i as int],
                            is_answered_match(
                                self.polls@[i as int],
                                self.answers@,
                                user_tg_id,
                                kind,
                            ),
                            dup == exists|k: int|
                                0 <= k < j && is_answered_match(
                                    #[trigger] self.polls@[k],
                                    self.answers@,
                                    user_tg_id,
                                    kind,
                                ) && self.polls@[k].tg_id->0@ == self.polls@[i as int].tg_id->0@,
                        decreases i - j,
                    {
                        if !dup {
                            let q = &self.polls[j];
                            if q.chat_tg_id == user_tg_id && q.kind == kind {
                                let q_match = match &q.tg_id {
                                    Some(t) => {
                                        let same = match &p.tg_id {
                                            Some(s) => str_eq(t.as_str(), s.as_str()),
                                            None => false,
                                        };
                                        same && self.has_answer_for(t.as_str())
                                    },
                                    None => false,
                                };
                                if q_match {
                                    proof {
                                        assert(is_answered_match(
                                            self.polls@[j as int],
                                            self.answers@,
                                            user_tg_id,
                                            kind,
                                        ) && self.polls@[j as int].tg_id->0@ == self.polls@[
                                            i as int
                                        ].tg_id->0@);
                                    }
                                    dup = true;
                                }
                            }
                        }
                        j += 1;
                    }
                    if !dup {
                        counted = true;
                    }
                    proof {
                        let rest = self.polls@.subrange(0, i as int);
                        let cur = self.polls@[i as int];
                        assert(forall|k: int| 0 <= k < i ==> #[trigger] rest[k] == self.polls@[k]);
                        if dup {
                            let k = choose|k: int|
                                0 <= k < i && is_answered_match(
                                    #[trigger] self.polls@[k],
                                    self.answers@,
                                    user_tg_id,
                                    kind,
                                ) && self.polls@[k].tg_id->0@ == cur.tg_id->0@;
                            assert(is_answered_match(rest[k], self.answers@, user_tg_id, kind)
                                && rest[k].tg_id->0@ == cur.tg_id->0@);
                            assert(has_earlier_match(rest, self.answers@, cur, user_tg_id, kind));
                        } else {
                            if has_earlier_match(rest, self.answers@, cur, user_tg_id, kind) {
                                let k = choose|k: int|
                                    0 <= k < rest.len() && is_answered_match(
                                        #[trigger] rest[k],
                                        self.answers@,
                                        user_tg_id,
                                        kind,
                                    ) && rest[k].tg_id->0@ == cur.tg_id->0@;
                                assert(is_answered_match(
                                    self.polls@[k],
                                    self.answers@,
                                    user_tg_id,
                                    kind,
                                ) && self.polls@[k].tg_id->0@ == cur.tg_id->0@);
                                assert(false);
                            }
                        }
                        assert(dup == has_earlier_match(
                            rest,
                            self.answers@,
                            cur,
                            user_tg_id,
                            kind,
                        ));
                    }
                }
            }
            if counted {
                count = count + 1;
            }
            proof {
                let rest = self.polls@.subrange(0, i as int);
                let cur = self.polls@[i as int];
                if !(cur.chat_tg_id == user_tg_id && cur.kind == kind) {
                    assert(!is_answered_match(cur, self.answers@, user_tg_id, kind));
                }
            }
            i += 1;
        }
        proof {
            assert(self.polls@.subrange(0, n as int) =~= self.polls@);
        }
        count
    }
}

} // verus!
