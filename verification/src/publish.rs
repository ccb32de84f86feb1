//! Publication of due polls: chunking an oversized option list, recording
//! a successful publication, and enqueueing the following occurrence.
use vstd::prelude::*;

use crate::options_store::spec_poll_options;
use crate::poll::Poll;
use crate::poll_kind::PollKind;
use crate::poll_store::{has_next_scheduled, is_next_scheduled, spec_new_row};
use crate::store::has_poll_with_id;
use crate::schedule::{spec_next_occurrence, ScheduleOutcome};
use crate::store::{poll_index, Storage};
use crate::times::{valid_ts, TS_SCHEDULE_MAX};
use crate::Error;

verus! {

/// The channel allows at most this many options per poll message.
pub const TELEGRAM_POLL_OPTIONS_LIMIT: usize = 10;

/// The chunk size chosen for `n` options, counting down from `c`: the
/// largest candidate that leaves no remainder of exactly one.
pub open spec fn spec_chunk_size_from(n: int, c: int) -> int
    decreases c,
{
    if c <= 1 {
        1
    } else if n % c != 1 {
        c
    } else {
        spec_chunk_size_from(n, c - 1)
    }
}

/// The chunk size chosen for `n` options.
pub open spec fn spec_chunk_size(n: int) -> int {
    spec_chunk_size_from(n, TELEGRAM_POLL_OPTIONS_LIMIT as int)
}

/// The chunk size for `n` options: at most the channel's limit, and never
/// leaving a lone trailing option — `n % c != 1` unless `c == 1` — by
/// shrinking from the limit downward as little as possible.
pub fn chunk_size(n: usize) -> (c: usize)
    ensures
        c == spec_chunk_size(n as int),
        1 <= c <= TELEGRAM_POLL_OPTIONS_LIMIT,
        c == 1 || n as int % (c as int) != 1,
        forall|d: int| c < d <= TELEGRAM_POLL_OPTIONS_LIMIT ==> #[trigger] (n as int % d) == 1,
{
    let mut c: usize = TELEGRAM_POLL_OPTIONS_LIMIT;
    while n % c == 1 && c > 1
        invariant
            1 <= c <= TELEGRAM_POLL_OPTIONS_LIMIT,
            spec_chunk_size_from(n as int, c as int) == spec_chunk_size(n as int),
            forall|d: int| c < d <= TELEGRAM_POLL_OPTIONS_LIMIT ==> #[trigger] (n as int % d) == 1,
        decreases c,
    {
        c -= 1;
    }
    c
}

/// `s` cut into consecutive chunks of `size`, the last possibly shorter.
pub open spec fn spec_chunks<A>(s: Seq<A>, size: int) -> Seq<Seq<A>>
    decreases s.len(),
    when size >= 1
{
    if s.len() == 0 {
        Seq::<Seq<A>>::empty()
    } else if s.len() <= size {
        seq![s]
    } else {
        seq![s.take(size)] + spec_chunks(s.skip(size), size)
    }
}

/// The chunks cover the option list exactly: concatenated in order they
/// give it back, and there are exactly as many of them as `size` fits
/// into the length, rounded up.
pub proof fn lemma_chunks_cover<A>(s: Seq<A>, size: int)
    requires
        size >= 1,
    ensures
        spec_chunks(s, size).flatten() == s,
        spec_chunks(s, size).len() == (s.len() + size - 1) / size,
    decreases s.len(),
{
    let ch = spec_chunks(s, size);
    if s.len() == 0 {
        assert(ch.flatten() =~= s);
        vstd::arithmetic::div_mod::lemma_basic_div(size - 1, size);
    } else if s.len() <= size {
        assert(ch == seq![s]);
        assert(ch.drop_first() =~= Seq::<Seq<A>>::empty());
        assert(Seq::<Seq<A>>::empty().flatten() == Seq::<A>::empty());
        assert(ch.drop_first().flatten() == Seq::<A>::empty());
        assert(ch.first() == s);
        assert(ch.flatten() == s.add(Seq::<A>::empty()));
        assert(ch.flatten() =~= s);
        vstd::arithmetic::div_mod::lemma_div_plus_one(s.len() - 1, size);
        vstd::arithmetic::div_mod::lemma_basic_div(s.len() - 1, size);
        assert((s.len() + size - 1) / size == 1);
    } else {
        lemma_chunks_cover(s.skip(size), size);
        assert(ch == seq![s.take(size)] + spec_chunks(s.skip(size), size));
        assert(ch.first() == s.take(size));
        assert(ch.drop_first() =~= spec_chunks(s.skip(size), size));
        assert(ch.flatten() == s.take(size) + spec_chunks(s.skip(size), size).flatten());
        assert(ch.flatten() =~= s);
        vstd::arithmetic::div_mod::lemma_div_plus_one(s.len() - 1, size);
        assert(s.skip(size).len() == s.len() - size);
        assert(ch.len() == 1 + (s.len() - size + size - 1) / size);
        assert((s.len() + size - 1) / size == 1 + (s.len() - 1) / size);
    }
}

/// Cut the option list into chunks of `size`.
pub fn chunk_options(options: &Vec<String>, size: usize) -> (r: Vec<Vec<String>>)
    requires
        size >= 1,
    ensures
        r@.map_values(|ch: Vec<String>| ch@) == spec_chunks(options@, size as int),
{
    let n = options.len();
    let mut r: Vec<Vec<String>> = Vec::new();
    let mut pos: usize = 0;
    proof {
        assert(options@.skip(0) =~= options@);
        assert(r@.map_values(|ch: Vec<String>| ch@) + spec_chunks(options@.skip(0), size as int)
            =~= spec_chunks(options@, size as int));
    }
    while pos < n
        invariant
            size >= 1,
            n == options@.len(),
            0 <= pos <= n,
            r@.map_values(|ch: Vec<String>| ch@) + spec_chunks(
                options@.skip(pos as int),
                size as int,
            ) == spec_chunks(options@, size as int),
        decreases n - pos,
    {
        let end = if n - pos <= size {
            n
        } else {
            pos + size
        };
        let mut chunk: Vec<String> = Vec::new();
        let mut j: usize = pos;
        proof {
            assert(chunk@ =~= options@.subrange(pos as int, pos as int));
        }
        while j < end
            invariant
                pos <= j <= end <= n,
                n == options@.len(),
                chunk@ == options@.subrange(pos as int, j as int),
            decreases end - j,
        {
            chunk.push(options[j].clone());
            proof {
                assert(chunk@ =~= options@.subrange(pos as int, j + 1));
            }
            j += 1;
        }
        r.push(chunk);
        proof {
            let rem = options@.skip(pos as int);
            let tail = options@.skip(end as int);
            if n - pos <= size {
                assert(rem.len() <= size);
                assert(spec_chunks(rem, size as int) == seq![rem]);
                assert(chunk@ =~= rem);
                assert(tail =~= Seq::<String>::empty());
                assert(spec_chunks(tail, size as int) =~= Seq::<Seq<String>>::empty());
            } else {
                assert(rem.len() > size);
                assert(spec_chunks(rem, size as int) == seq![rem.take(size as int)] + spec_chunks(
                    rem.skip(size as int),
                    size as int,
                ));
                assert(chunk@ =~= rem.take(size as int));
                assert(rem.skip(size as int) =~= tail);
            }
            assert(r@.map_values(|ch: Vec<String>| ch@) =~= old_map_with(
                r@,
                chunk@,
            ));
            assert(r@.map_values(|ch: Vec<String>| ch@) + spec_chunks(tail, size as int)
                =~= spec_chunks(options@, size as int));
        }
        pos = end;
    }
    proof {
        assert(options@.skip(pos as int) =~= Seq::<String>::empty());
        assert(spec_chunks(options@.skip(pos as int), size as int) =~= Seq::<Seq<String>>::empty());
        assert(r@.map_values(|ch: Vec<String>| ch@) =~= spec_chunks(options@, size as int));
    }
    r
}

/// The views of `r` with one more chunk appended (a name for the proof
/// above only).
spec fn old_map_with(r: Seq<Vec<String>>, last: Seq<String>) -> Seq<Seq<String>> {
    r.subrange(0, r.len() - 1).map_values(|ch: Vec<String>| ch@).push(last)
}

/// One message the channel reports as sent: its message id and, when its
/// payload is a poll, the channel-assigned poll id.
#[derive(Debug)]
pub struct SentMessage {
    pub message_id: i32,
    pub poll_id: Option<String>,
}

/// The row of `p` once publication under these channel identifiers is
/// recorded (the stored overdue flag is kept).
pub open spec fn spec_published_row(p: Poll, tg_id: String, tg_message_id: i32, overdue: bool) -> Poll {
    Poll {
        id: p.id,
        tg_id: Some(tg_id),
        tg_message_id: Some(tg_message_id),
        chat_tg_id: p.chat_tg_id,
        kind: p.kind,
        publication_date: p.publication_date,
        published: true,
        overdue,
    }
}

/// The already-published row inserted for one further chunk of `poll`.
pub open spec fn spec_chunk_row(poll: Poll, msg: SentMessage, id: i64) -> Poll {
    Poll {
        id: Some(id),
        tg_id: msg.poll_id,
        tg_message_id: Some(msg.message_id),
        chat_tg_id: poll.chat_tg_id,
        kind: poll.kind,
        publication_date: poll.publication_date,
        published: true,
        overdue: false,
    }
}

/// The rows inserted for the second and later chunks, with consecutive
/// storage ids starting at `base`.
pub open spec fn spec_chunk_rows(poll: Poll, msgs: Seq<SentMessage>, base: i64) -> Seq<Poll> {
    Seq::new(msgs.len(), |i: int| spec_chunk_row(poll, msgs[i], (base + i) as i64))
}

/// Every reported message carries a poll payload.
pub open spec fn all_carry_polls(msgs: Seq<SentMessage>) -> bool {
    forall|i: int| 0 <= i < msgs.len() ==> (#[trigger] msgs[i]).poll_id is Some
}

impl Storage {
    /// Record that the poll went out: set its published flag and the two
    /// channel-assigned identifiers on its stored row.
    ///
    /// Fails with `NotPersisted` when the poll carries no storage id, and
    /// with `NotFound` when its row has vanished; either way nothing
    /// changes.
    pub fn mark_published(&mut self, poll: &Poll, tg_id: String, tg_message_id: i32) -> (r: Result<
        Poll,
        Error,
    >)
        requires
            old(self).wf(),
            valid_ts(poll.publication_date),
        ensures
            final(self).wf(),
            final(self).users@ == old(self).users@,
            final(self).answers@ == old(self).answers@,
            final(self).custom_options@ == old(self).custom_options@,
            final(self).settings@ == old(self).settings@,
            final(self).next_poll_id == old(self).next_poll_id,
            poll.id is None ==> r == Err::<Poll, Error>(Error::NotPersisted) && final(self).polls@
                == old(self).polls@,
            poll.id is Some && has_poll_with_id(old(self).polls@, poll.id->0) ==> {
                let k = poll_index(old(self).polls@, poll.id->0);
                let updated = spec_published_row(
                    *poll,
                    tg_id,
                    tg_message_id,
                    old(self).polls@[k].overdue,
                );
                &&& final(self).polls@ == old(self).polls@.update(k, updated)
                &&& r == Ok::<Poll, Error>(updated)
            },
            poll.id is Some && !has_poll_with_id(old(self).polls@, poll.id->0) ==> r == Err::<
                Poll,
                Error,
            >(Error::NotFound) && final(self).polls@ == old(self).polls@,
    {
        if poll.id.is_none() {
            return Err(Error::NotPersisted);
        }
        let updated = Poll {
            id: poll.id,
            tg_id: Some(tg_id),
            tg_message_id: Some(tg_message_id),
            chat_tg_id: poll.chat_tg_id,
            kind: poll.kind,
            publication_date: poll.publication_date,
            published: true,
            overdue: poll.overdue,
        };
        self.update(&updated)
    }

    /// Record a whole publication batch: the first reported message updates
    /// the poll's row, each further message is stored as its own published
    /// row, and the following occurrence is enqueued once for the batch.
    ///
    /// A message without a poll payload is a protocol violation: the whole
    /// operation fails and nothing changes. `NotPersisted` and `NotFound`
    /// are as for `mark_published`.
    pub fn published_to_tg(&mut self, poll: &Poll, messages: Vec<SentMessage>) -> (r: Result<
        ScheduleOutcome,
        Error,
    >)
        requires
            old(self).wf(),
            valid_ts(poll.publication_date),
            poll.publication_date <= TS_SCHEDULE_MAX,
            messages@.len() >= 1,
            old(self).next_poll_id + messages@.len() < i64::MAX,
        ensures
            final(self).wf(),
            final(self).users@ == old(self).users@,
            final(self).answers@ == old(self).answers@,
            final(self).custom_options@ == old(self).custom_options@,
            final(self).settings@ == old(self).settings@,
            r matches Err(e) ==> final(self).polls@ == old(self).polls@ && final(self).next_poll_id
                == old(self).next_poll_id && (e == Error::ChannelProtocolViolation || e
                == Error::NotPersisted || e == Error::NotFound),
            !all_carry_polls(messages@) ==> r == Err::<ScheduleOutcome, Error>(
                Error::ChannelProtocolViolation,
            ),
            all_carry_polls(messages@) && poll.id is None ==> r == Err::<ScheduleOutcome, Error>(
                Error::NotPersisted,
            ),
            all_carry_polls(messages@) && poll.id is Some && !has_poll_with_id(
                old(self).polls@,
                poll.id->0,
            ) ==> r == Err::<ScheduleOutcome, Error>(Error::NotFound),
            all_carry_polls(messages@) && poll.id is Some && has_poll_with_id(
                old(self).polls@,
                poll.id->0,
            ) ==> {
                let k = poll_index(old(self).polls@, poll.id->0);
                let updated = spec_published_row(
                    *poll,
                    messages@[0].poll_id->0,
                    messages@[0].message_id,
                    old(self).polls@[k].overdue,
                );
                let mid = old(self).polls@.update(k, updated) + spec_chunk_rows(
                    *poll,
                    messages@.skip(1),
                    old(self).next_poll_id,
                );
                let base = old(self).next_poll_id + messages@.len() - 1;
                &&& has_next_scheduled(
                    mid,
                    poll.chat_tg_id,
                    poll.kind,
                    poll.publication_date,
                ) ==> r == Ok::<ScheduleOutcome, Error>(ScheduleOutcome::AlreadyScheduled)
                    && final(self).polls@ == mid && final(self).next_poll_id == base
                &&& !has_next_scheduled(
                    mid,
                    poll.chat_tg_id,
                    poll.kind,
                    poll.publication_date,
                ) ==> {
                    let np = spec_new_row(
                        base as i64,
                        poll.chat_tg_id,
                        poll.kind,
                        spec_next_occurrence(
                            old(self).settings@,
                            poll.chat_tg_id,
                            poll.kind,
                            poll.publication_date,
                        ) as i64,
                    );
                    &&& r == Ok::<ScheduleOutcome, Error>(ScheduleOutcome::Inserted(np))
                    &&& final(self).polls@ == mid.push(np)
                    &&& final(self).next_poll_id == base + 1
                }
            },
    {
        let n = messages.len();
        let mut v: usize = 0;
        while v < n
            invariant
                *self == *old(self),
                old(self).wf(),
                n == messages@.len(),
                0 <= v <= n,
                forall|i: int| 0 <= i < v ==> (#[trigger] messages@[i]).poll_id is Some,
            decreases n - v,
        {
            if messages[v].poll_id.is_none() {
                proof {
                    assert(!all_carry_polls(messages@)) by {
                        assert(messages@[v as int].poll_id is None);
                    }
                }
                return Err(Error::ChannelProtocolViolation);
            }
            v += 1;
        }
        let first_tg = match &messages[0].poll_id {
            Some(t) => t.clone(),
            None => {
                return Err(Error::ChannelProtocolViolation);
            },
        };
        let updated = match self.mark_published(poll, first_tg, messages[0].message_id) {
            Ok(row) => row,
            Err(e) => {
                return Err(e);
            },
        };
        let ghost k = poll_index(old(self).polls@, poll.id->0);
        let ghost mid = old(self).polls@.update(k, spec_published_row(
            *poll,
            messages@[0].poll_id->0,
            messages@[0].message_id,
            old(self).polls@[k].overdue,
        )) + spec_chunk_rows(*poll, messages@.skip(1), old(self).next_poll_id);
        let mut c: usize = 1;
        proof {
            assert(spec_chunk_rows(*poll, messages@.skip(1).take(0), old(self).next_poll_id)
                =~= Seq::<Poll>::empty());
            assert(self.polls@ =~= old(self).polls@.update(k, spec_published_row(
                *poll,
                messages@[0].poll_id->0,
                messages@[0].message_id,
                old(self).polls@[k].overdue,
            )) + spec_chunk_rows(*poll, messages@.skip(1).take(0), old(self).next_poll_id));
        }
        while c < n
            invariant
                old(self).wf(),
                self.wf(),
                self.users@ == old(self).users@,
                self.answers@ == old(self).answers@,
                self.custom_options@ == old(self).custom_options@,
                self.settings@ == old(self).settings@,
                n == messages@.len(),
                1 <= c <= n,
                valid_ts(poll.publication_date),
                old(self).next_poll_id + n < i64::MAX,
                self.next_poll_id == old(self).next_poll_id + c - 1,
                poll.id is Some,
                has_poll_with_id(old(self).polls@, poll.id->0),
                k == poll_index(old(self).polls@, poll.id->0),
                forall|i: int| 0 <= i < n ==> (#[trigger] messages@[i]).poll_id is Some,
                self.polls@ == old(self).polls@.update(k, spec_published_row(
                    *poll,
                    messages@[0].poll_id->0,
                    messages@[0].message_id,
                    old(self).polls@[k].overdue,
                )) + spec_chunk_rows(
                    *poll,
                    messages@.skip(1).take(c - 1),
                    old(self).next_poll_id,
                ),
            decreases n - c,
        {
            let msg_tg = match &messages[c].poll_id {
                Some(t) => Some(t.clone()),
                None => None,
            };
            let row = self.insert_row(
                msg_tg,
                Some(messages[c].message_id),
                poll.chat_tg_id,
                poll.kind,
                poll.publication_date,
                true,
            );
            proof {
                assert(row == spec_chunk_row(
                    *poll,
                    messages@[c as int],
                    (old(self).next_poll_id + c - 1) as i64,
                ));
                assert(messages@.skip(1).take(c as int) =~= messages@.skip(1).take(c - 1).push(
                    messages@[c as int],
                ));
                assert(spec_chunk_rows(
                    *poll,
                    messages@.skip(1).take(c as int),
                    old(self).next_poll_id,
                ) =~= spec_chunk_rows(
                    *poll,
                    messages@.skip(1).take(c - 1),
                    old(self).next_poll_id,
                ).push(row));
                assert(self.polls@ =~= old(self).polls@.update(k, spec_published_row(
                    *poll,
                    messages@[0].poll_id->0,
                    messages@[0].message_id,
                    old(self).polls@[k].overdue,
                )) + spec_chunk_rows(
                    *poll,
                    messages@.skip(1).take(c as int),
                    old(self).next_poll_id,
                ));
            }
            c += 1;
        }
        proof {
            assert(messages@.skip(1).take(n - 1) =~= messages@.skip(1));
            assert(self.polls@ == mid);
        }
        let outcome = self.schedule_next(poll);
        Ok(outcome)
    }
}

/// Chunking commutes with viewing each option: the chunks of the views are
/// the views of the chunks.
proof fn lemma_chunks_map(s: Seq<String>, size: int)
    requires
        size >= 1,
    ensures
        spec_chunks(s, size).map_values(|ch: Seq<String>| ch.map_values(|x: String| x@))
            == spec_chunks(s.map_values(|x: String| x@), size),
    decreases s.len(),
{
    let f = |x: String| x@;
    let g = |ch: Seq<String>| ch.map_values(|x: String| x@);
    if s.len() == 0 {
        assert(s.map_values(f) =~= Seq::<Seq<char>>::empty());
        assert(spec_chunks(s, size).map_values(g) =~= spec_chunks(s.map_values(f), size));
    } else if s.len() <= size {
        assert(spec_chunks(s, size).map_values(g) =~= seq![s.map_values(f)]);
        assert(spec_chunks(s.map_values(f), size) == seq![s.map_values(f)]);
    } else {
        lemma_chunks_map(s.skip(size), size);
        assert(s.skip(size).map_values(f) =~= s.map_values(f).skip(size));
        assert(s.take(size).map_values(f) =~= s.map_values(f).take(size));
        assert((seq![s.take(size)] + spec_chunks(s.skip(size), size)).map_values(g)
            =~= seq![s.take(size).map_values(f)] + spec_chunks(s.skip(size), size).map_values(g));
        assert(spec_chunks(s.map_values(f), size) == seq![s.map_values(f).take(size)]
            + spec_chunks(s.map_values(f).skip(size), size));
        assert(spec_chunks(s, size).map_values(g) =~= spec_chunks(s.map_values(f), size));
    }
}

/// Everything the channel needs to publish one due poll: the addressee,
/// the question, the option list already cut into chunks the channel
/// accepts, and the multi-answer flag.
#[derive(Debug)]
pub struct PublicationPlan {
    pub chat_tg_id: i64,
    pub question: String,
    pub options_chunks: Vec<Vec<String>>,
    pub allows_multiple_answers: bool,
}

impl Storage {
    /// Lay out the messages that publishing this poll takes: the kind's
    /// option list for this user, cut into chunks of the chosen size.
    pub fn publication_plan(&self, poll: &Poll) -> (plan: PublicationPlan)
        ensures
            plan.chat_tg_id == poll.chat_tg_id,
            plan.question@ == poll.kind.spec_question(),
            plan.allows_multiple_answers == poll.kind.spec_allows_multiple_answers(),
            plan.options_chunks@.map_values(|ch: Vec<String>| ch@.map_values(|x: String| x@))
                == spec_chunks(
                spec_poll_options(self.custom_options@, poll.chat_tg_id, poll.kind),
                spec_chunk_size(
                    spec_poll_options(
                        self.custom_options@,
                        poll.chat_tg_id,
                        poll.kind,
                    ).len() as int,
                ),
            ),
            plan.options_chunks@.len() >= 1,
    {
        let options = poll.kind.options(self, poll.chat_tg_id);
        let size = chunk_size(options.len());
        let chunks = chunk_options(&options, size);
        proof {
            let f = |x: String| x@;
            let g = |ch: Seq<String>| ch.map_values(|x: String| x@);
            let views = spec_poll_options(self.custom_options@, poll.chat_tg_id, poll.kind);
            assert(options@.map_values(f).len() == options@.len());
            lemma_chunks_map(options@, size as int);
            assert(chunks@.map_values(|ch: Vec<String>| ch@.map_values(|x: String| x@))
                =~= chunks@.map_values(|ch: Vec<String>| ch@).map_values(g));
            assert(chunks@.map_values(|ch: Vec<String>| ch@).map_values(g) == spec_chunks(
                options@,
                size as int,
            ).map_values(g));
            assert(chunks@.map_values(|ch: Vec<String>| ch@.map_values(|x: String| x@))
                == spec_chunks(views, spec_chunk_size(views.len() as int)));
            assert(spec_chunks(options@, size as int).len() >= 1);
        }
        PublicationPlan {
            chat_tg_id: poll.chat_tg_id,
            question: poll.kind.question(),
            options_chunks: chunks,
            allows_multiple_answers: poll.kind.allows_multiple_answers(),
        }
    }
}

} // verus!
