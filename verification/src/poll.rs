//! The persisted entities: users, polls, poll answers, per-user custom
//! option sets and per-user schedule overrides.
use vstd::prelude::*;

use crate::poll_kind::PollKind;
use crate::times::{valid_time_of_day, valid_ts};

verus! {

/// A subscriber, keyed by the external chat identifier.
#[derive(Debug, Clone, Copy, PartialEq, Eq, Structural)]
pub struct User {
    pub tg_id: i64,
    pub active: bool,
}

impl User {
    /// The poll kinds every freshly activated user is subscribed to.
    pub fn subscribed_for_polls(&self) -> (r: Vec<PollKind>)
        ensures
            r@ == seq![PollKind::HowWasYourDay],
    {
        let mut r: Vec<PollKind> = Vec::new();
        r.push(PollKind::HowWasYourDay);
        proof {
            assert(r@ =~= seq![PollKind::HowWasYourDay]);
        }
        r
    }
}

/// One occurrence of a recurring question sent to one user.
///
/// `id` is assigned by the store on insertion; `tg_id` and `tg_message_id`
/// are assigned by the channel on publication.
#[derive(Debug)]
pub struct Poll {
    pub id: Option<i64>,
    pub tg_id: Option<String>,
    pub tg_message_id: Option<i32>,
    pub chat_tg_id: i64,
    pub kind: PollKind,
    pub publication_date: i64,
    pub published: bool,
    pub overdue: bool,
}

impl Poll {
    /// A stored row is well formed: it carries a non-negative id, its date
    /// lies in the modelled calendar, and an unpublished poll has no
    /// channel-assigned identifiers.
    pub open spec fn wf_row(self) -> bool {
        &&& self.id matches Some(id) && id >= 0
        &&& valid_ts(self.publication_date)
        &&& !self.published ==> self.tg_id is None && self.tg_message_id is None
    }

    /// The id of a stored row.
    pub open spec fn row_id(self) -> i64
        recommends
            self.id is Some,
    {
        self.id->0
    }
}

impl Clone for Poll {
    /// Field-for-field copy.
    fn clone(&self) -> (r: Self)
        ensures
            r == self,
    {
        Poll {
            id: self.id,
            tg_id: match &self.tg_id {
                Some(t) => Some(t.clone()),
                None => None,
            },
            tg_message_id: self.tg_message_id,
            chat_tg_id: self.chat_tg_id,
            kind: self.kind,
            publication_date: self.publication_date,
            published: self.published,
            overdue: self.overdue,
        }
    }
}

/// One selected option of one answered poll, with a snapshot of the option's
/// display text at the time of answering.
#[derive(Debug)]
pub struct PollAnswer {
    pub poll_tg_id: String,
    pub selected_value: i32,
    pub selected_value_text: String,
}

impl Clone for PollAnswer {
    /// Field-for-field copy.
    fn clone(&self) -> (r: Self)
        ensures
            r == self,
    {
        PollAnswer {
            poll_tg_id: self.poll_tg_id.clone(),
            selected_value: self.selected_value,
            selected_value_text: self.selected_value_text.clone(),
        }
    }
}

/// One enabled custom option of one user for one poll kind.
#[derive(Debug)]
pub struct PollCustomOptionRow {
    pub user_tg_id: i64,
    pub poll_kind: PollKind,
    pub option_text: String,
}

impl Clone for PollCustomOptionRow {
    /// Field-for-field copy.
    fn clone(&self) -> (r: Self)
        ensures
            r == self,
    {
        PollCustomOptionRow {
            user_tg_id: self.user_tg_id,
            poll_kind: self.poll_kind,
            option_text: self.option_text.clone(),
        }
    }
}

/// The enabled custom option set of one user for one poll kind.
#[derive(Debug)]
pub struct PollCustomOptions {
    pub poll_kind: PollKind,
    pub user_tg_id: i64,
    pub options: Vec<String>,
}

/// The per-user schedule override for one poll kind: a preferred send time
/// of day (UTC seconds since midnight), when set.
#[derive(Debug, Clone, Copy, PartialEq, Eq, Structural)]
pub struct PollSettings {
    pub poll_kind: PollKind,
    pub user_tg_id: i64,
    pub send_at_utc: Option<i64>,
}

impl PollSettings {
    /// A settings row carries a valid time of day, when one is set.
    pub open spec fn wf_row(self) -> bool {
        self.send_at_utc matches Some(sod) ==> valid_time_of_day(sod)
    }
}

} // verus!
