//! The per-user schedule override store.
use vstd::prelude::*;

use crate::poll::PollSettings;
use crate::poll_kind::PollKind;
use crate::store::{has_settings, settings_index, Storage};
use crate::times::valid_time_of_day;

verus! {

/// The send-time override of this user and kind, when one is set.
pub open spec fn spec_override(settings: Seq<PollSettings>, user_tg_id: i64, kind: PollKind) -> Option<i64> {
    if has_settings(settings, user_tg_id, kind) {
        settings[settings_index(settings, user_tg_id, kind)].send_at_utc
    } else {
        None
    }
}

impl Storage {
    /// The schedule override row of this user and kind, when one exists.
    pub fn get_settings(&self, user_tg_id: i64, kind: PollKind) -> (r: Option<PollSettings>)
        requires
            self.wf(),
        ensures
            r matches Some(row) ==> has_settings(self.settings@, user_tg_id, kind) && row
                == self.settings@[settings_index(self.settings@, user_tg_id, kind)],
            r is None ==> !has_settings(self.settings@, user_tg_id, kind),
    {
        let n = self.settings.len();
        let mut i: usize = 0;
        while i < n
            invariant
                self.wf(),
                n == self.settings@.len(),
                0 <= i <= n,
                forall|j: int|
                    0 <= j < i ==> !((#[trigger] self.settings@[j]).user_tg_id == user_tg_id
                        && self.settings@[j].poll_kind == kind),
            decreases n - i,
        {
            let row = self.settings[i];
            if row.user_tg_id == user_tg_id && row.poll_kind == kind {
                proof {
                    assert(has_settings(self.settings@, user_tg_id, kind)) by {
                        assert(self.settings@[i as int].user_tg_id == user_tg_id
                            && self.settings@[i as int].poll_kind == kind);
                    }
                    let k = settings_index(self.settings@, user_tg_id, kind);
                    assert(0 <= k < self.settings@.len() && self.settings@[k].user_tg_id
                        == user_tg_id && self.settings@[k].poll_kind == kind);
                    assert(k == i as int);
                }
                return Some(row);
            }
            i += 1;
        }
        None
    }

    /// Set the preferred send time of day of this user and kind, creating
    /// or overwriting the override row.
    pub fn set_send_at(&mut self, user_tg_id: i64, kind: PollKind, send_at_utc: i64) -> (r: PollSettings)
        requires
            old(self).wf(),
            valid_time_of_day(send_at_utc),
        ensures
            final(self).wf(),
            r == (PollSettings { poll_kind: kind, user_tg_id, send_at_utc: Some(send_at_utc) }),
            final(self).settings@ == if has_settings(old(self).settings@, user_tg_id, kind) {
                old(self).settings@.update(
                    settings_index(old(self).settings@, user_tg_id, kind),
                    r,
                )
            } else {
                old(self).settings@.push(r)
            },
            spec_override(final(self).settings@, user_tg_id, kind) == Some(send_at_utc),
            final(self).users@ == old(self).users@,
            final(self).polls@ == old(self).polls@,
            final(self).answers@ == old(self).answers@,
            final(self).custom_options@ == old(self).custom_options@,
            final(self).next_poll_id == old(self).next_poll_id,
    {
        let fresh = PollSettings { poll_kind: kind, user_tg_id, send_at_utc: Some(send_at_utc) };
        let n = self.settings.len();
        let mut i: usize = 0;
        while i < n
            invariant
                *self == *old(self),
                old(self).wf(),
                valid_time_of_day(send_at_utc),
                fresh == (PollSettings {
                    poll_kind: kind,
                    user_tg_id,
                    send_at_utc: Some(send_at_utc),
                }),
                n == self.settings@.len(),
                0 <= i <= n,
                forall|j: int|
                    0 <= j < i ==> !((#[trigger] self.settings@[j]).user_tg_id == user_tg_id
                        && self.settings@[j].poll_kind == kind),
            decreases n - i,
        {
            let row = self.settings[i];
            if row.user_tg_id == user_tg_id && row.poll_kind == kind {
                self.settings.set(i, fresh);
                proof {
                    assert(has_settings(old(self).settings@, user_tg_id, kind)) by {
                        assert(old(self).settings@[i as int].user_tg_id == user_tg_id && old(
                            self,
                        ).settings@[i as int].poll_kind == kind);
                    }
                    let k = settings_index(old(self).settings@, user_tg_id, kind);
                    assert(0 <= k < old(self).settings@.len() && old(
                        self,
                    ).settings@[k].user_tg_id == user_tg_id && old(self).settings@[k].poll_kind
                        == kind);
                    assert(k == i as int);
                    assert(self.settings@[i as int] == fresh);
                    assert(has_settings(self.settings@, user_tg_id, kind)) by {
                        assert(self.settings@[i as int].user_tg_id == user_tg_id
                            && self.settings@[i as int].poll_kind == kind);
                    }
                    let m = settings_index(self.settings@, user_tg_id, kind);
                    assert(0 <= m < self.settings@.len() && self.settings@[m].user_tg_id
                        == user_tg_id && self.settings@[m].poll_kind == kind);
                    assert(m == i as int);
                }
                return fresh;
            }
            i += 1;
        }
        self.settings.push(fresh);
        proof {
            assert(!has_settings(old(self).settings@, user_tg_id, kind));
            let m = self.settings@.len() - 1;
            assert(self.settings@[m] == fresh);
            assert(has_settings(self.settings@, user_tg_id, kind)) by {
                assert(self.settings@[m].user_tg_id == user_tg_id && self.settings@[m].poll_kind
                    == kind);
            }
            let k = settings_index(self.settings@, user_tg_id, kind);
            assert(0 <= k < self.settings@.len() && self.settings@[k].user_tg_id == user_tg_id
                && self.settings@[k].poll_kind == kind);
            assert(k == m);
        }
        fresh
    }
}

} // verus!
