//! The per-user custom option store, and the option list of each poll kind.
use vstd::prelude::*;
use vstd::string::StrSliceExecFns;
use vstd::string::StringExecFns;

use crate::poll::{PollCustomOptionRow, PollCustomOptions};
use crate::poll_kind::PollKind;
use crate::store::{lemma_filter_push, Storage};
use crate::text::str_eq;

verus! {

/// Is `row` an option row of this user and kind?
pub open spec fn is_option_row(row: PollCustomOptionRow, user_tg_id: i64, kind: PollKind) -> bool {
    row.user_tg_id == user_tg_id && row.poll_kind == kind
}

/// The enabled option texts of this user and kind, in insertion order.
pub open spec fn spec_custom_options(rows: Seq<PollCustomOptionRow>, user_tg_id: i64, kind: PollKind) -> Seq<String> {
    rows.filter(|row: PollCustomOptionRow| is_option_row(row, user_tg_id, kind)).map_values(
        |row: PollCustomOptionRow| row.option_text,
    )
}

/// Is `row` this exact enabled option (same user, kind and text)?
pub open spec fn is_this_option(row: PollCustomOptionRow, user_tg_id: i64, kind: PollKind, text: Seq<char>) -> bool {
    is_option_row(row, user_tg_id, kind) && row.option_text@ == text
}

/// The option texts every poll of this kind offers, over the user's
/// enabled custom options.
pub open spec fn spec_poll_options(rows: Seq<PollCustomOptionRow>, user_tg_id: i64, kind: PollKind) -> Seq<Seq<char>> {
    match kind {
        PollKind::HowWasYourDay => seq![
            "+2 (супер!)"@,
            "+1"@,
            "0"@,
            "-1"@,
            "-2 (отвратительно)"@,
        ],
        PollKind::FoodAllergy => seq![
            "Shortness of breath"@,
            "Itching"@,
            "Bloating"@,
            "Nope, nothing :)"@,
        ],
        PollKind::DailyEvents => spec_custom_options(rows, user_tg_id, kind).map_values(
            |s: String| s@,
        ).push("Ничего"@),
    }
}

impl Storage {
    /// The enabled custom option set of this user and kind.
    pub fn get_for_user(&self, user_tg_id: i64, kind: PollKind) -> (r: PollCustomOptions)
        ensures
            r.poll_kind == kind,
            r.user_tg_id == user_tg_id,
            r.options@ == spec_custom_options(self.custom_options@, user_tg_id, kind),
    {
        let n = self.custom_options.len();
        let mut options: Vec<String> = Vec::new();
        let mut i: usize = 0;
        proof {
            assert(self.custom_options@.subrange(0, 0) =~= Seq::<PollCustomOptionRow>::empty());
            reveal(Seq::filter);
            assert(options@ =~= spec_custom_options(
                self.custom_options@.subrange(0, 0),
                user_tg_id,
                kind,
            ));
        }
        while i < n
            invariant
                n == self.custom_options@.len(),
                0 <= i <= n,
                options@ == spec_custom_options(
                    self.custom_options@.subrange(0, i as int),
                    user_tg_id,
                    kind,
                ),
            decreases n - i,
        {
            let row = &self.custom_options[i];
            proof {
                lemma_filter_push(
                    self.custom_options@.subrange(0, i as int),
                    self.custom_options@[i as int],
                    |row: PollCustomOptionRow| is_option_row(row, user_tg_id, kind),
                );
                assert(self.custom_options@.subrange(0, i + 1) =~= self.custom_options@.subrange(
                    0,
                    i as int,
                ).push(self.custom_options@[i as int]));
            }
            if row.user_tg_id == user_tg_id {
                if row.poll_kind == kind {
                    options.push(row.option_text.clone());
                    proof {
                        let pre = self.custom_options@.subrange(0, i as int);
                        let f = pre.filter(
                            |row: PollCustomOptionRow| is_option_row(row, user_tg_id, kind),
                        );
                        assert(options@ =~= f.push(self.custom_options@[i as int]).map_values(
                            |row: PollCustomOptionRow| row.option_text,
                        ));
                    }
                }
            }
            i += 1;
        }
        proof {
            assert(self.custom_options@.subrange(0, n as int) =~= self.custom_options@);
        }
        PollCustomOptions { poll_kind: kind, user_tg_id, options }
    }

    /// Toggle one custom option of this user and kind: remove it when it is
    /// enabled, enable it otherwise.
    pub fn toggle_option(&mut self, user_tg_id: i64, kind: PollKind, option: &str)
        requires
            old(self).wf(),
        ensures
            final(self).wf(),
            (exists|i: int|
                0 <= i < old(self).custom_options@.len() && is_this_option(
                    #[trigger] old(self).custom_options@[i],
                    user_tg_id,
                    kind,
                    option@,
                )) ==> final(self).custom_options@ == old(self).custom_options@.filter(
                |row: PollCustomOptionRow| !is_this_option(row, user_tg_id, kind, option@),
            ),
            (forall|i: int|
                0 <= i < old(self).custom_options@.len() ==> !is_this_option(
                    #[trigger] old(self).custom_options@[i],
                    user_tg_id,
                    kind,
                    option@,
                )) ==> final(self).custom_options@.len() == old(self).custom_options@.len() + 1
                && final(self).custom_options@.drop_last() == old(self).custom_options@
                && is_this_option(final(self).custom_options@.last(), user_tg_id, kind, option@),
            final(self).users@ == old(self).users@,
            final(self).polls@ == old(self).polls@,
            final(self).answers@ == old(self).answers@,
            final(self).settings@ == old(self).settings@,
            final(self).next_poll_id == old(self).next_poll_id,
    {
        let n = self.custom_options.len();
        let mut exists_row = false;
        let mut i: usize = 0;
        while i < n
            invariant
                *self == *old(self),
                n == self.custom_options@.len(),
                0 <= i <= n,
                exists_row == exists|j: int|
                    0 <= j < i && is_this_option(
                        #[trigger] self.custom_options@[j],
                        user_tg_id,
                        kind,
                        option@,
                    ),
            decreases n - i,
        {
            let row = &self.custom_options[i];
            if row.user_tg_id == user_tg_id && row.poll_kind == kind && str_eq(
                row.option_text.as_str(),
                option,
            ) {
                proof {
                    assert(is_this_option(self.custom_options@[i as int], user_tg_id, kind, option@));
                }
                exists_row = true;
            }
            i += 1;
        }
        if exists_row {
            let mut kept: Vec<PollCustomOptionRow> = Vec::new();
            let mut j: usize = 0;
            proof {
                assert(self.custom_options@.subrange(0, 0)
                    =~= Seq::<PollCustomOptionRow>::empty());
                reveal(Seq::filter);
            }
            while j < n
                invariant
                    *self == *old(self),
                    n == self.custom_options@.len(),
                    0 <= j <= n,
                    kept@ == self.custom_options@.subrange(0, j as int).filter(
                        |row: PollCustomOptionRow| !is_this_option(row, user_tg_id, kind, option@),
                    ),
                decreases n - j,
            {
                let row = &self.custom_options[j];
                proof {
                    lemma_filter_push(
                        self.custom_options@.subrange(0, j as int),
                        self.custom_options@[j as int],
                        |row: PollCustomOptionRow| !is_this_option(row, user_tg_id, kind, option@),
                    );
                    assert(self.custom_options@.subrange(0, j + 1)
                        =~= self.custom_options@.subrange(0, j as int).push(
                        self.custom_options@[j as int],
                    ));
                }
                let matches_row = row.user_tg_id == user_tg_id && row.poll_kind == kind && str_eq(
                    row.option_text.as_str(),
                    option,
                );
                if !matches_row {
                    kept.push(row.clone());
                }
                j += 1;
            }
            proof {
                assert(self.custom_options@.subrange(0, n as int) =~= self.custom_options@);
            }
            self.custom_options = kept;
        } else {
            let row = PollCustomOptionRow {
                user_tg_id,
                poll_kind: kind,
                option_text: option.to_owned(),
            };
            self.custom_options.push(row);
            proof {
                assert(self.custom_options@.drop_last() =~= old(self).custom_options@);
            }
        }
    }

    /// Remove every custom option of this user and kind.
    pub fn clear_user_options(&mut self, user_tg_id: i64, kind: PollKind)
        requires
            old(self).wf(),
        ensures
            final(self).wf(),
            final(self).custom_options@ == old(self).custom_options@.filter(
                |row: PollCustomOptionRow| !is_option_row(row, user_tg_id, kind),
            ),
            spec_custom_options(final(self).custom_options@, user_tg_id, kind)
                == Seq::<String>::empty(),
            final(self).users@ == old(self).users@,
            final(self).polls@ == old(self).polls@,
            final(self).answers@ == old(self).answers@,
            final(self).settings@ == old(self).settings@,
            final(self).next_poll_id == old(self).next_poll_id,
    {
        let n = self.custom_options.len();
        let mut kept: Vec<PollCustomOptionRow> = Vec::new();
        let mut j: usize = 0;
        proof {
            assert(self.custom_options@.subrange(0, 0) =~= Seq::<PollCustomOptionRow>::empty());
            reveal(Seq::filter);
        }
        while j < n
            invariant
                *self == *old(self),
                n == self.custom_options@.len(),
                0 <= j <= n,
                kept@ == self.custom_options@.subrange(0, j as int).filter(
                    |row: PollCustomOptionRow| !is_option_row(row, user_tg_id, kind),
                ),
            decreases n - j,
        {
            let row = &self.custom_options[j];
            proof {
                lemma_filter_push(
                    self.custom_options@.subrange(0, j as int),
                    self.custom_options@[j as int],
                    |row: PollCustomOptionRow| !is_option_row(row, user_tg_id, kind),
                );
                assert(self.custom_options@.subrange(0, j + 1) =~= self.custom_options@.subrange(
                    0,
                    j as int,
                ).push(self.custom_options@[j as int]));
            }
            if !(row.user_tg_id == user_tg_id && row.poll_kind == kind) {
                kept.push(row.clone());
            }
            j += 1;
        }
        proof {
            assert(self.custom_options@.subrange(0, n as int) =~= self.custom_options@);
        }
        self.custom_options = kept;
        proof {
            let remaining = self.custom_options@;
            assert forall|i: int| 0 <= i < remaining.len() implies !is_option_row(
                #[trigger] remaining[i],
                user_tg_id,
                kind,
            ) by {
                old(self).custom_options@.lemma_filter_pred(
                    |row: PollCustomOptionRow| !is_option_row(row, user_tg_id, kind),
                    i,
                );
            }
            crate::store::lemma_filter_all_false(
                remaining,
                |row: PollCustomOptionRow| is_option_row(row, user_tg_id, kind),
            );
            assert(spec_custom_options(self.custom_options@, user_tg_id, kind)
                =~= Seq::<String>::empty());
        }
    }
}

impl PollKind {
    /// The ordered option list a poll of this kind offers this user.
    pub fn options(self, store: &Storage, user_tg_id: i64) -> (r: Vec<String>)
        ensures
            r@.map_values(|s: String| s@) == spec_poll_options(
                store.custom_options@,
                user_tg_id,
                self,
            ),
            r@.len() >= 1,
    {
        match self {
            PollKind::HowWasYourDay => {
                let mut r: Vec<String> = Vec::new();
                r.push("+2 (супер!)".to_owned());
                r.push("+1".to_owned());
                r.push("0".to_owned());
                r.push("-1".to_owned());
                r.push("-2 (отвратительно)".to_owned());
                proof {
                    assert(r@.map_values(|s: String| s@) =~= spec_poll_options(
                        store.custom_options@,
                        user_tg_id,
                        self,
                    ));
                }
                r
            },
            PollKind::FoodAllergy => {
                let mut r: Vec<String> = Vec::new();
                r.push("Shortness of breath".to_owned());
                r.push("Itching".to_owned());
                r.push("Bloating".to_owned());
                r.push("Nope, nothing :)".to_owned());
                proof {
                    assert(r@.map_values(|s: String| s@) =~= spec_poll_options(
                        store.custom_options@,
                        user_tg_id,
                        self,
                    ));
                }
                r
            },
            PollKind::DailyEvents => {
                let chosen = store.get_for_user(user_tg_id, PollKind::DailyEvents);
                let mut r = chosen.options;
                r.push("Ничего".to_owned());
                proof {
                    assert(r@.map_values(|s: String| s@) =~= spec_poll_options(
                        store.custom_options@,
                        user_tg_id,
                        self,
                    ));
                }
                r
            },
        }
    }
}

} // verus!
