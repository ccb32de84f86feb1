//! The daily-events feature: its fixed option catalogue and the decision
//! core of its settings callback.
use vstd::prelude::*;
use vstd::string::StrSliceExecFns;

use crate::callbacks::{spec_payload_of, stable_hash_of, CallbackButtonData, Scope};
use crate::options_store::{is_option_row, is_this_option, spec_custom_options};
use crate::poll::{Poll, PollCustomOptionRow};
use crate::poll_kind::PollKind;
use crate::poll_store::{is_scheduled_for, spec_new_row, survives_disable};
use crate::store::Storage;
use crate::times::valid_ts;

verus! {

/// The catalogue of daily events a user can track.
pub open spec fn spec_daily_event_catalogue() -> Seq<Seq<char>> {
    seq![
        "Выход на улицу (>10 минут)"@,
        "Сон >6 часов"@,
        "Общение вживую"@,
        "Спорт/активность"@,
        "Хобби/обучение/свой проект"@,
        "Позитивные личные события"@,
        "Конфликты с людьми (в том числе онлайн)"@,
        "Важные новости о внешнем мире"@,
        "Контакты с семьёй"@,
        "Солнечно на улице"@,
        "Стресс на работе"@,
        "Секс"@,
        "Алкоголь"@,
        "Вещества"@,
        "Поездка за город/путешествие"@,
        "Проблемы со здоровьем"@,
    ]
}

/// The catalogue of daily events, as strings.
pub fn daily_event_catalogue() -> (r: Vec<String>)
    ensures
        r@.map_values(|s: String| s@) == spec_daily_event_catalogue(),
{
    let mut r: Vec<String> = Vec::new();
    r.push("Выход на улицу (>10 минут)".to_owned());
    r.push("Сон >6 часов".to_owned());
    r.push("Общение вживую".to_owned());
    r.push("Спорт/активность".to_owned());
    r.push("Хобби/обучение/свой проект".to_owned());
    r.push("Позитивные личные события".to_owned());
    r.push("Конфликты с людьми (в том числе онлайн)".to_owned());
    r.push("Важные новости о внешнем мире".to_owned());
    r.push("Контакты с семьёй".to_owned());
    r.push("Солнечно на улице".to_owned());
    r.push("Стресс на работе".to_owned());
    r.push("Секс".to_owned());
    r.push("Алкоголь".to_owned());
    r.push("Вещества".to_owned());
    r.push("Поездка за город/путешествие".to_owned());
    r.push("Проблемы со здоровьем".to_owned());
    proof {
        assert(r@.map_values(|s: String| s@) =~= spec_daily_event_catalogue());
    }
    r
}

/// Has the user enabled this option text for this kind?
pub open spec fn spec_custom_enabled(rows: Seq<PollCustomOptionRow>, user_tg_id: i64, kind: PollKind, text: Seq<char>) -> bool {
    exists|i: int| 0 <= i < rows.len() && is_this_option(#[trigger] rows[i], user_tg_id, kind, text)
}

/// Some future, unpublished poll of this active user and kind exists.
pub open spec fn has_scheduled_for(polls: Seq<Poll>, users: Seq<crate::poll::User>, user_tg_id: i64, kind: PollKind, now: i64) -> bool {
    exists|i: int|
        0 <= i < polls.len() && is_scheduled_for(#[trigger] polls[i], users, user_tg_id, kind, now)
}

/// The catalogue texts the user has not yet enabled, in catalogue order.
pub open spec fn spec_missing_texts(rows: Seq<PollCustomOptionRow>, user_tg_id: i64, kind: PollKind, catalogue: Seq<Seq<char>>) -> Seq<Seq<char>>
    decreases catalogue.len(),
{
    if catalogue.len() == 0 {
        Seq::<Seq<char>>::empty()
    } else {
        spec_missing_texts(rows, user_tg_id, kind, catalogue.drop_last()) + if spec_custom_enabled(
            rows,
            user_tg_id,
            kind,
            catalogue.last(),
        ) {
            Seq::<Seq<char>>::empty()
        } else {
            seq![catalogue.last()]
        }
    }
}

impl Storage {
    /// Has the user enabled this option text for this kind?
    pub fn has_custom_option(&self, user_tg_id: i64, kind: PollKind, text: &str) -> (r: bool)
        ensures
            r == spec_custom_enabled(self.custom_options@, user_tg_id, kind, text@),
    {
        let n = self.custom_options.len();
        let mut i: usize = 0;
        while i < n
            invariant
                n == self.custom_options@.len(),
                0 <= i <= n,
                forall|j: int|
                    0 <= j < i ==> !is_this_option(
                        #[trigger] self.custom_options@[j],
                        user_tg_id,
                        kind,
                        text@,
                    ),
            decreases n - i,
        {
            let row = &self.custom_options[i];
            if row.user_tg_id == user_tg_id && row.poll_kind == kind && crate::text::str_eq(
                row.option_text.as_str(),
                text,
            ) {
                proof {
                    assert(is_this_option(
                        self.custom_options@[i as int],
                        user_tg_id,
                        kind,
                        text@,
                    ));
                }
                return true;
            }
            i += 1;
        }
        false
    }

    /// Enable every catalogue option the user has not enabled yet,
    /// appending the missing ones in catalogue order.
    pub fn enable_missing_options(&mut self, user_tg_id: i64, kind: PollKind, catalogue: &Vec<
        String,
    >)
        requires
            old(self).wf(),
        ensures
            final(self).wf(),
            final(self).users@ == old(self).users@,
            final(self).polls@ == old(self).polls@,
            final(self).answers@ == old(self).answers@,
            final(self).settings@ == old(self).settings@,
            final(self).next_poll_id == old(self).next_poll_id,
            final(self).custom_options@.len() == old(self).custom_options@.len()
                + spec_missing_texts(
                old(self).custom_options@,
                user_tg_id,
                kind,
                catalogue@.map_values(|s: String| s@),
            ).len(),
            final(self).custom_options@.subrange(0, old(self).custom_options@.len() as int) == old(
                self,
            ).custom_options@,
            final(self).custom_options@.skip(old(self).custom_options@.len() as int).map_values(
                |row: PollCustomOptionRow| row.option_text@,
            ) == spec_missing_texts(
                old(self).custom_options@,
                user_tg_id,
                kind,
                catalogue@.map_values(|s: String| s@),
            ),
            forall|i: int|
                old(self).custom_options@.len() <= i < final(self).custom_options@.len()
                    ==> is_option_row(#[trigger] final(self).custom_options@[i], user_tg_id, kind),
    {
        let n = catalogue.len();
        let mut missing: Vec<String> = Vec::new();
        let mut i: usize = 0;
        proof {
            assert(catalogue@.map_values(|s: String| s@).subrange(0, 0) =~= Seq::<
                Seq<char>,
            >::empty());
            assert(missing@.map_values(|s: String| s@) =~= spec_missing_texts(
                self.custom_options@,
                user_tg_id,
                kind,
                catalogue@.map_values(|s: String| s@).subrange(0, 0),
            ));
        }
        while i < n
            invariant
                *self == *old(self),
                old(self).wf(),
                n == catalogue@.len(),
                0 <= i <= n,
                missing@.map_values(|s: String| s@) == spec_missing_texts(
                    self.custom_options@,
                    user_tg_id,
                    kind,
                    catalogue@.map_values(|s: String| s@).subrange(0, i as int),
                ),
            decreases n - i,
        {
            let text = &catalogue[i];
            proof {
                let views = catalogue@.map_values(|s: String| s@);
                assert(views.subrange(0, i + 1).drop_last() =~= views.subrange(0, i as int));
                assert(views.subrange(0, i + 1).last() == views[i as int]);
                assert(views[i as int] == catalogue@[i as int]@);
            }
            if !self.has_custom_option(user_tg_id, kind, text.as_str()) {
                missing.push(text.clone());
                proof {
                    let views = catalogue@.map_values(|s: String| s@);
                    assert(missing@.map_values(|s: String| s@) =~= spec_missing_texts(
                        self.custom_options@,
                        user_tg_id,
                        kind,
                        views.subrange(0, i + 1),
                    ));
                }
            } else {
                proof {
                    let views = catalogue@.map_values(|s: String| s@);
                    assert(missing@.map_values(|s: String| s@) =~= spec_missing_texts(
                        self.custom_options@,
                        user_tg_id,
                        kind,
                        views.subrange(0, i + 1),
                    ));
                }
            }
            i += 1;
        }
        proof {
            let views = catalogue@.map_values(|s: String| s@);
            assert(views.subrange(0, n as int) =~= views);
        }
        let m = missing.len();
        let mut j: usize = 0;
        let ghost rows0 = self.custom_options@;
        let ghost missing_views = missing@.map_values(|s: String| s@);
        while j < m
            invariant
                old(self).wf(),
                self.wf(),
                self.users@ == old(self).users@,
                self.polls@ == old(self).polls@,
                self.answers@ == old(self).answers@,
                self.settings@ == old(self).settings@,
                self.next_poll_id == old(self).next_poll_id,
                rows0 == old(self).custom_options@,
                m == missing@.len(),
                0 <= j <= m,
                missing_views == missing@.map_values(|s: String| s@),
                self.custom_options@.len() == rows0.len() + j,
                self.custom_options@.subrange(0, rows0.len() as int) == rows0,
                self.custom_options@.skip(rows0.len() as int).map_values(
                    |row: PollCustomOptionRow| row.option_text@,
                ) == missing_views.subrange(0, j as int),
                forall|t: int|
                    rows0.len() <= t < self.custom_options@.len() ==> is_option_row(
                        #[trigger] self.custom_options@[t],
                        user_tg_id,
                        kind,
                    ),
            decreases m - j,
        {
            let row = PollCustomOptionRow {
                user_tg_id,
                poll_kind: kind,
                option_text: missing[j].clone(),
            };
            self.custom_options.push(row);
            proof {
                assert(self.custom_options@.subrange(0, rows0.len() as int) =~= rows0);
                assert(self.custom_options@.skip(rows0.len() as int).map_values(
                    |row: PollCustomOptionRow| row.option_text@,
                ) =~= missing_views.subrange(0, j + 1));
            }
            j += 1;
        }
        proof {
            assert(missing_views.subrange(0, m as int) =~= missing_views);
        }
    }
}

/// What the daily-events settings callback decided, for the caller to act
/// on.
#[derive(Debug)]
pub enum DailyEventsCallback {
    /// The user saved an empty selection: their pending daily-events polls
    /// were cancelled.
    SettingsCleared,
    /// The user saved a non-empty selection; when no daily-events poll was
    /// queued, an immediately due one was created.
    SettingsSaved { new_poll: Option<Poll> },
    /// The selection changed (one option toggled, all enabled, or all
    /// cleared); the keyboard should be re-rendered.
    SelectionChanged,
    /// The payload matched no known button.
    Unknown,
}

/// The payload of the daily-events "save selection" button.
pub open spec fn spec_done_payload() -> Seq<char> {
    spec_payload_of(Scope::DailyEvents, stable_hash_of("done"@))
}

/// The payload of the daily-events "enable everything" button.
pub open spec fn spec_all_payload() -> Seq<char> {
    spec_payload_of(Scope::DailyEvents, stable_hash_of("all"@))
}

/// The payload of the daily-events "clear everything" button.
pub open spec fn spec_none_payload() -> Seq<char> {
    spec_payload_of(Scope::DailyEvents, stable_hash_of("none"@))
}

/// The payload of the toggle button of one catalogue option.
pub open spec fn spec_option_payload(text: Seq<char>) -> Seq<char> {
    spec_payload_of(Scope::DailyEvents, stable_hash_of(text))
}

impl Storage {
    /// Decide and apply a daily-events settings callback.
    ///
    /// Saving an empty selection cancels the user's pending daily-events
    /// polls; saving a non-empty one creates an immediately due poll when
    /// none is queued; the all, none and per-option buttons edit the
    /// user's enabled set; anything else is unknown and changes nothing.
    pub fn handle_daily_events_callback(&mut self, user_tg_id: i64, payload: &str, now: i64) -> (r:
        DailyEventsCallback)
        requires
            old(self).wf(),
            valid_ts(now),
            old(self).next_poll_id < i64::MAX,
        ensures
            final(self).wf(),
            final(self).users@ == old(self).users@,
            final(self).answers@ == old(self).answers@,
            final(self).settings@ == old(self).settings@,
            payload@ == spec_done_payload() && spec_custom_options(
                old(self).custom_options@,
                user_tg_id,
                PollKind::DailyEvents,
            ).len() == 0 ==> r is SettingsCleared && final(self).custom_options@ == old(
                self,
            ).custom_options@ && final(self).polls@ == old(self).polls@.filter(
                |p: Poll| survives_disable(p, user_tg_id, PollKind::DailyEvents, now),
            ) && final(self).next_poll_id == old(self).next_poll_id,
            payload@ == spec_done_payload() && spec_custom_options(
                old(self).custom_options@,
                user_tg_id,
                PollKind::DailyEvents,
            ).len() > 0 && !has_scheduled_for(
                old(self).polls@,
                old(self).users@,
                user_tg_id,
                PollKind::DailyEvents,
                now,
            ) ==> {
                let np = spec_new_row(
                    old(self).next_poll_id,
                    user_tg_id,
                    PollKind::DailyEvents,
                    now,
                );
                &&& r == (DailyEventsCallback::SettingsSaved { new_poll: Some(np) })
                &&& final(self).polls@ == old(self).polls@.push(np)
                &&& final(self).next_poll_id == old(self).next_poll_id + 1
                &&& final(self).custom_options@ == old(self).custom_options@
            },
            payload@ == spec_done_payload() && spec_custom_options(
                old(self).custom_options@,
                user_tg_id,
                PollKind::DailyEvents,
            ).len() > 0 && has_scheduled_for(
                old(self).polls@,
                old(self).users@,
                user_tg_id,
                PollKind::DailyEvents,
                now,
            ) ==> r == (DailyEventsCallback::SettingsSaved { new_poll: None }) && final(self).polls@ == old(self).polls@ && final(self).next_poll_id == old(self).next_poll_id
                && final(self).custom_options@ == old(self).custom_options@,
            payload@ != spec_done_payload() && payload@ == spec_all_payload() ==> {
                &&& r is SelectionChanged
                &&& final(self).polls@ == old(self).polls@
                &&& final(self).next_poll_id == old(self).next_poll_id
                &&& final(self).custom_options@.len() == old(self).custom_options@.len()
                    + spec_missing_texts(
                    old(self).custom_options@,
                    user_tg_id,
                    PollKind::DailyEvents,
                    spec_daily_event_catalogue(),
                ).len()
                &&& final(self).custom_options@.subrange(
                    0,
                    old(self).custom_options@.len() as int,
                ) == old(self).custom_options@
                &&& final(self).custom_options@.skip(
                    old(self).custom_options@.len() as int,
                ).map_values(|row: PollCustomOptionRow| row.option_text@) == spec_missing_texts(
                    old(self).custom_options@,
                    user_tg_id,
                    PollKind::DailyEvents,
                    spec_daily_event_catalogue(),
                )
                &&& forall|i: int|
                    old(self).custom_options@.len() <= i < final(self).custom_options@.len()
                        ==> is_option_row(
                        #[trigger] final(self).custom_options@[i],
                        user_tg_id,
                        PollKind::DailyEvents,
                    )
            },
            payload@ != spec_done_payload() && payload@ != spec_all_payload() && payload@
                == spec_none_payload() ==> r is SelectionChanged && final(self).polls@ == old(
                self,
            ).polls@ && final(self).next_poll_id == old(self).next_poll_id && final(self).custom_options@ == old(self).custom_options@.filter(
                |row: PollCustomOptionRow| !is_option_row(
                    row,
                    user_tg_id,
                    PollKind::DailyEvents,
                ),
            ),
            payload@ != spec_done_payload() && payload@ != spec_all_payload() && payload@
                != spec_none_payload() && (exists|i: int|
                0 <= i < spec_daily_event_catalogue().len() && payload@ == spec_option_payload(
                    #[trigger] spec_daily_event_catalogue()[i],
                )) ==> {
                &&& r is SelectionChanged
                &&& final(self).polls@ == old(self).polls@
                &&& final(self).next_poll_id == old(self).next_poll_id
                &&& exists|i: int|
                    {
                        &&& 0 <= i < spec_daily_event_catalogue().len()
                        &&& payload@ == spec_option_payload(
                            #[trigger] spec_daily_event_catalogue()[i],
                        )
                        &&& (forall|j: int|
                            0 <= j < i ==> payload@ != spec_option_payload(
                                #[trigger] spec_daily_event_catalogue()[j],
                            ))
                        &&& spec_custom_enabled(
                            old(self).custom_options@,
                            user_tg_id,
                            PollKind::DailyEvents,
                            spec_daily_event_catalogue()[i],
                        ) ==> final(self).custom_options@ == old(self).custom_options@.filter(
                            |row: PollCustomOptionRow| !is_this_option(
                                row,
                                user_tg_id,
                                PollKind::DailyEvents,
                                spec_daily_event_catalogue()[i],
                            ),
                        )
                        &&& !spec_custom_enabled(
                            old(self).custom_options@,
                            user_tg_id,
                            PollKind::DailyEvents,
                            spec_daily_event_catalogue()[i],
                        ) ==> final(self).custom_options@.len() == old(self).custom_options@.len()
                            + 1 && final(self).custom_options@.drop_last() == old(self).custom_options@
                            && is_this_option(
                            final(self).custom_options@.last(),
                            user_tg_id,
                            PollKind::DailyEvents,
                            spec_daily_event_catalogue()[i],
                        )
                    }
            },
            payload@ != spec_done_payload() && payload@ != spec_all_payload() && payload@
                != spec_none_payload() && (forall|i: int|
                0 <= i < spec_daily_event_catalogue().len() ==> payload@ != spec_option_payload(
                    #[trigger] spec_daily_event_catalogue()[i],
                )) ==> r is Unknown && final(self).polls@ == old(self).polls@ && final(self).next_poll_id == old(self).next_poll_id && final(self).custom_options@ == old(
                self,
            ).custom_options@,
    {
        let done = CallbackButtonData::new("done", Scope::DailyEvents);
        if done.matches(payload) {
            let current = self.get_for_user(user_tg_id, PollKind::DailyEvents);
            if current.options.len() == 0 {
                self.disable_pending_for_user(user_tg_id, PollKind::DailyEvents, now);
                return DailyEventsCallback::SettingsCleared;
            }
            let scheduled = self.get_scheduled_for_user(user_tg_id, PollKind::DailyEvents, now);
            if scheduled.len() == 0 {
                proof {
                    if has_scheduled_for(
                        self.polls@,
                        self.users@,
                        user_tg_id,
                        PollKind::DailyEvents,
                        now,
                    ) {
                        let w = choose|w: int|
                            0 <= w < self.polls@.len() && is_scheduled_for(
                                #[trigger] self.polls@[w],
                                self.users@,
                                user_tg_id,
                                PollKind::DailyEvents,
                                now,
                            );
                        self.polls@.lemma_filter_contains(
                            |p: Poll| is_scheduled_for(
                                p,
                                self.users@,
                                user_tg_id,
                                PollKind::DailyEvents,
                                now,
                            ),
                            w,
                        );
                        assert(false);
                    }
                }
                let np = self.create(user_tg_id, PollKind::DailyEvents, None, now);
                return DailyEventsCallback::SettingsSaved { new_poll: Some(np) };
            }
            proof {
                let f = self.polls@.filter(
                    |p: Poll| is_scheduled_for(
                        p,
                        self.users@,
                        user_tg_id,
                        PollKind::DailyEvents,
                        now,
                    ),
                );
                assert(f.len() > 0);
                self.polls@.lemma_filter_pred(
                    |p: Poll| is_scheduled_for(
                        p,
                        self.users@,
                        user_tg_id,
                        PollKind::DailyEvents,
                        now,
                    ),
                    0,
                );
                crate::poll_store::lemma_filter_preserves_rows(
                    self.polls@,
                    |p: Poll| is_scheduled_for(
                        p,
                        self.users@,
                        user_tg_id,
                        PollKind::DailyEvents,
                        now,
                    ),
                );
                let w = choose|w: int| 0 <= w < self.polls@.len() && self.polls@[w] == f[0];
                assert(is_scheduled_for(
                    self.polls@[w],
                    self.users@,
                    user_tg_id,
                    PollKind::DailyEvents,
                    now,
                ));
            }
            return DailyEventsCallback::SettingsSaved { new_poll: None };
        }
        let all = CallbackButtonData::new("all", Scope::DailyEvents);
        if all.matches(payload) {
            let catalogue = daily_event_catalogue();
            self.enable_missing_options(user_tg_id, PollKind::DailyEvents, &catalogue);
            return DailyEventsCallback::SelectionChanged;
        }
        let none = CallbackButtonData::new("none", Scope::DailyEvents);
        if none.matches(payload) {
            self.clear_user_options(user_tg_id, PollKind::DailyEvents);
            return DailyEventsCallback::SelectionChanged;
        }
        let catalogue = daily_event_catalogue();
        let n = catalogue.len();
        let mut i: usize = 0;
        let mut found = false;
        while i < n && !found
            invariant
                *self == *old(self),
                old(self).wf(),
                n == catalogue@.len(),
                catalogue@.map_values(|s: String| s@) == spec_daily_event_catalogue(),
                0 <= i <= n,
                forall|j: int|
                    0 <= j < i ==> payload@ != spec_option_payload(
                        #[trigger] spec_daily_event_catalogue()[j],
                    ),
                found ==> i < n && payload@ == spec_option_payload(
                    spec_daily_event_catalogue()[i as int],
                ),
            decreases n - i + if found {
                0int
            } else {
                1int
            },
        {
            let b = CallbackButtonData::new(catalogue[i].as_str(), Scope::DailyEvents);
            proof {
                assert(catalogue@.map_values(|s: String| s@)[i as int] == catalogue@[i as int]@);
            }
            if b.matches(payload) {
                found = true;
            } else {
                i += 1;
            }
        }
        if found {
            let text = &catalogue[i];
            proof {
                assert(catalogue@.map_values(|s: String| s@)[i as int] == text@);
            }
            self.toggle_option(user_tg_id, PollKind::DailyEvents, text.as_str());
            proof {
                let cat = spec_daily_event_catalogue();
                assert(0 <= i < cat.len());
                assert(payload@ == spec_option_payload(cat[i as int]));
                assert(forall|j: int|
                    0 <= j < i ==> payload@ != spec_option_payload(#[trigger] cat[j]));
            }
            return DailyEventsCallback::SelectionChanged;
        }
        DailyEventsCallback::Unknown
    }
}

} // verus!
