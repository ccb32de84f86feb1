use ilquentir::answer_store::{ChannelPoll, ChannelPollOption};
use ilquentir::flows::{overdue_message, webapp_send_time};
use ilquentir::poll_kind::PollKind;
use ilquentir::store::Storage;
use ilquentir::Error;

const T0: i64 = 1_700_006_400; // a midnight, well inside the calendar

fn published_poll(s: &mut Storage, user: i64, kind: PollKind, at: i64, tg_id: &str) -> ilquentir::poll::Poll {
    let p = s.create(user, kind, Some(at), at);
    s.mark_published(&p, tg_id.to_string(), 77).unwrap()
}

#[test]
fn get_pending_exactness() {
    let mut s = Storage::new();
    s.activate(2);
    s.activate(1);
    let due_u2 = s.create(2, PollKind::HowWasYourDay, Some(T0 - 100), T0);
    let due_u1_daily = s.create(1, PollKind::DailyEvents, Some(T0 - 100), T0);
    let due_u1 = s.create(1, PollKind::HowWasYourDay, Some(T0 - 50), T0);
    // future poll: not due yet
    s.create(1, PollKind::FoodAllergy, Some(T0 + 1000), T0);
    // published poll: never pending again
    let p = s.create(2, PollKind::FoodAllergy, Some(T0 - 300), T0);
    s.mark_published(&p, "ext1".to_string(), 5).unwrap();
    // poll of an inactive user
    s.create(3, PollKind::HowWasYourDay, Some(T0 - 100), T0);

    let pending = s.get_pending(T0);
    assert_eq!(pending.len(), 3);
    // deterministic order: by chat id, then by kind
    assert_eq!(pending[0].id, due_u1.id);
    assert_eq!(pending[1].id, due_u1_daily.id);
    assert_eq!(pending[2].id, due_u2.id);
    for p in &pending {
        assert!(!p.published);
        assert!(p.publication_date < T0);
        assert!(p.chat_tg_id == 1 || p.chat_tg_id == 2);
    }
    // a poll dated exactly `now` is not due (strict <)
    let mut s2 = Storage::new();
    s2.activate(1);
    s2.create(1, PollKind::HowWasYourDay, Some(T0), T0);
    assert!(s2.get_pending(T0).is_empty());
    assert_eq!(s2.get_pending(T0 + 1).len(), 1);
}

#[test]
fn overdue_detection_boundary() {
    let mut s = Storage::new();
    s.activate(1);
    let interval = PollKind::HowWasYourDay.overdue_interval();
    published_poll(&mut s, 1, PollKind::HowWasYourDay, T0, "ext1");

    // not eligible while now - publication_date <= interval
    assert!(s.get_overdue(PollKind::HowWasYourDay, T0 + interval).is_empty());
    // eligible one second past the threshold
    let overdue = s.get_overdue(PollKind::HowWasYourDay, T0 + interval + 1);
    assert_eq!(overdue.len(), 1);
    assert_eq!(overdue[0].chat_tg_id, 1);
    // other kinds are not swept by this query
    assert!(s.get_overdue(PollKind::FoodAllergy, T0 + interval + 1).is_empty());
}

#[test]
fn overdue_skips_answered_and_marked() {
    let mut s = Storage::new();
    s.activate(1);
    let interval = PollKind::HowWasYourDay.overdue_interval();
    let p1 = published_poll(&mut s, 1, PollKind::HowWasYourDay, T0, "ext1");
    published_poll(&mut s, 1, PollKind::HowWasYourDay, T0, "ext2");

    // an answered poll is never overdue
    let event = ChannelPoll {
        id: "ext1".to_string(),
        options: vec![ChannelPollOption { text: "+1".to_string(), voter_count: 1 }],
    };
    s.save_answer(&event).unwrap();
    let overdue = s.get_overdue(PollKind::HowWasYourDay, T0 + interval + 1);
    assert_eq!(overdue.len(), 1);
    assert_eq!(overdue[0].tg_id.as_deref(), Some("ext2"));

    // marking it removes it from the next sweep
    assert!(s.set_overdue(&overdue[0]));
    assert!(s.get_overdue(PollKind::HowWasYourDay, T0 + interval + 1).is_empty());
    // a vanished row is no error, only reported
    let mut gone = p1.clone();
    gone.id = Some(9_999);
    assert!(!s.set_overdue(&gone));
}

#[test]
fn answer_ingestion_multiplicity() {
    let mut s = Storage::new();
    s.activate(1);
    published_poll(&mut s, 1, PollKind::FoodAllergy, T0, "poll9");

    let event = ChannelPoll {
        id: "poll9".to_string(),
        options: vec![
            ChannelPollOption { text: "Shortness of breath".to_string(), voter_count: 1 },
            ChannelPollOption { text: "Itching".to_string(), voter_count: 0 },
            ChannelPollOption { text: "Bloating".to_string(), voter_count: 2 },
        ],
    };
    let poll = s.save_answer(&event).unwrap();
    assert_eq!(poll.tg_id.as_deref(), Some("poll9"));
    assert_eq!(s.answers.len(), 2);
    assert_eq!(s.answers[0].poll_tg_id, "poll9");
    assert_eq!(s.answers[0].selected_value, 0);
    assert_eq!(s.answers[0].selected_value_text, "Shortness of breath");
    assert_eq!(s.answers[1].selected_value, 2);
    assert_eq!(s.answers[1].selected_value_text, "Bloating");
}

#[test]
fn answer_for_unknown_poll_is_not_found() {
    let mut s = Storage::new();
    let event = ChannelPoll {
        id: "nope".to_string(),
        options: vec![ChannelPollOption { text: "x".to_string(), voter_count: 1 }],
    };
    assert_eq!(s.save_answer(&event).unwrap_err(), Error::NotFound);
    assert!(s.answers.is_empty());
}

#[test]
fn unsubscribe_cancels_future_polls() {
    let mut s = Storage::new();
    s.activate(1);
    s.activate(2);
    // future unpublished polls of user 1, two kinds
    s.create(1, PollKind::HowWasYourDay, Some(T0 + 500), T0);
    s.create(1, PollKind::DailyEvents, Some(T0 + 900), T0);
    // an already-due poll of user 1 stays
    let due = s.create(1, PollKind::FoodAllergy, Some(T0 - 5), T0);
    // a published poll of user 1 stays
    let pb = published_poll(&mut s, 1, PollKind::HowWasYourDay, T0 - 100, "old");
    // user 2 is untouched
    let other = s.create(2, PollKind::HowWasYourDay, Some(T0 + 500), T0);

    let user = s.deactivate(1, T0).unwrap();
    assert!(!user.active);
    assert_eq!(s.polls.len(), 3);
    let ids: Vec<Option<i64>> = s.polls.iter().map(|p| p.id).collect();
    assert!(ids.contains(&due.id));
    assert!(ids.contains(&pb.id));
    assert!(ids.contains(&other.id));
    // and the user no longer gets pending polls
    assert!(s.get_pending(T0 + 10).iter().all(|p| p.chat_tg_id != 1));

    // deactivating an unknown user fails and changes nothing
    assert_eq!(s.deactivate(99, T0).unwrap_err(), Error::NotFound);
    assert_eq!(s.polls.len(), 3);
}

#[test]
fn user_lifecycle() {
    let mut s = Storage::new();
    assert!(s.get_user_by_id(7).is_none());
    let u = s.activate(7);
    assert!(u.active);
    assert_eq!(s.get_user_by_id(7).unwrap().tg_id, 7);
    s.deactivate(7, T0).unwrap();
    // an inactive user is not reported
    assert!(s.get_user_by_id(7).is_none());
    // reactivation flips the same row back
    s.activate(7);
    assert_eq!(s.users.len(), 1);
    assert_eq!(s.get_active().len(), 1);
}

#[test]
fn custom_options_toggle_and_clear() {
    let mut s = Storage::new();
    let kind = PollKind::DailyEvents;
    s.toggle_option(1, kind, "Алкоголь");
    s.toggle_option(1, kind, "Солнечно на улице");
    let current = s.get_for_user(1, kind);
    assert_eq!(current.options, vec!["Алкоголь".to_string(), "Солнечно на улице".to_string()]);

    // toggling an enabled option removes it
    s.toggle_option(1, kind, "Алкоголь");
    assert_eq!(s.get_for_user(1, kind).options, vec!["Солнечно на улице".to_string()]);

    // another user's set is independent
    assert!(s.get_for_user(2, kind).options.is_empty());

    s.clear_user_options(1, kind);
    assert!(s.get_for_user(1, kind).options.is_empty());
}

#[test]
fn options_lists_per_kind() {
    let mut s = Storage::new();
    let hw = PollKind::HowWasYourDay.options(&s, 1);
    assert_eq!(hw, vec!["+2 (супер!)", "+1", "0", "-1", "-2 (отвратительно)"]);
    let fa = PollKind::FoodAllergy.options(&s, 1);
    assert_eq!(fa.len(), 4);
    // daily events: the user's enabled options plus the fixed catch-all
    s.toggle_option(1, PollKind::DailyEvents, "Секс");
    let de = PollKind::DailyEvents.options(&s, 1);
    assert_eq!(de, vec!["Секс".to_string(), "Ничего".to_string()]);
    // with nothing enabled, only the catch-all remains
    let de2 = PollKind::DailyEvents.options(&s, 2);
    assert_eq!(de2, vec!["Ничего".to_string()]);
}

#[test]
fn schedule_override_is_used_and_retargets() {
    let mut s = Storage::new();
    s.activate(1);
    // a scheduled poll at tomorrow 19:00
    let scheduled_at = T0 + 86_400 + 19 * 3600;
    s.create(1, PollKind::HowWasYourDay, Some(scheduled_at), T0);
    // the user prefers 06:30 UTC
    let sod = 6 * 3600 + 30 * 60;
    s.apply_schedule_override(1, sod, T0);
    assert_eq!(s.override_for(1, PollKind::HowWasYourDay), Some(sod));
    assert_eq!(s.override_for(1, PollKind::DailyEvents), Some(sod));
    assert_eq!(s.override_for(1, PollKind::FoodAllergy), None);
    assert_eq!(s.get_settings(1, PollKind::DailyEvents).unwrap().send_at_utc, Some(sod));
    // the queued poll moved to tomorrow 06:30
    assert_eq!(s.polls[0].publication_date, T0 + 86_400 + sod);

    // the next occurrence computed from a published poll uses the override
    let p = published_poll(&mut s, 1, PollKind::DailyEvents, T0, "x1");
    match s.schedule_next(&p) {
        ilquentir::schedule::ScheduleOutcome::Inserted(np) => {
            // 06:30 is less than 12h after midnight: rolls to the next day
            assert_eq!(np.publication_date, T0 + 86_400 + sod);
        }
        other => panic!("expected an insertion, got {other:?}"),
    }
}

#[test]
fn webapp_send_time_parsing() {
    // 2023-01-01T12:00:00Z in milliseconds, with a timezone offset tail
    assert_eq!(webapp_send_time("1672574400000_-180"), Ok(12 * 3600));
    // midnight
    assert_eq!(webapp_send_time("1672531200000_0"), Ok(0));
    // malformed submissions
    assert_eq!(webapp_send_time("no-underscore"), Err(Error::ChannelProtocolViolation));
    assert_eq!(webapp_send_time("_120"), Err(Error::ChannelProtocolViolation));
    assert_eq!(webapp_send_time("12a34_0"), Err(Error::ChannelProtocolViolation));
    assert_eq!(
        webapp_send_time("999999999999999999999999999999999999999_0"),
        Err(Error::ChannelProtocolViolation)
    );
}

#[test]
fn overdue_message_cases() {
    let mut s = Storage::new();
    let unpublished = s.create(1, PollKind::HowWasYourDay, Some(T0), T0);
    assert_eq!(overdue_message(&unpublished), Err(Error::NotPersisted));
    let p = published_poll(&mut s, 1, PollKind::HowWasYourDay, T0, "e1");
    assert_eq!(overdue_message(&p), Ok(Some(77)));
}

#[test]
fn count_answered_distinct_polls() {
    let mut s = Storage::new();
    s.activate(1);
    published_poll(&mut s, 1, PollKind::HowWasYourDay, T0, "a");
    published_poll(&mut s, 1, PollKind::HowWasYourDay, T0, "b");
    published_poll(&mut s, 1, PollKind::FoodAllergy, T0, "c");
    assert_eq!(s.count_answered_polls(1, PollKind::HowWasYourDay), 0);
    let vote = |id: &str| ChannelPoll {
        id: id.to_string(),
        options: vec![ChannelPollOption { text: "+1".to_string(), voter_count: 1 }],
    };
    s.save_answer(&vote("a")).unwrap();
    s.save_answer(&vote("a")).unwrap(); // second answer to the same poll
    assert_eq!(s.count_answered_polls(1, PollKind::HowWasYourDay), 1);
    s.save_answer(&vote("b")).unwrap();
    assert_eq!(s.count_answered_polls(1, PollKind::HowWasYourDay), 2);
    // other kind and other user are counted separately
    assert_eq!(s.count_answered_polls(1, PollKind::FoodAllergy), 0);
    assert_eq!(s.count_answered_polls(2, PollKind::HowWasYourDay), 0);
}

#[test]
fn mark_published_failures() {
    let mut s = Storage::new();
    let mut ghostless = s.create(1, PollKind::HowWasYourDay, Some(T0), T0);
    // a poll whose row has vanished
    s.polls.clear();
    assert_eq!(
        s.mark_published(&ghostless, "x".to_string(), 1).unwrap_err(),
        Error::NotFound
    );
    // a poll that was never persisted
    ghostless.id = None;
    assert_eq!(
        s.mark_published(&ghostless, "x".to_string(), 1).unwrap_err(),
        Error::NotPersisted
    );
}

#[test]
fn update_of_unsaved_poll_is_rejected() {
    let mut s = Storage::new();
    let mut p = s.create(1, PollKind::HowWasYourDay, Some(T0), T0);
    p.id = None;
    assert_eq!(s.update(&p).unwrap_err(), Error::NotPersisted);
    assert_eq!(s.polls.len(), 1);
    assert!(!s.polls[0].published);
}

#[test]
fn get_by_tg_id_finds_first() {
    let mut s = Storage::new();
    published_poll(&mut s, 1, PollKind::HowWasYourDay, T0, "dup");
    published_poll(&mut s, 2, PollKind::HowWasYourDay, T0, "dup");
    let found = s.get_by_tg_id("dup").unwrap();
    assert_eq!(found.chat_tg_id, 1);
    assert_eq!(s.get_by_tg_id("missing").unwrap_err(), Error::NotFound);
}
