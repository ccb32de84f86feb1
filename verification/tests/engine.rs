use ilquentir::callbacks::{format_payload, CallbackButtonData, Scope};
use ilquentir::commands::Command;
use ilquentir::daily_events::DailyEventsCallback;
use ilquentir::flows::StartOutcome;
use ilquentir::messages::stats_for_today;
use ilquentir::poll_kind::PollKind;
use ilquentir::publish::SentMessage;
use ilquentir::schedule::ScheduleOutcome;
use ilquentir::scheduler::ShutdownToken;
use ilquentir::store::Storage;
use ilquentir::Error;

const T0: i64 = 1_700_006_400; // a midnight, well inside the calendar

fn sent(message_id: i32, poll_id: &str) -> SentMessage {
    SentMessage { message_id, poll_id: Some(poll_id.to_string()) }
}

#[test]
fn idempotent_next_scheduling() {
    let mut s = Storage::new();
    s.activate(1);
    let p = s.create(1, PollKind::HowWasYourDay, Some(T0), T0);
    let p = s.mark_published(&p, "e1".to_string(), 1).unwrap();

    let first = s.schedule_next(&p);
    assert!(matches!(first, ScheduleOutcome::Inserted(_)));
    let future: usize = s
        .polls
        .iter()
        .filter(|q| !q.published && q.chat_tg_id == 1 && q.publication_date > T0)
        .count();
    assert_eq!(future, 1);

    // a second call without an intervening publish inserts nothing
    let second = s.schedule_next(&p);
    assert!(matches!(second, ScheduleOutcome::AlreadyScheduled));
    let future: usize = s
        .polls
        .iter()
        .filter(|q| !q.published && q.chat_tg_id == 1 && q.publication_date > T0)
        .count();
    assert_eq!(future, 1);
}

#[test]
fn publish_batch_records_chunks_and_schedules_once() {
    let mut s = Storage::new();
    s.activate(1);
    // enough custom options to force two chunks (11 options incl. the catch-all)
    for i in 0..10 {
        s.toggle_option(1, PollKind::DailyEvents, &format!("event {i}"));
    }
    let p = s.create(1, PollKind::DailyEvents, Some(T0), T0);
    let plan = s.publication_plan(&p);
    assert_eq!(plan.chat_tg_id, 1);
    assert!(plan.allows_multiple_answers);
    assert_eq!(plan.options_chunks.len(), 2);
    assert_eq!(plan.options_chunks[0].len(), 9);
    assert_eq!(plan.options_chunks[1].len(), 2);

    let outcome = s
        .published_to_tg(&p, vec![sent(10, "chunk-a"), sent(11, "chunk-b")])
        .unwrap();
    // one row per chunk, each published and answerable independently
    assert!(s.get_by_tg_id("chunk-a").unwrap().published);
    assert!(s.get_by_tg_id("chunk-b").unwrap().published);
    // the next occurrence was scheduled exactly once, for 19:00 the same day
    match outcome {
        ScheduleOutcome::Inserted(np) => {
            assert_eq!(np.publication_date, T0 + 19 * 3600);
            assert!(!np.published);
        }
        other => panic!("expected an insertion, got {other:?}"),
    }
    let future: usize = s
        .polls
        .iter()
        .filter(|q| !q.published && q.publication_date > T0)
        .count();
    assert_eq!(future, 1);
}

#[test]
fn publish_skips_scheduling_when_next_exists() {
    let mut s = Storage::new();
    s.activate(1);
    let due = s.create(1, PollKind::HowWasYourDay, Some(T0), T0);
    // a future occurrence is already queued
    s.create(1, PollKind::HowWasYourDay, Some(T0 + 7200), T0);
    let rows_before = s.polls.len();
    let outcome = s.published_to_tg(&due, vec![sent(3, "only")]).unwrap();
    assert!(matches!(outcome, ScheduleOutcome::AlreadyScheduled));
    assert_eq!(s.polls.len(), rows_before);
    assert!(s.get_by_tg_id("only").unwrap().published);
}

#[test]
fn saving_settings_keeps_existing_queued_poll() {
    let mut s = Storage::new();
    s.activate(9);
    s.toggle_option(9, PollKind::DailyEvents, "Алкоголь");
    s.create(9, PollKind::DailyEvents, Some(T0 + 3600), T0);
    let done = CallbackButtonData::new("done", Scope::DailyEvents);
    match s.handle_daily_events_callback(9, &done.payload, T0) {
        DailyEventsCallback::SettingsSaved { new_poll: None } => {}
        other => panic!("expected no new poll, got {other:?}"),
    }
}

#[test]
fn publish_rejects_protocol_violations() {
    let mut s = Storage::new();
    s.activate(1);
    let p = s.create(1, PollKind::HowWasYourDay, Some(T0), T0);
    let polls_before = s.polls.len();
    let bad = vec![SentMessage { message_id: 1, poll_id: None }];
    assert_eq!(
        s.published_to_tg(&p, bad).unwrap_err(),
        Error::ChannelProtocolViolation
    );
    assert_eq!(s.polls.len(), polls_before);
    assert!(!s.polls[0].published);
}

#[test]
fn end_to_end_two_ticks() {
    let mut s = Storage::new();

    // a new user subscribes: one initial poll per subscribed kind, due now
    let polls = match s.handle_start(42, T0) {
        StartOutcome::Activated { user, polls } => {
            assert_eq!(user.tg_id, 42);
            polls
        }
        StartOutcome::AlreadyActive => panic!("fresh user reported active"),
    };
    assert_eq!(polls.len(), 1);
    assert_eq!(polls[0].kind, PollKind::HowWasYourDay);
    // subscribing again is a no-op
    assert!(matches!(s.handle_start(42, T0 + 1), StartOutcome::AlreadyActive));

    // first tick: the initial poll is due and goes out in a single message
    let now1 = T0 + 60;
    let pending = s.get_pending(now1);
    assert_eq!(pending.len(), 1);
    let plan = s.publication_plan(&pending[0]);
    assert_eq!(plan.options_chunks.len(), 1);
    assert!(plan.options_chunks[0].len() <= 10);
    assert_eq!(plan.question, "Как прошёл твой день?");
    let outcome = s.published_to_tg(&pending[0], vec![sent(1, "tick1")]).unwrap();
    let next = match outcome {
        ScheduleOutcome::Inserted(np) => np,
        other => panic!("expected an insertion, got {other:?}"),
    };
    // external id recorded, next occurrence at the default 19:00
    assert_eq!(s.get_by_tg_id("tick1").unwrap().tg_message_id, Some(1));
    assert_eq!(next.publication_date, T0 + 19 * 3600);
    assert!(s.get_pending(now1).is_empty());

    // second tick, simulated 25 hours later: the new row is due again
    let now2 = T0 + 25 * 3600;
    let pending = s.get_pending(now2);
    assert_eq!(pending.len(), 1);
    assert_eq!(pending[0].id, next.id);
    let outcome = s.published_to_tg(&pending[0], vec![sent(2, "tick2")]).unwrap();
    match outcome {
        ScheduleOutcome::Inserted(np) => {
            // 19:00 of the next day: 19:00 is less than 12h from 19:00 of day one
            assert_eq!(np.publication_date, T0 + 86_400 + 19 * 3600);
        }
        other => panic!("expected an insertion, got {other:?}"),
    }
}

#[test]
fn scope_payload_round_trip() {
    assert_eq!(Scope::DailyEvents.to_str(), "daily_events");
    assert_eq!(Scope::PromoDailyEvents.to_str(), "promo_daily");
    let b = CallbackButtonData::new("done", Scope::DailyEvents);
    assert_eq!(Scope::from_payload(&b.payload), Some(Scope::DailyEvents));
    let p = CallbackButtonData::new("promo_yes", Scope::PromoDailyEvents);
    assert_eq!(Scope::from_payload(&p.payload), Some(Scope::PromoDailyEvents));
    assert_eq!(Scope::from_payload("unrelated:1"), None);
    assert_eq!(Scope::from_payload("daily_events"), None);
}

#[test]
fn button_payloads_are_stable_and_distinct() {
    let a = CallbackButtonData::new("done", Scope::DailyEvents);
    let b = CallbackButtonData::new("done", Scope::DailyEvents);
    // the digest depends on the value alone: two builds agree
    assert!(a.matches(&b.payload));
    assert_eq!(a.value(), "done");
    // a different value yields a different payload
    let c = CallbackButtonData::new("none", Scope::DailyEvents);
    assert!(!a.matches(&c.payload));
    // the payload embeds the scope tag and a decimal digest
    assert!(a.payload.starts_with("daily_events:"));
    assert!(a.payload["daily_events:".len()..].chars().all(|ch| ch.is_ascii_digit()));
}

#[test]
fn format_payload_renders_decimal() {
    assert_eq!(format_payload(0, Scope::DailyEvents), "daily_events:0");
    assert_eq!(format_payload(12_345, Scope::PromoDailyEvents), "promo_daily:12345");
    assert_eq!(
        format_payload(u128::MAX, Scope::DailyEvents),
        format!("daily_events:{}", u128::MAX)
    );
}

#[test]
fn daily_events_callback_flow() {
    let mut s = Storage::new();
    s.activate(5);
    // an unknown payload changes nothing
    assert!(matches!(
        s.handle_daily_events_callback(5, "garbage", T0),
        DailyEventsCallback::Unknown
    ));

    // toggling one option through its button payload
    let alcohol = CallbackButtonData::new("Алкоголь", Scope::DailyEvents);
    assert!(matches!(
        s.handle_daily_events_callback(5, &alcohol.payload, T0),
        DailyEventsCallback::SelectionChanged
    ));
    assert_eq!(s.get_for_user(5, PollKind::DailyEvents).options, vec!["Алкоголь".to_string()]);

    // saving a non-empty selection creates an immediately due poll
    let done = CallbackButtonData::new("done", Scope::DailyEvents);
    match s.handle_daily_events_callback(5, &done.payload, T0) {
        DailyEventsCallback::SettingsSaved { new_poll: Some(np) } => {
            assert_eq!(np.kind, PollKind::DailyEvents);
            assert_eq!(np.publication_date, T0);
        }
        other => panic!("expected a saved selection with a new poll, got {other:?}"),
    }

    // enabling everything fills the catalogue
    let all = CallbackButtonData::new("all", Scope::DailyEvents);
    assert!(matches!(
        s.handle_daily_events_callback(5, &all.payload, T0),
        DailyEventsCallback::SelectionChanged
    ));
    assert_eq!(s.get_for_user(5, PollKind::DailyEvents).options.len(), 16);

    // clearing everything empties the set
    let none = CallbackButtonData::new("none", Scope::DailyEvents);
    assert!(matches!(
        s.handle_daily_events_callback(5, &none.payload, T0),
        DailyEventsCallback::SelectionChanged
    ));
    assert!(s.get_for_user(5, PollKind::DailyEvents).options.is_empty());

    // saving an empty selection cancels the queued daily-events poll
    match s.handle_daily_events_callback(5, &done.payload, T0 - 100) {
        DailyEventsCallback::SettingsCleared => {}
        other => panic!("expected cleared settings, got {other:?}"),
    }
    assert!(s
        .polls
        .iter()
        .all(|p| p.published || p.kind != PollKind::DailyEvents || p.publication_date <= T0 - 100));
}

#[test]
fn stats_message_wraps_graph() {
    let text = stats_for_today("GRAPH");
    assert_eq!(
        text,
        "Caught your answer!\n\nHere is how today looks so far:\nGRAPH\n\nYou can ask for the current stats any time with /get_stat."
    );
}

#[test]
fn shutdown_token_lifecycle() {
    let mut t = ShutdownToken::new();
    assert!(!t.running());
    t.start();
    assert!(t.running());
    t.shutdown();
    assert!(!t.running());
}

#[test]
fn command_parsing_round_trip() {
    for c in [
        Command::Start,
        Command::Help,
        Command::DailyEventsSettings,
        Command::SetupSchedule,
        Command::GetStat,
        Command::Stop,
    ] {
        assert_eq!(Command::parse(c.text()), Some(c));
    }
    assert_eq!(Command::parse("/unknown"), None);
    assert_eq!(Command::parse("start"), None);
}

#[test]
fn clock_is_inside_the_calendar() {
    let t = ilquentir::times::now_unix();
    assert!(t >= 0);
    assert!(t <= ilquentir::times::TS_MAX);
}

#[test]
fn error_descriptions() {
    assert_eq!(Error::NotPersisted.describe(), "poll is not persisted");
    assert_eq!(Error::NotFound.describe(), "no poll with this external id");
    assert_eq!(
        Error::ChannelProtocolViolation.describe(),
        "unexpected response to a poll publication"
    );
}
