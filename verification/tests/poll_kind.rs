use ilquentir::poll_kind::PollKind;
use ilquentir::publish::{chunk_options, chunk_size};

#[test]
fn test_ord() {
    assert!(PollKind::HowWasYourDay < PollKind::DailyEvents);
}

#[test]
fn test_next_time() {
    // timestamps: 2020-01-01T00:00Z is 1577836800
    let jan1 = |h: i64, m: i64| 1_577_836_800 + h * 3600 + m * 60;
    let jan2 = |h: i64| 1_577_836_800 + 86_400 + h * 3600;

    for kind in [
        PollKind::HowWasYourDay,
        PollKind::FoodAllergy,
        PollKind::DailyEvents,
    ] {
        // match is here to be sure that it's impossible
        // to add new enum kind without testing it :)
        match kind {
            PollKind::HowWasYourDay | PollKind::DailyEvents => {
                // every day at 19:00 UTC

                assert_eq!(kind.schedule_next(jan1(0, 0)), jan1(19, 0));
                assert_eq!(kind.schedule_next(jan1(7, 0)), jan1(19, 0));
                assert_eq!(kind.schedule_next(jan1(18, 0)), jan2(19));
                assert_eq!(kind.schedule_next(jan1(19, 0)), jan2(19));
                assert_eq!(kind.schedule_next(jan1(19, 1)), jan2(19));
            }
            PollKind::FoodAllergy => {
                // every day at 18:00 UTC

                assert_eq!(kind.schedule_next(jan1(0, 0)), jan1(18, 0));
                assert_eq!(kind.schedule_next(jan1(6, 0)), jan1(18, 0));
                assert_eq!(kind.schedule_next(jan1(7, 0)), jan2(18));
                assert_eq!(kind.schedule_next(jan1(18, 0)), jan2(18));
                assert_eq!(kind.schedule_next(jan1(19, 0)), jan2(18));
                assert_eq!(kind.schedule_next(jan1(19, 1)), jan2(18));
            }
        }
    }
}

#[test]
fn schedule_next_is_strictly_after() {
    let kind = PollKind::HowWasYourDay;
    for h in 0..24 {
        let current = 1_577_836_800 + h * 3600;
        let next = kind.schedule_next(current);
        assert!(next > current);
        assert!(next <= current + 86_400 + 43_200);
        assert_eq!(next % 86_400, 19 * 3600);
    }
}

#[test]
fn custom_time_rollover() {
    // override at 06:30; from 2020-01-01T00:00Z that is only 6.5h away -> next day
    let current = 1_577_836_800;
    let sod = 6 * 3600 + 30 * 60;
    assert_eq!(
        PollKind::schedule_next_at(current, sod),
        current + 86_400 + sod
    );
    // from 18:00 the previous day's evening, 06:30 is 12.5h away -> same (next) day stays
    let evening = current + 18 * 3600;
    assert_eq!(
        PollKind::schedule_next_at(evening, sod),
        current + 86_400 + sod
    );
}

#[test]
fn kind_policy_values() {
    assert_eq!(PollKind::HowWasYourDay.overdue_interval(), 47 * 3600);
    assert_eq!(PollKind::DailyEvents.overdue_interval(), 47 * 3600);
    assert_eq!(PollKind::FoodAllergy.overdue_interval(), 23 * 3600);
    assert!(!PollKind::HowWasYourDay.allows_multiple_answers());
    assert!(PollKind::FoodAllergy.allows_multiple_answers());
    assert!(PollKind::DailyEvents.allows_multiple_answers());
    assert_eq!(PollKind::HowWasYourDay.name(), "how_was_your_day");
    assert_eq!(PollKind::FoodAllergy.name(), "food_allergy");
    assert_eq!(PollKind::DailyEvents.name(), "daily_events");
    assert_eq!(PollKind::HowWasYourDay.question(), "Как прошёл твой день?");
    assert_eq!(PollKind::all().len(), 3);
}

#[test]
fn chunking_avoids_remainder_of_one() {
    // N=11: naive chunks of 10 would leave [10, 1]; shrink to 9 -> [9, 2]
    assert_eq!(chunk_size(11), 9);
    for n in 0..200usize {
        let c = chunk_size(n);
        assert!(c >= 1 && c <= 10);
        assert!(c == 1 || n % c != 1);
        for d in (c + 1)..=10 {
            assert_eq!(n % d, 1);
        }
    }
    assert_eq!(chunk_size(10), 10);
    assert_eq!(chunk_size(5), 10);
    assert_eq!(chunk_size(21), 9);
}

#[test]
fn chunk_options_cuts_in_order() {
    let options: Vec<String> = (0..11).map(|i| format!("option {i}")).collect();
    let c = chunk_size(options.len());
    assert_eq!(c, 9);
    let chunks = chunk_options(&options, c);
    assert_eq!(chunks.len(), 2);
    assert_eq!(chunks[0].len(), 9);
    assert_eq!(chunks[1].len(), 2);
    let flat: Vec<String> = chunks.into_iter().flatten().collect();
    assert_eq!(flat, options);
}
