use bgm_scheduler::bgminfo::{fill, get_new_bgms, Bgm, BgmRow, INVALID, PROCESSED, UNPROCESSED};
use bgm_scheduler::calendar::{next_air_day, weekday_of, FIRST_DAY, LAST_DAY};
use bgm_scheduler::pattern::{first_set, search_pattern, try_match};
use bgm_scheduler::task::{air_days, generate_tasks, plan_episodes, plan_show};
use bgm_scheduler::taskinfo::PENDING;

const STAMP: &str = "2023-12-25 09:30:00";

/// 2024-01-01, a Monday, counted from 0001-01-01 as day 1.
const NEW_YEAR_2024: i32 = 738_886;

fn show(start_date: &str, weekday: u8, clock: u8, episode: u8, episode_count: u8) -> Bgm {
    Bgm {
        id: 7,
        name: "Show".to_string(),
        chinese: "".to_string(),
        start_date: start_date.to_string(),
        weekday,
        clock,
        episode,
        episode_count,
        regex: "Show".to_string(),
        path: "/srv/shows".to_string(),
        state: UNPROCESSED,
    }
}

#[test]
fn weekday_of_known_days() {
    assert_eq!(weekday_of(1), 0);
    assert_eq!(weekday_of(2), 1);
    assert_eq!(weekday_of(7), 6);
    assert_eq!(weekday_of(8), 0);
    assert_eq!(weekday_of(NEW_YEAR_2024), 0);
    assert_eq!(weekday_of(719_163), 3);
}

#[test]
fn weekday_of_days_before_the_first() {
    assert_eq!(weekday_of(0), 6);
    assert_eq!(weekday_of(-1), 5);
    assert_eq!(weekday_of(-6), 0);
    assert_eq!(weekday_of(-7), 6);
    assert_eq!(weekday_of(i32::MIN), (((i32::MIN as i64 + 6) % 7 + 7) % 7) as u8);
    assert_eq!(weekday_of(i32::MAX), ((i32::MAX as i64 + 6) % 7) as u8);
}

#[test]
fn next_air_day_moves_a_whole_week_from_the_weekday() {
    assert_eq!(next_air_day(NEW_YEAR_2024, 0), NEW_YEAR_2024 + 7);
}

#[test]
fn next_air_day_moves_to_the_weekday() {
    assert_eq!(next_air_day(NEW_YEAR_2024, 1), NEW_YEAR_2024 + 1);
    assert_eq!(next_air_day(NEW_YEAR_2024, 6), NEW_YEAR_2024 + 6);
    assert_eq!(next_air_day(NEW_YEAR_2024 + 2, 0), NEW_YEAR_2024 + 7);
    assert_eq!(next_air_day(NEW_YEAR_2024 + 6, 5), NEW_YEAR_2024 + 12);
}

#[test]
fn air_days_from_the_weekday_are_a_week_apart() {
    assert_eq!(
        air_days(NEW_YEAR_2024, 0, 3),
        Some(vec![NEW_YEAR_2024, NEW_YEAR_2024 + 7, NEW_YEAR_2024 + 14])
    );
}

#[test]
fn air_days_from_another_day_move_onto_the_weekday_first() {
    // Wednesday 2024-01-03, airing on Mondays.
    assert_eq!(
        air_days(NEW_YEAR_2024 + 2, 0, 4),
        Some(vec![
            NEW_YEAR_2024 + 2,
            NEW_YEAR_2024 + 7,
            NEW_YEAR_2024 + 14,
            NEW_YEAR_2024 + 21
        ])
    );
}

#[test]
fn air_days_of_no_episode() {
    assert_eq!(air_days(NEW_YEAR_2024, 0, 0), Some(vec![]));
    assert_eq!(air_days(-5, 0, 0), Some(vec![]));
}

#[test]
fn air_days_need_a_weekday() {
    assert_eq!(air_days(NEW_YEAR_2024, 7, 3), None);
    assert_eq!(air_days(NEW_YEAR_2024, 7, 0), None);
}

#[test]
fn air_days_stay_within_the_calendar() {
    assert_eq!(air_days(FIRST_DAY - 1, 0, 1), None);
    assert_eq!(air_days(FIRST_DAY, 0, 1), Some(vec![FIRST_DAY]));
    assert_eq!(air_days(LAST_DAY, 0, 1), Some(vec![LAST_DAY]));
    assert_eq!(air_days(LAST_DAY, 0, 2), None);
    assert_eq!(air_days(LAST_DAY + 1, 0, 1), None);
    // 9999-12-31 is a Friday: the Friday before it still has one week left.
    assert_eq!(weekday_of(LAST_DAY), 4);
    assert_eq!(air_days(LAST_DAY - 7, 4, 2), Some(vec![LAST_DAY - 7, LAST_DAY]));
    assert_eq!(air_days(LAST_DAY - 7, 4, 3), None);
}

#[test]
fn search_pattern_pads_to_two_digits() {
    assert_eq!(search_pattern("Show", 7), ".*Show.*07.*");
    assert_eq!(search_pattern("Show", 0), ".*Show.*00.*");
    assert_eq!(search_pattern("Show", 10), ".*Show.*10.*");
    assert_eq!(search_pattern("Show", 99), ".*Show.*99.*");
    assert_eq!(search_pattern("", 42), ".*.*42.*");
}

#[test]
fn search_pattern_keeps_three_digits() {
    assert_eq!(search_pattern("Show", 100), ".*Show.*100.*");
    assert_eq!(search_pattern("Show", 205), ".*Show.*205.*");
    assert_eq!(search_pattern("Show", 255), ".*Show.*255.*");
}

#[test]
fn pattern_matches_its_episode_only() {
    assert_eq!(try_match(".*Show.*07.*", "[Group] Show - 07 [1080p]"), Some(true));
    assert_eq!(try_match(".*Show.*07.*", "[Group] Show - 17 [1080p]"), Some(false));
}

#[test]
fn pattern_that_does_not_compile_gives_no_verdict() {
    assert_eq!(try_match(".*(Show.*07.*", "[Group] Show - 07 [1080p]"), None);
    assert_eq!(try_match("[", ""), None);
}

#[test]
fn first_set_finds_the_first() {
    assert_eq!(first_set(&vec![]), None);
    assert_eq!(first_set(&vec![false, false]), None);
    assert_eq!(first_set(&vec![true]), Some(0));
    assert_eq!(first_set(&vec![false, true, true]), Some(1));
    assert_eq!(first_set(&vec![false, false, true]), Some(2));
}

#[test]
fn show_on_its_weekday_airs_weekly() {
    let tasks = plan_show(&show("20240101", 1, 22, 1, 2), STAMP).unwrap();
    assert_eq!(tasks.len(), 2);
    assert_eq!(tasks[0].exec_time, "2024-01-01 22:00:00");
    assert_eq!(tasks[1].exec_time, "2024-01-08 22:00:00");
}

#[test]
fn show_off_its_weekday_moves_onto_it() {
    // 2024-01-03 is a Wednesday; the show airs on Mondays.
    let tasks = plan_show(&show("20240103", 1, 9, 1, 4), STAMP).unwrap();
    let times: Vec<&str> = tasks.iter().map(|t| t.exec_time.as_str()).collect();
    assert_eq!(
        times,
        vec![
            "2024-01-03 09:00:00",
            "2024-01-08 09:00:00",
            "2024-01-15 09:00:00",
            "2024-01-22 09:00:00"
        ]
    );
}

#[test]
fn show_crosses_month_and_leap_day() {
    // 2024-02-22 is a Thursday.
    let tasks = plan_show(&show("20240222", 4, 0, 1, 3), STAMP).unwrap();
    let times: Vec<&str> = tasks.iter().map(|t| t.exec_time.as_str()).collect();
    assert_eq!(
        times,
        vec!["2024-02-22 00:00:00", "2024-02-29 00:00:00", "2024-03-07 00:00:00"]
    );
}

#[test]
fn planned_task_fields() {
    let tasks = plan_show(&show("20240101", 1, 22, 6, 2), STAMP).unwrap();
    let first = &tasks[0];
    assert_eq!(first.id, 0);
    assert_eq!(first.bgm_id, 7);
    assert_eq!(first.episode, 6);
    assert_eq!(first.regex, ".*Show.*06.*");
    assert_eq!(first.path, "/srv/shows");
    assert_eq!(first.uri, "");
    assert_eq!(first.gid, "");
    assert_eq!(first.create_time, STAMP);
    assert_eq!(first.finish_time, "");
    assert_eq!(first.state, PENDING);
    assert_eq!(tasks[1].episode, 7);
    assert_eq!(tasks[1].regex, ".*Show.*07.*");
}

#[test]
fn planned_tasks_are_as_many_as_episodes() {
    for count in [0u8, 1, 2, 12, 26, 255] {
        let tasks = plan_show(&show("20240101", 3, 22, 0, count), STAMP).unwrap();
        assert_eq!(tasks.len(), count as usize);
    }
}

#[test]
fn planned_schedule_never_goes_back() {
    for weekday in 1u8..=7 {
        let tasks = plan_show(&show("20240103", weekday, 22, 1, 10), STAMP).unwrap();
        for pair in tasks.windows(2) {
            assert!(pair[0].exec_time < pair[1].exec_time);
        }
    }
}

#[test]
fn unreadable_start_date_gives_no_task() {
    assert!(plan_show(&show("not a date", 1, 22, 1, 2), STAMP).is_none());
    assert!(plan_show(&show("", 1, 22, 1, 2), STAMP).is_none());
    assert!(plan_show(&show("20240230", 1, 22, 1, 2), STAMP).is_none());
    assert!(plan_show(&show("2024-01-01", 1, 22, 1, 2), STAMP).is_none());
}

#[test]
fn weekday_must_be_one_to_seven() {
    assert!(plan_show(&show("20240101", 0, 22, 1, 2), STAMP).is_none());
    assert!(plan_show(&show("20240101", 8, 22, 1, 2), STAMP).is_none());
    assert!(plan_show(&show("20240101", 0, 22, 1, 0), STAMP).is_none());
    assert!(plan_show(&show("20240101", 7, 22, 1, 2), STAMP).is_some());
}

#[test]
fn air_time_must_be_an_hour_of_the_day() {
    assert!(plan_show(&show("20240101", 1, 24, 1, 2), STAMP).is_none());
    assert!(plan_show(&show("20240101", 1, 23, 1, 2), STAMP).is_some());
    // With no episode the air time is never written.
    assert_eq!(plan_show(&show("20240101", 1, 24, 1, 0), STAMP).unwrap().len(), 0);
}

#[test]
fn episode_numbers_must_fit() {
    assert!(plan_show(&show("20240101", 1, 22, 255, 2), STAMP).is_none());
    let tasks = plan_show(&show("20240101", 1, 22, 255, 1), STAMP).unwrap();
    assert_eq!(tasks[0].episode, 255);
    assert_eq!(tasks[0].regex, ".*Show.*255.*");
    let tasks = plan_show(&show("20240101", 1, 22, 1, 255), STAMP).unwrap();
    assert_eq!(tasks[254].episode, 255);
}

#[test]
fn schedule_must_stay_within_the_calendar() {
    assert!(plan_show(&show("99991231", 5, 22, 1, 1), STAMP).is_some());
    assert!(plan_show(&show("99991231", 5, 22, 1, 2), STAMP).is_none());
    assert!(plan_show(&show("00000101", 1, 22, 1, 1), STAMP).is_none());
    let tasks = plan_show(&show("00010101", 1, 5, 1, 1), STAMP).unwrap();
    assert_eq!(tasks[0].exec_time, "0001-01-01 05:00:00");
}

#[test]
fn plan_episodes_from_a_given_day() {
    let tasks = plan_episodes(&show("ignored", 2, 8, 3, 2), NEW_YEAR_2024, STAMP).unwrap();
    assert_eq!(tasks.len(), 2);
    assert_eq!(tasks[0].exec_time, "2024-01-01 08:00:00");
    assert_eq!(tasks[1].exec_time, "2024-01-02 08:00:00");
    assert_eq!(tasks[1].regex, ".*Show.*04.*");
    assert!(plan_episodes(&show("ignored", 9, 8, 3, 2), NEW_YEAR_2024, STAMP).is_none());
}

#[test]
fn ingest_marks_each_show() {
    let shows = vec![
        show("20240101", 1, 22, 1, 2),
        show("garbage", 1, 22, 1, 2),
        show("20240105", 5, 20, 1, 1),
    ];
    let made = generate_tasks(&shows, STAMP);
    assert_eq!(made.shows.len(), 3);
    assert_eq!(made.shows[0].state, PROCESSED);
    assert_eq!(made.shows[1].state, INVALID);
    assert_eq!(made.shows[2].state, PROCESSED);
    assert_eq!(made.shows[1].start_date, "garbage");
    assert_eq!(made.shows[0].id, 7);
    let times: Vec<&str> = made.tasks.iter().map(|t| t.exec_time.as_str()).collect();
    assert_eq!(
        times,
        vec!["2024-01-01 22:00:00", "2024-01-08 22:00:00", "2024-01-05 20:00:00"]
    );
}

#[test]
fn ingest_of_an_unreadable_show_makes_nothing() {
    let made = generate_tasks(&vec![show("2024/01/01", 1, 22, 1, 2)], STAMP);
    assert_eq!(made.tasks.len(), 0);
    assert_eq!(made.shows.len(), 1);
    assert_eq!(made.shows[0].state, INVALID);
}

#[test]
fn ingest_of_nothing() {
    let made = generate_tasks(&vec![], STAMP);
    assert!(made.tasks.is_empty());
    assert!(made.shows.is_empty());
}

fn row(state: u8) -> BgmRow {
    BgmRow {
        id: 3,
        name: "Name".to_string(),
        chinese: None,
        start_date: None,
        weekday: 2,
        clock: None,
        episode: None,
        episode_count: None,
        regex: "Name".to_string(),
        path: None,
        state,
    }
}

#[test]
fn empty_columns_read_as_defaults() {
    let show = fill(&row(UNPROCESSED));
    assert_eq!(show.id, 3);
    assert_eq!(show.name, "Name");
    assert_eq!(show.chinese, "");
    assert_eq!(show.start_date, "");
    assert_eq!(show.weekday, 2);
    assert_eq!(show.clock, 0);
    assert_eq!(show.episode, 0);
    assert_eq!(show.episode_count, 0);
    assert_eq!(show.regex, "Name");
    assert_eq!(show.path, "D:/download");
    assert_eq!(show.state, UNPROCESSED);
}

#[test]
fn filled_columns_are_kept() {
    let mut full = row(PROCESSED);
    full.chinese = Some("名".to_string());
    full.start_date = Some("20240101".to_string());
    full.clock = Some(22);
    full.episode = Some(4);
    full.episode_count = Some(12);
    full.path = Some("/srv".to_string());
    let show = fill(&full);
    assert_eq!(show.chinese, "名");
    assert_eq!(show.start_date, "20240101");
    assert_eq!(show.clock, 22);
    assert_eq!(show.episode, 4);
    assert_eq!(show.episode_count, 12);
    assert_eq!(show.path, "/srv");
    assert_eq!(show.state, PROCESSED);
}

#[test]
fn new_shows_are_the_unprocessed_rows() {
    let mut second = row(UNPROCESSED);
    second.id = 9;
    let rows = vec![row(PROCESSED), row(UNPROCESSED), row(INVALID), second];
    let shows = get_new_bgms(&rows);
    assert_eq!(shows.len(), 2);
    assert_eq!(shows[0].id, 3);
    assert_eq!(shows[1].id, 9);
    assert!(get_new_bgms(&vec![row(PROCESSED)]).is_empty());
}

#[test]
fn ingest_leaves_processed_shows_out() {
    let shows = get_new_bgms(&vec![row(PROCESSED), row(INVALID)]);
    let made = generate_tasks(&shows, STAMP);
    assert!(made.tasks.is_empty());
    assert!(made.shows.is_empty());
}
