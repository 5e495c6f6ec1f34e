//! Calendar ingest: from shows to the tasks of their episodes.

use vstd::prelude::*;
use vstd::string::*;
use crate::bgminfo::{bgm_views, Bgm, BgmView, INVALID, PROCESSED, UNPROCESSED};
use crate::calendar::{
    episode_day, format_schedule, lemma_episode_day_step, lemma_schedule_ordered,
    lemma_schedule_spacing, next_air_day, parse_start_date, schedule_text, start_day_of,
    FIRST_DAY, LAST_DAY,
};
use crate::pattern::{pattern_text, search_pattern};
use crate::taskinfo::{task_views, Task, TaskView, PENDING};

verus! {

/// Whether `count` episodes from day `start` on all air within the
/// calendar that schedules are written in.
pub open spec fn fits_calendar(start: int, target: int, count: nat) -> bool {
    count > 0 ==> FIRST_DAY <= start && episode_day(start, target, (count - 1) as nat) <= LAST_DAY
}

/// The air days of `count` episodes from day `start` on, on weekday
/// `target` (0 for Monday up to 6 for Sunday).
///
/// There are none where `target` is no weekday, or where an episode would
/// air outside the calendar.
pub fn air_days(start: i32, target: u8, count: u8) -> (days: Option<Vec<i32>>)
    ensures
        days is Some <==> target < 7 && fits_calendar(start as int, target as int, count as nat),
        days matches Some(v) ==> {
            &&& v.len() == count
            &&& forall|k: int|
                0 <= k < v.len() ==> #[trigger] v[k] == episode_day(
                    start as int,
                    target as int,
                    k as nat,
                )
        },
{
    if target >= 7 {
        return None;
    }
    let mut days: Vec<i32> = Vec::new();
    if count == 0 {
        return Some(days);
    }
    if start < FIRST_DAY {
        return None;
    }
    let mut day: i32 = start;
    let mut k: u8 = 0;
    while k < count
        invariant
            target < 7,
            FIRST_DAY <= start,
            k <= count,
            days.len() == k,
            day == episode_day(start as int, target as int, k as nat),
            forall|j: int|
                0 <= j < k ==> #[trigger] days[j] == episode_day(
                    start as int,
                    target as int,
                    j as nat,
                ),
            forall|j: int| 0 <= j < k ==> #[trigger] days[j] <= LAST_DAY,
        decreases count - k,
    {
        if day > LAST_DAY {
            proof {
                lemma_schedule_ordered(start as int, target as int, k as nat, (count - 1) as nat);
            }
            return None;
        }
        days.push(day);
        proof {
            lemma_episode_day_step(start as int, target as int, k as nat);
        }
        day = next_air_day(day, target);
        k += 1;
    }
    assert(days[count - 1] == episode_day(start as int, target as int, (count - 1) as nat));
    Some(days)
}

/// Whether a show can be scheduled, its start date having been read as
/// `start`: the date was read, the weekday is one of 1 to 7, and, if the
/// show has episodes, its air time is an hour of the day, its last episode
/// number is at most 255, and all episodes air within the calendar.
pub open spec fn plannable(show: BgmView, start: Option<int>) -> bool {
    &&& start is Some
    &&& 1 <= show.weekday <= 7
    &&& show.episode_count > 0 ==> {
        &&& show.clock < 24
        &&& show.episode + show.episode_count <= 256
        &&& fits_calendar(start->0, show.weekday - 1, show.episode_count as nat)
    }
}

/// Whether a show can be scheduled.
pub open spec fn show_valid(show: BgmView) -> bool {
    plannable(show, start_day_of(show.start_date))
}

/// The task of episode `k` of a show that starts on day `start`, created at
/// `stamp`: pending, with no release and no handle yet.
pub open spec fn planned_task(show: BgmView, start: int, k: int, stamp: Seq<char>) -> TaskView {
    TaskView {
        id: 0,
        bgm_id: show.id,
        episode: (show.episode + k) as u8,
        regex: pattern_text(show.regex, (show.episode + k) as nat),
        path: show.path,
        uri: Seq::empty(),
        gid: Seq::empty(),
        exec_time: schedule_text(
            episode_day(start, show.weekday - 1, k as nat),
            show.clock as int,
        ),
        create_time: stamp,
        finish_time: Seq::empty(),
        state: PENDING,
    }
}

/// The tasks of a show that starts on day `start`: one for each episode, in
/// order.
pub open spec fn planned(show: BgmView, start: int, stamp: Seq<char>) -> Seq<TaskView> {
    Seq::new(show.episode_count as nat, |k: int| planned_task(show, start, k, stamp))
}

/// The tasks that ingest makes of one show: those planned where the show
/// can be scheduled, none otherwise.
pub open spec fn show_tasks(show: BgmView, stamp: Seq<char>) -> Seq<TaskView> {
    if show_valid(show) {
        planned(show, start_day_of(show.start_date)->0, stamp)
    } else {
        Seq::empty()
    }
}

/// The tasks that ingest makes of a list of shows: those of each show, in
/// the order of the shows.
pub open spec fn ingest_tasks(shows: Seq<BgmView>, stamp: Seq<char>) -> Seq<TaskView>
    decreases shows.len(),
{
    if shows.len() == 0 {
        Seq::empty()
    } else {
        ingest_tasks(shows.drop_last(), stamp) + show_tasks(shows.last(), stamp)
    }
}

/// A show after ingest: processed where it could be scheduled, invalid
/// otherwise, and unchanged in all else.
pub open spec fn ingested(show: BgmView) -> BgmView {
    BgmView {
        state: if show_valid(show) {
            PROCESSED
        } else {
            INVALID
        },
        ..show
    }
}

/// Plans the tasks of a show whose start date was read as day `start`.
///
/// Returns `None` where the show cannot be scheduled.
pub fn plan_episodes(show: &Bgm, start: i32, stamp: &str) -> (tasks: Option<Vec<Task>>)
    ensures
        tasks is Some <==> plannable(show@, Some(start as int)),
        tasks matches Some(v) ==> task_views(v@) == planned(show@, start as int, stamp@),
{
    if show.weekday < 1 || show.weekday > 7 {
        return None;
    }
    let target: u8 = show.weekday - 1;
    let mut tasks: Vec<Task> = Vec::new();
    if show.episode_count == 0 {
        assert(task_views(tasks@) =~= planned(show@, start as int, stamp@));
        return Some(tasks);
    }
    if show.clock >= 24 || show.episode as u16 + show.episode_count as u16 > 256 {
        return None;
    }
    let days = match air_days(start, target, show.episode_count) {
        Some(days) => days,
        None => {
            return None;
        },
    };
    let mut k: usize = 0;
    while k < days.len()
        invariant
            k <= days.len(),
            days.len() == show.episode_count,
            show.clock < 24,
            show.episode + show.episode_count <= 256,
            target == show.weekday - 1,
            target < 7,
            FIRST_DAY <= start,
            fits_calendar(start as int, target as int, show.episode_count as nat),
            forall|j: int|
                0 <= j < days.len() ==> #[trigger] days[j] == episode_day(
                    start as int,
                    target as int,
                    j as nat,
                ),
            tasks.len() == k,
            forall|j: int|
                0 <= j < k ==> (#[trigger] tasks[j])@ == planned_task(
                    show@,
                    start as int,
                    j,
                    stamp@,
                ),
        decreases days.len() - k,
    {
        let day: i32 = days[k];
        proof {
            lemma_schedule_ordered(start as int, target as int, 0, k as nat);
            lemma_schedule_ordered(
                start as int,
                target as int,
                k as nat,
                (show.episode_count - 1) as nat,
            );
        }
        let episode: u8 = show.episode + k as u8;
        let task = Task {
            id: 0,
            bgm_id: show.id,
            episode,
            regex: search_pattern(show.regex.as_str(), episode),
            path: show.path.clone(),
            uri: String::new(),
            gid: String::new(),
            exec_time: format_schedule(day, show.clock),
            create_time: String::from_str(stamp),
            finish_time: String::new(),
            state: PENDING,
        };
        assert(task@ == planned_task(show@, start as int, k as int, stamp@));
        tasks.push(task);
        k += 1;
    }
    assert(task_views(tasks@) =~= planned(show@, start as int, stamp@));
    Some(tasks)
}

/// Plans the tasks of a show: one for each episode, the first on the start
/// date and the others on the show's weekday, at its air time.
///
/// Returns `None` where the show cannot be scheduled; no task is made of
/// such a show.
pub fn plan_show(show: &Bgm, stamp: &str) -> (tasks: Option<Vec<Task>>)
    ensures
        tasks is Some <==> show_valid(show@),
        tasks matches Some(v) ==> {
            &&& v.len() == show.episode_count
            &&& task_views(v@) == show_tasks(show@, stamp@)
        },
{
    match parse_start_date(show.start_date.as_str()) {
        Some(start) => {
            let tasks = plan_episodes(show, start, stamp);
            proof {
                if tasks is Some {
                    assert(task_views(tasks->0@).len() == tasks->0.len());
                }
            }
            tasks
        },
        None => None,
    }
}

/// What ingest makes of a list of shows.
pub struct Ingest {
    /// The tasks to add to the store, in one batch.
    pub tasks: Vec<Task>,
    /// The shows with their new state, to write back to the store.
    pub shows: Vec<Bgm>,
}

/// Turns shows into tasks.
///
/// Each show that can be scheduled gives one task per episode and becomes
/// processed. A show that cannot be scheduled gives no task and becomes
/// invalid, so that it is not tried again.
pub fn generate_tasks(shows: &Vec<Bgm>, stamp: &str) -> (made: Ingest)
    ensures
        task_views(made.tasks@) == ingest_tasks(bgm_views(shows@), stamp@),
        bgm_views(made.shows@) == bgm_views(shows@).map_values(|b: BgmView| ingested(b)),
{
    let mut tasks: Vec<Task> = Vec::new();
    let mut marked: Vec<Bgm> = Vec::new();
    let mut i: usize = 0;
    assert(bgm_views(shows@.take(0)) =~= Seq::<BgmView>::empty());
    assert(task_views(tasks@) =~= ingest_tasks(bgm_views(shows@.take(0)), stamp@));
    while i < shows.len()
        invariant
            i <= shows.len(),
            marked.len() == i,
            task_views(tasks@) == ingest_tasks(bgm_views(shows@.take(i as int)), stamp@),
            forall|j: int| 0 <= j < i ==> (#[trigger] marked[j])@ == ingested(shows[j]@),
        decreases shows.len() - i,
    {
        let show = &shows[i];
        let mut copy = show.clone();
        let ghost before = task_views(tasks@);
        proof {
            assert(bgm_views(shows@.take(i + 1)).drop_last() =~= bgm_views(shows@.take(i as int)));
            assert(bgm_views(shows@.take(i + 1)).last() == show@);
        }
        match plan_show(show, stamp) {
            Some(mut planned) => {
                copy.state = PROCESSED;
                let ghost kept = tasks@;
                let ghost added = planned@;
                tasks.append(&mut planned);
                assert(task_views(tasks@) =~= task_views(kept) + task_views(added));
            },
            None => {
                copy.state = INVALID;
                assert(task_views(tasks@) =~= before + show_tasks(show@, stamp@));
            },
        }
        marked.push(copy);
        i += 1;
    }
    assert(shows@.take(shows.len() as int) =~= shows@);
    assert(bgm_views(marked@) =~= bgm_views(shows@).map_values(|b: BgmView| ingested(b)));
    Ingest { tasks, shows: marked }
}

/// Ingest settles every show it is given: none is left unprocessed, so a
/// show is turned into tasks at most once.
pub proof fn lemma_ingest_settles(show: BgmView)
    ensures
        ingested(show).state != UNPROCESSED,
        ingested(show).state == PROCESSED <==> show_valid(show),
        ingested(show).state == INVALID <==> !show_valid(show),
{
}

/// A show that can be scheduled gives exactly one task per episode, and a
/// show that cannot gives none.
pub proof fn lemma_ingest_count(show: BgmView, stamp: Seq<char>)
    ensures
        show_valid(show) ==> show_tasks(show, stamp).len() == show.episode_count,
        !show_valid(show) ==> show_tasks(show, stamp).len() == 0,
{
}

/// The tasks of a show are scheduled on air days that never go back: a task
/// airs later than the one before it, by exactly seven days from the second
/// task on, and by one to seven days from the first to the second, which is
/// where the schedule moves onto the show's weekday.
pub proof fn lemma_ingest_schedule(show: BgmView, stamp: Seq<char>, k: nat)
    requires
        show_valid(show),
        k + 1 < show.episode_count,
    ensures
        ({
            let start = start_day_of(show.start_date)->0;
            let target = show.weekday - 1;
            let here = episode_day(start, target, k);
            let next = episode_day(start, target, (k + 1) as nat);
            &&& show_tasks(show, stamp)[k as int].exec_time == schedule_text(
                here,
                show.clock as int,
            )
            &&& show_tasks(show, stamp)[k as int + 1].exec_time == schedule_text(
                next,
                show.clock as int,
            )
            &&& here < next
            &&& k >= 1 ==> next - here == 7
            &&& k == 0 ==> 1 <= next - here <= 7
            &&& FIRST_DAY <= here
            &&& next <= LAST_DAY
        }),
{
    let start = start_day_of(show.start_date)->0;
    let target = show.weekday - 1;
    lemma_schedule_spacing(start, target, k);
    lemma_schedule_ordered(start, target, 0, k);
    lemma_schedule_ordered(start, target, (k + 1) as nat, (show.episode_count - 1) as nat);
}

} // verus!
