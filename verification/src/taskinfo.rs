//! Tasks, and the questions the scheduler asks of the stored rows: which
//! are due, which are under way, and when the next one is scheduled.

use vstd::prelude::*;
use vstd::string::*;
use crate::calendar::{parse_timestamp, timestamp_of, SECONDS_PER_DAY};
use crate::seqs::{lemma_filter_empty, lemma_filter_push};

verus! {

/// Created, waiting for its scheduled time.
pub const PENDING: u8 = 0;

/// Downloaded. Nothing more happens to the task.
pub const COMPLETE: u8 = 1;

/// Its scheduled time has passed; a release is looked for or submitted.
pub const READY: u8 = 2;

/// Handed to the download daemon.
pub const DOWNLOADING: u8 = 3;

/// Its search pattern does not compile. Nothing more happens to the task.
pub const FAILED: u8 = 4;

/// One expected episode of a show.
#[derive(Debug)]
pub struct Task {
    pub id: u32,
    pub bgm_id: u32,
    pub episode: u8,
    pub regex: String,
    pub path: String,
    pub uri: String,
    pub gid: String,
    pub exec_time: String,
    pub create_time: String,
    pub finish_time: String,
    pub state: u8,
}

/// A task as plain values.
pub struct TaskView {
    pub id: u32,
    pub bgm_id: u32,
    pub episode: u8,
    pub regex: Seq<char>,
    pub path: Seq<char>,
    pub uri: Seq<char>,
    pub gid: Seq<char>,
    pub exec_time: Seq<char>,
    pub create_time: Seq<char>,
    pub finish_time: Seq<char>,
    pub state: u8,
}

impl View for Task {
    type V = TaskView;

    open spec fn view(&self) -> TaskView {
        TaskView {
            id: self.id,
            bgm_id: self.bgm_id,
            episode: self.episode,
            regex: self.regex@,
            path: self.path@,
            uri: self.uri@,
            gid: self.gid@,
            exec_time: self.exec_time@,
            create_time: self.create_time@,
            finish_time: self.finish_time@,
            state: self.state,
        }
    }
}

impl Clone for Task {
    fn clone(&self) -> (copy: Task)
        ensures
            copy@ == self@,
    {
        Task {
            id: self.id,
            bgm_id: self.bgm_id,
            episode: self.episode,
            regex: self.regex.clone(),
            path: self.path.clone(),
            uri: self.uri.clone(),
            gid: self.gid.clone(),
            exec_time: self.exec_time.clone(),
            create_time: self.create_time.clone(),
            finish_time: self.finish_time.clone(),
            state: self.state,
        }
    }
}

/// What the store is told of a task after a pass: the fields that a pass
/// may change, for the row with the task's identifier.
#[derive(Debug)]
pub struct TaskUpdate {
    pub id: u32,
    pub state: u8,
    pub uri: String,
    pub gid: String,
    pub finish_time: String,
}

/// Writes down what the store is to keep of a task: its state, release,
/// handle and completion time, exactly as the task holds them, under its
/// identifier.
pub fn update_task(task: &Task) -> (update: TaskUpdate)
    ensures
        update.id == task.id,
        update.state == task.state,
        update.uri@ == task.uri@,
        update.gid@ == task.gid@,
        update.finish_time@ == task.finish_time@,
{
    TaskUpdate {
        id: task.id,
        state: task.state,
        uri: task.uri.clone(),
        gid: task.gid.clone(),
        finish_time: task.finish_time.clone(),
    }
}

/// The tasks of a sequence as plain values, in the same order.
pub open spec fn task_views(tasks: Seq<Task>) -> Seq<TaskView> {
    tasks.map_values(|t: Task| t@)
}

/// The views of the first `i + 1` tasks are those of the first `i`, then
/// that of task `i`.
pub proof fn lemma_task_views_take(tasks: Seq<Task>, i: int)
    requires
        0 <= i < tasks.len(),
    ensures
        task_views(tasks.take(i + 1)).drop_last() == task_views(tasks.take(i)),
        task_views(tasks.take(i + 1)).last() == tasks[i]@,
        task_views(tasks.take(i + 1)) == task_views(tasks.take(i)).push(tasks[i]@),
{
    assert(task_views(tasks.take(i + 1)).drop_last() =~= task_views(tasks.take(i)));
    assert(task_views(tasks.take(i + 1)) =~= task_views(tasks.take(i)).push(tasks[i]@));
}

/// Whether a task in state `state`, scheduled at `scheduled`, is due at
/// `now`: it is pending, its time can be read and has been reached.
pub open spec fn due(state: u8, scheduled: Option<int>, now: int) -> bool {
    &&& state == PENDING
    &&& scheduled matches Some(at)
    &&& at <= now
}

/// Whether a task in state `state`, scheduled at `scheduled`, is still to
/// come at `now`: it is pending and its time can be read and lies ahead.
pub open spec fn upcoming(state: u8, scheduled: Option<int>, now: int) -> bool {
    &&& state == PENDING
    &&& scheduled matches Some(at)
    &&& at > now
}

/// Whether the row is due at `now`.
pub open spec fn is_due(task: TaskView, now: int) -> bool {
    due(task.state, timestamp_of(task.exec_time), now)
}

/// Whether the row is still to come at `now`.
pub open spec fn is_upcoming(task: TaskView, now: int) -> bool {
    upcoming(task.state, timestamp_of(task.exec_time), now)
}

/// Whether the row is under way: ready or downloading.
pub open spec fn is_active(task: TaskView) -> bool {
    task.state == READY || task.state == DOWNLOADING
}

/// The row as it enters the working set: ready, with no release, no
/// handle, and no creation or completion time.
pub open spec fn promoted(task: TaskView) -> TaskView {
    TaskView {
        uri: Seq::empty(),
        gid: Seq::empty(),
        create_time: Seq::empty(),
        finish_time: Seq::empty(),
        state: READY,
        ..task
    }
}

/// The test [`is_due`] at a fixed time.
pub open spec fn due_at(now: int) -> spec_fn(TaskView) -> bool {
    |t: TaskView| is_due(t, now)
}

/// The test [`is_active`].
pub open spec fn active() -> spec_fn(TaskView) -> bool {
    |t: TaskView| is_active(t)
}

/// The change [`promoted`].
pub open spec fn promotion() -> spec_fn(TaskView) -> TaskView {
    |t: TaskView| promoted(t)
}

/// The first second of the day after the one that holds `now`.
pub open spec fn start_of_tomorrow(now: int) -> int {
    (now / 86_400 + 1) * 86_400
}

/// Decides whether a task is due, from its state and the time read from
/// its schedule.
pub fn check_due(state: u8, scheduled: Option<i64>, now: i64) -> (yes: bool)
    ensures
        yes == match scheduled {
            Some(at) => due(state, Some(at as int), now as int),
            None => due(state, None, now as int),
        },
{
    match scheduled {
        Some(at) => state == PENDING && at <= now,
        None => false,
    }
}

/// Decides whether a task is still to come, from its state and the time
/// read from its schedule.
pub fn check_upcoming(state: u8, scheduled: Option<i64>, now: i64) -> (yes: bool)
    ensures
        yes == match scheduled {
            Some(at) => upcoming(state, Some(at as int), now as int),
            None => upcoming(state, None, now as int),
        },
{
    match scheduled {
        Some(at) => state == PENDING && at > now,
        None => false,
    }
}

/// Picks from the stored rows the tasks that are due at `now` and promotes
/// them: each comes back ready, in the order of the rows.
pub fn get_ready_tasks(rows: &Vec<Task>, now: i64) -> (ready: Vec<Task>)
    ensures
        task_views(ready@) == task_views(rows@).filter(due_at(now as int)).map_values(
            promotion(),
        ),
{
    let mut ready: Vec<Task> = Vec::new();
    let mut i: usize = 0;
    proof {
        lemma_filter_empty::<TaskView>(due_at(now as int));
    }
    assert(task_views(rows@.take(0)) =~= Seq::<TaskView>::empty());
    assert(task_views(ready@) =~= task_views(rows@.take(0)).filter(
        due_at(now as int),
    ).map_values(promotion()));
    while i < rows.len()
        invariant
            i <= rows.len(),
            task_views(ready@) == task_views(rows@.take(i as int)).filter(
                due_at(now as int),
            ).map_values(promotion()),
        decreases rows.len() - i,
    {
        let row = &rows[i];
        let scheduled = parse_timestamp(row.exec_time.as_str());
        let ghost before = task_views(rows@.take(i as int)).filter(due_at(now as int));
        proof {
            lemma_task_views_take(rows@, i as int);
            lemma_filter_push(task_views(rows@.take(i as int)), row@, due_at(now as int));
        }
        if check_due(row.state, scheduled, now) {
            let task = Task {
                id: row.id,
                bgm_id: row.bgm_id,
                episode: row.episode,
                regex: row.regex.clone(),
                path: row.path.clone(),
                uri: String::new(),
                gid: String::new(),
                exec_time: row.exec_time.clone(),
                create_time: String::new(),
                finish_time: String::new(),
                state: READY,
            };
            assert(task@ == promoted(row@));
            let ghost old_ready = ready@;
            ready.push(task);
            assert(is_due(row@, now as int));
            assert(task_views(rows@.take(i + 1)).filter(due_at(now as int)) == before.push(
                row@,
            ));
            assert(task_views(ready@) =~= task_views(old_ready).push(promoted(row@)));
            assert(before.push(row@).map_values(promotion()) =~= before.map_values(
                promotion(),
            ).push(promoted(row@)));
        } else {
            assert(!is_due(row@, now as int));
            assert(task_views(rows@.take(i + 1)).filter(due_at(now as int)) == before);
        }
        i += 1;
    }
    assert(rows@.take(rows.len() as int) =~= rows@);
    ready
}

/// Picks from the stored rows the tasks that are under way, to seed the
/// working set: each comes back as stored, in the order of the rows.
pub fn get_incomplete_tasks(rows: &Vec<Task>) -> (found: Vec<Task>)
    ensures
        task_views(found@) == task_views(rows@).filter(active()),
{
    let mut found: Vec<Task> = Vec::new();
    let mut i: usize = 0;
    proof {
        lemma_filter_empty::<TaskView>(active());
    }
    assert(task_views(rows@.take(0)) =~= Seq::<TaskView>::empty());
    assert(task_views(found@) =~= task_views(rows@.take(0)).filter(active()));
    while i < rows.len()
        invariant
            i <= rows.len(),
            task_views(found@) == task_views(rows@.take(i as int)).filter(active()),
        decreases rows.len() - i,
    {
        let row = &rows[i];
        proof {
            lemma_task_views_take(rows@, i as int);
            lemma_filter_push(task_views(rows@.take(i as int)), row@, active());
        }
        if row.state == READY || row.state == DOWNLOADING {
            let ghost old_found = found@;
            found.push(row.clone());
            assert(is_active(row@));
            assert(task_views(found@) =~= task_views(old_found).push(row@));
        } else {
            assert(!is_active(row@));
        }
        i += 1;
    }
    assert(rows@.take(rows.len() as int) =~= rows@);
    found
}

/// When the scheduler should next look at the store: the earliest scheduled
/// time, later than `now`, of a pending row, or the start of tomorrow where
/// no pending row lies ahead.
pub fn get_next_exec_time(rows: &Vec<Task>, now: i64) -> (next: i64)
    requires
        now + SECONDS_PER_DAY <= i64::MAX,
    ensures
        next > now,
        (exists|i: int| 0 <= i < rows.len() && is_upcoming(#[trigger] rows[i]@, now as int)) ==> {
            &&& exists|i: int|
                0 <= i < rows.len() && is_upcoming(#[trigger] rows[i]@, now as int) && timestamp_of(
                    rows[i]@.exec_time,
                ) == Some(next as int)
            &&& forall|i: int|
                0 <= i < rows.len() && is_upcoming(#[trigger] rows[i]@, now as int) ==> next
                    <= timestamp_of(rows[i]@.exec_time)->0
        },
        (forall|i: int| 0 <= i < rows.len() ==> !is_upcoming(#[trigger] rows[i]@, now as int))
            ==> next == start_of_tomorrow(now as int),
{
    let mut best: Option<i64> = None;
    let mut i: usize = 0;
    while i < rows.len()
        invariant
            i <= rows.len(),
            best is None ==> forall|j: int|
                0 <= j < i ==> !is_upcoming(#[trigger] rows[j]@, now as int),
            best matches Some(b) ==> {
                &&& b > now
                &&& exists|j: int|
                    0 <= j < i && is_upcoming(#[trigger] rows[j]@, now as int) && timestamp_of(
                        rows[j]@.exec_time,
                    ) == Some(b as int)
                &&& forall|j: int|
                    0 <= j < i && is_upcoming(#[trigger] rows[j]@, now as int) ==> b
                        <= timestamp_of(rows[j]@.exec_time)->0
            },
        decreases rows.len() - i,
    {
        let row = &rows[i];
        let scheduled = parse_timestamp(row.exec_time.as_str());
        if check_upcoming(row.state, scheduled, now) {
            let at: i64 = scheduled.unwrap();
            assert(is_upcoming(rows[i as int]@, now as int));
            match best {
                Some(b) => {
                    if at < b {
                        best = Some(at);
                    }
                },
                None => {
                    best = Some(at);
                },
            }
        } else {
            assert(!is_upcoming(rows[i as int]@, now as int));
        }
        i += 1;
    }
    match best {
        Some(b) => b,
        None => {
            let today: i64 = if now >= 0 {
                now / SECONDS_PER_DAY
            } else {
                -((-(now + 1)) / SECONDS_PER_DAY) - 1
            };
            (today + 1) * SECONDS_PER_DAY
        },
    }
}

} // verus!
