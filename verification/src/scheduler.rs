//! The scheduler: the working set of tasks under way, and the decisions of
//! one pass over it.
//!
//! A pass asks the scheduler whether the listing is to be fetched, hands it
//! what came back, and then takes each task through one step: the task says
//! what is to be done for it, the caller does it, and the task takes the
//! outcome. After the pass the tasks that have ended leave the working set.

use vstd::prelude::*;
use vstd::string::*;
use crate::aria2::{transfer_complete, Status};
use crate::calendar::{parse_timestamp, timestamp_of};
use crate::moe::{torrent_views, Torrent, TorrentView};
use crate::pattern::{
    accepts, compiles, first_set, is_first_set, pattern_accepts, pattern_valid,
};
use crate::seqs::{lemma_filter_empty, lemma_filter_push};
use crate::taskinfo::{
    lemma_task_views_take, task_views, Task, TaskView, COMPLETE, DOWNLOADING, FAILED, PENDING,
    READY,
};

verus! {

/// The least time, in seconds, between two fetches of the listing.
pub const REFRESH_SECONDS: i64 = 600;

/// How long, in seconds, the scheduler waits between two passes while
/// tasks are under way.
pub const POLL_SECONDS: u64 = 1;

/// Whether a task may go from state `from` to state `to` in one step: it
/// stays as it is, or moves from pending to ready, from ready to
/// downloading or failed, or from downloading to complete.
pub open spec fn may_follow(from: u8, to: u8) -> bool {
    ||| to == from
    ||| from == PENDING && to == READY
    ||| from == READY && to == DOWNLOADING
    ||| from == READY && to == FAILED
    ||| from == DOWNLOADING && to == COMPLETE
}

/// Whether nothing more happens to a task in this state.
pub open spec fn is_terminal(state: u8) -> bool {
    state == COMPLETE || state == FAILED
}

/// Whether each state of a history may follow the one before it.
pub open spec fn is_history(states: Seq<u8>) -> bool {
    forall|i: int| 0 <= i < states.len() - 1 ==> may_follow(#[trigger] states[i], states[i + 1])
}

/// A task's state never goes back. Once it is downloading it is never
/// pending or ready again; once it is complete or failed it never changes.
pub proof fn lemma_state_never_regresses(states: Seq<u8>, i: int, j: int)
    requires
        is_history(states),
        0 <= i <= j < states.len(),
    ensures
        states[i] == DOWNLOADING ==> states[j] == DOWNLOADING || states[j] == COMPLETE,
        states[i] == READY ==> states[j] != PENDING,
        is_terminal(states[i]) ==> states[j] == states[i],
    decreases j - i,
{
    if i < j {
        lemma_state_never_regresses(states, i, j - 1);
        assert(may_follow(states[j - 1], states[j - 1 + 1]));
    }
}

/// Whether a task is looking for a release: it is ready and has none.
pub open spec fn is_searching(task: TaskView) -> bool {
    task.state == READY && task.uri.len() == 0
}

/// The scheduled time of a task, or the epoch where it cannot be read, so
/// that a search for such a task reaches as far back as it can.
pub open spec fn scheduled_or_epoch(task: TaskView) -> int {
    match timestamp_of(task.exec_time) {
        Some(at) => at,
        None => 0,
    }
}

/// Whether the listing is to be fetched at `now`: some task is looking for
/// a release, and the last fetch lies more than the refresh interval back.
pub open spec fn wants_fetch(tasks: Seq<TaskView>, last_fetch: int, now: int) -> bool {
    &&& exists|i: int| 0 <= i < tasks.len() && is_searching(#[trigger] tasks[i])
    &&& now - last_fetch > REFRESH_SECONDS
}

/// Whether `earliest` is the least scheduled time among the tasks that are
/// looking for a release.
pub open spec fn is_earliest_search(tasks: Seq<TaskView>, earliest: int) -> bool {
    &&& exists|i: int|
        0 <= i < tasks.len() && is_searching(#[trigger] tasks[i]) && scheduled_or_epoch(tasks[i])
            == earliest
    &&& forall|i: int|
        0 <= i < tasks.len() && is_searching(#[trigger] tasks[i]) ==> earliest
            <= scheduled_or_epoch(tasks[i])
}

/// Within the refresh interval after a fetch the listing is not fetched
/// again, whatever tasks are looking for a release.
pub proof fn lemma_throttle(tasks: Seq<TaskView>, fetched_at: int, now: int)
    requires
        now - fetched_at <= REFRESH_SECONDS,
    ensures
        !wants_fetch(tasks, fetched_at, now),
{
}

/// Whether the refresh interval has passed since the last fetch.
pub fn refresh_due(last_fetch: i64, now: i64) -> (due: bool)
    ensures
        due == (now - last_fetch > REFRESH_SECONDS),
{
    now as i128 - last_fetch as i128 > REFRESH_SECONDS as i128
}

/// What is to be handed to the download daemon for a task.
#[derive(Debug)]
pub struct Submission {
    /// The release to download.
    pub uri: String,
    /// The directory to download it to.
    pub dir: String,
}

/// What the caller is to do for a task in this pass.
#[derive(Debug)]
pub enum Action {
    /// Nothing.
    Idle,
    /// Hand the release to the download daemon.
    Submit(Submission),
    /// Ask the download daemon for the status of the handle.
    Poll(String),
}

/// What came of the action taken for a task.
#[derive(Debug)]
pub enum Outcome {
    /// The daemon took the release and gave this handle.
    Submitted(String),
    /// The daemon reported this status.
    Reported(Status),
    /// The daemon could not be reached, or nothing was asked of it.
    Nothing,
}

/// What a search pattern finds on the listing.
#[derive(Debug, PartialEq, Eq, Structural)]
pub enum Search {
    /// The pattern does not compile.
    Invalid,
    /// No title is accepted.
    Missing,
    /// The release at this position is the first whose title is accepted.
    Found(usize),
}

/// Whether the release at `at` is the first whose title the pattern
/// accepts.
pub open spec fn is_first_release(pattern: Seq<char>, torrents: Seq<TorrentView>, at: int) -> bool {
    &&& 0 <= at < torrents.len()
    &&& pattern_accepts(pattern, torrents[at].title)
    &&& forall|j: int| 0 <= j < at ==> !pattern_accepts(pattern, #[trigger] torrents[j].title)
}

/// Whether the pattern accepts no title of the listing.
pub open spec fn finds_none(pattern: Seq<char>, torrents: Seq<TorrentView>) -> bool {
    forall|j: int|
        0 <= j < torrents.len() ==> !pattern_accepts(pattern, #[trigger] torrents[j].title)
}

/// Looks on the listing, in the order it came, for the first release whose
/// title the pattern accepts.
pub fn find_release(pattern: &str, torrents: &Vec<Torrent>) -> (found: Search)
    ensures
        found is Invalid <==> !pattern_valid(pattern@),
        found matches Search::Found(at) ==> is_first_release(
            pattern@,
            torrent_views(torrents@),
            at as int,
        ),
        found is Missing ==> finds_none(pattern@, torrent_views(torrents@)),
{
    if !compiles(pattern) {
        return Search::Invalid;
    }
    let mut verdicts: Vec<bool> = Vec::new();
    let mut i: usize = 0;
    while i < torrents.len()
        invariant
            i <= torrents.len(),
            pattern_valid(pattern@),
            verdicts.len() == i,
            forall|j: int|
                0 <= j < i ==> #[trigger] verdicts[j] == pattern_accepts(
                    pattern@,
                    torrents[j]@.title,
                ),
        decreases torrents.len() - i,
    {
        verdicts.push(accepts(pattern, torrents[i].title.as_str()));
        i += 1;
    }
    let ghost views = torrent_views(torrents@);
    match first_set(&verdicts) {
        Some(at) => {
            assert(is_first_set(verdicts@, at as int));
            assert(views[at as int] == torrents[at as int]@);
            assert forall|j: int| 0 <= j < at implies !pattern_accepts(
                pattern@,
                #[trigger] views[j].title,
            ) by {
                assert(!verdicts[j]);
            }
            Search::Found(at)
        },
        None => {
            assert forall|j: int| 0 <= j < views.len() implies !pattern_accepts(
                pattern@,
                #[trigger] views[j].title,
            ) by {
                assert(!verdicts[j]);
            }
            Search::Missing
        },
    }
}

/// What a ready task becomes when it is taken through the listing.
///
/// A task that has a release, or is shown an empty listing, stays as it is.
/// Otherwise the task fails where its pattern does not compile, takes the
/// first release whose title its pattern accepts, or stays as it is where
/// there is none.
pub open spec fn searched(old: TaskView, torrents: Seq<TorrentView>, new: TaskView) -> bool {
    if old.state != READY || old.uri.len() > 0 || torrents.len() == 0 {
        new == old
    } else if !pattern_valid(old.regex) {
        new == (TaskView { state: FAILED, ..old })
    } else if finds_none(old.regex, torrents) {
        new == old
    } else {
        exists|at: int|
            is_first_release(old.regex, torrents, at) && new == (TaskView {
                uri: #[trigger] torrents[at].magnet,
                ..old
            })
    }
}

/// Takes a ready task through the listing and says what is to be
/// submitted for it.
///
/// A task without a release looks for one on the listing. A task that has
/// a release, found now or in an earlier pass, asks for it to be submitted:
/// a submission that failed is tried again in every pass. A task that is
/// not ready is left alone. Nothing keeps two tasks from taking the same
/// release.
pub fn exec_task(task: &mut Task, torrents: &Vec<Torrent>) -> (request: Option<Submission>)
    ensures
        searched(old(task)@, torrent_views(torrents@), final(task)@),
        may_follow(old(task).state, final(task).state),
        request is Some <==> final(task).state == READY && final(task).uri@.len() > 0,
        request matches Some(s) ==> s.uri@ == final(task).uri@ && s.dir@ == final(task).path@,
{
    if task.state != READY {
        return None;
    }
    if task.uri.as_str().is_empty() && torrents.len() > 0 {
        match find_release(task.regex.as_str(), torrents) {
            Search::Invalid => {
                task.state = FAILED;
                return None;
            },
            Search::Found(at) => {
                task.uri = torrents[at].magnet.clone();
                proof {
                    let views = torrent_views(torrents@);
                    assert(views[at as int] == torrents[at as int]@);
                    assert(pattern_accepts(old(task)@.regex, views[at as int].title));
                    assert(task@ == (TaskView { uri: views[at as int].magnet, ..old(task)@ }));
                }
            },
            Search::Missing => {},
        }
    }
    if task.uri.as_str().is_empty() {
        None
    } else {
        Some(Submission { uri: task.uri.clone(), dir: task.path.clone() })
    }
}

/// What a downloading task becomes when the daemon reports `report` at
/// `stamp`: complete, with `stamp` as its completion time, where the
/// report means that the download is complete, and unchanged otherwise. A
/// task that is not downloading stays as it is.
pub open spec fn polled(old: TaskView, report: Option<Status>, stamp: Seq<char>) -> TaskView {
    if old.state == DOWNLOADING && report is Some && transfer_complete(
        report->0.status@,
        report->0.completed_length@,
        report->0.total_length@,
    ) {
        TaskView { state: COMPLETE, finish_time: stamp, ..old }
    } else {
        old
    }
}

/// Takes the daemon's report on a downloading task: `None` where the
/// daemon could not be asked.
///
/// Returns whether the task has become complete, in which case the caller
/// tells the daemon to drop the handle.
pub fn update_task_status(task: &mut Task, report: Option<&Status>, stamp: &str) -> (done: bool)
    ensures
        final(task)@ == polled(
            old(task)@,
            match report {
                Some(r) => Some(*r),
                None => None,
            },
            stamp@,
        ),
        may_follow(old(task).state, final(task).state),
        done <==> old(task).state == DOWNLOADING && final(task).state == COMPLETE,
{
    if task.state != DOWNLOADING {
        return false;
    }
    match report {
        Some(status) => {
            if status.is_complete() {
                task.state = COMPLETE;
                task.finish_time = String::from_str(stamp);
                true
            } else {
                false
            }
        },
        None => false,
    }
}

/// What a ready task with a release becomes when the daemon takes it and
/// gives `handle`: downloading, with that handle. Any other task stays as
/// it is.
pub open spec fn submitted(old: TaskView, handle: Seq<char>) -> TaskView {
    if old.state == READY && old.uri.len() > 0 {
        TaskView { state: DOWNLOADING, gid: handle, ..old }
    } else {
        old
    }
}

/// Records that the daemon took the task's release and gave `handle`.
pub fn record_submission(task: &mut Task, handle: String)
    ensures
        final(task)@ == submitted(old(task)@, handle@),
        may_follow(old(task).state, final(task).state),
{
    if task.state == READY && !task.uri.as_str().is_empty() {
        task.state = DOWNLOADING;
        task.gid = handle;
    }
}

/// The first half of a task's step: what is to be done for it.
///
/// A ready task is taken through the listing and may ask for a submission.
/// A downloading task asks for its status. A complete task has its
/// completion time set to `stamp`. Any other task is left alone.
pub fn begin_step(task: &mut Task, torrents: &Vec<Torrent>, stamp: &str) -> (action: Action)
    ensures
        may_follow(old(task).state, final(task).state),
        old(task).state == READY ==> {
            &&& searched(old(task)@, torrent_views(torrents@), final(task)@)
            &&& action is Submit <==> final(task).state == READY && final(task).uri@.len() > 0
            &&& action matches Action::Submit(s) ==> s.uri@ == final(task).uri@ && s.dir@
                == final(task).path@
            &&& !(action is Poll)
        },
        old(task).state == DOWNLOADING ==> {
            &&& final(task)@ == old(task)@
            &&& action matches Action::Poll(handle)
            &&& handle@ == old(task).gid@
        },
        old(task).state == COMPLETE ==> {
            &&& final(task)@ == (TaskView { finish_time: stamp@, ..old(task)@ })
            &&& action is Idle
        },
        old(task).state != READY && old(task).state != DOWNLOADING && old(task).state != COMPLETE
            ==> final(task)@ == old(task)@ && action is Idle,
{
    if task.state == READY {
        match exec_task(task, torrents) {
            Some(submission) => Action::Submit(submission),
            None => Action::Idle,
        }
    } else if task.state == DOWNLOADING {
        Action::Poll(task.gid.clone())
    } else if task.state == COMPLETE {
        task.finish_time = String::from_str(stamp);
        Action::Idle
    } else {
        Action::Idle
    }
}

/// The second half of a task's step: what came of the action.
///
/// Returns the handle that the daemon is to drop, where the task has
/// become complete.
pub fn end_step(task: &mut Task, outcome: Outcome, stamp: &str) -> (dropped: Option<String>)
    ensures
        may_follow(old(task).state, final(task).state),
        final(task)@ == match outcome {
            Outcome::Submitted(handle) => submitted(old(task)@, handle@),
            Outcome::Reported(status) => polled(old(task)@, Some(status), stamp@),
            Outcome::Nothing => old(task)@,
        },
        dropped is Some <==> old(task).state == DOWNLOADING && final(task).state == COMPLETE,
        dropped matches Some(handle) ==> handle@ == old(task).gid@,
{
    match outcome {
        Outcome::Submitted(handle) => {
            record_submission(task, handle);
            None
        },
        Outcome::Reported(status) => {
            if update_task_status(task, Some(&status), stamp) {
                Some(task.gid.clone())
            } else {
                None
            }
        },
        Outcome::Nothing => None,
    }
}

/// The test that a task has not ended.
pub open spec fn unfinished() -> spec_fn(TaskView) -> bool {
    |t: TaskView| !is_terminal(t.state)
}

/// The working set of tasks under way, and when the listing was last
/// fetched.
#[derive(Debug)]
pub struct Scheduler {
    /// The tasks under way, in the order they entered.
    pub active: Vec<Task>,
    /// When the listing was last fetched, in seconds of the wall clock
    /// since 1970-01-01 00:00:00.
    pub last_fetch: i64,
}

impl Scheduler {
    /// A scheduler that starts from the tasks found under way in the
    /// store, and has never fetched the listing.
    pub fn new(seed: Vec<Task>) -> (scheduler: Scheduler)
        ensures
            scheduler.active@ == seed@,
            scheduler.last_fetch == 0,
    {
        Scheduler { active: seed, last_fetch: 0 }
    }

    /// Adds the tasks that have become ready to the working set, behind
    /// those already in it.
    pub fn enter(&mut self, ready: Vec<Task>)
        ensures
            final(self).active@ == old(self).active@ + ready@,
            final(self).last_fetch == old(self).last_fetch,
    {
        let mut ready = ready;
        self.active.append(&mut ready);
    }

    /// Whether the listing is to be fetched in this pass, and how far back:
    /// to the earliest scheduled time of the tasks that look for a release.
    pub fn fetch_request(&self, now: i64) -> (earliest: Option<i64>)
        ensures
            earliest is Some <==> wants_fetch(
                task_views(self.active@),
                self.last_fetch as int,
                now as int,
            ),
            earliest matches Some(at) ==> is_earliest_search(task_views(self.active@), at as int),
    {
        let ghost views = task_views(self.active@);
        let mut best: Option<i64> = None;
        let mut i: usize = 0;
        while i < self.active.len()
            invariant
                i <= self.active.len(),
                views == task_views(self.active@),
                best is None ==> forall|j: int| 0 <= j < i ==> !is_searching(#[trigger] views[j]),
                best matches Some(b) ==> {
                    &&& exists|j: int|
                        0 <= j < i && is_searching(#[trigger] views[j]) && scheduled_or_epoch(
                            views[j],
                        ) == b
                    &&& forall|j: int|
                        0 <= j < i && is_searching(#[trigger] views[j]) ==> b
                            <= scheduled_or_epoch(views[j])
                },
            decreases self.active.len() - i,
        {
            let task = &self.active[i];
            assert(views[i as int] == task@);
            if task.state == READY && task.uri.as_str().is_empty() {
                let at: i64 = match parse_timestamp(task.exec_time.as_str()) {
                    Some(at) => at,
                    None => 0,
                };
                assert(is_searching(views[i as int]));
                assert(scheduled_or_epoch(views[i as int]) == at);
                match best {
                    Some(b) => {
                        if at < b {
                            best = Some(at);
                        }
                    },
                    None => {
                        best = Some(at);
                    },
                }
            }
            i += 1;
        }
        if refresh_due(self.last_fetch, now) {
            best
        } else {
            None
        }
    }

    /// Takes what the fetch of the listing gave at `now`: the releases, or
    /// `None` where the fetch failed.
    ///
    /// A fetch that succeeded is recorded as the last fetch, and its
    /// releases are those of this pass. After one that failed the pass has
    /// no releases and the last fetch stays as it was, so that the next
    /// pass tries again.
    pub fn record_fetch(&mut self, fetched: Option<Vec<Torrent>>, now: i64) -> (torrents: Vec<
        Torrent,
    >)
        ensures
            final(self).active@ == old(self).active@,
            match fetched {
                Some(list) => torrents@ == list@ && final(self).last_fetch == now,
                None => torrents@.len() == 0 && final(self).last_fetch == old(self).last_fetch,
            },
    {
        match fetched {
            Some(list) => {
                self.last_fetch = now;
                list
            },
            None => Vec::new(),
        }
    }

    /// Drops the tasks that have ended, complete or failed, from the
    /// working set. The others stay, in their order.
    pub fn evict(&mut self)
        ensures
            task_views(final(self).active@) == task_views(old(self).active@).filter(unfinished()),
            final(self).last_fetch == old(self).last_fetch,
    {
        let mut kept: Vec<Task> = Vec::new();
        let mut i: usize = 0;
        proof {
            lemma_filter_empty::<TaskView>(unfinished());
        }
        assert(task_views(self.active@.take(0)) =~= Seq::<TaskView>::empty());
        assert(task_views(kept@) =~= task_views(self.active@.take(0)).filter(unfinished()));
        while i < self.active.len()
            invariant
                i <= self.active.len(),
                *self == *old(self),
                task_views(kept@) == task_views(self.active@.take(i as int)).filter(unfinished()),
            decreases self.active.len() - i,
        {
            let task = &self.active[i];
            proof {
                lemma_task_views_take(self.active@, i as int);
                lemma_filter_push(task_views(self.active@.take(i as int)), task@, unfinished());
            }
            if task.state != COMPLETE && task.state != FAILED {
                let ghost before = kept@;
                kept.push(task.clone());
                assert(task_views(kept@) =~= task_views(before).push(task@));
            }
            i += 1;
        }
        assert(self.active@.take(self.active.len() as int) =~= self.active@);
        self.active = kept;
    }

    /// How long to wait before the next pass, in seconds: the poll
    /// interval while tasks are under way, else the time from `now` until
    /// `next`, the time the store is next to be looked at.
    pub fn next_delay(&self, next: i64, now: i64) -> (secs: u64)
        ensures
            secs == if self.active.len() > 0 {
                POLL_SECONDS as int
            } else if next > now {
                next - now
            } else {
                0
            },
    {
        if self.active.len() > 0 {
            POLL_SECONDS
        } else if next > now {
            (next as i128 - now as i128) as u64
        } else {
            0
        }
    }
}

} // verus!
