//! The decisions that running jobs make. The waiting, spawning and killing
//! are done by the caller, which hands each outcome in and carries out the
//! step that comes back.
use vstd::prelude::*;

use super::join_status::JoinStatus;
use super::params::MockParams;
use crate::error::{JfError, JfErrorView, JfResult};
use crate::logging::LogLevel;

verus! {

/// What a sequential run does after one of its jobs has ended.
#[derive(Clone, Copy, Debug, PartialEq, Eq, Structural)]
pub enum SequentialStep {
    /// Start the job at this index and wait for it.
    Start(usize),
    /// Cancel the job at this index, which was never started, and end the run
    /// as a success.
    CancelAndFinish(usize),
    /// End the run with this status.
    Finish(JoinStatus),
}

pub open spec fn sequential_step_spec(len: nat, index: nat, status: JoinStatus, canceled: bool) -> SequentialStep {
    if index >= 1 && status == JoinStatus::Failed {
        SequentialStep::Finish(JoinStatus::Failed)
    } else if index + 1 >= len {
        SequentialStep::Finish(JoinStatus::Succeed)
    } else if canceled {
        SequentialStep::CancelAndFinish((index + 1) as usize)
    } else {
        SequentialStep::Start((index + 1) as usize)
    }
}

/// The next step of a sequential run of `len` jobs, once the job at `index`
/// has ended with `status`, `canceled` telling whether the run was canceled.
/// The first job's status is not looked at; a later job that fails ends the
/// run as a failure.
pub fn sequential_step(len: usize, index: usize, status: JoinStatus, canceled: bool) -> (res: SequentialStep)
    requires
        index < len,
    ensures
        res == sequential_step_spec(len as nat, index as nat, status, canceled),
{
    if index >= 1 && status.is_failed() {
        SequentialStep::Finish(JoinStatus::Failed)
    } else if index + 1 >= len {
        SequentialStep::Finish(JoinStatus::Succeed)
    } else if canceled {
        SequentialStep::CancelAndFinish(index + 1)
    } else {
        SequentialStep::Start(index + 1)
    }
}

/// How a sequential run of `len` jobs ends when the job at `index` is the one
/// that has just ended, the jobs ending with `statuses` and the run being
/// canceled, as seen after each job, as `cancels` says.
pub open spec fn sequential_run(
    len: nat,
    index: nat,
    statuses: Seq<JoinStatus>,
    cancels: Seq<bool>,
) -> JoinStatus
    decreases len - index,
{
    if index >= len {
        JoinStatus::Succeed
    } else {
        match sequential_step_spec(len, index, statuses[index as int], cancels[index as int]) {
            SequentialStep::Finish(s) => s,
            SequentialStep::CancelAndFinish(_) => JoinStatus::Succeed,
            SequentialStep::Start(next) => if next > index {
                sequential_run(len, next as nat, statuses, cancels)
            } else {
                JoinStatus::Succeed
            },
        }
    }
}

/// The indexes of the jobs that a sequential run starts after the job at
/// `index` has ended, in the order in which it starts them.
pub open spec fn sequential_starts(
    len: nat,
    index: nat,
    statuses: Seq<JoinStatus>,
    cancels: Seq<bool>,
) -> Seq<nat>
    decreases len - index,
{
    if index >= len {
        Seq::empty()
    } else {
        match sequential_step_spec(len, index, statuses[index as int], cancels[index as int]) {
            SequentialStep::Start(next) => if next > index {
                seq![next as nat] + sequential_starts(len, next as nat, statuses, cancels)
            } else {
                Seq::empty()
            },
            _ => Seq::empty(),
        }
    }
}

/// The index of the job that a sequential run cancels without starting it,
/// if it cancels one, once the job at `index` has ended.
pub open spec fn sequential_canceled(
    len: nat,
    index: nat,
    statuses: Seq<JoinStatus>,
    cancels: Seq<bool>,
) -> Option<nat>
    decreases len - index,
{
    if index >= len {
        None
    } else {
        match sequential_step_spec(len, index, statuses[index as int], cancels[index as int]) {
            SequentialStep::Start(next) => if next > index {
                sequential_canceled(len, next as nat, statuses, cancels)
            } else {
                None
            },
            SequentialStep::CancelAndFinish(next) => Some(next as nat),
            SequentialStep::Finish(_) => None,
        }
    }
}

/// Whether a sequential run that has ended the job at `from` goes on past
/// each job up to, but not including, `to`: none of them after the first
/// failed, and the run was not seen canceled after any of them.
pub open spec fn goes_on_between(
    statuses: Seq<JoinStatus>,
    cancels: Seq<bool>,
    from: int,
    to: int,
) -> bool {
    forall|j: int|
        from <= j < to ==> !(j >= 1 && #[trigger] statuses[j] == JoinStatus::Failed) && !cancels[j]
}

/// A sequential run starts its jobs one after another, each once the one
/// before it has ended: after the job at `index`, it starts exactly the jobs
/// `index + 1`, `index + 2`, ... that it goes on to, and no job after one that
/// failed or after which the run was seen canceled. When it stops because it
/// was canceled, it cancels the next job, and only that one.
pub proof fn lemma_sequential_run_starts(
    len: nat,
    index: nat,
    statuses: Seq<JoinStatus>,
    cancels: Seq<bool>,
)
    requires
        index < len,
        len <= usize::MAX,
        statuses.len() == len,
        cancels.len() == len,
    ensures
        ({
            let starts = sequential_starts(len, index, statuses, cancels);
            let last = index + starts.len();
            &&& last < len
            &&& forall|m: int| 0 <= m < starts.len() ==> #[trigger] starts[m] == index + 1 + m
            &&& forall|i: int|
                index < i < len ==> (i <= last <==> #[trigger] goes_on_between(
                    statuses,
                    cancels,
                    index as int,
                    i,
                ))
            &&& sequential_canceled(len, index, statuses, cancels) == if last + 1 < len
                && cancels[last as int] && !(last >= 1 && statuses[last as int]
                == JoinStatus::Failed) {
                Some((last + 1) as nat)
            } else {
                None
            }
        }),
    decreases len - index,
{
    let starts = sequential_starts(len, index, statuses, cancels);
    if index >= 1 && statuses[index as int] == JoinStatus::Failed {
        assert forall|i: int| index < i < len implies !#[trigger] goes_on_between(
            statuses,
            cancels,
            index as int,
            i,
        ) by {
            assert(statuses[index as int] == JoinStatus::Failed);
        }
    } else if index + 1 >= len {
    } else if cancels[index as int] {
        assert forall|i: int| index < i < len implies !#[trigger] goes_on_between(
            statuses,
            cancels,
            index as int,
            i,
        ) by {
            assert(cancels[index as int]);
        }
    } else {
        lemma_sequential_run_starts(len, index + 1, statuses, cancels);
        let rest = sequential_starts(len, index + 1, statuses, cancels);
        assert(starts == seq![(index + 1) as nat] + rest);
        assert forall|m: int| 0 <= m < starts.len() implies #[trigger] starts[m] == index + 1 + m by {
            if m > 0 {
                assert(starts[m] == rest[m - 1]);
            }
        }
        assert forall|i: int| index < i < len implies (i <= index + starts.len()
            <==> #[trigger] goes_on_between(statuses, cancels, index as int, i)) by {
            if i == index + 1 {
                assert(goes_on_between(statuses, cancels, index as int, i)) by {
                    assert forall|j: int| index <= j < i implies !(j >= 1 && #[trigger] statuses[j]
                        == JoinStatus::Failed) && !cancels[j] by {
                        assert(j == index);
                    }
                }
            } else {
                assert(goes_on_between(statuses, cancels, index as int, i) == goes_on_between(
                    statuses,
                    cancels,
                    (index + 1) as int,
                    i,
                )) by {
                    if goes_on_between(statuses, cancels, (index + 1) as int, i) {
                        assert forall|j: int| index <= j < i implies !(j >= 1
                            && #[trigger] statuses[j] == JoinStatus::Failed) && !cancels[j] by {
                            if j != index {
                                assert(index + 1 <= j < i);
                            }
                        }
                    }
                }
            }
        }
    }
}

/// Whether the run was not seen canceled after any of the jobs from `from`
/// up to, but not including, `to`.
pub open spec fn uncanceled_between(cancels: Seq<bool>, from: int, to: int) -> bool {
    forall|j: int| from <= j < to ==> !#[trigger] cancels[j]
}

/// A sequential run fails exactly when some job after the first fails that
/// is reached: one before which the run was never seen canceled. A
/// cancellation seen after a job ends the run as a success, the job after it
/// being canceled and no later job started.
pub proof fn lemma_sequential_run_fails_iff(
    len: nat,
    index: nat,
    statuses: Seq<JoinStatus>,
    cancels: Seq<bool>,
)
    requires
        index < len,
        len <= usize::MAX,
        statuses.len() == len,
        cancels.len() == len,
    ensures
        (sequential_run(len, index, statuses, cancels) == JoinStatus::Failed) <==> exists|i: int|
            (if index == 0 { 1 } else { index as int }) <= i < len && #[trigger] statuses[i]
                == JoinStatus::Failed && uncanceled_between(cancels, index as int, i),
    decreases len - index,
{
    let lo: int = if index == 0 { 1 } else { index as int };
    if index >= 1 && statuses[index as int] == JoinStatus::Failed {
        assert(uncanceled_between(cancels, index as int, index as int));
        assert(statuses[index as int] == JoinStatus::Failed);
    } else if index + 1 >= len {
        assert forall|i: int|
            lo <= i < len && #[trigger] statuses[i] == JoinStatus::Failed implies !uncanceled_between(
            cancels,
            index as int,
            i,
        ) by {
            assert(i == index);
        }
    } else if cancels[index as int] {
        assert forall|i: int|
            lo <= i < len && #[trigger] statuses[i] == JoinStatus::Failed implies !uncanceled_between(
            cancels,
            index as int,
            i,
        ) by {
            assert(i != index);
            assert(cancels[index as int]);
        }
    } else {
        lemma_sequential_run_fails_iff(len, index + 1, statuses, cancels);
        assert(sequential_run(len, index, statuses, cancels) == sequential_run(
            len,
            index + 1,
            statuses,
            cancels,
        ));
        if exists|i: int|
            lo <= i < len && #[trigger] statuses[i] == JoinStatus::Failed && uncanceled_between(
                cancels,
                index as int,
                i,
            ) {
            let i = choose|i: int|
                lo <= i < len && #[trigger] statuses[i] == JoinStatus::Failed && uncanceled_between(
                    cancels,
                    index as int,
                    i,
                );
            assert(i != index);
            assert(statuses[i] == JoinStatus::Failed);
            assert(uncanceled_between(cancels, (index + 1) as int, i));
        }
        if exists|i: int|
            index + 1 <= i < len && #[trigger] statuses[i] == JoinStatus::Failed
                && uncanceled_between(cancels, (index + 1) as int, i) {
            let i = choose|i: int|
                index + 1 <= i < len && #[trigger] statuses[i] == JoinStatus::Failed
                    && uncanceled_between(cancels, (index + 1) as int, i);
            assert(uncanceled_between(cancels, index as int, i)) by {
                assert forall|j: int| index <= j < i implies !#[trigger] cancels[j] by {
                    if j != index {
                        assert(index + 1 <= j < i);
                    }
                }
            }
            assert(statuses[i] == JoinStatus::Failed);
        }
    }
}

/// How a parallel run ends: as a failure when any of its jobs failed.
pub fn parallel_status(statuses: &Vec<JoinStatus>) -> (res: JoinStatus)
    ensures
        (res == JoinStatus::Failed) <==> exists|i: int|
            0 <= i < statuses@.len() && #[trigger] statuses@[i] == JoinStatus::Failed,
{
    let mut i: usize = 0;
    while i < statuses.len()
        invariant
            0 <= i <= statuses@.len(),
            forall|k: int| 0 <= k < i ==> #[trigger] statuses@[k] != JoinStatus::Failed,
        decreases statuses@.len() - i,
    {
        if statuses[i].is_failed() {
            return JoinStatus::Failed;
        }
        i = i + 1;
    }
    JoinStatus::Succeed
}

/// Whether a parallel run has finished: when every one of its jobs has.
pub fn all_finished(finished: &Vec<bool>) -> (res: bool)
    ensures
        res <==> forall|i: int| 0 <= i < finished@.len() ==> #[trigger] finished@[i],
{
    let mut i: usize = 0;
    while i < finished.len()
        invariant
            0 <= i <= finished@.len(),
            forall|k: int| 0 <= k < i ==> #[trigger] finished@[k],
        decreases finished@.len() - i,
    {
        if !finished[i] {
            return false;
        }
        i = i + 1;
    }
    true
}

/// What a watch does once a watched file has changed and its job has been
/// stopped.
#[derive(Clone, Copy, Debug, PartialEq, Eq, Structural)]
pub enum WatchStep {
    /// The watch was canceled: stop watching.
    Stop,
    /// Start a fresh copy of the job and watch again.
    Restart,
}

pub fn watch_after_change(canceled: bool) -> (res: WatchStep)
    ensures
        res == (if canceled { WatchStep::Stop } else { WatchStep::Restart }),
{
    if canceled {
        WatchStep::Stop
    } else {
        WatchStep::Restart
    }
}

/// The kind of a change to a watched file, as far as a watch cares.
#[derive(Clone, Copy, Debug, PartialEq, Eq, Structural)]
pub enum FsEvent {
    Modify,
    Create,
    Remove,
    /// Any other kind of event, such as an access.
    Other,
}

/// What one look at the file watcher's channel gave.
#[derive(Clone, Copy, Debug, PartialEq, Eq, Structural)]
pub enum WatchPoll {
    /// An event arrived.
    Event(FsEvent),
    /// The watcher reported an error in place of an event.
    EventError,
    /// Nothing arrived within the interval.
    Timeout,
    /// The watcher is gone.
    Disconnected,
}

/// What a watch that waits for a change does after one look.
#[derive(Clone, Copy, Debug, PartialEq, Eq, Structural)]
pub enum WaitStep {
    /// Stop waiting: a file changed, or the watch was canceled.
    Done,
    /// Look again.
    KeepWaiting,
    /// Stop waiting with an error.
    Fail,
}

/// The step of a watch waiting for a change, after a look at the watcher
/// that gave `poll`, `canceled` telling whether the watch was canceled: a
/// canceled watch stops at once; a modification, creation or removal ends the
/// wait; another event, or nothing, means waiting on; an error or a lost
/// watcher fails the wait.
pub fn watch_wait_step(canceled: bool, poll: WatchPoll) -> (res: WaitStep)
    ensures
        res == if canceled {
            WaitStep::Done
        } else {
            match poll {
                WatchPoll::Event(FsEvent::Modify)
                | WatchPoll::Event(FsEvent::Create)
                | WatchPoll::Event(FsEvent::Remove) => WaitStep::Done,
                WatchPoll::Event(FsEvent::Other) | WatchPoll::Timeout => WaitStep::KeepWaiting,
                _ => WaitStep::Fail,
            }
        },
{
    if canceled {
        return WaitStep::Done;
    }
    match poll {
        WatchPoll::Event(FsEvent::Modify)
        | WatchPoll::Event(FsEvent::Create)
        | WatchPoll::Event(FsEvent::Remove) => WaitStep::Done,
        WatchPoll::Event(FsEvent::Other) | WatchPoll::Timeout => WaitStep::KeepWaiting,
        WatchPoll::EventError | WatchPoll::Disconnected => WaitStep::Fail,
    }
}

/// How a watch ends: it runs until it is canceled, and a canceled watch
/// counts as failed.
pub fn watch_status(canceled: bool) -> (res: JoinStatus)
    ensures
        res == (if canceled { JoinStatus::Failed } else { JoinStatus::Succeed }),
{
    if canceled {
        JoinStatus::Failed
    } else {
        JoinStatus::Succeed
    }
}

/// Whether a mock job makes another pause after `done` pauses: while it has
/// pauses left, and, after the first, as long as it has not been canceled.
pub fn mock_pauses_again(params: MockParams, done: u8, canceled: bool) -> (res: bool)
    ensures
        res == (done < params.sleep_count && !(done > 0 && canceled)),
{
    done < params.sleep_count && !(done > 0 && canceled)
}

/// How a mock job ends: as a failure when it was canceled.
pub fn mock_status(canceled: bool) -> (res: JoinStatus)
    ensures
        res == (if canceled { JoinStatus::Failed } else { JoinStatus::Succeed }),
{
    if canceled {
        JoinStatus::Failed
    } else {
        JoinStatus::Succeed
    }
}

/// A line that a child process wrote, and where.
pub enum StreamLine {
    Stdout(String),
    Stderr(String),
}

impl StreamLine {
    /// Output goes to the log as information, errors as errors.
    pub fn level(&self) -> (res: LogLevel)
        ensures
            res == match self {
                StreamLine::Stdout(_) => LogLevel::Info,
                StreamLine::Stderr(_) => LogLevel::Error,
            },
    {
        match self {
            StreamLine::Stdout(_) => LogLevel::Info,
            StreamLine::Stderr(_) => LogLevel::Error,
        }
    }

    pub fn into_line(self) -> (res: String)
        ensures
            res == match self {
                StreamLine::Stdout(l) => l,
                StreamLine::Stderr(l) => l,
            },
    {
        match self {
            StreamLine::Stdout(l) => l,
            StreamLine::Stderr(l) => l,
        }
    }
}

/// The two output streams of a child process, when both were taken; an error
/// with an empty message otherwise.
pub fn pair_streams<O, E>(stdout: Option<O>, stderr: Option<E>) -> (res: JfResult<(O, E)>)
    ensures
        match (stdout, stderr) {
            (Some(o), Some(e)) => res == Ok::<(O, E), JfError>((o, e)),
            _ => res matches Err(err) && err@ == JfErrorView::Custom(Seq::empty()),
        },
{
    match (stdout, stderr) {
        (Some(o), Some(e)) => Ok((o, e)),
        _ => Err(JfError::Custom(String::new())),
    }
}

} // verus!
