use jf::error::JfError;
use jf::job::run::{
    all_finished, mock_pauses_again, mock_status, pair_streams, parallel_status, sequential_step, watch_after_change,
    watch_status, watch_wait_step, FsEvent, SequentialStep, StreamLine, WaitStep, WatchPoll,
    WatchStep,
};
use jf::job::{JoinStatus, MockParams};
use jf::logging::LogLevel;

#[test]
fn join_status_is_one_or_the_other() {
    assert!(JoinStatus::Succeed.is_succeed());
    assert!(!JoinStatus::Succeed.is_failed());
    assert!(JoinStatus::Failed.is_failed());
    assert!(!JoinStatus::Failed.is_succeed());
}

#[test]
fn sequential_ignores_the_first_status() {
    assert_eq!(sequential_step(2, 0, JoinStatus::Failed, false), SequentialStep::Start(1));
    assert_eq!(sequential_step(2, 1, JoinStatus::Failed, false), SequentialStep::Finish(JoinStatus::Failed));
    assert_eq!(sequential_step(2, 1, JoinStatus::Succeed, false), SequentialStep::Finish(JoinStatus::Succeed));
    assert_eq!(sequential_step(1, 0, JoinStatus::Failed, false), SequentialStep::Finish(JoinStatus::Succeed));
}

#[test]
fn sequential_cancel_cancels_the_next_job() {
    assert_eq!(sequential_step(3, 0, JoinStatus::Succeed, true), SequentialStep::CancelAndFinish(1));
    assert_eq!(sequential_step(3, 1, JoinStatus::Succeed, true), SequentialStep::CancelAndFinish(2));
    assert_eq!(sequential_step(3, 2, JoinStatus::Succeed, true), SequentialStep::Finish(JoinStatus::Succeed));
}

#[test]
fn sequential_run_of_statuses() {
    // Drives the steps over three jobs, the second of which fails.
    let statuses = [JoinStatus::Succeed, JoinStatus::Failed, JoinStatus::Succeed];
    let mut index = 0;
    let outcome = loop {
        match sequential_step(statuses.len(), index, statuses[index], false) {
            SequentialStep::Start(next) => index = next,
            SequentialStep::CancelAndFinish(_) => break JoinStatus::Succeed,
            SequentialStep::Finish(status) => break status,
        }
    };
    assert_eq!(outcome, JoinStatus::Failed);
    assert_eq!(index, 1);
}

#[test]
fn parallel_fails_when_any_fails() {
    assert_eq!(parallel_status(&vec![]), JoinStatus::Succeed);
    assert_eq!(parallel_status(&vec![JoinStatus::Succeed, JoinStatus::Succeed]), JoinStatus::Succeed);
    assert_eq!(parallel_status(&vec![JoinStatus::Succeed, JoinStatus::Failed]), JoinStatus::Failed);
    assert!(all_finished(&vec![true, true]));
    assert!(!all_finished(&vec![true, false]));
    assert!(all_finished(&vec![]));
}

#[test]
fn watch_stops_only_when_canceled() {
    assert_eq!(watch_after_change(true), WatchStep::Stop);
    assert_eq!(watch_after_change(false), WatchStep::Restart);
    assert_eq!(watch_status(true), JoinStatus::Failed);
    assert_eq!(watch_status(false), JoinStatus::Succeed);
}

#[test]
fn mock_pauses() {
    let params = MockParams { each_sleep_time: 1, sleep_count: 3 };
    assert!(mock_pauses_again(params, 0, true));
    assert!(mock_pauses_again(params, 2, false));
    assert!(!mock_pauses_again(params, 1, true));
    assert!(!mock_pauses_again(params, 3, false));
    assert!(!mock_pauses_again(MockParams { each_sleep_time: 1, sleep_count: 0 }, 0, false));
}

#[test]
fn stream_lines_log_by_origin() {
    let out = StreamLine::Stdout("hello".to_string());
    assert_eq!(out.level(), LogLevel::Info);
    assert_eq!(out.into_line(), "hello");
    let err = StreamLine::Stderr("oops".to_string());
    assert_eq!(err.level(), LogLevel::Error);
    assert_eq!(err.into_line(), "oops");
}

#[test]
fn fail_to_mount() {
    assert!(pair_streams::<u8, u8>(None, None).is_err());
    assert!(matches!(pair_streams(Some(1u8), None::<u8>), Err(JfError::Custom(m)) if m.is_empty()));
    assert!(matches!(pair_streams(Some(1u8), Some(2u8)), Ok((1, 2))));
}

#[test]
fn watch_waits_for_a_change() {
    for poll in [
        WatchPoll::Event(FsEvent::Modify),
        WatchPoll::Event(FsEvent::Create),
        WatchPoll::Event(FsEvent::Remove),
    ] {
        assert_eq!(watch_wait_step(false, poll), WaitStep::Done);
    }
    assert_eq!(watch_wait_step(false, WatchPoll::Event(FsEvent::Other)), WaitStep::KeepWaiting);
    assert_eq!(watch_wait_step(false, WatchPoll::Timeout), WaitStep::KeepWaiting);
    assert_eq!(watch_wait_step(false, WatchPoll::EventError), WaitStep::Fail);
    assert_eq!(watch_wait_step(false, WatchPoll::Disconnected), WaitStep::Fail);
    // A canceled watch stops waiting, whatever the watcher gave.
    assert_eq!(watch_wait_step(true, WatchPoll::Disconnected), WaitStep::Done);
    assert_eq!(watch_wait_step(true, WatchPoll::Timeout), WaitStep::Done);
}

#[test]
fn canceled_sequential_run_starts_no_later_job() {
    // Four jobs; the run is seen canceled after the second ends. The third is
    // canceled, the fourth never starts, and the run succeeds although the
    // fourth would have failed.
    let statuses = [JoinStatus::Succeed, JoinStatus::Succeed, JoinStatus::Succeed, JoinStatus::Failed];
    let cancels = [false, true, false, false];
    let mut index = 0;
    let mut started = vec![0];
    let mut canceled = None;
    let outcome = loop {
        match sequential_step(statuses.len(), index, statuses[index], cancels[index]) {
            SequentialStep::Start(next) => {
                started.push(next);
                index = next;
            }
            SequentialStep::CancelAndFinish(next) => {
                canceled = Some(next);
                break JoinStatus::Succeed;
            }
            SequentialStep::Finish(status) => break status,
        }
    };
    assert_eq!(started, vec![0, 1]);
    assert_eq!(canceled, Some(2));
    assert_eq!(outcome, JoinStatus::Succeed);
}

#[test]
fn canceled_mock_fails() {
    assert_eq!(mock_status(true), JoinStatus::Failed);
    assert_eq!(mock_status(false), JoinStatus::Succeed);
}
