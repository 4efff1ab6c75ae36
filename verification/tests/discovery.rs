use mitchrs::bluetooth::link::{Error, TransportError};
use mitchrs::bluetooth::mitch::Pending;
use mitchrs::bluetooth::{
    discovered, session_for, starts_with_mitch, BluetoothEvent, BtleDiscoverTask, ScanPhase,
    ScanReply, ScanRequest, ScanStep,
};

fn scanning_task() -> BtleDiscoverTask {
    let mut task = BtleDiscoverTask::new();
    assert!(matches!(task.run(), ScanStep::Perform(ScanRequest::Acquire)));
    assert!(matches!(
        task.resume(ScanReply::Adapter { powered_on: true }),
        ScanStep::Perform(ScanRequest::Listen)
    ));
    assert!(matches!(task.resume(ScanReply::Done), ScanStep::Perform(ScanRequest::StartScan)));
    assert!(matches!(task.resume(ScanReply::Done), ScanStep::Perform(ScanRequest::NextEvent)));
    assert_eq!(task.phase(), ScanPhase::Scanning);
    task
}

fn is_link_failure(step: &ScanStep) -> bool {
    matches!(step, ScanStep::Finished(Err(Error::Transport(TransportError::Link))))
}

#[test]
fn a_mitch_name_in_any_case_is_discovered() {
    let mitch = discovered(7, Some("MITCH-07".to_string())).unwrap();
    assert_eq!(mitch.name(), "mitch-07");
    assert_eq!(mitch.handle(), 7);
    assert!(!mitch.is_connected());
    assert_eq!(mitch.state(), None);
    assert_eq!(mitch.pending(), Pending::Idle);
    assert!(discovered(1, Some("Mitch".to_string())).is_some());
    assert!(discovered(1, Some("mItChXYZ".to_string())).is_some());
    assert!(discovered(1, Some("mitch".to_string())).is_some());
}

#[test]
fn another_name_is_not_discovered() {
    assert!(discovered(7, Some("other-device".to_string())).is_none());
    assert!(discovered(7, Some("mitc".to_string())).is_none());
    assert!(discovered(7, Some("a mitch".to_string())).is_none());
    assert!(discovered(7, Some(String::new())).is_none());
    assert!(discovered(7, None).is_none());
}

#[test]
fn the_prefix_test_is_exact() {
    assert!(starts_with_mitch("mitch"));
    assert!(starts_with_mitch("mitch-07"));
    assert!(starts_with_mitch("mitché"));
    assert!(!starts_with_mitch(""));
    assert!(!starts_with_mitch("mitc"));
    assert!(!starts_with_mitch("MITCH"));
    assert!(!starts_with_mitch("xmitch"));
    assert!(!starts_with_mitch("mitsh-07"));
    assert!(!starts_with_mitch("émitch"));
}

#[test]
fn session_for_keeps_the_folded_name() {
    let mitch = session_for(3, "mitch-a".to_string()).unwrap();
    assert_eq!(mitch.name(), "mitch-a");
    assert_eq!(mitch.handle(), 3);
    assert!(session_for(3, "MITCH-A".to_string()).is_none());
    assert!(session_for(3, "other".to_string()).is_none());
}

#[test]
fn a_radio_that_is_off_is_reported_once() {
    let mut task = BtleDiscoverTask::new();
    assert_eq!(task.phase(), ScanPhase::Created);
    assert!(matches!(task.run(), ScanStep::Perform(ScanRequest::Acquire)));
    assert_eq!(task.phase(), ScanPhase::Acquiring);
    let step = task.resume(ScanReply::Adapter { powered_on: false });
    assert!(matches!(step, ScanStep::Perform(ScanRequest::Emit(BluetoothEvent::NotActive))));
    assert!(matches!(task.resume(ScanReply::Done), ScanStep::Finished(Ok(()))));
    assert_eq!(task.phase(), ScanPhase::Stopped);
    assert!(matches!(task.run(), ScanStep::Finished(Ok(()))));
    assert!(matches!(task.resume(ScanReply::Done), ScanStep::Finished(Ok(()))));
    assert_eq!(task.phase(), ScanPhase::Stopped);
}

#[test]
fn not_active_ends_the_task_even_when_nobody_listens() {
    let mut task = BtleDiscoverTask::new();
    task.run();
    task.resume(ScanReply::Adapter { powered_on: false });
    assert!(matches!(task.resume(ScanReply::Failed), ScanStep::Finished(Ok(()))));
    assert_eq!(task.phase(), ScanPhase::Stopped);
}

#[test]
fn a_failure_while_setting_up_ends_the_task() {
    let mut task = BtleDiscoverTask::new();
    task.run();
    assert!(is_link_failure(&task.resume(ScanReply::Failed)));
    assert_eq!(task.phase(), ScanPhase::Stopped);

    let mut task = BtleDiscoverTask::new();
    task.run();
    task.resume(ScanReply::Adapter { powered_on: true });
    assert!(is_link_failure(&task.resume(ScanReply::Failed)));
    assert_eq!(task.phase(), ScanPhase::Stopped);

    let mut task = BtleDiscoverTask::new();
    task.run();
    task.resume(ScanReply::Adapter { powered_on: true });
    task.resume(ScanReply::Done);
    assert!(is_link_failure(&task.resume(ScanReply::Failed)));
    assert_eq!(task.phase(), ScanPhase::Stopped);
}

#[test]
fn a_task_runs_once() {
    let mut task = BtleDiscoverTask::new();
    task.run();
    assert!(matches!(
        task.run(),
        ScanStep::Finished(Err(Error::Transport(TransportError::Busy)))
    ));
    assert_eq!(task.phase(), ScanPhase::Acquiring);
    let mut task = scanning_task();
    assert!(matches!(
        task.run(),
        ScanStep::Finished(Err(Error::Transport(TransportError::Busy)))
    ));
    assert_eq!(task.phase(), ScanPhase::Scanning);
}

#[test]
fn a_reply_before_the_run_is_dropped() {
    let mut task = BtleDiscoverTask::new();
    assert!(matches!(task.resume(ScanReply::DeviceDiscovered(1)), ScanStep::Finished(Ok(()))));
    assert_eq!(task.phase(), ScanPhase::Created);
}

#[test]
fn a_matching_device_is_emitted() {
    let mut task = scanning_task();
    assert!(matches!(
        task.resume(ScanReply::DeviceDiscovered(42)),
        ScanStep::Perform(ScanRequest::FetchName(42))
    ));
    assert_eq!(task.phase(), ScanPhase::Naming(42));
    match task.resume(ScanReply::LocalName(Some("MITCH-07".to_string()))) {
        ScanStep::Perform(ScanRequest::Emit(BluetoothEvent::Discovered(mitch))) => {
            assert_eq!(mitch.name(), "mitch-07");
            assert_eq!(mitch.handle(), 42);
            assert!(!mitch.is_connected());
        }
        other => panic!("unexpected step {other:?}"),
    }
    assert_eq!(task.phase(), ScanPhase::Emitting);
    assert!(matches!(task.resume(ScanReply::Done), ScanStep::Perform(ScanRequest::NextEvent)));
    assert_eq!(task.phase(), ScanPhase::Scanning);
}

#[test]
fn other_devices_and_events_are_passed_over() {
    let mut task = scanning_task();
    task.resume(ScanReply::DeviceDiscovered(1));
    assert!(matches!(
        task.resume(ScanReply::LocalName(Some("other-device".to_string()))),
        ScanStep::Perform(ScanRequest::NextEvent)
    ));
    task.resume(ScanReply::DeviceDiscovered(2));
    assert!(matches!(
        task.resume(ScanReply::LocalName(None)),
        ScanStep::Perform(ScanRequest::NextEvent)
    ));
    task.resume(ScanReply::DeviceDiscovered(3));
    assert!(matches!(task.resume(ScanReply::Failed), ScanStep::Perform(ScanRequest::NextEvent)));
    assert!(matches!(
        task.resume(ScanReply::OtherEvent),
        ScanStep::Perform(ScanRequest::NextEvent)
    ));
    assert!(matches!(task.resume(ScanReply::Done), ScanStep::Perform(ScanRequest::NextEvent)));
    assert_eq!(task.phase(), ScanPhase::Scanning);
}

#[test]
fn the_task_ends_with_the_stream() {
    let mut task = scanning_task();
    assert!(matches!(task.resume(ScanReply::StreamEnded), ScanStep::Finished(Ok(()))));
    assert_eq!(task.phase(), ScanPhase::Stopped);
}

#[test]
fn a_failure_of_the_stream_ends_the_task_with_an_error() {
    let mut task = scanning_task();
    assert!(is_link_failure(&task.resume(ScanReply::Failed)));
    assert_eq!(task.phase(), ScanPhase::Stopped);
}

#[test]
fn the_task_ends_quietly_when_the_receiver_is_gone() {
    let mut task = scanning_task();
    task.resume(ScanReply::DeviceDiscovered(5));
    assert!(matches!(
        task.resume(ScanReply::LocalName(Some("mitch5".to_string()))),
        ScanStep::Perform(ScanRequest::Emit(BluetoothEvent::Discovered(_)))
    ));
    assert!(matches!(task.resume(ScanReply::Failed), ScanStep::Finished(Ok(()))));
    assert_eq!(task.phase(), ScanPhase::Stopped);
}
