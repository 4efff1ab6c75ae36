use mitchrs::bluetooth::link::{Error, Reply, Request, Step, TransportError};
use mitchrs::bluetooth::mitch::{Mitch, Pending};
use mitchrs::bluetooth::protocol::{Commands, MitchState, ProtocolError, COMMAND_CHAR, DATA_CHAR};

const LINK: Step = Step::Finished(Err(Error::Transport(TransportError::Link)));
const BUSY: Step = Step::Finished(Err(Error::Transport(TransportError::Busy)));
const DONE: Step = Step::Finished(Ok(()));

fn ask(handle: u64, request: Request) -> Step {
    Step::Perform { handle, request }
}

fn connected_session(name: &str, handle: u64) -> Mitch {
    let mut mitch = Mitch::new(name.to_string(), handle);
    assert_eq!(mitch.connect(), ask(handle, Request::Connect));
    assert_eq!(mitch.resume(Reply::Done), ask(handle, Request::DiscoverServices));
    assert_eq!(mitch.resume(Reply::Done), DONE);
    mitch
}

fn sound(mitch: &Mitch) -> bool {
    mitch.is_connected() || mitch.state().is_none()
}

#[test]
fn a_new_session_is_disconnected_and_idle() {
    let mitch = Mitch::new("mitchA".to_string(), 7);
    assert_eq!(mitch.name(), "mitchA");
    assert_eq!(mitch.handle(), 7);
    assert!(!mitch.is_connected());
    assert_eq!(mitch.state(), None);
    assert_eq!(mitch.pending(), Pending::Idle);
    assert_eq!(mitch.name_with_state(), "mitchA - None");
}

#[test]
fn connect_opens_the_link_and_discovers_the_services() {
    let mut mitch = Mitch::new("mitch".to_string(), 3);
    assert_eq!(mitch.connect(), ask(3, Request::Connect));
    assert_eq!(mitch.pending(), Pending::Connecting);
    assert!(!mitch.is_connected());
    assert_eq!(mitch.resume(Reply::Done), ask(3, Request::DiscoverServices));
    assert_eq!(mitch.pending(), Pending::Discovering);
    assert!(!mitch.is_connected());
    assert_eq!(mitch.resume(Reply::Done), DONE);
    assert!(mitch.is_connected());
    assert_eq!(mitch.state(), None);
    assert_eq!(mitch.pending(), Pending::Idle);
}

#[test]
fn connect_on_a_connected_session_does_nothing() {
    let mut mitch = connected_session("mitch", 1);
    assert_eq!(mitch.connect(), DONE);
    assert!(mitch.is_connected());
    assert_eq!(mitch.pending(), Pending::Idle);
}

#[test]
fn connect_fails_when_the_link_does_not_open() {
    let mut mitch = Mitch::new("mitch".to_string(), 1);
    assert_eq!(mitch.connect(), ask(1, Request::Connect));
    assert_eq!(mitch.resume(Reply::Failed), LINK);
    assert!(!mitch.is_connected());
    assert_eq!(mitch.state(), None);
    assert_eq!(mitch.pending(), Pending::Idle);
}

#[test]
fn connect_gives_the_link_up_when_discovery_fails() {
    for closed in [Reply::Done, Reply::Failed] {
        let mut mitch = Mitch::new("mitch".to_string(), 1);
        assert_eq!(mitch.connect(), ask(1, Request::Connect));
        assert_eq!(mitch.resume(Reply::Done), ask(1, Request::DiscoverServices));
        assert_eq!(mitch.resume(Reply::Failed), ask(1, Request::Disconnect));
        assert_eq!(mitch.pending(), Pending::Releasing);
        assert!(!mitch.is_connected());
        assert_eq!(mitch.resume(closed), LINK);
        assert!(!mitch.is_connected());
        assert_eq!(mitch.pending(), Pending::Idle);
    }
}

#[test]
fn connect_is_refused_while_a_reply_is_awaited() {
    let mut mitch = Mitch::new("mitch".to_string(), 1);
    assert_eq!(mitch.connect(), ask(1, Request::Connect));
    assert_eq!(mitch.connect(), BUSY);
    assert_eq!(mitch.pending(), Pending::Connecting);
    assert_eq!(mitch.resume(Reply::Done), ask(1, Request::DiscoverServices));
}

#[test]
fn disconnect_on_a_disconnected_session_does_nothing() {
    let mut mitch = Mitch::new("mitch".to_string(), 1);
    assert_eq!(mitch.disconnect(), DONE);
    assert!(!mitch.is_connected());
    assert_eq!(mitch.pending(), Pending::Idle);
}

#[test]
fn disconnect_closes_the_link_and_forgets_the_state() {
    let mut mitch = connected_session("mitch", 5);
    mitch.update_state();
    mitch.resume(Reply::Done);
    assert_eq!(mitch.resume(Reply::Data(vec![0, 0, 0, 0, 0x04])), DONE);
    assert_eq!(mitch.state(), Some(MitchState::SysLog));
    assert_eq!(mitch.disconnect(), ask(5, Request::Disconnect));
    assert!(!mitch.is_connected());
    assert_eq!(mitch.state(), None);
    assert_eq!(mitch.resume(Reply::Done), DONE);
    assert!(!mitch.is_connected());
    assert_eq!(mitch.state(), None);
    assert_eq!(mitch.pending(), Pending::Idle);
}

#[test]
fn disconnect_is_forced_even_when_the_close_fails() {
    let mut mitch = connected_session("mitch", 5);
    assert_eq!(mitch.disconnect(), ask(5, Request::Disconnect));
    assert_eq!(mitch.resume(Reply::Failed), LINK);
    assert!(!mitch.is_connected());
    assert_eq!(mitch.state(), None);
    assert_eq!(mitch.pending(), Pending::Idle);
}

#[test]
fn disconnect_cuts_an_operation_in_flight_short() {
    let mut mitch = connected_session("mitch", 5);
    assert!(matches!(mitch.update_state(), Step::Perform { .. }));
    assert_eq!(mitch.pending(), Pending::PollWriting);
    assert_eq!(mitch.disconnect(), ask(5, Request::Disconnect));
    assert_eq!(mitch.pending(), Pending::Disconnecting);
    assert!(!mitch.is_connected());
    assert_eq!(mitch.resume(Reply::Done), DONE);
    assert_eq!(mitch.pending(), Pending::Idle);
}

#[test]
fn poll_of_a_disconnected_session_succeeds_without_a_request() {
    let mut mitch = Mitch::new("mitch".to_string(), 1);
    assert_eq!(mitch.update_state(), DONE);
    assert_eq!(mitch.state(), None);
    assert!(!mitch.is_connected());
}

#[test]
fn poll_reads_sys_idle_from_the_response() {
    let mut mitch = connected_session("mitchA", 9);
    assert_eq!(
        mitch.update_state(),
        ask(9, Request::Write { characteristic: COMMAND_CHAR, command: Commands::GetState })
    );
    assert_eq!(mitch.resume(Reply::Done), ask(9, Request::Read { characteristic: COMMAND_CHAR }));
    assert_eq!(mitch.resume(Reply::Data(vec![0x00, 0x00, 0x00, 0x00, 0x02])), DONE);
    assert_eq!(mitch.state(), Some(MitchState::SysIdle));
    assert!(mitch.is_connected());
    assert_eq!(mitch.pending(), Pending::Idle);
    assert_eq!(mitch.name_with_state(), "mitchA - Some(SysIdle)");
}

#[test]
fn poll_failure_leaves_the_state_unknown_and_the_link_up() {
    let mut mitch = connected_session("mitch", 2);
    mitch.update_state();
    mitch.resume(Reply::Done);
    assert_eq!(mitch.resume(Reply::Data(vec![0, 0, 0, 0, 0x05])), DONE);
    assert_eq!(mitch.state(), Some(MitchState::SysReadout));

    mitch.update_state();
    assert_eq!(mitch.resume(Reply::Failed), LINK);
    assert_eq!(mitch.state(), None);
    assert!(mitch.is_connected());
    assert_eq!(mitch.pending(), Pending::Idle);

    mitch.update_state();
    mitch.resume(Reply::Done);
    assert_eq!(mitch.resume(Reply::Failed), LINK);
    assert_eq!(mitch.state(), None);
    assert!(mitch.is_connected());
}

#[test]
fn poll_reports_a_response_that_does_not_decode() {
    let mut mitch = connected_session("mitch", 2);
    mitch.update_state();
    mitch.resume(Reply::Done);
    assert_eq!(
        mitch.resume(Reply::Data(vec![0, 0, 0, 0, 0x77])),
        Step::Finished(Err(Error::Protocol(ProtocolError::UnknownState(0x77))))
    );
    assert_eq!(mitch.state(), None);
    assert!(mitch.is_connected());

    mitch.update_state();
    mitch.resume(Reply::Done);
    assert_eq!(
        mitch.resume(Reply::Data(vec![0x02, 0x02])),
        Step::Finished(Err(Error::Protocol(ProtocolError::ShortFrame)))
    );
    assert_eq!(mitch.state(), None);

    mitch.update_state();
    mitch.resume(Reply::Done);
    assert_eq!(
        mitch.resume(Reply::Done),
        Step::Finished(Err(Error::Protocol(ProtocolError::ShortFrame)))
    );
    assert!(mitch.is_connected());
    assert_eq!(mitch.pending(), Pending::Idle);
}

#[test]
fn poll_is_refused_while_a_reply_is_awaited() {
    let mut mitch = connected_session("mitch", 2);
    assert!(matches!(mitch.start_recording(), Step::Perform { .. }));
    assert_eq!(mitch.update_state(), BUSY);
    assert_eq!(mitch.stop_recording(), BUSY);
    assert_eq!(mitch.start_recording(), BUSY);
    assert_eq!(mitch.pending(), Pending::Subscribing);
    assert!(mitch.is_connected());
}

#[test]
fn start_recording_subscribes_writes_and_reads() {
    let mut mitch = connected_session("mitch", 4);
    assert_eq!(
        mitch.start_recording(),
        ask(4, Request::Subscribe { characteristic: DATA_CHAR })
    );
    assert_eq!(
        mitch.resume(Reply::Done),
        ask(4, Request::Write { characteristic: COMMAND_CHAR, command: Commands::StartStream })
    );
    assert_eq!(mitch.resume(Reply::Done), ask(4, Request::Read { characteristic: COMMAND_CHAR }));
    assert_eq!(mitch.resume(Reply::Data(vec![1, 2, 3])), DONE);
    assert!(mitch.is_connected());
    assert_eq!(mitch.state(), None);
    assert_eq!(mitch.pending(), Pending::Idle);
}

#[test]
fn stop_recording_writes_and_reads() {
    let mut mitch = connected_session("mitch", 4);
    assert_eq!(
        mitch.stop_recording(),
        ask(4, Request::Write { characteristic: COMMAND_CHAR, command: Commands::StopStream })
    );
    assert_eq!(mitch.resume(Reply::Done), ask(4, Request::Read { characteristic: COMMAND_CHAR }));
    assert_eq!(mitch.resume(Reply::Data(vec![])), DONE);
    assert!(mitch.is_connected());
    assert_eq!(mitch.pending(), Pending::Idle);
}

#[test]
fn recording_needs_a_connected_session() {
    let refused = Step::Finished(Err(Error::Transport(TransportError::NotConnected)));
    let mut mitch = Mitch::new("mitch".to_string(), 4);
    assert_eq!(mitch.start_recording(), refused);
    assert_eq!(mitch.stop_recording(), refused);
    assert!(!mitch.is_connected());
    assert_eq!(mitch.pending(), Pending::Idle);
}

#[test]
fn a_failed_recording_request_leaves_the_session_connected() {
    for failing in 0..3 {
        let mut mitch = connected_session("mitch", 4);
        let mut step = mitch.start_recording();
        for turn in 0..3 {
            assert!(matches!(step, Step::Perform { .. }));
            step = mitch.resume(if turn == failing { Reply::Failed } else { Reply::Done });
            if turn == failing {
                break;
            }
        }
        assert_eq!(step, LINK);
        assert!(mitch.is_connected());
        assert_eq!(mitch.pending(), Pending::Idle);
    }
    for failing in 0..2 {
        let mut mitch = connected_session("mitch", 4);
        let mut step = mitch.stop_recording();
        for turn in 0..2 {
            assert!(matches!(step, Step::Perform { .. }));
            step = mitch.resume(if turn == failing { Reply::Failed } else { Reply::Done });
            if turn == failing {
                break;
            }
        }
        assert_eq!(step, LINK);
        assert!(mitch.is_connected());
        assert_eq!(mitch.pending(), Pending::Idle);
    }
}

#[test]
fn a_reply_that_nothing_waits_for_is_dropped() {
    let mut mitch = Mitch::new("mitch".to_string(), 4);
    assert_eq!(mitch.resume(Reply::Failed), DONE);
    assert_eq!(mitch.resume(Reply::Data(vec![0, 0, 0, 0, 2])), DONE);
    assert!(!mitch.is_connected());
    assert_eq!(mitch.state(), None);
}

#[test]
fn a_disconnected_session_never_knows_a_state() {
    let mut mitch = Mitch::new("mitch".to_string(), 1);
    assert!(sound(&mitch));
    let mut seed: u32 = 12345;
    for _ in 0..2000 {
        seed = seed.wrapping_mul(1664525).wrapping_add(1013904223);
        match (seed >> 16) % 9 {
            0 => {
                mitch.connect();
            }
            1 => {
                mitch.disconnect();
            }
            2 => {
                mitch.update_state();
            }
            3 => {
                mitch.start_recording();
            }
            4 => {
                mitch.stop_recording();
            }
            5 => {
                mitch.resume(Reply::Failed);
            }
            6 => {
                mitch.resume(Reply::Data(vec![0, 0, 0, 0, 0x02]));
            }
            7 => {
                mitch.resume(Reply::Data(vec![0, 0, 0, 0, 0x99]));
            }
            _ => {
                mitch.resume(Reply::Done);
            }
        }
        assert!(sound(&mitch));
        assert_eq!(mitch.name(), "mitch");
        assert_eq!(mitch.handle(), 1);
    }
}

#[test]
fn name_with_state_shows_each_state() {
    let states = [
        (0x01u8, "m - Some(SysStartup)"),
        (0x02, "m - Some(SysIdle)"),
        (0x03, "m - Some(SysStandby)"),
        (0x04, "m - Some(SysLog)"),
        (0x05, "m - Some(SysReadout)"),
        (0xF8, "m - Some(SysTx)"),
        (0xFF, "m - Some(SysError)"),
        (0xF0, "m - Some(BootStartup)"),
        (0xF1, "m - Some(BootIdle)"),
        (0xF2, "m - Some(BootDownload)"),
    ];
    let mut mitch = connected_session("m", 1);
    assert_eq!(mitch.name_with_state(), "m - None");
    for (code, text) in states {
        mitch.update_state();
        mitch.resume(Reply::Done);
        assert_eq!(mitch.resume(Reply::Data(vec![0, 0, 0, 0, code])), DONE);
        assert_eq!(mitch.name_with_state(), text);
        assert_eq!(mitch.name_with_state(), format!("{} - {:?}", mitch.name(), mitch.state()));
    }
}

#[test]
fn close_hands_back_the_handle_of_an_open_link() {
    assert_eq!(connected_session("mitch", 11).close(), Some(11));
    assert_eq!(Mitch::new("mitch".to_string(), 11).close(), None);
    let mut mitch = connected_session("mitch", 12);
    mitch.disconnect();
    assert_eq!(mitch.close(), None);
}
