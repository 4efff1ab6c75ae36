use mitchrs::bluetooth::link::{Reply, Request, Step};
use mitchrs::bluetooth::mitch::{Mitch, Pending};
use mitchrs::bluetooth::protocol::{Commands, MitchState, COMMAND_CHAR};
use mitchrs::bluetooth::registry::{MitchList, Sweep};

const FINISHED: Step = Step::Finished(Ok(()));

fn linked(name: &str, handle: u64) -> Mitch {
    let mut mitch = Mitch::new(name.to_string(), handle);
    mitch.connect();
    mitch.resume(Reply::Done);
    assert_eq!(mitch.resume(Reply::Done), FINISHED);
    mitch
}

fn write_get_state(handle: u64) -> Step {
    Step::Perform {
        handle,
        request: Request::Write { characteristic: COMMAND_CHAR, command: Commands::GetState },
    }
}

fn read_response(handle: u64) -> Step {
    Step::Perform { handle, request: Request::Read { characteristic: COMMAND_CHAR } }
}

fn close_link(handle: u64) -> Step {
    Step::Perform { handle, request: Request::Disconnect }
}

fn state_frame(code: u8) -> Reply {
    Reply::Data(vec![0, 0, 0, 0, code])
}

#[test]
fn a_new_list_is_empty() {
    let list = MitchList::new();
    assert!(list.is_empty());
    assert_eq!(list.len(), 0);
    assert_eq!(list.active(), 0);
    assert_eq!(list.sweep(), Sweep::Idle);
    assert!(list.get(0).is_none());
    let list = MitchList::default();
    assert!(list.is_empty());
    assert_eq!(list.active(), 0);
}

#[test]
fn insert_and_select_walk_through() {
    let mut list = MitchList::new();
    assert!(list.is_empty());
    list.insert(Mitch::new("mitchA".to_string(), 1));
    assert_eq!(list.active(), 0);
    list.insert(Mitch::new("mitchB".to_string(), 2));
    assert_eq!(list.active(), 0);
    assert_eq!(list.len(), 2);
    list.select_next();
    assert_eq!(list.active(), 1);
    assert_eq!(list.get_active().name(), "mitchB");
    list.select_next();
    assert_eq!(list.active(), 1);
    assert_eq!(list.get_active().name(), "mitchB");
}

#[test]
fn select_previous_stops_at_the_first_session() {
    let mut list = MitchList::new();
    for handle in 0..3 {
        list.insert(Mitch::new(format!("mitch{handle}"), handle));
    }
    list.select_next();
    list.select_next();
    assert_eq!(list.active(), 2);
    list.select_previous();
    assert_eq!(list.active(), 1);
    list.select_previous();
    assert_eq!(list.active(), 0);
    list.select_previous();
    assert_eq!(list.active(), 0);
    assert_eq!(list.get_active().handle(), 0);
}

#[test]
fn selecting_in_an_empty_list_changes_nothing() {
    let mut list = MitchList::new();
    list.select_next();
    assert_eq!(list.active(), 0);
    assert!(list.is_empty());
    list.select_previous();
    assert_eq!(list.active(), 0);
    assert!(list.is_empty());
    list.insert(Mitch::new("mitch".to_string(), 1));
    assert_eq!(list.active(), 0);
    assert_eq!(list.get_active().handle(), 1);
}

#[test]
fn the_selection_never_leaves_the_list() {
    let mut list = MitchList::new();
    let mut seed: u32 = 7;
    for round in 0..500u64 {
        seed = seed.wrapping_mul(1103515245).wrapping_add(12345);
        match (seed >> 16) % 3 {
            0 => list.select_next(),
            1 => list.select_previous(),
            _ => list.insert(Mitch::new("mitch".to_string(), round)),
        }
        if list.is_empty() {
            assert_eq!(list.active(), 0);
        } else {
            assert!(list.active() < list.len());
        }
    }
}

#[test]
fn insert_keeps_the_order() {
    let mut list = MitchList::new();
    for handle in [5u64, 3, 9, 3] {
        list.insert(Mitch::new(format!("mitch-{handle}"), handle));
    }
    let handles: Vec<u64> = (0..list.len()).map(|i| list.get(i).unwrap().handle()).collect();
    assert_eq!(handles, vec![5, 3, 9, 3]);
    assert!(list.get(4).is_none());
}

#[test]
fn get_active_mut_changes_the_selected_session_only() {
    let mut list = MitchList::new();
    list.insert(Mitch::new("a".to_string(), 1));
    list.insert(Mitch::new("b".to_string(), 2));
    list.select_next();
    let step = list.get_active_mut().connect();
    assert_eq!(step, Step::Perform { handle: 2, request: Request::Connect });
    list.get_active_mut().resume(Reply::Done);
    assert_eq!(list.get_active_mut().resume(Reply::Done), FINISHED);
    assert!(list.get_active().is_connected());
    assert!(!list.get(0).unwrap().is_connected());
    assert_eq!(list.active(), 1);
    assert_eq!(list.len(), 2);
}

#[test]
fn refresh_of_an_empty_list_is_finished_at_once() {
    let mut list = MitchList::new();
    assert_eq!(list.update(), FINISHED);
    assert_eq!(list.sweep(), Sweep::Idle);
    assert_eq!(list.resume(Reply::Done), FINISHED);
}

#[test]
fn refresh_passes_over_disconnected_sessions() {
    let mut list = MitchList::new();
    list.insert(Mitch::new("a".to_string(), 1));
    list.insert(Mitch::new("b".to_string(), 2));
    assert_eq!(list.update(), FINISHED);
    assert_eq!(list.sweep(), Sweep::Idle);
    for i in 0..2 {
        assert!(!list.get(i).unwrap().is_connected());
        assert_eq!(list.get(i).unwrap().state(), None);
    }
}

#[test]
fn refresh_polls_from_the_last_session_to_the_first() {
    let mut list = MitchList::new();
    list.insert(linked("a", 10));
    list.insert(Mitch::new("b".to_string(), 20));
    list.insert(linked("c", 30));
    assert_eq!(list.update(), write_get_state(30));
    assert_eq!(list.sweep(), Sweep::Polling(2));
    assert_eq!(list.resume(Reply::Done), read_response(30));
    assert_eq!(list.resume(state_frame(0x02)), write_get_state(10));
    assert_eq!(list.sweep(), Sweep::Polling(0));
    assert_eq!(list.resume(Reply::Done), read_response(10));
    assert_eq!(list.resume(state_frame(0xF8)), FINISHED);
    assert_eq!(list.sweep(), Sweep::Idle);
    assert_eq!(list.get(2).unwrap().state(), Some(MitchState::SysIdle));
    assert_eq!(list.get(1).unwrap().state(), None);
    assert_eq!(list.get(0).unwrap().state(), Some(MitchState::SysTx));
}

#[test]
fn refresh_isolates_a_session_that_fails() {
    let mut list = MitchList::new();
    list.insert(linked("a", 1));
    list.insert(linked("b", 2));
    list.insert(linked("c", 3));
    list.select_next();

    assert_eq!(list.update(), write_get_state(3));
    assert_eq!(list.resume(Reply::Done), read_response(3));
    assert_eq!(list.resume(state_frame(0x04)), write_get_state(2));
    // The poll of the second session fails: it is disconnected on the spot.
    assert_eq!(list.resume(Reply::Failed), close_link(2));
    assert_eq!(list.sweep(), Sweep::Dropping(1));
    // Closing fails too, and the refresh still goes on.
    assert_eq!(list.resume(Reply::Failed), write_get_state(1));
    assert_eq!(list.resume(Reply::Done), read_response(1));
    assert_eq!(list.resume(state_frame(0x03)), FINISHED);

    let a = list.get(0).unwrap();
    let b = list.get(1).unwrap();
    let c = list.get(2).unwrap();
    assert!(a.is_connected());
    assert_eq!(a.state(), Some(MitchState::SysStandby));
    assert!(!b.is_connected());
    assert_eq!(b.state(), None);
    assert_eq!(b.pending(), Pending::Idle);
    assert!(c.is_connected());
    assert_eq!(c.state(), Some(MitchState::SysLog));
    assert_eq!(list.active(), 1);
    assert_eq!(list.len(), 3);
}

#[test]
fn refresh_drops_a_session_on_each_kind_of_poll_failure() {
    let failures: Vec<Vec<Reply>> = vec![
        vec![Reply::Failed],
        vec![Reply::Done, Reply::Failed],
        vec![Reply::Done, state_frame(0x00)],
        vec![Reply::Done, Reply::Data(vec![0x02])],
        vec![Reply::Done, Reply::Done],
    ];
    for replies in failures {
        let mut list = MitchList::new();
        list.insert(linked("a", 1));
        let mut step = list.update();
        for reply in replies {
            assert!(matches!(step, Step::Perform { .. }));
            step = list.resume(reply);
        }
        assert_eq!(step, close_link(1));
        assert_eq!(list.resume(Reply::Done), FINISHED);
        assert!(!list.get(0).unwrap().is_connected());
        assert_eq!(list.get(0).unwrap().state(), None);
    }
}

#[test]
fn refresh_drops_a_session_that_waits_for_another_reply() {
    let mut list = MitchList::new();
    list.insert(linked("a", 1));
    assert!(matches!(list.get_active_mut().start_recording(), Step::Perform { .. }));
    assert_eq!(list.update(), close_link(1));
    assert_eq!(list.sweep(), Sweep::Dropping(0));
    assert_eq!(list.resume(Reply::Done), FINISHED);
    assert!(!list.get(0).unwrap().is_connected());
    assert_eq!(list.get(0).unwrap().pending(), Pending::Idle);
}

#[test]
fn refresh_never_hands_an_error_on() {
    let mut seed: u32 = 99;
    for _ in 0..200 {
        let mut list = MitchList::new();
        for handle in 0..4u64 {
            seed = seed.wrapping_mul(1664525).wrapping_add(1013904223);
            if (seed >> 20) % 2 == 0 {
                list.insert(linked("m", handle));
            } else {
                list.insert(Mitch::new("m".to_string(), handle));
            }
        }
        let mut step = list.update();
        let mut requests = 0;
        while let Step::Perform { .. } = step {
            seed = seed.wrapping_mul(1664525).wrapping_add(1013904223);
            let reply = match (seed >> 20) % 4 {
                0 => Reply::Failed,
                1 => Reply::Done,
                2 => state_frame(0x02),
                _ => state_frame(0x42),
            };
            step = list.resume(reply);
            requests += 1;
            assert!(requests <= 12);
        }
        assert_eq!(step, FINISHED);
        assert_eq!(list.sweep(), Sweep::Idle);
        for i in 0..list.len() {
            let mitch = list.get(i).unwrap();
            assert!(mitch.is_connected() || mitch.state().is_none());
            assert_eq!(mitch.pending(), Pending::Idle);
        }
    }
}

#[test]
fn a_new_refresh_replaces_the_one_under_way() {
    let mut list = MitchList::new();
    list.insert(linked("a", 1));
    list.insert(linked("b", 2));
    assert_eq!(list.update(), write_get_state(2));
    // The second session still waits for its reply, so the new refresh
    // gives it up and goes on to the first.
    assert_eq!(list.update(), close_link(2));
    assert_eq!(list.resume(Reply::Done), write_get_state(1));
    assert_eq!(list.resume(Reply::Done), read_response(1));
    assert_eq!(list.resume(state_frame(0x01)), FINISHED);
    assert!(!list.get(1).unwrap().is_connected());
    assert_eq!(list.get(0).unwrap().state(), Some(MitchState::SysStartup));
}

#[test]
fn close_lists_the_open_links_in_order() {
    let mut list = MitchList::new();
    list.insert(linked("a", 4));
    list.insert(Mitch::new("b".to_string(), 5));
    list.insert(linked("c", 6));
    list.insert(linked("d", 2));
    assert_eq!(list.close(), vec![4, 6, 2]);
    assert_eq!(MitchList::new().close(), Vec::<u64>::new());
}
