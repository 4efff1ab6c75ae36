//! What holds of the control loop from one event to the next.
use vstd::prelude::*;
use crate::app::{AppView, Turn};
use crate::bluetooth::link::{Reply, Step};
use crate::bluetooth::mitch::{MitchView, Pending};
use crate::bluetooth::registry::{MitchListView, Sweep, Visit};
use crate::bluetooth::registry_laws::lemma_refresh_keeps_the_list_in_shape;
use crate::bluetooth::BluetoothEventView;
use crate::event::EventView;

verus! {

impl MitchListView {
    /// The position of the one session that may wait for a reply: the
    /// session at which a refresh stands, or else the selected one.
    pub open spec fn focus(self) -> int {
        match self.sweep {
            Sweep::Idle => self.active as int,
            Sweep::Polling(at) => at as int,
            Sweep::Dropping(at) => at as int,
        }
    }

    /// Whether no session but the one in focus waits for a reply.
    pub open spec fn one_in_flight(self) -> bool {
        forall|i: int|
            0 <= i < self.sessions.len() && i != self.focus() ==> (#[trigger] self.sessions[i]).pending
                == Pending::Idle
    }

    /// Whether nothing waits for a reply: no refresh is under way and every
    /// session is idle.
    pub open spec fn at_rest(self) -> bool {
        &&& self.sweep == Sweep::Idle
        &&& forall|i: int|
            0 <= i < self.sessions.len() ==> (#[trigger] self.sessions[i]).pending == Pending::Idle
    }
}

impl AppView {
    /// The application and the turn to which `replies` bring it from `turn`:
    /// each reply is handed to `resume` for as long as the turn asks for a
    /// request and a reply is left.
    pub open spec fn finish(self, turn: Turn, replies: Seq<Reply>) -> (AppView, Turn)
        decreases replies.len(),
    {
        if !(turn is Perform) || replies.len() == 0 {
            (self, turn)
        } else {
            let (next, answer) = self.resume(replies[0]);
            next.finish(answer, replies.drop_first())
        }
    }

    /// What holds of the application while it handles an event: the list is
    /// in shape, its sessions are sound, one session at most waits for a
    /// reply, and when `turn` asks for no request, none does.
    pub open spec fn in_step(self, turn: Turn) -> bool {
        &&& self.mitches.inv()
        &&& self.mitches.sound()
        &&& self.mitches.one_in_flight()
        &&& !(turn is Perform) ==> self.mitches.at_rest()
    }
}

/// The part of a refresh below a position, over idle sessions: it comes to
/// rest, or it waits at one session and every other session is idle.
proof fn lemma_descend_one_in_flight(sessions: Seq<MitchView>, below: nat)
    requires
        below <= sessions.len() <= usize::MAX,
        forall|i: int| 0 <= i < sessions.len() ==> (#[trigger] sessions[i]).inv(),
        forall|i: int| 0 <= i < sessions.len() ==> (#[trigger] sessions[i]).pending == Pending::Idle,
    ensures
        ({
            let (after, sweep, step) = MitchListView::descend(sessions, below);
            let list = MitchListView { sessions: after, active: 0, sweep };
            &&& forall|i: int|
                0 <= i < after.len() && i != list.focus() ==> (#[trigger] after[i]).pending
                    == Pending::Idle
            &&& step is Perform <==> sweep != Sweep::Idle
            &&& sweep == Sweep::Idle ==> forall|i: int|
                0 <= i < after.len() ==> (#[trigger] after[i]).pending == Pending::Idle
        }),
    decreases below,
{
    if below > 0 {
        let at = (below - 1) as nat;
        let (polled, step) = sessions[at as int].update_state();
        let visit = MitchListView::after_poll(polled, step);
        let visited = sessions.update(at as int, visit.session);
        if visit.step is Perform {
            assert forall|i: int| 0 <= i < visited.len() && i != at implies (
            #[trigger] visited[i]).pending == Pending::Idle by {}
        } else {
            assert forall|i: int| 0 <= i < visited.len() implies (#[trigger] visited[i]).inv()
                && visited[i].pending == Pending::Idle by {}
            lemma_descend_one_in_flight(visited, at);
        }
    }
}

/// A refresh that goes on after the session at `at` has answered: it comes
/// to rest, or it waits at one session and every other session is idle.
proof fn lemma_after_a_visit(
    sessions: Seq<MitchView>,
    at: nat,
    session: MitchView,
    dropping: bool,
    step: Step,
)
    requires
        at < sessions.len() <= usize::MAX,
        forall|i: int| 0 <= i < sessions.len() ==> (#[trigger] sessions[i]).inv(),
        forall|i: int|
            0 <= i < sessions.len() && i != at ==> (#[trigger] sessions[i]).pending
                == Pending::Idle,
        session.inv(),
        !(step is Perform) ==> session.pending == Pending::Idle,
    ensures
        ({
            let (after, sweep, next) = MitchListView::proceed(
                sessions,
                at,
                Visit { session, dropping, step },
            );
            let list = MitchListView { sessions: after, active: 0, sweep };
            &&& forall|i: int|
                0 <= i < after.len() && i != list.focus() ==> (#[trigger] after[i]).pending
                    == Pending::Idle
            &&& next is Perform <==> sweep != Sweep::Idle
            &&& sweep == Sweep::Idle ==> forall|i: int|
                0 <= i < after.len() ==> (#[trigger] after[i]).pending == Pending::Idle
        }),
{
    let visited = sessions.update(at as int, session);
    if step is Perform {
        assert forall|i: int| 0 <= i < visited.len() && i != at implies (#[trigger] visited[i]).pending
            == Pending::Idle by {}
    } else {
        assert forall|i: int| 0 <= i < visited.len() implies (#[trigger] visited[i]).inv()
            && visited[i].pending == Pending::Idle by {}
        lemma_descend_one_in_flight(visited, at);
    }
}

/// An event brings an application at rest in step.
proof fn lemma_run_keeps_in_step(app: AppView, event: EventView)
    requires
        app.mitches.inv(),
        app.mitches.sound(),
        app.mitches.at_rest(),
        app.mitches.sessions.len() < usize::MAX,
        event matches EventView::Bluetooth(BluetoothEventView::Discovered(session))
            ==> session.inv() && session.pending == Pending::Idle,
    ensures
        app.run(event).0.in_step(app.run(event).1),
{
    let list = app.mitches;
    let after = app.run(event).0.mitches.sessions;
    match event {
        EventView::Tick => {
            lemma_refresh_keeps_the_list_in_shape(list, Reply::Done);
            lemma_descend_one_in_flight(list.sessions, list.sessions.len());
        },
        EventView::Key(_) => {},
        EventView::App(_) => {
            assert forall|i: int| 0 <= i < after.len() implies (#[trigger] after[i]).inv() && (i
                != list.active ==> after[i].pending == Pending::Idle) by {}
        },
        EventView::Bluetooth(_) => {
            assert forall|i: int| 0 <= i < after.len() implies (#[trigger] after[i]).inv()
                && after[i].pending == Pending::Idle by {}
        },
    }
}

/// One reply keeps the application in step.
proof fn lemma_resume_keeps_in_step(app: AppView, turn: Turn, reply: Reply)
    requires
        app.in_step(turn),
    ensures
        app.resume(reply).0.in_step(app.resume(reply).1),
{
    let list = app.mitches;
    let after = app.resume(reply).0.mitches.sessions;
    lemma_refresh_keeps_the_list_in_shape(list, reply);
    match list.sweep {
        Sweep::Idle => {
            assert forall|i: int| 0 <= i < after.len() implies (#[trigger] after[i]).inv() && (i
                != list.active ==> after[i].pending == Pending::Idle) by {}
        },
        Sweep::Polling(at) => {
            let (session, step) = list.sessions[at as int].resume(reply);
            let visit = MitchListView::after_poll(session, step);
            lemma_after_a_visit(list.sessions, at as nat, visit.session, visit.dropping, visit.step);
        },
        Sweep::Dropping(at) => {
            let (session, step) = list.sessions[at as int].resume(reply);
            lemma_after_a_visit(list.sessions, at as nat, session, true, step);
        },
    }
}

/// Replies keep the application in step.
proof fn lemma_finish_keeps_in_step(app: AppView, turn: Turn, replies: Seq<Reply>)
    requires
        app.in_step(turn),
    ensures
        app.finish(turn, replies).0.in_step(app.finish(turn, replies).1),
    decreases replies.len(),
{
    if turn is Perform && replies.len() > 0 {
        lemma_resume_keeps_in_step(app, turn, replies[0]);
        let (next, answer) = app.resume(replies[0]);
        lemma_finish_keeps_in_step(next, answer, replies.drop_first());
    }
}

/// Between two events nothing is in flight. An application at rest that
/// handles an event, and is handed a reply for each request that it asks
/// for, is at rest again as soon as it asks for no further request: no
/// refresh is under way, and no session waits for a reply. Until then one
/// session at most waits for a reply: the one at which the refresh stands,
/// or else the selected one.
pub proof fn lemma_nothing_is_in_flight_between_events(
    app: AppView,
    event: EventView,
    replies: Seq<Reply>,
)
    requires
        app.mitches.inv(),
        app.mitches.sound(),
        app.mitches.at_rest(),
        app.mitches.sessions.len() < usize::MAX,
        event matches EventView::Bluetooth(BluetoothEventView::Discovered(session))
            ==> session.inv() && session.pending == Pending::Idle,
    ensures
        ({
            let (begun, turn) = app.run(event);
            let (ended, last) = begun.finish(turn, replies);
            &&& ended.mitches.inv()
            &&& ended.mitches.sound()
            &&& ended.mitches.one_in_flight()
            &&& !(last is Perform) ==> ended.mitches.at_rest()
        }),
{
    let (begun, turn) = app.run(event);
    lemma_run_keeps_in_step(app, event);
    lemma_finish_keeps_in_step(begun, turn, replies);
}

} // verus!
