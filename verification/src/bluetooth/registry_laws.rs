//! What holds of the list of sessions: the selection stays in range, and a
//! refresh is the sum of what it does to each session by itself.
use vstd::prelude::*;
use crate::bluetooth::link::{Reply, Step};
use crate::bluetooth::mitch::{MitchView, Pending};
use crate::bluetooth::mitch_laws::{lemma_every_call_keeps_a_session_sound, Call};
use crate::bluetooth::protocol::{decoded, MitchState, ProtocolError};
use crate::bluetooth::registry::{MitchListView, Sweep};

verus! {

impl MitchListView {
    /// The list and the step to which `replies` bring a refresh that stands
    /// at `step`: each reply is handed to `resume` until the refresh is
    /// finished or the replies have run out.
    pub open spec fn finish(self, step: Step, replies: Seq<Reply>) -> (MitchListView, Step)
        decreases replies.len(),
    {
        if step is Finished || replies.len() == 0 {
            (self, step)
        } else {
            let (next, answer) = self.resume(replies[0]);
            next.finish(answer, replies.drop_first())
        }
    }

    /// What a refresh leaves of one session and how many replies its visit
    /// takes. A disconnected session is passed over. A connected one is
    /// polled; it keeps its link and learns its state where the frame was
    /// written, the response was read and the response decodes. In every
    /// other case, and where the session was waiting for another reply, it
    /// is disconnected, which takes one more reply.
    pub open spec fn visited(session: MitchView, replies: Seq<Reply>) -> (MitchView, nat) {
        if !session.connected {
            (session, 0)
        } else if session.pending != Pending::Idle {
            (session.dropped(), 1)
        } else if !replies[0].succeeded() {
            (session.dropped(), 2)
        } else if !replies[1].succeeded() {
            (session.dropped(), 3)
        } else {
            match decoded(replies[1].payload()) {
                Ok(state) => (session.polled(Some(state)), 2),
                Err(_) => (session.dropped(), 3),
            }
        }
    }

    /// The sessions after a refresh has visited those below position
    /// `below`, from the highest down, each visit taking its replies from
    /// the front of what the visits before it left.
    pub open spec fn settled(sessions: Seq<MitchView>, below: nat, replies: Seq<Reply>) -> Seq<
        MitchView,
    >
        decreases below,
    {
        if below == 0 || below > sessions.len() {
            sessions
        } else {
            let at = (below - 1) as nat;
            let (session, used) = Self::visited(sessions[at as int], replies);
            Self::settled(sessions.update(at as int, session), at, replies.skip(used as int))
        }
    }

    /// The list and the step to which `replies` bring the refresh of the
    /// sessions below position `below`.
    pub open spec fn refreshed(
        sessions: Seq<MitchView>,
        below: nat,
        active: usize,
        replies: Seq<Reply>,
    ) -> (MitchListView, Step) {
        let begun = Self::descend(sessions, below);
        MitchListView { sessions: begun.0, active, sweep: begun.1 }.finish(begun.2, replies)
    }
}

/// Moving the selection keeps it on a session: one position on or back, and
/// not past either end. On the empty list nothing changes.
pub proof fn lemma_selection_stays_in_range(list: MitchListView)
    requires
        list.inv(),
    ensures
        list.select_next().inv(),
        list.select_previous().inv(),
        list.select_next().sessions == list.sessions,
        list.select_previous().sessions == list.sessions,
        list.sessions.len() == 0 ==> list.select_next() == list && list.select_previous() == list,
        list.sessions.len() > 0 ==> {
            &&& 0 <= list.select_next().active < list.sessions.len()
            &&& 0 <= list.select_previous().active < list.sessions.len()
            &&& list.select_next().active == if list.active + 1 == list.sessions.len() {
                list.active as int
            } else {
                list.active + 1
            }
            &&& list.select_previous().active == if list.active == 0 {
                0
            } else {
                list.active - 1
            }
        },
{
}

/// Inserting a session keeps the list in order and the selection in place.
pub proof fn lemma_insert_keeps_the_selection(list: MitchListView, session: MitchView)
    requires
        list.inv(),
        list.sessions.len() < usize::MAX,
    ensures
        list.insert(session).inv(),
        list.insert(session).active == list.active,
        list.insert(session).sessions.len() == list.sessions.len() + 1,
        list.insert(session).sessions.last() == session,
        forall|i: int|
            0 <= i < list.sessions.len() ==> list.insert(session).sessions[i] == list.sessions[i],
{
}

/// The part of a refresh below a position keeps every session in its place,
/// leaves the sessions from that position on untouched, stands at a session
/// wherever it waits, and leaves sound what was sound.
pub proof fn lemma_descend_keeps_the_shape(sessions: Seq<MitchView>, below: nat)
    requires
        below <= sessions.len() <= usize::MAX,
    ensures
        ({
            let (after, sweep, _step) = MitchListView::descend(sessions, below);
            &&& after.len() == sessions.len()
            &&& forall|i: int| below <= i < sessions.len() ==> after[i] == sessions[i]
            &&& match sweep {
                Sweep::Idle => true,
                Sweep::Polling(at) => at < below,
                Sweep::Dropping(at) => at < below,
            }
            &&& (forall|i: int| 0 <= i < sessions.len() ==> (#[trigger] sessions[i]).inv())
                ==> (forall|i: int| 0 <= i < after.len() ==> (#[trigger] after[i]).inv())
        }),
    decreases below,
{
    if below > 0 {
        let at = (below - 1) as nat;
        let (polled, step) = sessions[at as int].update_state();
        let visit = MitchListView::after_poll(polled, step);
        let visited = sessions.update(at as int, visit.session);
        lemma_descend_keeps_the_shape(visited, at);
        if forall|i: int| 0 <= i < sessions.len() ==> (#[trigger] sessions[i]).inv() {
            assert forall|i: int| 0 <= i < visited.len() implies (#[trigger] visited[i]).inv() by {}
        }
    }
}

/// Every step of a refresh keeps the list in shape: no session is added,
/// lost or moved, the selection stays where it was and on a session, and
/// sound sessions stay sound.
pub proof fn lemma_refresh_keeps_the_list_in_shape(list: MitchListView, reply: Reply)
    requires
        list.inv(),
    ensures
        list.update().0.inv(),
        list.resume(reply).0.inv(),
        list.update().0.sessions.len() == list.sessions.len(),
        list.resume(reply).0.sessions.len() == list.sessions.len(),
        list.update().0.active == list.active,
        list.resume(reply).0.active == list.active,
        list.sound() ==> list.update().0.sound() && list.resume(reply).0.sound(),
{
    lemma_descend_keeps_the_shape(list.sessions, list.sessions.len());
    match list.sweep {
        Sweep::Idle => {},
        Sweep::Polling(at) => {
            let (session, step) = list.sessions[at as int].resume(reply);
            let visit = MitchListView::after_poll(session, step);
            let visited = list.sessions.update(at as int, visit.session);
            lemma_descend_keeps_the_shape(visited, at as nat);
            if list.sound() {
                assert forall|i: int| 0 <= i < visited.len() implies (#[trigger] visited[i]).inv() by {}
            }
        },
        Sweep::Dropping(at) => {
            let (session, _step) = list.sessions[at as int].resume(reply);
            let visited = list.sessions.update(at as int, session);
            lemma_descend_keeps_the_shape(visited, at as nat);
            if list.sound() {
                assert forall|i: int| 0 <= i < visited.len() implies (#[trigger] visited[i]).inv() by {}
            }
        },
    }
}

/// One visit of a refresh: the replies bring the refresh from the session
/// at `at` to the point where it goes on below `at`, with that session as
/// `visited` says and the replies of the visit used up.
proof fn lemma_visit(sessions: Seq<MitchView>, at: nat, active: usize, replies: Seq<Reply>)
    requires
        at < sessions.len() <= usize::MAX,
        sessions[at as int].inv(),
        replies.len() >= 3,
    ensures
        ({
            let (session, used) = MitchListView::visited(sessions[at as int], replies);
            MitchListView::refreshed(sessions, at + 1, active, replies)
                == MitchListView::refreshed(
                sessions.update(at as int, session),
                at,
                active,
                replies.skip(used as int),
            )
        }),
{
    let (session, _used) = MitchListView::visited(sessions[at as int], replies);
    let settled = sessions.update(at as int, session);
    let begun = MitchListView::descend(sessions, at + 1);
    let first = MitchListView { sessions: begun.0, active, sweep: begun.1 };
    reveal_with_fuel(MitchListView::finish, 4);
    assert(replies.skip(0) =~= replies);
    assert(replies.drop_first().drop_first() =~= replies.skip(2));
    assert(replies.drop_first().drop_first().drop_first() =~= replies.skip(3));
    if !sessions[at as int].connected {
        // The session is passed over.
    } else if sessions[at as int].pending != Pending::Idle {
        // The poll is refused, and the first reply answers the disconnect.
        let closed = sessions[at as int].disconnect().0.resume(replies[0]).0;
        assert(first.sessions.update(at as int, closed) =~= settled);
    } else {
        let written = first.sessions[at as int].resume(replies[0]).0;
        let second = first.resume(replies[0]).0;
        if !replies[0].succeeded() {
            // The write fails, and the second reply answers the disconnect.
            let closed = written.disconnect().0.resume(replies[1]).0;
            assert(second.sessions.update(at as int, closed) =~= settled);
        } else {
            let read = written.resume(replies[1]).0;
            let third = second.resume(replies[1]).0;
            if replies[1].succeeded() && decoded(replies[1].payload()) is Ok {
                // The poll goes through.
                assert(second.sessions.update(at as int, read) =~= settled);
            } else {
                // The read fails, and the third reply answers the disconnect.
                let closed = read.disconnect().0.resume(replies[2]).0;
                assert(third.sessions.update(at as int, closed) =~= settled);
            }
        }
    }
}

/// A visit leaves a sound session sound and keeps its name and handle.
/// After it the session is either connected with the state that its poll
/// brought, or disconnected with no known state; and a disconnected session
/// is left as it was.
pub proof fn lemma_visited(session: MitchView, replies: Seq<Reply>)
    requires
        session.inv(),
    ensures
        ({
            let (after, used) = MitchListView::visited(session, replies);
            &&& after.inv()
            &&& used <= 3
            &&& after.name == session.name && after.handle == session.handle
            &&& after.pending == Pending::Idle || after == session
            &&& !session.connected ==> after == session
            &&& after.connected ==> session.connected && session.pending == Pending::Idle
                && replies[0].succeeded() && replies[1].succeeded() && decoded(
                replies[1].payload(),
            ) == Ok::<MitchState, ProtocolError>(after.state->0)
            &&& !after.connected ==> after.state is None
        }),
{
}

/// Fault isolation. Given a reply for every request, a refresh runs to its
/// end and ends well, whatever the replies were: no failure of a session
/// comes out of it. It leaves each session as the visit to that session
/// alone leaves it: a session whose poll went through knows its state, a
/// session whose poll failed is disconnected with no known state, and the
/// failure of one session changes nothing for another. The selection stays
/// where it was.
pub proof fn lemma_refresh_isolates_faults(list: MitchListView, replies: Seq<Reply>)
    requires
        list.inv(),
        list.sound(),
        replies.len() >= 3 * list.sessions.len(),
    ensures
        ({
            let (begun, step) = list.update();
            begun.finish(step, replies) == (
                MitchListView {
                    sessions: MitchListView::settled(
                        list.sessions,
                        list.sessions.len(),
                        replies,
                    ),
                    active: list.active,
                    sweep: Sweep::Idle,
                },
                Step::done(),
            )
        }),
{
    lemma_refresh_below(list.sessions, list.sessions.len(), list.active, replies);
}

/// The same for the part of a refresh that lies below a position.
pub proof fn lemma_refresh_below(
    sessions: Seq<MitchView>,
    below: nat,
    active: usize,
    replies: Seq<Reply>,
)
    requires
        below <= sessions.len() <= usize::MAX,
        forall|i: int| 0 <= i < below ==> (#[trigger] sessions[i]).inv(),
        replies.len() >= 3 * below,
    ensures
        MitchListView::refreshed(sessions, below, active, replies) == (
            MitchListView {
                sessions: MitchListView::settled(sessions, below, replies),
                active,
                sweep: Sweep::Idle,
            },
            Step::done(),
        ),
    decreases below,
{
    if below > 0 {
        let at = (below - 1) as nat;
        let (session, used) = MitchListView::visited(sessions[at as int], replies);
        lemma_visit(sessions, at, active, replies);
        lemma_refresh_below(
            sessions.update(at as int, session),
            at,
            active,
            replies.skip(used as int),
        );
    }
}

/// What a refresh leaves at each position is what the visit to the session
/// at that position leaves, for some part of the replies: the sessions
/// above the refreshed ones are untouched, and no session is added, lost or
/// moved.
pub proof fn lemma_settled_session_by_session(
    sessions: Seq<MitchView>,
    below: nat,
    replies: Seq<Reply>,
    at: int,
)
    requires
        below <= sessions.len(),
        0 <= at < sessions.len(),
    ensures
        MitchListView::settled(sessions, below, replies).len() == sessions.len(),
        at >= below ==> MitchListView::settled(sessions, below, replies)[at] == sessions[at],
        at < below ==> exists|part: Seq<Reply>|
            MitchListView::settled(sessions, below, replies)[at] == (
            #[trigger] MitchListView::visited(sessions[at], part)).0,
    decreases below,
{
    if below > 0 {
        let top = (below - 1) as nat;
        let (session, used) = MitchListView::visited(sessions[top as int], replies);
        lemma_settled_session_by_session(
            sessions.update(top as int, session),
            top,
            replies.skip(used as int),
            at,
        );
    }
}

} // verus!
