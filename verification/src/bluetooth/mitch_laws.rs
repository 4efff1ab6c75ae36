//! What holds of a session over whole operations and over any run of calls.
use vstd::prelude::*;
use crate::bluetooth::link::{Error, Reply, Step};
use crate::bluetooth::mitch::{MitchView, Pending};
use crate::bluetooth::protocol::decoded;

verus! {

/// One call on a session.
pub enum Call {
    Connect,
    Disconnect,
    UpdateState,
    StartRecording,
    StopRecording,
    Resume(Reply),
}

impl MitchView {
    /// The session and the step after `call`.
    pub open spec fn after(self, call: Call) -> (MitchView, Step) {
        match call {
            Call::Connect => self.connect(),
            Call::Disconnect => self.disconnect(),
            Call::UpdateState => self.update_state(),
            Call::StartRecording => self.start_recording(),
            Call::StopRecording => self.stop_recording(),
            Call::Resume(reply) => self.resume(reply),
        }
    }

    /// The session after `calls`, made one after the other.
    pub open spec fn after_all(self, calls: Seq<Call>) -> MitchView
        decreases calls.len(),
    {
        if calls.len() == 0 {
            self
        } else {
            self.after_all(calls.drop_last()).after(calls.last()).0
        }
    }

    /// The session and the step to which `replies` bring an operation that
    /// stands at `step`: each reply is handed to `resume` until the
    /// operation is finished or the replies have run out.
    pub open spec fn finish(self, step: Step, replies: Seq<Reply>) -> (MitchView, Step)
        decreases replies.len(),
    {
        if step is Finished || replies.len() == 0 {
            (self, step)
        } else {
            let (next, answer) = self.resume(replies[0]);
            next.finish(answer, replies.drop_first())
        }
    }

    /// This session, disconnected and idle, with no known state.
    pub open spec fn dropped(self) -> MitchView {
        MitchView { connected: false, state: None, pending: Pending::Idle, ..self }
    }
}

/// Every call leaves a sound session sound: after it, a disconnected
/// session knows no operating state. No call changes the name or the handle.
pub proof fn lemma_every_call_keeps_a_session_sound(session: MitchView, call: Call)
    requires
        session.inv(),
    ensures
        session.after(call).0.inv(),
        !session.after(call).0.connected ==> session.after(call).0.state is None,
        session.after(call).0.name == session.name,
        session.after(call).0.handle == session.handle,
{
}

/// From its discovery on, through any calls in any order, a session is
/// sound: whenever it is disconnected it knows no operating state.
pub proof fn lemma_sessions_stay_sound(name: Seq<char>, handle: u64, calls: Seq<Call>)
    ensures
        MitchView::fresh(name, handle).after_all(calls).inv(),
        !MitchView::fresh(name, handle).after_all(calls).connected ==> MitchView::fresh(
            name,
            handle,
        ).after_all(calls).state is None,
    decreases calls.len(),
{
    if calls.len() > 0 {
        lemma_sessions_stay_sound(name, handle, calls.drop_last());
    }
}

/// A session has one request in flight at most. While it waits for a reply,
/// connecting, polling, starting and stopping ask for nothing and leave the
/// session as it is; a step that asks for a request leaves the session
/// waiting; and a command frame is written only by a connected session.
pub proof fn lemma_one_request_in_flight(session: MitchView, call: Call)
    requires
        session.inv(),
    ensures
        session.pending != Pending::Idle && !(call is Resume) && !(call is Disconnect)
            ==> session.after(call).1 is Finished && session.after(call).0 == session,
        session.after(call).1 is Perform ==> session.after(call).0.pending != Pending::Idle,
        call is Resume && session.after(call).1 is Finished ==> session.after(call).0.pending
            == Pending::Idle,
        session.after(call).1 matches Step::Perform { handle, request } ==> handle
            == session.handle && (request is Write || request is Read || request is Subscribe
            ==> session.connected && session.after(call).0.connected),
{
}

/// Connecting a disconnected, idle session: it is connected exactly when
/// the link was opened and the services were discovered; when either
/// failed, the session is as it was and the error is `Link`.
pub proof fn lemma_connect(session: MitchView, replies: Seq<Reply>)
    requires
        session.inv(),
        !session.connected,
        session.pending == Pending::Idle,
        replies.len() >= 3,
    ensures
        ({
            let (begun, step) = session.connect();
            begun.finish(step, replies) == if replies[0].succeeded() && replies[1].succeeded() {
                (session.linked(true), Step::done())
            } else {
                (session, Step::link_failure())
            }
        }),
{
    reveal_with_fuel(MitchView::finish, 4);
}

/// Connecting a connected session does nothing and ends well.
pub proof fn lemma_connect_when_connected(session: MitchView, replies: Seq<Reply>)
    requires
        session.connected,
    ensures
        session.connect() == (session, Step::done()),
        session.finish(Step::done(), replies) == (session, Step::done()),
{
}

/// Disconnecting a connected session: it is disconnected and knows no state
/// from the first step on, whatever the reply; the reply decides only
/// whether `Link` is reported. Disconnecting a disconnected session does
/// nothing and ends well.
pub proof fn lemma_disconnect(session: MitchView, replies: Seq<Reply>)
    requires
        session.inv(),
        replies.len() >= 1,
    ensures
        ({
            let (begun, step) = session.disconnect();
            &&& !begun.connected && begun.state is None
            &&& begun.finish(step, replies) == if !session.connected {
                (session, Step::done())
            } else if replies[0].succeeded() {
                (session.dropped(), Step::done())
            } else {
                (session.dropped(), Step::link_failure())
            }
        }),
{
    reveal_with_fuel(MitchView::finish, 3);
}

/// Polling a connected, idle session: the state becomes what the response
/// decodes to when the frame was written and the response was read; a
/// failure of either, or a response that does not decode, leaves the state
/// unknown and is reported. The session stays connected either way.
pub proof fn lemma_update_state(session: MitchView, replies: Seq<Reply>)
    requires
        session.inv(),
        session.connected,
        session.pending == Pending::Idle,
        replies.len() >= 2,
    ensures
        ({
            let (begun, step) = session.update_state();
            begun.finish(step, replies) == if !replies[0].succeeded()
                || !replies[1].succeeded() {
                (session.polled(None), Step::link_failure())
            } else {
                match decoded(replies[1].payload()) {
                    Ok(state) => (session.polled(Some(state)), Step::done()),
                    Err(e) => (session.polled(None), Step::Finished(Err(Error::Protocol(e)))),
                }
            }
        }),
{
    reveal_with_fuel(MitchView::finish, 4);
}

/// Polling a disconnected session asks for nothing, leaves the state
/// unknown and ends well.
pub proof fn lemma_update_state_when_disconnected(session: MitchView)
    requires
        session.inv(),
        !session.connected,
    ensures
        session.update_state() == (session, Step::done()),
{
}

/// Starting the stream on a connected, idle session: it ends well exactly
/// when the subscription, the write and the confirming read all went
/// through, and with `Link` otherwise. The session is left as it was.
pub proof fn lemma_start_recording(session: MitchView, replies: Seq<Reply>)
    requires
        session.inv(),
        session.connected,
        session.pending == Pending::Idle,
        replies.len() >= 3,
    ensures
        ({
            let (begun, step) = session.start_recording();
            begun.finish(step, replies) == if replies[0].succeeded() && replies[1].succeeded()
                && replies[2].succeeded() {
                (session, Step::done())
            } else {
                (session, Step::link_failure())
            }
        }),
{
    reveal_with_fuel(MitchView::finish, 5);
}

/// Stopping the stream on a connected, idle session: it ends well exactly
/// when the write and the confirming read went through, and with `Link`
/// otherwise. The session is left as it was.
pub proof fn lemma_stop_recording(session: MitchView, replies: Seq<Reply>)
    requires
        session.inv(),
        session.connected,
        session.pending == Pending::Idle,
        replies.len() >= 2,
    ensures
        ({
            let (begun, step) = session.stop_recording();
            begun.finish(step, replies) == if replies[0].succeeded() && replies[1].succeeded() {
                (session, Step::done())
            } else {
                (session, Step::link_failure())
            }
        }),
{
    reveal_with_fuel(MitchView::finish, 4);
}

/// What changes the connection and the state, and nothing else does.
/// A session becomes connected only when the discovery of services that
/// `connect` began goes through. It becomes disconnected only by
/// `disconnect`: no failure of a poll, a start or a stop takes the link
/// away. The operating state changes only by a poll and by `disconnect`.
pub proof fn lemma_what_changes_a_session(session: MitchView, call: Call)
    requires
        session.inv(),
    ensures
        !session.connected && session.after(call).0.connected ==> {
            &&& session.pending == Pending::Discovering
            &&& call matches Call::Resume(reply)
            &&& reply.succeeded()
        },
        session.connected && !session.after(call).0.connected ==> call is Disconnect,
        session.after(call).0.state != session.state ==> {
            ||| call is Disconnect
            ||| call is Resume && (session.pending == Pending::PollWriting || session.pending
                == Pending::PollReading)
        },
{
}

} // verus!
