//! The session with one device.
//!
//! A session never touches the radio. Each operation answers with a
//! [`Step`]: a request for the caller to perform on the device, or the
//! result. The reply to a request goes to [`Mitch::resume`], which answers
//! with the next step of the same operation.
use vstd::prelude::*;
use vstd::string::*;
use crate::bluetooth::link::{Error, Reply, Request, Step, TransportError};
use crate::bluetooth::protocol::{
    decode_state, decoded, Commands, MitchState, ProtocolError, COMMAND_CHAR, DATA_CHAR,
};

verus! {

/// The reply that a session waits for.
#[derive(Clone, Copy, Debug, PartialEq, Eq, Structural)]
pub enum Pending {
    /// No request is in flight.
    Idle,
    /// `connect`: the link is being opened.
    Connecting,
    /// `connect`: the services of the device are being discovered.
    Discovering,
    /// `connect`: the link is being given up after the discovery failed.
    Releasing,
    /// `disconnect`: the link is being closed.
    Disconnecting,
    /// `update_state`: the `GetState` frame is being written.
    PollWriting,
    /// `update_state`: the response is being read.
    PollReading,
    /// `start_recording`: the telemetry notifications are being subscribed to.
    Subscribing,
    /// `start_recording`: the `StartStream` frame is being written.
    StartWriting,
    /// `start_recording`: the confirmation is being read.
    StartReading,
    /// `stop_recording`: the `StopStream` frame is being written.
    StopWriting,
    /// `stop_recording`: the confirmation is being read.
    StopReading,
}

impl Pending {
    /// Whether the awaited reply belongs to an operation on an open link.
    pub open spec fn on_open_link(self) -> bool {
        match self {
            Pending::PollWriting
            | Pending::PollReading
            | Pending::Subscribing
            | Pending::StartWriting
            | Pending::StartReading
            | Pending::StopWriting
            | Pending::StopReading => true,
            _ => false,
        }
    }

    /// Whether the awaited reply belongs to opening or closing the link.
    pub open spec fn on_closed_link(self) -> bool {
        match self {
            Pending::Connecting
            | Pending::Discovering
            | Pending::Releasing
            | Pending::Disconnecting => true,
            _ => false,
        }
    }
}

/// A session as the contracts see it.
#[verifier::ext_equal]
pub struct MitchView {
    /// The display name.
    pub name: Seq<char>,
    /// The handle under which the radio layer knows the device.
    pub handle: u64,
    /// Whether the session holds an open link.
    pub connected: bool,
    /// The operating state that the last poll brought.
    pub state: Option<MitchState>,
    /// The reply that is awaited.
    pub pending: Pending,
}

impl MitchView {
    /// The session of a device that was just discovered.
    pub open spec fn fresh(name: Seq<char>, handle: u64) -> MitchView {
        MitchView { name, handle, connected: false, state: None, pending: Pending::Idle }
    }

    /// What holds of every session: a disconnected session knows no operating
    /// state, and the awaited reply fits the connection state.
    pub open spec fn inv(self) -> bool {
        &&& !self.connected ==> self.state is None
        &&& self.pending.on_open_link() ==> self.connected
        &&& self.pending.on_closed_link() ==> !self.connected
    }

    /// The step that asks for `request` on this session's device.
    pub open spec fn ask(self, request: Request) -> Step {
        Step::Perform { handle: self.handle, request }
    }

    /// This session while it waits for `pending`.
    pub open spec fn awaiting(self, pending: Pending) -> MitchView {
        MitchView { pending, ..self }
    }

    /// This session, idle, after an operation on the open link went well.
    pub open spec fn settled(self) -> MitchView {
        MitchView { pending: Pending::Idle, ..self }
    }

    /// This session, idle, after a poll that brought `state`.
    pub open spec fn polled(self, state: Option<MitchState>) -> MitchView {
        MitchView { state, pending: Pending::Idle, ..self }
    }

    /// This session, idle and connected or not.
    pub open spec fn linked(self, connected: bool) -> MitchView {
        MitchView { connected, pending: Pending::Idle, ..self }
    }

    /// `connect`: nothing to do on a connected session; refused while a
    /// reply is awaited; otherwise the link is opened.
    pub open spec fn connect(self) -> (MitchView, Step) {
        if self.connected {
            (self, Step::done())
        } else if self.pending != Pending::Idle {
            (self, Step::busy())
        } else {
            (self.awaiting(Pending::Connecting), self.ask(Request::Connect))
        }
    }

    /// `disconnect`: nothing to do on a disconnected session; otherwise the
    /// session is disconnected at once, whatever it waited for, and the link
    /// is closed.
    pub open spec fn disconnect(self) -> (MitchView, Step) {
        if !self.connected {
            (self, Step::done())
        } else {
            (
                MitchView {
                    connected: false,
                    state: None,
                    pending: Pending::Disconnecting,
                    ..self
                },
                self.ask(Request::Disconnect),
            )
        }
    }

    /// `update_state`: a disconnected session forgets its state and is done;
    /// a connected one is refused while a reply is awaited and otherwise
    /// writes `GetState`.
    pub open spec fn update_state(self) -> (MitchView, Step) {
        if !self.connected {
            (MitchView { state: None, ..self }, Step::done())
        } else if self.pending != Pending::Idle {
            (self, Step::busy())
        } else {
            (
                self.awaiting(Pending::PollWriting),
                self.ask(
                    Request::Write { characteristic: COMMAND_CHAR, command: Commands::GetState },
                ),
            )
        }
    }

    /// `start_recording`: refused on a disconnected session and while a reply
    /// is awaited; otherwise the telemetry notifications are subscribed to.
    pub open spec fn start_recording(self) -> (MitchView, Step) {
        if !self.connected {
            (self, Step::Finished(Err(Error::Transport(TransportError::NotConnected))))
        } else if self.pending != Pending::Idle {
            (self, Step::busy())
        } else {
            (
                self.awaiting(Pending::Subscribing),
                self.ask(Request::Subscribe { characteristic: DATA_CHAR }),
            )
        }
    }

    /// `stop_recording`: refused on a disconnected session and while a reply
    /// is awaited; otherwise `StopStream` is written.
    pub open spec fn stop_recording(self) -> (MitchView, Step) {
        if !self.connected {
            (self, Step::Finished(Err(Error::Transport(TransportError::NotConnected))))
        } else if self.pending != Pending::Idle {
            (self, Step::busy())
        } else {
            (
                self.awaiting(Pending::StopWriting),
                self.ask(
                    Request::Write { characteristic: COMMAND_CHAR, command: Commands::StopStream },
                ),
            )
        }
    }

    /// What a response to `GetState` does to a connected session.
    pub open spec fn read_state(self, response: Seq<u8>) -> (MitchView, Step) {
        match decoded(response) {
            Ok(state) => (self.polled(Some(state)), Step::done()),
            Err(e) => (self.polled(None), Step::Finished(Err(Error::Protocol(e)))),
        }
    }

    /// `resume`: the answer of the session to the reply that it waited for.
    pub open spec fn resume(self, reply: Reply) -> (MitchView, Step) {
        let ok = reply.succeeded();
        match self.pending {
            Pending::Idle => (self, Step::done()),
            Pending::Connecting => if ok {
                (self.awaiting(Pending::Discovering), self.ask(Request::DiscoverServices))
            } else {
                (self.linked(false), Step::link_failure())
            },
            Pending::Discovering => if ok {
                (self.linked(true), Step::done())
            } else {
                (self.awaiting(Pending::Releasing), self.ask(Request::Disconnect))
            },
            Pending::Releasing => (self.linked(false), Step::link_failure()),
            Pending::Disconnecting => if ok {
                (self.settled(), Step::done())
            } else {
                (self.settled(), Step::link_failure())
            },
            Pending::PollWriting => if ok {
                (
                    self.awaiting(Pending::PollReading),
                    self.ask(Request::Read { characteristic: COMMAND_CHAR }),
                )
            } else {
                (self.polled(None), Step::link_failure())
            },
            Pending::PollReading => if ok {
                self.read_state(reply.payload())
            } else {
                (self.polled(None), Step::link_failure())
            },
            Pending::Subscribing => if ok {
                (
                    self.awaiting(Pending::StartWriting),
                    self.ask(
                        Request::Write {
                            characteristic: COMMAND_CHAR,
                            command: Commands::StartStream,
                        },
                    ),
                )
            } else {
                (self.settled(), Step::link_failure())
            },
            Pending::StartWriting => if ok {
                (
                    self.awaiting(Pending::StartReading),
                    self.ask(Request::Read { characteristic: COMMAND_CHAR }),
                )
            } else {
                (self.settled(), Step::link_failure())
            },
            Pending::StopWriting => if ok {
                (
                    self.awaiting(Pending::StopReading),
                    self.ask(Request::Read { characteristic: COMMAND_CHAR }),
                )
            } else {
                (self.settled(), Step::link_failure())
            },
            Pending::StartReading | Pending::StopReading => if ok {
                (self.settled(), Step::done())
            } else {
                (self.settled(), Step::link_failure())
            },
        }
    }

    /// The text that shows a session in a list: its name and its state.
    pub open spec fn name_with_state(self) -> Seq<char> {
        self.name + " - "@ + state_text(self.state)
    }
}

/// The text that shows an operating state, known or not.
pub open spec fn state_text(state: Option<MitchState>) -> Seq<char> {
    match state {
        None => "None"@,
        Some(s) => "Some("@ + s.label() + ")"@,
    }
}

/// What changes in a session besides its identity.
#[derive(Clone, Copy, Debug)]
struct Status {
    connected: bool,
    state: Option<MitchState>,
    pending: Pending,
}

/// The session with one discovered device.
#[derive(Debug)]
pub struct Mitch {
    name: String,
    handle: u64,
    status: Status,
}

impl View for Mitch {
    type V = MitchView;

    closed spec fn view(&self) -> MitchView {
        MitchView {
            name: self.name@,
            handle: self.handle,
            connected: self.status.connected,
            state: self.status.state,
            pending: self.status.pending,
        }
    }
}

impl Mitch {
    /// What every session meets, at every moment.
    #[verifier::type_invariant]
    pub open spec fn well_formed(self) -> bool {
        self@.inv()
    }

    /// The session of a device that was just discovered: disconnected, with
    /// no known state and nothing in flight.
    pub fn new(name: String, handle: u64) -> (mitch: Mitch)
        ensures
            mitch@ == MitchView::fresh(name@, handle),
            mitch@.inv(),
    {
        Mitch {
            name,
            handle,
            status: Status { connected: false, state: None, pending: Pending::Idle },
        }
    }

    /// The display name.
    pub fn name(&self) -> (name: &str)
        ensures
            name@ == self@.name,
    {
        self.name.as_str()
    }

    /// The handle under which the radio layer knows the device.
    pub fn handle(&self) -> (handle: u64)
        ensures
            handle == self@.handle,
    {
        self.handle
    }

    /// Whether the session holds an open link.
    pub fn is_connected(&self) -> (connected: bool)
        ensures
            connected == self@.connected,
    {
        self.status.connected
    }

    /// The operating state that the last poll brought; `None` on a
    /// disconnected session and after a poll that failed.
    pub fn state(&self) -> (state: Option<MitchState>)
        ensures
            state == self@.state,
            !self@.connected ==> state is None,
    {
        proof {
            use_type_invariant(self);
        }
        self.status.state
    }

    /// The reply that the session waits for.
    pub fn pending(&self) -> (pending: Pending)
        ensures
            pending == self@.pending,
    {
        self.status.pending
    }

    /// The name and the state of the session as one line of text.
    pub fn name_with_state(&self) -> (text: String)
        ensures
            text@ == self@.name_with_state(),
    {
        let mut text = self.name.clone();
        text.append(" - ");
        match self.status.state {
            None => {
                text.append("None");
            },
            Some(state) => {
                text.append("Some(");
                text.append(state.name());
                text.append(")");
            },
        }
        text
    }

    fn ask(&self, request: Request) -> (step: Step)
        ensures
            step == self@.ask(request),
    {
        Step::Perform { handle: self.handle, request }
    }

    /// Begins to connect. A connected session is done at once; a session
    /// that waits for a reply refuses with `Busy`; otherwise the caller is
    /// asked to open the link.
    pub fn connect(&mut self) -> (step: Step)
        ensures
            (final(self)@, step) == old(self)@.connect(),
            final(self)@.inv(),
    {
        proof {
            use_type_invariant(&*self);
        }
        if self.status.connected {
            Step::Finished(Ok(()))
        } else if self.status.pending != Pending::Idle {
            Step::Finished(Err(Error::Transport(TransportError::Busy)))
        } else {
            self.status.pending = Pending::Connecting;
            self.ask(Request::Connect)
        }
    }

    /// Begins to disconnect. A disconnected session is done at once. A
    /// connected one is disconnected here and now and forgets its state,
    /// whatever it waited for; the caller is asked to close the link, and the
    /// reply decides only what is reported.
    pub fn disconnect(&mut self) -> (step: Step)
        ensures
            (final(self)@, step) == old(self)@.disconnect(),
            final(self)@.inv(),
            !final(self)@.connected,
            final(self)@.state is None,
    {
        proof {
            use_type_invariant(&*self);
        }
        if !self.status.connected {
            Step::Finished(Ok(()))
        } else {
            self.status = Status { connected: false, state: None, pending: Pending::Disconnecting };
            self.ask(Request::Disconnect)
        }
    }

    /// Begins a poll of the operating state. A disconnected session forgets
    /// its state and is done; a connected one refuses with `Busy` while it
    /// waits for a reply and otherwise asks for `GetState` to be written.
    pub fn update_state(&mut self) -> (step: Step)
        ensures
            (final(self)@, step) == old(self)@.update_state(),
            final(self)@.inv(),
            final(self)@.connected == old(self)@.connected,
    {
        proof {
            use_type_invariant(&*self);
        }
        if !self.status.connected {
            self.status.state = None;
            Step::Finished(Ok(()))
        } else if self.status.pending != Pending::Idle {
            Step::Finished(Err(Error::Transport(TransportError::Busy)))
        } else {
            self.status.pending = Pending::PollWriting;
            self.ask(Request::Write { characteristic: COMMAND_CHAR, command: Commands::GetState })
        }
    }

    /// Begins to start the telemetry stream. Refused with `NotConnected` on a
    /// disconnected session and with `Busy` while a reply is awaited;
    /// otherwise the caller is asked to subscribe to the telemetry
    /// notifications.
    pub fn start_recording(&mut self) -> (step: Step)
        ensures
            (final(self)@, step) == old(self)@.start_recording(),
            final(self)@.inv(),
            final(self)@.connected == old(self)@.connected,
    {
        proof {
            use_type_invariant(&*self);
        }
        if !self.status.connected {
            Step::Finished(Err(Error::Transport(TransportError::NotConnected)))
        } else if self.status.pending != Pending::Idle {
            Step::Finished(Err(Error::Transport(TransportError::Busy)))
        } else {
            self.status.pending = Pending::Subscribing;
            self.ask(Request::Subscribe { characteristic: DATA_CHAR })
        }
    }

    /// Begins to stop the telemetry stream. Refused with `NotConnected` on a
    /// disconnected session and with `Busy` while a reply is awaited;
    /// otherwise the caller is asked to write `StopStream`.
    pub fn stop_recording(&mut self) -> (step: Step)
        ensures
            (final(self)@, step) == old(self)@.stop_recording(),
            final(self)@.inv(),
            final(self)@.connected == old(self)@.connected,
    {
        proof {
            use_type_invariant(&*self);
        }
        if !self.status.connected {
            Step::Finished(Err(Error::Transport(TransportError::NotConnected)))
        } else if self.status.pending != Pending::Idle {
            Step::Finished(Err(Error::Transport(TransportError::Busy)))
        } else {
            self.status.pending = Pending::StopWriting;
            self.ask(Request::Write { characteristic: COMMAND_CHAR, command: Commands::StopStream })
        }
    }

    fn settle(&mut self, connected: bool, state: Option<MitchState>)
        requires
            !connected ==> state is None,
        ensures
            final(self)@ == (MitchView {
                connected,
                state,
                pending: Pending::Idle,
                ..old(self)@
            }),
    {
        self.status = Status { connected, state, pending: Pending::Idle };
    }

    fn wait_for(&mut self, pending: Pending, request: Request) -> (step: Step)
        requires
            pending.on_open_link() ==> old(self)@.connected,
            pending.on_closed_link() ==> !old(self)@.connected,
        ensures
            final(self)@ == old(self)@.awaiting(pending),
            step == old(self)@.ask(request),
    {
        proof {
            use_type_invariant(&*self);
        }
        self.status.pending = pending;
        self.ask(request)
    }

    /// Takes the reply to the request that the session asked for last and
    /// answers with the next step of the operation in flight. With nothing in
    /// flight the reply is dropped and the step is `Finished(Ok(()))`.
    ///
    /// A failed request ends its operation with `Link`, except that a failed
    /// discovery of services first asks for the half-open link to be closed.
    /// Only a connect that went through makes the session connected; only a
    /// poll touches the operating state, which a failed poll leaves unknown.
    pub fn resume(&mut self, reply: Reply) -> (step: Step)
        ensures
            (final(self)@, step) == old(self)@.resume(reply),
            final(self)@.inv(),
            final(self)@.connected == old(self)@.connected || (old(self)@.pending
                == Pending::Discovering && reply.succeeded()),
    {
        proof {
            use_type_invariant(&*self);
        }
        let failed = Step::Finished(Err(Error::Transport(TransportError::Link)));
        let read = Request::Read { characteristic: COMMAND_CHAR };
        let connected = self.status.connected;
        let state = self.status.state;
        match self.status.pending {
            Pending::Idle => Step::Finished(Ok(())),
            Pending::Connecting => match reply {
                Reply::Failed => {
                    self.settle(false, None);
                    failed
                },
                _ => self.wait_for(Pending::Discovering, Request::DiscoverServices),
            },
            Pending::Discovering => match reply {
                Reply::Failed => self.wait_for(Pending::Releasing, Request::Disconnect),
                _ => {
                    self.settle(true, None);
                    Step::Finished(Ok(()))
                },
            },
            Pending::Releasing => {
                self.settle(false, None);
                failed
            },
            Pending::Disconnecting => {
                self.settle(false, None);
                match reply {
                    Reply::Failed => failed,
                    _ => Step::Finished(Ok(())),
                }
            },
            Pending::PollWriting => match reply {
                Reply::Failed => {
                    self.settle(true, None);
                    failed
                },
                _ => self.wait_for(Pending::PollReading, read),
            },
            Pending::PollReading => match reply {
                Reply::Failed => {
                    self.settle(true, None);
                    failed
                },
                Reply::Done => {
                    self.settle(true, None);
                    Step::Finished(Err(Error::Protocol(ProtocolError::ShortFrame)))
                },
                Reply::Data(response) => match decode_state(response.as_slice()) {
                    Ok(found) => {
                        self.settle(true, Some(found));
                        Step::Finished(Ok(()))
                    },
                    Err(e) => {
                        self.settle(true, None);
                        Step::Finished(Err(Error::Protocol(e)))
                    },
                },
            },
            Pending::Subscribing => match reply {
                Reply::Failed => {
                    self.settle(connected, state);
                    failed
                },
                _ => self.wait_for(
                    Pending::StartWriting,
                    Request::Write { characteristic: COMMAND_CHAR, command: Commands::StartStream },
                ),
            },
            Pending::StartWriting => match reply {
                Reply::Failed => {
                    self.settle(connected, state);
                    failed
                },
                _ => self.wait_for(Pending::StartReading, read),
            },
            Pending::StopWriting => match reply {
                Reply::Failed => {
                    self.settle(connected, state);
                    failed
                },
                _ => self.wait_for(Pending::StopReading, read),
            },
            Pending::StartReading | Pending::StopReading => {
                self.settle(connected, state);
                match reply {
                    Reply::Failed => failed,
                    _ => Step::Finished(Ok(())),
                }
            },
        }
    }

    /// Ends the session. Where it still holds an open link, the handle is
    /// handed back for the caller to close the link, which need not succeed.
    pub fn close(self) -> (open_link: Option<u64>)
        ensures
            open_link == if self@.connected {
                Some(self@.handle)
            } else {
                None::<u64>
            },
    {
        if self.status.connected {
            Some(self.handle)
        } else {
            None
        }
    }
}

} // verus!
