//! Discovery of devices and the sessions held with them.
//!
//! The discovery task decides what the scan does next. The radio and the
//! outbound channel stay with the caller: it performs each [`ScanRequest`]
//! and hands what came of it to [`BtleDiscoverTask::resume`].
use vstd::prelude::*;
use vstd::string::*;
use crate::bluetooth::link::{Error, TransportError};
use crate::bluetooth::mitch::{Mitch, MitchView};

pub mod link;
pub mod mitch;
pub mod mitch_laws;
pub mod protocol;
pub mod registry;
pub mod registry_laws;

verus! {

/// What the device subsystem tells the control loop.
#[derive(Debug)]
pub enum BluetoothEvent {
    /// A device with a matching name was found; this is its session.
    Discovered(Mitch),
    /// The link to the device of this name is gone. Nothing reports it yet.
    Lost(String),
    /// The radio is not switched on.
    NotActive,
}

/// `BluetoothEvent` as the contracts see it.
pub enum BluetoothEventView {
    Discovered(MitchView),
    Lost(Seq<char>),
    NotActive,
}

impl View for BluetoothEvent {
    type V = BluetoothEventView;

    open spec fn view(&self) -> BluetoothEventView {
        match self {
            BluetoothEvent::Discovered(mitch) => BluetoothEventView::Discovered(mitch@),
            BluetoothEvent::Lost(name) => BluetoothEventView::Lost(name@),
            BluetoothEvent::NotActive => BluetoothEventView::NotActive,
        }
    }
}

/// One piece of work for the discovery task's caller.
#[derive(Debug)]
pub enum ScanRequest {
    /// Take the first adapter of the radio and report whether it is switched on.
    Acquire,
    /// Open the adapter's stream of discovery events.
    Listen,
    /// Start an active scan without a filter.
    StartScan,
    /// Wait for the next discovery event.
    NextEvent,
    /// Fetch what the peripheral under this handle advertises and report its
    /// local name.
    FetchName(u64),
    /// Send the event on the outbound channel.
    Emit(BluetoothEvent),
}

/// What came of a `ScanRequest`, or what the stream of discovery events
/// brought.
#[derive(Debug, PartialEq, Eq)]
pub enum ScanReply {
    /// The request was carried out.
    Done,
    /// The request failed; for `Emit`, the receiver is gone.
    Failed,
    /// `Acquire`: the adapter is switched on, or is not.
    Adapter { powered_on: bool },
    /// `NextEvent`: a peripheral was seen for the first time; the caller
    /// knows it under this handle.
    DeviceDiscovered(u64),
    /// `NextEvent`: some other event.
    OtherEvent,
    /// `NextEvent`: the stream has ended.
    StreamEnded,
    /// `FetchName`: the advertised local name, if the peripheral has one.
    LocalName(Option<String>),
}

/// What the caller of the discovery task does next.
#[derive(Debug)]
pub enum ScanStep {
    Perform(ScanRequest),
    Finished(Result<(), Error>),
}

/// `ScanStep` as the contracts see it.
pub enum ScanStepView {
    Acquire,
    Listen,
    StartScan,
    NextEvent,
    FetchName(u64),
    Emit(BluetoothEventView),
    Finished(Result<(), Error>),
}

impl View for ScanStep {
    type V = ScanStepView;

    open spec fn view(&self) -> ScanStepView {
        match self {
            ScanStep::Perform(ScanRequest::Acquire) => ScanStepView::Acquire,
            ScanStep::Perform(ScanRequest::Listen) => ScanStepView::Listen,
            ScanStep::Perform(ScanRequest::StartScan) => ScanStepView::StartScan,
            ScanStep::Perform(ScanRequest::NextEvent) => ScanStepView::NextEvent,
            ScanStep::Perform(ScanRequest::FetchName(handle)) => ScanStepView::FetchName(*handle),
            ScanStep::Perform(ScanRequest::Emit(event)) => ScanStepView::Emit(event@),
            ScanStep::Finished(result) => ScanStepView::Finished(*result),
        }
    }
}

/// Where the discovery task stands.
#[derive(Clone, Copy, Debug, PartialEq, Eq, Structural)]
pub enum ScanPhase {
    /// The task has not run yet.
    Created,
    /// The adapter is being taken.
    Acquiring,
    /// `NotActive` is being sent.
    Announcing,
    /// The stream of discovery events is being opened.
    Listening,
    /// The scan is being started.
    Starting,
    /// The next discovery event is awaited.
    Scanning,
    /// The name of the peripheral under this handle is being fetched.
    Naming(u64),
    /// A `Discovered` event is being sent.
    Emitting,
    /// The task has ended.
    Stopped,
}

/// The lowercase equivalent of a text: what `str::to_lowercase` of std
/// returns for it. Nothing more is said of it here.
pub uninterp spec fn lowercase(text: Seq<char>) -> Seq<char>;

/// The name that a peripheral advertises; the empty name where it
/// advertises none.
pub open spec fn advertised(local_name: Option<String>) -> Seq<char> {
    match local_name {
        Some(name) => name@,
        None => Seq::empty(),
    }
}

/// Whether a case-folded name is that of a device: it begins with "mitch".
pub open spec fn is_mitch_name(folded: Seq<char>) -> bool {
    folded.len() >= 5 && folded.subrange(0, 5) == "mitch"@
}

/// The session that the discovery of a peripheral leads to, by its handle
/// and its case-folded name.
pub open spec fn session_of(handle: u64, folded: Seq<char>) -> Option<MitchView> {
    if is_mitch_name(folded) {
        Some(MitchView::fresh(folded, handle))
    } else {
        None
    }
}

impl ScanPhase {
    /// The step that ends the task with a failure of the radio.
    pub open spec fn radio_failure() -> (ScanPhase, ScanStepView) {
        (
            ScanPhase::Stopped,
            ScanStepView::Finished(Err(Error::Transport(TransportError::Link))),
        )
    }

    /// The step that waits for the next discovery event.
    pub open spec fn listen_on() -> (ScanPhase, ScanStepView) {
        (ScanPhase::Scanning, ScanStepView::NextEvent)
    }

    /// `run`: a task that has not run takes the adapter; one that is under
    /// way refuses; one that has ended has nothing left to do.
    pub open spec fn run(self) -> (ScanPhase, ScanStepView) {
        match self {
            ScanPhase::Created => (ScanPhase::Acquiring, ScanStepView::Acquire),
            ScanPhase::Stopped => (self, ScanStepView::Finished(Ok(()))),
            _ => (self, ScanStepView::Finished(Err(Error::Transport(TransportError::Busy)))),
        }
    }

    /// `resume`: what the task makes of a reply.
    pub open spec fn resume(self, reply: ScanReply) -> (ScanPhase, ScanStepView) {
        match self {
            ScanPhase::Created | ScanPhase::Stopped => (self, ScanStepView::Finished(Ok(()))),
            ScanPhase::Acquiring => match reply {
                ScanReply::Adapter { powered_on: true } => (
                    ScanPhase::Listening,
                    ScanStepView::Listen,
                ),
                ScanReply::Adapter { powered_on: false } => (
                    ScanPhase::Announcing,
                    ScanStepView::Emit(BluetoothEventView::NotActive),
                ),
                _ => Self::radio_failure(),
            },
            ScanPhase::Announcing => (ScanPhase::Stopped, ScanStepView::Finished(Ok(()))),
            ScanPhase::Listening => match reply {
                ScanReply::Done => (ScanPhase::Starting, ScanStepView::StartScan),
                _ => Self::radio_failure(),
            },
            ScanPhase::Starting => match reply {
                ScanReply::Done => Self::listen_on(),
                _ => Self::radio_failure(),
            },
            ScanPhase::Scanning => match reply {
                ScanReply::DeviceDiscovered(handle) => (
                    ScanPhase::Naming(handle),
                    ScanStepView::FetchName(handle),
                ),
                ScanReply::StreamEnded => (ScanPhase::Stopped, ScanStepView::Finished(Ok(()))),
                ScanReply::Failed => Self::radio_failure(),
                _ => Self::listen_on(),
            },
            ScanPhase::Naming(handle) => match reply {
                ScanReply::LocalName(local_name) => match session_of(
                    handle,
                    lowercase(advertised(local_name)),
                ) {
                    Some(session) => (
                        ScanPhase::Emitting,
                        ScanStepView::Emit(BluetoothEventView::Discovered(session)),
                    ),
                    None => Self::listen_on(),
                },
                _ => Self::listen_on(),
            },
            ScanPhase::Emitting => match reply {
                ScanReply::Failed => (ScanPhase::Stopped, ScanStepView::Finished(Ok(()))),
                _ => Self::listen_on(),
            },
        }
    }
}

/// A task that has ended stays ended: it asks for nothing more, whatever it
/// is told.
pub proof fn lemma_a_stopped_task_stays_stopped(reply: ScanReply)
    ensures
        ScanPhase::Stopped.run() == (ScanPhase::Stopped, ScanStepView::Finished(Ok(()))),
        ScanPhase::Stopped.resume(reply) == (ScanPhase::Stopped, ScanStepView::Finished(Ok(()))),
{
}

/// A device is reported only in answer to its name, only where the
/// case-folded name begins with "mitch", and as a fresh session under the
/// folded name and the handle that the name was fetched for. `NotActive` is
/// reported only in answer to an adapter that is switched off.
pub proof fn lemma_only_mitch_devices_are_reported(phase: ScanPhase, reply: ScanReply)
    ensures
        phase.resume(reply).1 matches ScanStepView::Emit(BluetoothEventView::Discovered(session))
            ==> {
            &&& phase matches ScanPhase::Naming(handle)
            &&& reply matches ScanReply::LocalName(local_name)
            &&& is_mitch_name(lowercase(advertised(local_name)))
            &&& session == MitchView::fresh(lowercase(advertised(local_name)), handle)
        },
        phase.resume(reply).1 == ScanStepView::Emit(BluetoothEventView::NotActive) ==> phase
            == ScanPhase::Acquiring && reply == (ScanReply::Adapter { powered_on: false }),
        !(phase.resume(reply).1 matches ScanStepView::Emit(BluetoothEventView::Lost(_))),
{
}

/// While it scans, nothing but the end of the stream, a failure of the
/// stream or a receiver that is gone ends the task: every other reply is
/// answered with a request.
pub proof fn lemma_a_scan_goes_on(phase: ScanPhase, reply: ScanReply)
    requires
        phase == ScanPhase::Scanning || phase is Naming || phase == ScanPhase::Emitting,
    ensures
        phase.resume(reply).1 is Finished ==> {
            ||| phase == ScanPhase::Scanning && reply == ScanReply::StreamEnded
                && phase.resume(reply).1 == ScanStepView::Finished(Ok(()))
            ||| phase == ScanPhase::Scanning && reply == ScanReply::Failed
                && phase.resume(reply) == ScanPhase::radio_failure()
            ||| phase == ScanPhase::Emitting && reply == ScanReply::Failed
                && phase.resume(reply).1 == ScanStepView::Finished(Ok(()))
        },
        phase.resume(reply).1 is Finished <==> phase.resume(reply).0 == ScanPhase::Stopped,
{
}

/// Folds the case of `name` by `str::to_lowercase` of std. The contract is
/// taken on trust, not proved: the result is the lowercase equivalent of
/// `name`, the text that `lowercase` names, and so depends on `name` alone.
#[verifier::external_body]
fn to_lowercase(name: &str) -> (folded: String)
    ensures
        folded@ == lowercase(name@),
{
    name.to_lowercase()
}

/// Whether a case-folded name begins with "mitch".
pub fn starts_with_mitch(folded: &str) -> (matches: bool)
    ensures
        matches == is_mitch_name(folded@),
{
    proof {
        reveal_strlit("mitch");
    }
    if folded.unicode_len() < 5 {
        return false;
    }
    let matches = folded.get_char(0) == 'm' && folded.get_char(1) == 'i' && folded.get_char(2)
        == 't' && folded.get_char(3) == 'c' && folded.get_char(4) == 'h';
    proof {
        let head = folded@.subrange(0, 5);
        assert(head[0] == folded@[0] && head[1] == folded@[1] && head[2] == folded@[2]
            && head[3] == folded@[3] && head[4] == folded@[4]);
        if matches {
            assert(head =~= "mitch"@);
        }
    }
    matches
}

/// The session for a peripheral whose name has been case-folded: a fresh
/// session under the folded name where that begins with "mitch", none
/// otherwise.
pub fn session_for(handle: u64, folded: String) -> (found: Option<Mitch>)
    ensures
        match found {
            Some(mitch) => Some(mitch@) == session_of(handle, folded@),
            None => session_of(handle, folded@) is None,
        },
{
    if starts_with_mitch(folded.as_str()) {
        Some(Mitch::new(folded, handle))
    } else {
        None
    }
}

/// The session for a newly seen peripheral, by the local name that it
/// advertises: the name (empty where there is none) is case-folded, and a
/// name that then begins with "mitch" gives a fresh session under the folded
/// name.
pub fn discovered(handle: u64, local_name: Option<String>) -> (found: Option<Mitch>)
    ensures
        match found {
            Some(mitch) => Some(mitch@) == session_of(
                handle,
                lowercase(advertised(local_name)),
            ),
            None => session_of(handle, lowercase(advertised(local_name))) is None,
        },
{
    let folded = match &local_name {
        Some(name) => to_lowercase(name.as_str()),
        None => to_lowercase(""),
    };
    proof {
        reveal_strlit("");
        assert(""@ =~= Seq::<char>::empty());
    }
    session_for(handle, folded)
}

/// The task that finds devices: it takes the radio's adapter, scans, and
/// reports each newly seen peripheral whose name begins with "mitch" in any
/// letter case.
#[derive(Debug)]
pub struct BtleDiscoverTask {
    phase: ScanPhase,
}

impl View for BtleDiscoverTask {
    type V = ScanPhase;

    closed spec fn view(&self) -> ScanPhase {
        self.phase
    }
}

impl BtleDiscoverTask {
    /// A task that has not run yet.
    pub fn new() -> (task: BtleDiscoverTask)
        ensures
            task@ == ScanPhase::Created,
    {
        BtleDiscoverTask { phase: ScanPhase::Created }
    }

    /// Where the task stands.
    pub fn phase(&self) -> (phase: ScanPhase)
        ensures
            phase == self@,
    {
        self.phase
    }

    /// Starts the task: the caller is asked to take the adapter. A task runs
    /// once: while it is under way `run` is refused with `Busy`, and after
    /// it has ended `run` answers `Finished(Ok(()))`.
    pub fn run(&mut self) -> (step: ScanStep)
        ensures
            (final(self)@, step@) == old(self)@.run(),
    {
        match self.phase {
            ScanPhase::Created => {
                self.phase = ScanPhase::Acquiring;
                ScanStep::Perform(ScanRequest::Acquire)
            },
            ScanPhase::Stopped => ScanStep::Finished(Ok(())),
            _ => ScanStep::Finished(Err(Error::Transport(TransportError::Busy))),
        }
    }

    fn stop(&mut self, result: Result<(), Error>) -> (step: ScanStep)
        ensures
            final(self)@ == ScanPhase::Stopped,
            step@ == ScanStepView::Finished(result),
    {
        self.phase = ScanPhase::Stopped;
        ScanStep::Finished(result)
    }

    fn listen_on(&mut self) -> (step: ScanStep)
        ensures
            (final(self)@, step@) == ScanPhase::listen_on(),
    {
        self.phase = ScanPhase::Scanning;
        ScanStep::Perform(ScanRequest::NextEvent)
    }

    /// Takes what came of the last request and answers with the next step.
    ///
    /// A radio that is not switched on is reported once with `NotActive`,
    /// and the task ends. A failure while the scan is set up, or of the
    /// stream of events, ends the task with `Link`. While scanning, a newly
    /// seen peripheral has its name fetched; a name that begins with "mitch"
    /// after case folding is reported with `Discovered`; every other event,
    /// and a name that could not be fetched, is passed over. The task ends
    /// well when the stream ends or the receiver of the events is gone.
    pub fn resume(&mut self, reply: ScanReply) -> (step: ScanStep)
        ensures
            (final(self)@, step@) == old(self)@.resume(reply),
    {
        let failed: Result<(), Error> = Err(Error::Transport(TransportError::Link));
        match self.phase {
            ScanPhase::Created | ScanPhase::Stopped => ScanStep::Finished(Ok(())),
            ScanPhase::Acquiring => match reply {
                ScanReply::Adapter { powered_on } => {
                    if powered_on {
                        self.phase = ScanPhase::Listening;
                        ScanStep::Perform(ScanRequest::Listen)
                    } else {
                        self.phase = ScanPhase::Announcing;
                        ScanStep::Perform(ScanRequest::Emit(BluetoothEvent::NotActive))
                    }
                },
                _ => self.stop(failed),
            },
            ScanPhase::Announcing => self.stop(Ok(())),
            ScanPhase::Listening => match reply {
                ScanReply::Done => {
                    self.phase = ScanPhase::Starting;
                    ScanStep::Perform(ScanRequest::StartScan)
                },
                _ => self.stop(failed),
            },
            ScanPhase::Starting => match reply {
                ScanReply::Done => self.listen_on(),
                _ => self.stop(failed),
            },
            ScanPhase::Scanning => match reply {
                ScanReply::DeviceDiscovered(handle) => {
                    self.phase = ScanPhase::Naming(handle);
                    ScanStep::Perform(ScanRequest::FetchName(handle))
                },
                ScanReply::StreamEnded => self.stop(Ok(())),
                ScanReply::Failed => self.stop(failed),
                _ => self.listen_on(),
            },
            ScanPhase::Naming(handle) => match reply {
                ScanReply::LocalName(local_name) => match discovered(handle, local_name) {
                    Some(mitch) => {
                        self.phase = ScanPhase::Emitting;
                        ScanStep::Perform(ScanRequest::Emit(BluetoothEvent::Discovered(mitch)))
                    },
                    None => self.listen_on(),
                },
                _ => self.listen_on(),
            },
            ScanPhase::Emitting => match reply {
                ScanReply::Failed => self.stop(Ok(())),
                _ => self.listen_on(),
            },
        }
    }
}

} // verus!
