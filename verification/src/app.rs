//! The control loop's decisions: what each event does to the application and
//! what the loop has to do about it.
use vstd::prelude::*;
use crate::bluetooth::link::{Error, Reply, Request, Step};
use crate::bluetooth::registry::{MitchList, MitchListView, Sweep};
use crate::bluetooth::{BluetoothEvent, BluetoothEventView};
use crate::event::{AppEvent, Event, EventView, KeyCode, KeyEvent, KeyEventKind};

verus! {

/// The screen that the application shows.
#[derive(Clone, Copy, Debug, PartialEq, Eq, Structural)]
pub enum AppState {
    /// The list of sessions.
    Menu,
    /// The selected session.
    Mitch,
}

/// What the control loop does after an event was handled.
#[derive(Clone, Copy, Debug, PartialEq, Eq)]
pub enum Turn {
    /// Nothing: draw and wait for the next event.
    Wait,
    /// Queue this intent as an event of its own.
    Send(AppEvent),
    /// Perform the request on the device `handle` and hand the reply to
    /// `App::resume`.
    Perform { handle: u64, request: Request },
    /// Show this error of a command of the user, and go on.
    Report(Error),
    /// End the loop with this error.
    Fatal(Error),
}

impl Turn {
    /// The turn that follows a step of a session or of the list.
    pub open spec fn of_step(step: Step) -> Turn {
        match step {
            Step::Perform { handle, request } => Turn::Perform { handle, request },
            Step::Finished(Ok(_)) => Turn::Wait,
            Step::Finished(Err(e)) => Turn::Report(e),
        }
    }

    /// The turn that follows a step of a session or of the list.
    pub fn from_step(step: Step) -> (turn: Turn)
        ensures
            turn == Turn::of_step(step),
    {
        match step {
            Step::Perform { handle, request } => Turn::Perform { handle, request },
            Step::Finished(Ok(_)) => Turn::Wait,
            Step::Finished(Err(e)) => Turn::Report(e),
        }
    }
}

/// The application as the contracts see it.
#[verifier::ext_equal]
pub struct AppView {
    pub state: AppState,
    pub running: bool,
    pub mitches: MitchListView,
}

/// What a key does on a screen: the screen that follows and the intent that
/// is queued, if any. A key that came up does nothing.
pub open spec fn key_outcome(state: AppState, key: KeyEvent) -> (AppState, Option<AppEvent>) {
    if key.kind == KeyEventKind::Release {
        (state, None)
    } else {
        match state {
            AppState::Menu => if key.code == KeyCode::Esc || key.code == KeyCode::Char('q') {
                (state, Some(AppEvent::Quit))
            } else if (key.code == KeyCode::Char('c') || key.code == KeyCode::Char('C'))
                && key.control {
                (state, Some(AppEvent::Quit))
            } else if key.code == KeyCode::Up {
                (state, Some(AppEvent::PrevMitch))
            } else if key.code == KeyCode::Down {
                (state, Some(AppEvent::NextMitch))
            } else if key.code == KeyCode::Enter {
                (AppState::Mitch, None)
            } else {
                (state, None)
            },
            AppState::Mitch => if key.code == KeyCode::Esc || key.code == KeyCode::Char('q') {
                (AppState::Menu, None)
            } else if (key.code == KeyCode::Char('c') || key.code == KeyCode::Char('C'))
                && key.control {
                (state, Some(AppEvent::Quit))
            } else if key.code == KeyCode::Char('c') {
                (state, Some(AppEvent::Connect))
            } else if key.code == KeyCode::Char('d') {
                (state, Some(AppEvent::Disconnect))
            } else if key.code == KeyCode::Char('r') {
                (state, Some(AppEvent::StartRecord))
            } else if key.code == KeyCode::Char('s') {
                (state, Some(AppEvent::StopRecord))
            } else {
                (state, None)
            },
        }
    }
}

impl AppView {
    /// The application at its start: the menu, running, no session.
    pub open spec fn initial() -> AppView {
        AppView { state: AppState::Menu, running: true, mitches: MitchListView::empty() }
    }

    /// This application with another list of sessions, and the turn that a
    /// step of the list or of a session leads to.
    pub open spec fn with_list(self, to: (MitchListView, Step)) -> (AppView, Turn) {
        (AppView { mitches: to.0, ..self }, Turn::of_step(to.1))
    }

    /// A command is begun on the selected session. With no session it is
    /// dropped.
    pub open spec fn command(self, intent: AppEvent) -> (AppView, Turn) {
        if self.mitches.sessions.len() == 0 {
            (self, Turn::Wait)
        } else {
            let at = self.mitches.active as int;
            let session = self.mitches.sessions[at];
            let (next, step) = match intent {
                AppEvent::Connect => session.connect(),
                AppEvent::Disconnect => session.disconnect(),
                AppEvent::StartRecord => session.start_recording(),
                AppEvent::StopRecord => session.stop_recording(),
                _ => (session, Step::done()),
            };
            self.with_list(
                (
                    MitchListView { sessions: self.mitches.sessions.update(at, next), ..self.mitches },
                    step,
                ),
            )
        }
    }

    /// What an intent of the user does.
    pub open spec fn intent(self, intent: AppEvent) -> (AppView, Turn) {
        match intent {
            AppEvent::Quit => (AppView { running: false, ..self }, Turn::Wait),
            AppEvent::PrevMitch => (
                AppView { mitches: self.mitches.select_previous(), ..self },
                Turn::Wait,
            ),
            AppEvent::NextMitch => (
                AppView { mitches: self.mitches.select_next(), ..self },
                Turn::Wait,
            ),
            _ => self.command(intent),
        }
    }

    /// `run`: what one event does.
    pub open spec fn run(self, event: EventView) -> (AppView, Turn) {
        match event {
            EventView::Tick => self.with_list(self.mitches.update()),
            EventView::Key(key) => {
                let (state, queued) = key_outcome(self.state, key);
                (
                    AppView { state, ..self },
                    match queued {
                        Some(intent) => Turn::Send(intent),
                        None => Turn::Wait,
                    },
                )
            },
            EventView::App(intent) => self.intent(intent),
            EventView::Bluetooth(BluetoothEventView::Discovered(session)) => (
                AppView { mitches: self.mitches.insert(session), ..self },
                Turn::Wait,
            ),
            EventView::Bluetooth(BluetoothEventView::Lost(_)) => (self, Turn::Wait),
            EventView::Bluetooth(BluetoothEventView::NotActive) => (
                AppView { running: false, ..self },
                Turn::Fatal(Error::NotActive),
            ),
        }
    }

    /// `resume`: the reply goes to the refresh if one is under way, else to
    /// the selected session.
    pub open spec fn resume(self, reply: Reply) -> (AppView, Turn) {
        if self.mitches.sweep != Sweep::Idle {
            self.with_list(self.mitches.resume(reply))
        } else if self.mitches.sessions.len() == 0 {
            (self, Turn::Wait)
        } else {
            let at = self.mitches.active as int;
            let (next, step) = self.mitches.sessions[at].resume(reply);
            self.with_list(
                (
                    MitchListView { sessions: self.mitches.sessions.update(at, next), ..self.mitches },
                    step,
                ),
            )
        }
    }
}

/// Nothing but `Quit` and a radio that is switched off ends the run, and
/// nothing but the latter is fatal: a failure of a session is shown at most,
/// and one that a refresh meets is not even shown.
pub proof fn lemma_what_ends_the_run(app: AppView, event: EventView, reply: Reply)
    requires
        app.running,
    ensures
        !app.run(event).0.running ==> event == EventView::App(AppEvent::Quit) || event
            == EventView::Bluetooth(BluetoothEventView::NotActive),
        app.run(event).1 is Fatal <==> event == EventView::Bluetooth(
            BluetoothEventView::NotActive,
        ),
        app.run(event).1 is Fatal ==> app.run(event).1 == Turn::Fatal(Error::NotActive),
        app.resume(reply).0.running,
        !(app.resume(reply).1 is Fatal),
        !(app.run(EventView::Tick).1 is Report),
        app.mitches.sweep != Sweep::Idle ==> !(app.resume(reply).1 is Report),
{
    MitchListView::lemma_no_error_leaves_the_refresh(
        app.mitches.sessions,
        app.mitches.sessions.len(),
    );
    app.mitches.lemma_no_error_leaves_resume(reply);
}

/// The application: the screen, whether it runs, and the sessions.
#[derive(Debug)]
pub struct App {
    /// The screen that is shown.
    pub state: AppState,
    /// Whether the application runs.
    pub running: bool,
    /// The sessions with the discovered devices.
    pub mitches: MitchList,
}

impl View for App {
    type V = AppView;

    open spec fn view(&self) -> AppView {
        AppView { state: self.state, running: self.running, mitches: self.mitches@ }
    }
}

impl Default for App {
    fn default() -> (app: App)
        ensures
            app@ == AppView::initial(),
    {
        App { state: AppState::Menu, running: true, mitches: MitchList::new() }
    }
}

impl App {
    /// The application at its start.
    pub fn new() -> (app: App)
        ensures
            app@ == AppView::initial(),
    {
        App { state: AppState::Menu, running: true, mitches: MitchList::new() }
    }

    /// Handles one event and says what the loop does next.
    ///
    /// The tick begins a refresh of all sessions. A key is read by
    /// `handle_key_events`. `Quit` ends the run, `PrevMitch` and `NextMitch`
    /// move the selection, and the four commands go to the selected session;
    /// with no session they are dropped. A discovered device is appended to
    /// the sessions. `NotActive` ends the run with an error.
    pub fn run(&mut self, event: Event) -> (turn: Turn)
        ensures
            final(self)@ == old(self)@.run(event@).0,
            turn == old(self)@.run(event@).1,
    {
        match event {
            Event::Tick => self.tick(),
            Event::Key(key) => match self.handle_key_events(key) {
                Some(intent) => Turn::Send(intent),
                None => Turn::Wait,
            },
            Event::App(intent) => match intent {
                AppEvent::Quit => {
                    self.quit();
                    Turn::Wait
                },
                AppEvent::PrevMitch => {
                    self.prev();
                    Turn::Wait
                },
                AppEvent::NextMitch => {
                    self.next();
                    Turn::Wait
                },
                _ => self.command(intent),
            },
            Event::Bluetooth(news) => match news {
                BluetoothEvent::Discovered(mitch) => {
                    self.mitches.insert(mitch);
                    Turn::Wait
                },
                BluetoothEvent::Lost(_) => Turn::Wait,
                BluetoothEvent::NotActive => {
                    self.running = false;
                    Turn::Fatal(Error::NotActive)
                },
            },
        }
    }

    /// Begins a command on the selected session; with no session the command
    /// is dropped.
    fn command(&mut self, intent: AppEvent) -> (turn: Turn)
        ensures
            final(self)@ == old(self)@.command(intent).0,
            turn == old(self)@.command(intent).1,
    {
        if self.mitches.is_empty() {
            return Turn::Wait;
        }
        let mitch = self.mitches.get_active_mut();
        let step = match intent {
            AppEvent::Connect => mitch.connect(),
            AppEvent::Disconnect => mitch.disconnect(),
            AppEvent::StartRecord => mitch.start_recording(),
            AppEvent::StopRecord => mitch.stop_recording(),
            _ => Step::Finished(Ok(())),
        };
        Turn::from_step(step)
    }

    /// Takes the reply to the request that the loop was asked to perform and
    /// says what the loop does next. The reply goes to the refresh if one is
    /// under way and to the selected session otherwise.
    pub fn resume(&mut self, reply: Reply) -> (turn: Turn)
        ensures
            final(self)@ == old(self)@.resume(reply).0,
            turn == old(self)@.resume(reply).1,
    {
        match self.mitches.sweep() {
            Sweep::Idle => {
                if self.mitches.is_empty() {
                    return Turn::Wait;
                }
                let step = self.mitches.get_active_mut().resume(reply);
                Turn::from_step(step)
            },
            _ => {
                let step = self.mitches.resume(reply);
                Turn::from_step(step)
            },
        }
    }

    /// Handles a key: the screen may change, and the intent that the key
    /// stands for on the screen shown, if any, is handed back to be queued.
    pub fn handle_key_events(&mut self, key_event: KeyEvent) -> (queued: Option<AppEvent>)
        ensures
            (final(self)@.state, queued) == key_outcome(old(self)@.state, key_event),
            final(self)@.running == old(self)@.running,
            final(self)@.mitches == old(self)@.mitches,
    {
        if key_event.kind == KeyEventKind::Release {
            return None;
        }
        let control = key_event.control;
        match self.state {
            AppState::Menu => match key_event.code {
                KeyCode::Esc => Some(AppEvent::Quit),
                KeyCode::Up => Some(AppEvent::PrevMitch),
                KeyCode::Down => Some(AppEvent::NextMitch),
                KeyCode::Enter => {
                    self.state = AppState::Mitch;
                    None
                },
                KeyCode::Char(c) => {
                    if c == 'q' || ((c == 'c' || c == 'C') && control) {
                        Some(AppEvent::Quit)
                    } else {
                        None
                    }
                },
                KeyCode::Other => None,
            },
            AppState::Mitch => match key_event.code {
                KeyCode::Esc => {
                    self.state = AppState::Menu;
                    None
                },
                KeyCode::Char(c) => {
                    if c == 'q' {
                        self.state = AppState::Menu;
                        None
                    } else if (c == 'c' || c == 'C') && control {
                        Some(AppEvent::Quit)
                    } else if c == 'c' {
                        Some(AppEvent::Connect)
                    } else if c == 'd' {
                        Some(AppEvent::Disconnect)
                    } else if c == 'r' {
                        Some(AppEvent::StartRecord)
                    } else if c == 's' {
                        Some(AppEvent::StopRecord)
                    } else {
                        None
                    }
                },
                _ => None,
            },
        }
    }

    /// Handles the tick: begins a refresh of all sessions. No error of a
    /// session comes out of it.
    pub fn tick(&mut self) -> (turn: Turn)
        ensures
            final(self)@ == old(self)@.with_list(old(self)@.mitches.update()).0,
            turn == old(self)@.with_list(old(self)@.mitches.update()).1,
            !(turn is Report) && !(turn is Fatal) && !(turn is Send),
    {
        let step = self.mitches.update();
        Turn::from_step(step)
    }

    /// Ends the run.
    pub fn quit(&mut self)
        ensures
            final(self)@ == (AppView { running: false, ..old(self)@ }),
    {
        self.running = false;
    }

    /// Selects the next session.
    pub fn next(&mut self)
        ensures
            final(self)@ == (AppView { mitches: old(self)@.mitches.select_next(), ..old(self)@ }),
    {
        self.mitches.select_next();
    }

    /// Selects the session before.
    pub fn prev(&mut self)
        ensures
            final(self)@ == (AppView {
                mitches: old(self)@.mitches.select_previous(),
                ..old(self)@
            }),
    {
        self.mitches.select_previous();
    }
}

} // verus!
