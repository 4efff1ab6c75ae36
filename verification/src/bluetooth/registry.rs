//! The ordered list of sessions, its selection, and the refresh that polls
//! every session and gives up the ones that do not answer.
use vstd::prelude::*;
use crate::bluetooth::link::{Reply, Step};
use crate::bluetooth::mitch::{Mitch, MitchView};

verus! {

/// Where a refresh of the list stands.
#[derive(Clone, Copy, Debug, PartialEq, Eq, Structural)]
pub enum Sweep {
    /// No refresh is under way.
    Idle,
    /// The poll of the session at this position waits for a reply.
    Polling(usize),
    /// The session at this position failed its poll and is being
    /// disconnected; the reply to that is awaited.
    Dropping(usize),
}

/// What a refresh makes of its visit to one session, so far.
pub struct Visit {
    /// The session as the visit leaves it.
    pub session: MitchView,
    /// Whether the poll failed and the session is being disconnected.
    pub dropping: bool,
    /// What the session answered last.
    pub step: Step,
}

/// The list as the contracts see it.
#[verifier::ext_equal]
pub struct MitchListView {
    /// The sessions in the order in which they were inserted.
    pub sessions: Seq<MitchView>,
    /// The position of the selected session.
    pub active: usize,
    /// Where the refresh stands.
    pub sweep: Sweep,
}

impl MitchListView {
    /// The empty list.
    pub open spec fn empty() -> MitchListView {
        MitchListView { sessions: Seq::empty(), active: 0, sweep: Sweep::Idle }
    }

    /// What holds of every list: the selection points at a session unless
    /// there is none, and a refresh under way stands at a session.
    pub open spec fn inv(self) -> bool {
        &&& self.sessions.len() <= usize::MAX
        &&& self.active < self.sessions.len() || (self.sessions.len() == 0 && self.active == 0)
        &&& match self.sweep {
            Sweep::Idle => true,
            Sweep::Polling(at) => at < self.sessions.len(),
            Sweep::Dropping(at) => at < self.sessions.len(),
        }
    }

    /// Whether every session of the list is sound.
    pub open spec fn sound(self) -> bool {
        forall|i: int| 0 <= i < self.sessions.len() ==> (#[trigger] self.sessions[i]).inv()
    }

    /// `insert`: the session goes to the end; nothing else changes.
    pub open spec fn insert(self, session: MitchView) -> MitchListView {
        MitchListView { sessions: self.sessions.push(session), ..self }
    }

    /// `select_next`: one position on, but never past the last session.
    pub open spec fn select_next(self) -> MitchListView {
        if self.active + 1 < self.sessions.len() {
            MitchListView { active: (self.active + 1) as usize, ..self }
        } else {
            self
        }
    }

    /// `select_previous`: one position back, but never before the first.
    pub open spec fn select_previous(self) -> MitchListView {
        if self.active > 0 {
            MitchListView { active: (self.active - 1) as usize, ..self }
        } else {
            self
        }
    }

    /// What the refresh does when the poll of `session` answered with `step`:
    /// a poll that ended in an error is followed at once by a disconnect.
    pub open spec fn after_poll(session: MitchView, step: Step) -> Visit {
        match step {
            Step::Finished(Err(_)) => {
                let (dropped, close) = session.disconnect();
                Visit { session: dropped, dropping: true, step: close }
            },
            _ => Visit { session, dropping: false, step },
        }
    }

    /// The refresh from the session just below position `below` downwards:
    /// each session is polled in turn until one asks for work on the radio.
    pub open spec fn descend(sessions: Seq<MitchView>, below: nat) -> (
        Seq<MitchView>,
        Sweep,
        Step,
    )
        decreases below, 0nat,
    {
        if below == 0 || below > sessions.len() {
            (sessions, Sweep::Idle, Step::done())
        } else {
            let at = (below - 1) as nat;
            let (polled, step) = sessions[at as int].update_state();
            Self::proceed(sessions, at, Self::after_poll(polled, step))
        }
    }

    /// The refresh after `visit` to the session at position `at`: it waits
    /// where the session asks for work on the radio and moves on where the
    /// session is finished, whatever the result.
    pub open spec fn proceed(sessions: Seq<MitchView>, at: nat, visit: Visit) -> (
        Seq<MitchView>,
        Sweep,
        Step,
    )
        decreases at, 1nat,
    {
        let visited = sessions.update(at as int, visit.session);
        if visit.step is Perform {
            (
                visited,
                if visit.dropping {
                    Sweep::Dropping(at as usize)
                } else {
                    Sweep::Polling(at as usize)
                },
                visit.step,
            )
        } else {
            Self::descend(visited, at)
        }
    }

    /// This list with the sessions and the standing of a refresh replaced.
    pub open spec fn swept(self, to: (Seq<MitchView>, Sweep, Step)) -> (MitchListView, Step) {
        (MitchListView { sessions: to.0, sweep: to.1, ..self }, to.2)
    }

    /// `update`: a new refresh, from the last session to the first.
    pub open spec fn update(self) -> (MitchListView, Step) {
        self.swept(Self::descend(self.sessions, self.sessions.len()))
    }

    /// `resume`: the reply goes to the session at which the refresh stands,
    /// and the refresh goes on from there.
    pub open spec fn resume(self, reply: Reply) -> (MitchListView, Step) {
        match self.sweep {
            Sweep::Idle => (self, Step::done()),
            Sweep::Polling(at) => {
                let (session, step) = self.sessions[at as int].resume(reply);
                self.swept(
                    Self::proceed(self.sessions, at as nat, Self::after_poll(session, step)),
                )
            },
            Sweep::Dropping(at) => {
                let (session, step) = self.sessions[at as int].resume(reply);
                self.swept(
                    Self::proceed(
                        self.sessions,
                        at as nat,
                        Visit { session, dropping: true, step },
                    ),
                )
            },
        }
    }

    /// A refresh hands no error on: where it is finished, it ended well.
    pub proof fn lemma_no_error_leaves_the_refresh(sessions: Seq<MitchView>, below: nat)
        ensures
            Self::descend(sessions, below).2 is Finished ==> Self::descend(sessions, below).2
                == Step::done(),
        decreases below,
    {
        if !(below == 0 || below > sessions.len()) {
            let at = (below - 1) as nat;
            let (polled, step) = sessions[at as int].update_state();
            let visit = Self::after_poll(polled, step);
            Self::lemma_no_error_leaves_the_refresh(
                sessions.update(at as int, visit.session),
                at,
            );
        }
    }

    /// Resuming a refresh hands no error on either.
    pub proof fn lemma_no_error_leaves_resume(self, reply: Reply)
        ensures
            self.resume(reply).1 is Finished ==> self.resume(reply).1 == Step::done(),
    {
        match self.sweep {
            Sweep::Idle => {},
            Sweep::Polling(at) => {
                let (session, step) = self.sessions[at as int].resume(reply);
                let visit = Self::after_poll(session, step);
                Self::lemma_no_error_leaves_the_refresh(
                    self.sessions.update(at as int, visit.session),
                    at as nat,
                );
            },
            Sweep::Dropping(at) => {
                let (session, _step) = self.sessions[at as int].resume(reply);
                Self::lemma_no_error_leaves_the_refresh(
                    self.sessions.update(at as int, session),
                    at as nat,
                );
            },
        }
    }

    /// The handles of the sessions that hold an open link, in list order.
    pub open spec fn open_links(sessions: Seq<MitchView>) -> Seq<u64>
        decreases sessions.len(),
    {
        if sessions.len() == 0 {
            Seq::empty()
        } else if sessions.last().connected {
            Self::open_links(sessions.drop_last()).push(sessions.last().handle)
        } else {
            Self::open_links(sessions.drop_last())
        }
    }
}

/// The ordered list of sessions with one of them selected.
#[derive(Debug)]
pub struct MitchList {
    inner: Vec<Mitch>,
    active: usize,
    sweep: Sweep,
}

impl View for MitchList {
    type V = MitchListView;

    closed spec fn view(&self) -> MitchListView {
        MitchListView {
            sessions: Seq::new(self.inner@.len(), |i: int| self.inner@[i]@),
            active: self.active,
            sweep: self.sweep,
        }
    }
}

impl Default for MitchList {
    fn default() -> (list: MitchList)
        ensures
            list@ == MitchListView::empty(),
    {
        MitchList::new()
    }
}

impl MitchList {
    #[verifier::type_invariant]
    spec fn well_formed(self) -> bool {
        &&& self.active < self.inner@.len() || (self.inner@.len() == 0 && self.active == 0)
        &&& match self.sweep {
            Sweep::Idle => true,
            Sweep::Polling(at) => at < self.inner@.len(),
            Sweep::Dropping(at) => at < self.inner@.len(),
        }
    }

    /// The empty list.
    pub fn new() -> (list: MitchList)
        ensures
            list@ == MitchListView::empty(),
            list@.inv(),
    {
        let list = MitchList { inner: Vec::new(), active: 0, sweep: Sweep::Idle };
        list
    }

    /// Appends a session. The selection stays where it is.
    pub fn insert(&mut self, mitch: Mitch)
        ensures
            final(self)@ == old(self)@.insert(mitch@),
            final(self)@.inv(),
    {
        proof {
            use_type_invariant(&*self);
        }
        let mut taken = MitchList::new();
        core::mem::swap(self, &mut taken);
        let MitchList { mut inner, active, sweep } = taken;
        inner.push(mitch);
        assert(inner@.len() == inner.len());
        *self = MitchList { inner, active, sweep };
    }

    /// The selected session.
    pub fn get_active(&self) -> (mitch: &Mitch)
        requires
            self@.sessions.len() > 0,
        ensures
            mitch@ == self@.sessions[self@.active as int],
            self@.active < self@.sessions.len(),
    {
        proof {
            use_type_invariant(self);
        }
        &self.inner[self.active]
    }

    /// The selected session, to work on. Nothing but that session changes.
    pub fn get_active_mut(&mut self) -> (mitch: &mut Mitch)
        requires
            old(self)@.sessions.len() > 0,
        ensures
            mitch@ == old(self)@.sessions[old(self)@.active as int],
            old(self)@.active < old(self)@.sessions.len(),
            final(self)@.sessions =~= old(self)@.sessions.update(
                old(self)@.active as int,
                final(mitch)@,
            ),
            final(self)@.active == old(self)@.active,
            final(self)@.sweep == old(self)@.sweep,
            final(self)@.inv(),
    {
        proof {
            use_type_invariant(&*self);
        }
        assert(self.inner@.len() == self.inner.len());
        &mut self.inner[self.active]
    }

    /// The number of sessions.
    pub fn len(&self) -> (len: usize)
        ensures
            len == self@.sessions.len(),
    {
        self.inner.len()
    }

    /// Whether the list holds no session.
    pub fn is_empty(&self) -> (empty: bool)
        ensures
            empty == (self@.sessions.len() == 0),
    {
        self.len() == 0
    }

    /// The position of the selected session; 0 in the empty list.
    pub fn active(&self) -> (active: usize)
        ensures
            active == self@.active,
            active < self@.sessions.len() || (self@.sessions.len() == 0 && active == 0),
    {
        proof {
            use_type_invariant(self);
        }
        self.active
    }
    /// Where the refresh stands.
    pub fn sweep(&self) -> (sweep: Sweep)
        ensures
            sweep == self@.sweep,
    {
        self.sweep
    }

    /// The session at `index`, if there is one.
    pub fn get(&self, index: usize) -> (mitch: Option<&Mitch>)
        ensures
            match mitch {
                Some(m) => index < self@.sessions.len() && m@ == self@.sessions[index as int],
                None => index >= self@.sessions.len(),
            },
    {
        if index < self.inner.len() {
            Some(&self.inner[index])
        } else {
            None
        }
    }

    /// Selects the next session; the last one stays selected, and an empty
    /// list stays as it is.
    pub fn select_next(&mut self)
        ensures
            final(self)@ == old(self)@.select_next(),
            final(self)@.inv(),
    {
        proof {
            use_type_invariant(&*self);
        }
        assert(self.inner@.len() == self.inner.len());
        if self.active + 1 < self.inner.len() {
            self.active = self.active + 1;
        }
    }

    /// Selects the session before; the first one stays selected, and an
    /// empty list stays as it is.
    pub fn select_previous(&mut self)
        ensures
            final(self)@ == old(self)@.select_previous(),
            final(self)@.inv(),
    {
        proof {
            use_type_invariant(&*self);
        }
        assert(self.inner@.len() == self.inner.len());
        if self.active > 0 {
            self.active = self.active - 1;
        }
    }

    /// Polls the sessions below position `start`, from the highest down,
    /// until one of them asks for work on the radio.
    fn descend(&mut self, start: usize) -> (step: Step)
        requires
            start <= old(self)@.sessions.len(),
        ensures
            final(self)@ == old(self)@.swept(
                MitchListView::descend(old(self)@.sessions, start as nat),
            ).0,
            step == MitchListView::descend(old(self)@.sessions, start as nat).2,
            final(self)@.inv(),
    {
        let mut below = start;
        while below > 0
            invariant
                below <= self@.sessions.len(),
                self@.sessions.len() == old(self)@.sessions.len(),
                self@.active == old(self)@.active,
                MitchListView::descend(self@.sessions, below as nat) == MitchListView::descend(
                    old(self)@.sessions,
                    start as nat,
                ),
            decreases below,
        {
            proof {
                use_type_invariant(&*self);
            }
            assert(self.inner@.len() == self.inner.len());
            let ghost before = self@.sessions;
            below = below - 1;
            let polled = self.inner[below].update_state();
            let ghost visit = MitchListView::after_poll(self@.sessions[below as int], polled);
            let (step, dropping) = match polled {
                Step::Finished(Err(_)) => (self.inner[below].disconnect(), true),
                _ => (polled, false),
            };
            assert(self@.sessions =~= before.update(below as int, visit.session));
            match step {
                Step::Perform { .. } => {
                    self.sweep = if dropping {
                        Sweep::Dropping(below)
                    } else {
                        Sweep::Polling(below)
                    };
                    return step;
                },
                Step::Finished(_) => {},
            }
        }
        proof {
            use_type_invariant(&*self);
        }
        assert(self.inner@.len() == self.inner.len());
        self.sweep = Sweep::Idle;
        Step::Finished(Ok(()))
    }

    /// Goes on with the refresh after the session at `at` answered `step`.
    fn proceed(&mut self, at: usize, dropping: bool, step: Step) -> (next: Step)
        requires
            at < old(self)@.sessions.len(),
        ensures
            final(self)@ == old(self)@.swept(
                MitchListView::proceed(
                    old(self)@.sessions,
                    at as nat,
                    Visit { session: old(self)@.sessions[at as int], dropping, step },
                ),
            ).0,
            next == MitchListView::proceed(
                old(self)@.sessions,
                at as nat,
                Visit { session: old(self)@.sessions[at as int], dropping, step },
            ).2,
            final(self)@.inv(),
    {
        proof {
            use_type_invariant(&*self);
        }
        assert(self.inner@.len() == self.inner.len());
        assert(self@.sessions =~= self@.sessions.update(at as int, self@.sessions[at as int]));
        match step {
            Step::Perform { .. } => {
                self.sweep = if dropping {
                    Sweep::Dropping(at)
                } else {
                    Sweep::Polling(at)
                };
                step
            },
            Step::Finished(_) => self.descend(at),
        }
    }

    /// Begins a refresh: every session is polled, from the last inserted to
    /// the first. A session whose poll ends in an error is disconnected on
    /// the spot, and the refresh goes on with the next one; the error goes
    /// no further. The step is the first request that a session asks for, or
    /// `Finished(Ok(()))` where none asks for any.
    ///
    /// A refresh that was under way is given up for the new one.
    pub fn update(&mut self) -> (step: Step)
        ensures
            final(self)@ == old(self)@.update().0,
            step == old(self)@.update().1,
            final(self)@.inv(),
            step is Finished ==> step == Step::done(),
    {
        let len = self.inner.len();
        proof {
            MitchListView::lemma_no_error_leaves_the_refresh(self@.sessions, len as nat);
        }
        self.descend(len)
    }

    /// Takes the reply to the request that the refresh asked for last and
    /// goes on with the refresh. With no refresh under way the reply is
    /// dropped.
    pub fn resume(&mut self, reply: Reply) -> (step: Step)
        ensures
            final(self)@ == old(self)@.resume(reply).0,
            step == old(self)@.resume(reply).1,
            final(self)@.inv(),
            step is Finished ==> step == Step::done(),
    {
        proof {
            use_type_invariant(&*self);
            old(self)@.lemma_no_error_leaves_resume(reply);
        }
        assert(self.inner@.len() == self.inner.len());
        let ghost before = self@.sessions;
        match self.sweep {
            Sweep::Idle => Step::Finished(Ok(())),
            Sweep::Polling(at) => {
                let answered = self.inner[at].resume(reply);
                let ghost visit = MitchListView::after_poll(self@.sessions[at as int], answered);
                let (step, dropping) = match answered {
                    Step::Finished(Err(_)) => (self.inner[at].disconnect(), true),
                    _ => (answered, false),
                };
                assert(self@.sessions =~= before.update(at as int, visit.session));
                assert(before.update(at as int, visit.session).update(at as int, visit.session)
                    =~= before.update(at as int, visit.session));
                self.proceed(at, dropping, step)
            },
            Sweep::Dropping(at) => {
                let step = self.inner[at].resume(reply);
                let ghost session = self@.sessions[at as int];
                assert(self@.sessions =~= before.update(at as int, session));
                assert(before.update(at as int, session).update(at as int, session)
                    =~= before.update(at as int, session));
                self.proceed(at, true, step)
            },
        }
    }

    /// Ends the list. The handles of the sessions that still hold an open
    /// link are handed back, in list order, for the caller to close those
    /// links; a close that fails changes nothing.
    pub fn close(self) -> (open_links: Vec<u64>)
        ensures
            open_links@ == MitchListView::open_links(self@.sessions),
    {
        let mut open_links: Vec<u64> = Vec::new();
        let mut i: usize = 0;
        while i < self.inner.len()
            invariant
                i <= self.inner@.len(),
                open_links@ == MitchListView::open_links(self@.sessions.take(i as int)),
            decreases self.inner@.len() - i,
        {
            let mitch = &self.inner[i];
            assert(self@.sessions.take(i + 1).drop_last() =~= self@.sessions.take(i as int));
            if mitch.is_connected() {
                open_links.push(mitch.handle());
            }
            i = i + 1;
        }
        assert(self@.sessions.take(i as int) =~= self@.sessions);
        open_links
    }
}

} // verus!
