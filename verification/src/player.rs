//! The tenant-scoped playback scheduler: one logical actor owns the single
//! live voice slot and a FIFO backlog of pending requests, and processes one
//! command at a time from a bounded queue.
//!
//! The scheduler here is the decision core. Each command maps the state to a
//! new state and a [`StepAction`] for the surrounding driver; the driver
//! performs the outside work — resolving a destination, joining, playing,
//! stopping, leaving — and reports each completed start back through
//! [`MusicPlayer::started`]. Two points are settled deliberately rather than
//! left loose: `Stop` is a no-op unless the requested tenant is the one
//! being served, and `Shutdown` hands the live session back for an orderly
//! stop-and-leave instead of abandoning it.

use vstd::prelude::*;
use std::collections::VecDeque;

verus! {

/// Capacity of the inbound command queue.
pub const COMMAND_QUEUE_CAPACITY: usize = 64;

/// A pending playback request: the tenant it belongs to and the opaque,
/// single-use audio source to play.
#[derive(Debug, PartialEq, Eq)]
pub struct PlaybackRequest<S> {
    pub tenant: u64,
    pub source: S,
}

/// The one live session: the tenant it serves and the opaque handle of its
/// running track.
#[derive(Debug, PartialEq, Eq)]
pub struct Session<H> {
    pub tenant: u64,
    pub handle: H,
}

/// A command for the scheduler.
#[derive(Debug, PartialEq, Eq)]
pub enum PlayerCommand<S> {
    Enqueue(PlaybackRequest<S>),
    Stop(u64),
    TrackFinished,
    Shutdown,
}

/// What the driver must do after one [`MusicPlayer::step`].
#[derive(Debug, PartialEq, Eq)]
pub enum StepAction<S, H> {
    /// Nothing: the command changed at most the backlog.
    Idle,
    /// Resolve the tenant's destination, join it, start playing the source,
    /// and report the new session through [`MusicPlayer::started`]; a failed
    /// join drops the request instead.
    Start(PlaybackRequest<S>),
    /// Tear a session down: stop the track whose handle is given (no handle
    /// is given when the track already ended on its own), leave the tenant's
    /// channel, and then treat `next`, if any, like a fresh start.
    Teardown { stop: Option<H>, leave: u64, next: Option<PlaybackRequest<S>> },
    /// Stop processing commands. The session handed back, if any, is still
    /// live and should be stopped and left before the process goes away.
    Exit(Option<Session<H>>),
}

/// The playback scheduler's state: the one live session and the FIFO backlog.
pub struct MusicPlayer<S, H> {
    active: Option<Session<H>>,
    backlog: VecDeque<PlaybackRequest<S>>,
}

/// The scheduler state as the laws speak of it: the tenant being served, if
/// any, and the queued requests in order. Its transitions describe the runs
/// in which every start handed to the driver completes successfully and at
/// once.
#[verifier::ext_equal]
pub struct SchedulerModel<S> {
    pub active: Option<u64>,
    pub backlog: Seq<PlaybackRequest<S>>,
}

impl<S> SchedulerModel<S> {
    /// `Enqueue`: a free slot is taken at once, otherwise the request joins
    /// the back of the backlog.
    pub open spec fn enqueue(self, r: PlaybackRequest<S>) -> Self {
        if self.active is Some {
            SchedulerModel { active: self.active, backlog: self.backlog.push(r) }
        } else {
            SchedulerModel { active: Some(r.tenant), backlog: self.backlog }
        }
    }

    /// Clearing the live slot and promoting the front of the backlog into it.
    pub open spec fn advance(self) -> Self {
        if self.backlog.len() == 0 {
            SchedulerModel { active: None, backlog: self.backlog }
        } else {
            SchedulerModel {
                active: Some(self.backlog[0].tenant),
                backlog: self.backlog.drop_first(),
            }
        }
    }

    /// One command's effect on the state.
    pub open spec fn step(self, cmd: PlayerCommand<S>) -> Self {
        match cmd {
            PlayerCommand::Enqueue(r) => self.enqueue(r),
            PlayerCommand::Stop(t) => if self.active == Some(t) {
                self.advance()
            } else {
                self
            },
            PlayerCommand::TrackFinished => if self.active is Some {
                self.advance()
            } else {
                self
            },
            PlayerCommand::Shutdown => SchedulerModel {
                active: None,
                backlog: Seq::empty(),
            },
        }
    }

    /// Runs commands in order; the first `Shutdown` ends processing, and
    /// whatever follows it is never executed.
    pub open spec fn run(self, cmds: Seq<PlayerCommand<S>>) -> Self
        decreases cmds.len(),
    {
        if cmds.len() == 0 {
            self
        } else if cmds[0] is Shutdown {
            self.step(cmds[0])
        } else {
            self.step(cmds[0]).run(cmds.drop_first())
        }
    }
}

/// The scheduler's transition table: how one [`MusicPlayer::step`] call on
/// state `prev` yields state `next` and action `act`.
pub open spec fn spec_step_rel<S, H>(
    prev: MusicPlayer<S, H>,
    cmd: PlayerCommand<S>,
    next: MusicPlayer<S, H>,
    act: StepAction<S, H>,
) -> bool {
    match cmd {
        PlayerCommand::Enqueue(r) => {
            if prev.spec_active() is Some {
                &&& act is Idle
                &&& next.spec_active() == prev.spec_active()
                &&& next.spec_backlog() == prev.spec_backlog().push(r)
            } else {
                &&& act == StepAction::<S, H>::Start(r)
                &&& next == prev
            }
        },
        PlayerCommand::Stop(t) => {
            if prev.spec_active_tenant() == Some(t) {
                &&& act == (StepAction::<S, H>::Teardown {
                    stop: Some(prev.spec_active()->0.handle),
                    leave: t,
                    next: prev.spec_front(),
                })
                &&& next.spec_active() is None
                &&& next.spec_backlog() == prev.spec_backlog_rest()
            } else {
                &&& act is Idle
                &&& next == prev
            }
        },
        PlayerCommand::TrackFinished => {
            if prev.spec_active() is Some {
                &&& act == (StepAction::<S, H>::Teardown {
                    stop: None,
                    leave: prev.spec_active()->0.tenant,
                    next: prev.spec_front(),
                })
                &&& next.spec_active() is None
                &&& next.spec_backlog() == prev.spec_backlog_rest()
            } else {
                &&& act is Idle
                &&& next == prev
            }
        },
        PlayerCommand::Shutdown => {
            &&& act == StepAction::<S, H>::Exit(prev.spec_active())
            &&& next.spec_active() is None
            &&& next.spec_backlog() == Seq::<PlaybackRequest<S>>::empty()
        },
    }
}

impl<S, H> MusicPlayer<S, H> {
    /// The live session, if any.
    pub closed spec fn spec_active(&self) -> Option<Session<H>> {
        self.active
    }

    /// The queued requests in order.
    pub closed spec fn spec_backlog(&self) -> Seq<PlaybackRequest<S>> {
        self.backlog@
    }

    /// The tenant being served, if any.
    pub open spec fn spec_active_tenant(&self) -> Option<u64> {
        match self.spec_active() {
            Some(s) => Some(s.tenant),
            None => None,
        }
    }

    /// The front of the backlog, if any.
    pub open spec fn spec_front(&self) -> Option<PlaybackRequest<S>> {
        if self.spec_backlog().len() == 0 {
            None
        } else {
            Some(self.spec_backlog()[0])
        }
    }

    /// The backlog once its front is gone (or still empty).
    pub open spec fn spec_backlog_rest(&self) -> Seq<PlaybackRequest<S>> {
        if self.spec_backlog().len() == 0 {
            self.spec_backlog()
        } else {
            self.spec_backlog().drop_first()
        }
    }

    /// The state this scheduler is in, as the laws speak of it.
    pub open spec fn spec_model(&self) -> SchedulerModel<S> {
        SchedulerModel { active: self.spec_active_tenant(), backlog: self.spec_backlog() }
    }

    pub fn new() -> (p: Self)
        ensures
            p.spec_active() is None,
            p.spec_backlog() == Seq::<PlaybackRequest<S>>::empty(),
    {
        MusicPlayer { active: None, backlog: VecDeque::new() }
    }

    /// The tenant currently holding the one live slot, if any.
    pub fn active_tenant(&self) -> (r: Option<u64>)
        ensures
            r == self.spec_active_tenant(),
    {
        match &self.active {
            Some(s) => Some(s.tenant),
            None => None,
        }
    }

    /// How many requests wait in the backlog.
    pub fn backlog_len(&self) -> (r: usize)
        ensures
            r == self.spec_backlog().len(),
    {
        self.backlog.len()
    }

    /// Command `Enqueue`, first half: with a session live the request joins
    /// the back of the backlog; with the slot free the request is handed back
    /// to be started (the slot is taken only once `started` reports success).
    pub fn enqueue(&mut self, r: PlaybackRequest<S>) -> (start: Option<PlaybackRequest<S>>)
        ensures
            old(self).spec_active() is Some ==> {
                &&& start is None
                &&& final(self).spec_active() == old(self).spec_active()
                &&& final(self).spec_backlog() == old(self).spec_backlog().push(r)
            },
            old(self).spec_active() is None ==> {
                &&& start == Some(r)
                &&& *final(self) == *old(self)
            },
    {
        if self.active.is_some() {
            self.backlog.push_back(r);
            None
        } else {
            Some(r)
        }
    }

    /// Reports a successful join-and-play of a request handed out by
    /// `enqueue`, `stop`, `track_finished` or `step`: the new session takes
    /// the one live slot.
    pub fn started(&mut self, tenant: u64, handle: H)
        requires
            old(self).spec_active() is None,
        ensures
            final(self).spec_active() == Some(Session { tenant, handle }),
            final(self).spec_backlog() == old(self).spec_backlog(),
    {
        self.active = Some(Session { tenant, handle });
    }

    /// Command `Stop(tenant)`: a no-op unless `tenant` is the one being
    /// served — stopping is deliberately keyed to the serving tenant rather
    /// than tearing down whatever happens to be live. On a match the live
    /// session is handed back for stop-and-leave, together with the front of
    /// the backlog to be started next.
    pub fn stop(&mut self, tenant: u64) -> (r: (Option<Session<H>>, Option<PlaybackRequest<S>>))
        ensures
            old(self).spec_active_tenant() == Some(tenant) ==> {
                &&& r.0 == old(self).spec_active()
                &&& r.1 == old(self).spec_front()
                &&& final(self).spec_active() is None
                &&& final(self).spec_backlog() == old(self).spec_backlog_rest()
            },
            old(self).spec_active_tenant() != Some(tenant) ==> {
                &&& r.0 is None
                &&& r.1 is None
                &&& *final(self) == *old(self)
            },
    {
        let hit = match &self.active {
            Some(s) => s.tenant == tenant,
            None => false,
        };
        if hit {
            let sess = self.active.take();
            let next = self.backlog.pop_front();
            (sess, next)
        } else {
            (None, None)
        }
    }

    /// Command `TrackFinished`: the track ended on its own, so no stop is
    /// re-invoked on its handle — only the tenant to leave is handed back,
    /// together with the front of the backlog to be started next. A signal
    /// with no session live is spurious and ignored.
    pub fn track_finished(&mut self) -> (r: (Option<u64>, Option<PlaybackRequest<S>>))
        ensures
            old(self).spec_active() is Some ==> {
                &&& r.0 == Some(old(self).spec_active()->0.tenant)
                &&& r.1 == old(self).spec_front()
                &&& final(self).spec_active() is None
                &&& final(self).spec_backlog() == old(self).spec_backlog_rest()
            },
            old(self).spec_active() is None ==> {
                &&& r.0 is None
                &&& r.1 is None
                &&& *final(self) == *old(self)
            },
    {
        if self.active.is_some() {
            let sess = self.active.take();
            let tenant = match sess {
                Some(s) => s.tenant,
                None => vstd::pervasive::unreached(),
            };
            let next = self.backlog.pop_front();
            (Some(tenant), next)
        } else {
            (None, None)
        }
    }

    /// Command `Shutdown`: processing ends. The live session, if any, is
    /// handed back so the driver can stop and leave it; the backlog is
    /// dropped.
    pub fn shutdown(&mut self) -> (r: Option<Session<H>>)
        ensures
            r == old(self).spec_active(),
            final(self).spec_active() is None,
            final(self).spec_backlog() == Seq::<PlaybackRequest<S>>::empty(),
    {
        self.backlog.clear();
        self.active.take()
    }

    /// Processes one command: the scheduler's transition table, one row per
    /// command.
    pub fn step(&mut self, cmd: PlayerCommand<S>) -> (act: StepAction<S, H>)
        ensures
            spec_step_rel(*old(self), cmd, *final(self), act),
    {
        match cmd {
            PlayerCommand::Enqueue(r) => {
                match self.enqueue(r) {
                    Some(start) => StepAction::Start(start),
                    None => StepAction::Idle,
                }
            },
            PlayerCommand::Stop(t) => {
                let (sess, next) = self.stop(t);
                match sess {
                    Some(s) => StepAction::Teardown { stop: Some(s.handle), leave: t, next },
                    None => StepAction::Idle,
                }
            },
            PlayerCommand::TrackFinished => {
                let (leave, next) = self.track_finished();
                match leave {
                    Some(t) => StepAction::Teardown { stop: None, leave: t, next },
                    None => StepAction::Idle,
                }
            },
            PlayerCommand::Shutdown => StepAction::Exit(self.shutdown()),
        }
    }
}

/// One `step` lands exactly where the model's transition says, once the
/// driver finishes what the action asks of it: where no start is handed out
/// the new state already is the model's; where one is (a `Start`, or the
/// `next` of a `Teardown`), the model's state is reached the moment
/// `started` reports it, whatever handle the join produced.
pub proof fn lemma_step_tracks_model<S, H>(
    s0: MusicPlayer<S, H>,
    cmd: PlayerCommand<S>,
    s1: MusicPlayer<S, H>,
    act: StepAction<S, H>,
)
    requires
        spec_step_rel(s0, cmd, s1, act),
    ensures
        act is Idle ==> s1.spec_model() =~= s0.spec_model().step(cmd),
        act is Exit ==> s1.spec_model() =~= s0.spec_model().step(cmd),
        act matches StepAction::Start(r) ==> s1.spec_active() is None && s0.spec_model().step(cmd)
            =~= (SchedulerModel { active: Some(r.tenant), backlog: s1.spec_backlog() }),
        act matches StepAction::Teardown { next: Some(r), .. } ==> s1.spec_active() is None
            && s0.spec_model().step(cmd) =~= (SchedulerModel {
            active: Some(r.tenant),
            backlog: s1.spec_backlog(),
        }),
        act matches StepAction::Teardown { next: None, .. } ==> s1.spec_model()
            =~= s0.spec_model().step(cmd),
{
}

/// While a session is live, a train of `Enqueue` commands leaves the slot
/// untouched and appends the requests to the backlog in submission order.
pub proof fn lemma_enqueue_backlog<S>(m: SchedulerModel<S>, cmds: Seq<PlayerCommand<S>>)
    requires
        m.active is Some,
        forall|i: int| 0 <= i < cmds.len() ==> cmds[i] is Enqueue,
    ensures
        m.run(cmds).active == m.active,
        m.run(cmds).backlog == m.backlog + Seq::new(
            cmds.len(),
            |i: int| cmds[i]->Enqueue_0,
        ),
    decreases cmds.len(),
{
    let appended = Seq::new(cmds.len(), |i: int| cmds[i]->Enqueue_0);
    if cmds.len() == 0 {
        assert(m.backlog + appended =~= m.backlog);
    } else {
        assert(cmds[0] is Enqueue);
        let m1 = m.step(cmds[0]);
        let rest = cmds.drop_first();
        assert(forall|i: int| 0 <= i < rest.len() ==> rest[i] is Enqueue);
        lemma_enqueue_backlog(m1, rest);
        assert(m1.backlog + Seq::new(rest.len(), |i: int| rest[i]->Enqueue_0) =~= m.backlog
            + appended);
    }
}

/// For every train of `Enqueue` commands arriving while the slot is free and
/// the backlog is empty, the first request is promoted to the slot at once
/// and the rest land in the backlog in submission order.
pub proof fn lemma_enqueue_train<S>(m: SchedulerModel<S>, cmds: Seq<PlayerCommand<S>>)
    requires
        m.active is None,
        m.backlog.len() == 0,
        cmds.len() > 0,
        forall|i: int| 0 <= i < cmds.len() ==> cmds[i] is Enqueue,
    ensures
        m.run(cmds).active == Some(cmds[0]->Enqueue_0.tenant),
        m.run(cmds).backlog == Seq::new(
            (cmds.len() - 1) as nat,
            |i: int| cmds[i + 1]->Enqueue_0,
        ),
{
    let m1 = m.step(cmds[0]);
    let rest = cmds.drop_first();
    assert(forall|i: int| 0 <= i < rest.len() ==> rest[i] is Enqueue);
    lemma_enqueue_backlog(m1, rest);
    assert(m1.backlog + Seq::new(rest.len(), |i: int| rest[i]->Enqueue_0) =~= Seq::new(
        (cmds.len() - 1) as nat,
        |i: int| cmds[i + 1]->Enqueue_0,
    ));
}

/// A `Stop` of the tenant being served, with a non-empty backlog, promotes
/// exactly the front of the backlog and keeps the order of the rest.
pub proof fn lemma_stop_promotes_front<S>(m: SchedulerModel<S>, t: u64)
    requires
        m.active == Some(t),
        m.backlog.len() > 0,
    ensures
        m.step(PlayerCommand::<S>::Stop(t)).active == Some(m.backlog[0].tenant),
        m.step(PlayerCommand::<S>::Stop(t)).backlog == m.backlog.drop_first(),
{
}

/// For backlog advancement, `TrackFinished` behaves exactly like a `Stop` of
/// the tenant being served; the difference is confined to the step action,
/// which hands back no handle to stop for `TrackFinished`.
pub proof fn lemma_track_finished_like_stop<S>(m: SchedulerModel<S>, t: u64)
    requires
        m.active == Some(t),
    ensures
        m.step(PlayerCommand::<S>::TrackFinished) == m.step(PlayerCommand::<S>::Stop(t)),
{
}

/// A `Shutdown` is always the last command processed: the run of a command
/// train equals the run cut short at its first `Shutdown`, so whatever was
/// queued after it is never executed — and what remains is the cleared
/// state.
pub proof fn lemma_shutdown_is_last<S>(m: SchedulerModel<S>, cmds: Seq<PlayerCommand<S>>, i: int)
    requires
        0 <= i < cmds.len(),
        cmds[i] is Shutdown,
        forall|j: int| 0 <= j < i ==> !(cmds[j] is Shutdown),
    ensures
        m.run(cmds) == m.run(cmds.take(i + 1)),
        m.run(cmds) =~= (SchedulerModel { active: None, backlog: Seq::empty() }),
    decreases i,
{
    let cut = cmds.take(i + 1);
    if i == 0 {
        assert(cut[0] == cmds[0]);
    } else {
        assert(cut[0] == cmds[0]);
        assert(!(cmds[0] is Shutdown));
        let m1 = m.step(cmds[0]);
        let rest = cmds.drop_first();
        assert(rest[i - 1] is Shutdown);
        assert(forall|j: int| 0 <= j < i - 1 ==> !(rest[j] is Shutdown));
        lemma_shutdown_is_last(m1, rest, i - 1);
        assert(rest.take(i) =~= cut.drop_first());
    }
}

} // verus!
