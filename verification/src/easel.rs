//! The frame-driven render-loop controller.
//!
//! A controller owns a pause toggle, an FPS meter, and a stopwatch, and
//! keeps itself scheduled with the host frame-callback service: each fire
//! immediately requests the next frame, then advances the meters, and — only
//! while not paused — asks for the consumer's per-frame work to run. Pausing
//! gates the consumer work alone; scheduling and rate measurement continue,
//! so a later play needs no special-case restart.
//!
//! The host service is the injected [`Scheduler`] model, and the record
//! shared between the owner and the scheduled callback is modeled by
//! [`Session`]: the owner's handle is the `Some` state of its slot, and the
//! callback holds only an existence-checked view of it. Dropping the handle
//! cancels any outstanding request, and a callback invoked after teardown
//! finds the slot empty and does nothing — the cycle between the state and
//! its self-rescheduling callback is broken without leaving a stray fire
//! behind.

use vstd::prelude::*;

use crate::pause::{Button, State};
use crate::perf::{sum_of, Fps, WINDOW_LEN};
use crate::sched::Scheduler;
use crate::time::{clip_time, settle_time, Stopwatch};

verus! {

/// What one invocation of the scheduled callback decided.
#[derive(Clone, Copy, PartialEq, Eq, Debug)]
pub enum FrameOutcome {
    /// The consumer's per-frame function runs, with the elapsed time since
    /// the previous fire (absent on the very first fire).
    Ran { delta_us: Option<u64> },
    /// The fire was gated by pause: scheduling and rate measurement
    /// advanced, but no consumer work runs.
    Gated,
    /// No callback was outstanding, so nothing ran at all.
    NoFrame,
}

/// The mutable record backing one render loop: pause state, the pending
/// scheduling token, the wired-up flag for the self-referential callback,
/// and the two meters.
pub struct Controller {
    button: Button,
    paused: bool,
    raf_handle: Option<u64>,
    wired: bool,
    fps: Fps,
    watch: Stopwatch,
}

impl Controller {
    /// The toggle button's state machine.
    pub closed spec fn button(self) -> Button {
        self.button
    }

    /// Whether consumer work is currently gated.
    pub closed spec fn paused_spec(self) -> bool {
        self.paused
    }

    /// The token of the outstanding scheduling request, if any.
    pub closed spec fn handle(self) -> Option<u64> {
        self.raf_handle
    }

    /// Whether the self-referential callback has been stored, which must
    /// happen before the first scheduling request.
    pub closed spec fn wired_spec(self) -> bool {
        self.wired
    }

    /// The FPS meter.
    pub closed spec fn fps(self) -> Fps {
        self.fps
    }

    /// The stopwatch measuring consumer-visible deltas.
    pub closed spec fn watch(self) -> Stopwatch {
        self.watch
    }

    /// The paused flag mirrors the button, the meters are well-formed, and
    /// a scheduling request is only ever outstanding once the callback is
    /// wired.
    pub open spec fn wf(self) -> bool {
        &&& self.paused_spec() == (self.button().state() is Pause)
        &&& self.fps().wf()
        &&& self.watch().wf()
        &&& (self.handle() is Some ==> self.wired_spec())
    }

    /// This controller is the sole client of the scheduler `s`: its pending
    /// token is exactly what is outstanding there.
    pub open spec fn linked(self, s: Scheduler) -> bool {
        match self.handle() {
            None => s.outstanding().len() == 0,
            Some(t) => s.outstanding() == seq![t],
        }
    }

    /// A fresh controller: paused, unscheduled, not yet wired, with meters
    /// that have measured nothing yet.
    pub fn new() -> (r: Controller)
        ensures
            r.wf(),
            r.paused_spec(),
            r.button().state() is Pause,
            r.handle() is None,
            !r.wired_spec(),
            r.fps().count() == 0,
            r.fps().last() is None,
            r.fps().display() is None,
            r.watch().last() is None,
    {
        Controller {
            button: Button::new(),
            paused: true,
            raf_handle: None,
            wired: false,
            fps: Fps::new(),
            watch: Stopwatch::new(),
        }
    }

    /// Stores the self-referential callback. The record is created with the
    /// slot empty — the closure must capture the record that will contain
    /// it — and becomes schedulable only now.
    pub fn wire(&mut self)
        requires
            old(self).wf(),
        ensures
            final(self).wf(),
            final(self).wired_spec(),
            final(self).button() == old(self).button(),
            final(self).paused_spec() == old(self).paused_spec(),
            final(self).handle() == old(self).handle(),
            final(self).fps() == old(self).fps(),
            final(self).watch() == old(self).watch(),
    {
        self.wired = true;
    }

    /// Whether the controller is paused.
    pub fn is_paused(&self) -> (r: bool)
        requires
            self.wf(),
        ensures
            r == self.paused_spec(),
    {
        self.button.is_paused()
    }

    /// Clicks the play/pause toggle. The transition hook re-arms scheduling
    /// if no request is currently outstanding (and the callback is wired),
    /// then records the new state; pausing leaves scheduling untouched.
    pub fn toggle(&mut self, sched: &mut Scheduler)
        requires
            old(self).wf(),
            old(sched).wf(),
            old(self).linked(*old(sched)),
            old(sched).next() < u64::MAX,
        ensures
            final(self).wf(),
            final(sched).wf(),
            final(self).linked(*final(sched)),
            final(self).button().state() == old(self).button().state().flip(),
            final(self).paused_spec() == (old(self).button().state().flip() is Pause),
            final(self).wired_spec() == old(self).wired_spec(),
            final(self).fps() == old(self).fps(),
            final(self).watch() == old(self).watch(),
            final(sched).cancelled() == old(sched).cancelled(),
            final(sched).next() <= old(sched).next() + 1,
            old(self).handle() is Some ==> final(self).handle() == old(self).handle()
                && *final(sched) == *old(sched),
            old(self).handle() is None && old(self).wired_spec() ==> final(self).handle()
                == Some(old(sched).next()) && final(sched).outstanding() == old(sched).outstanding().push(old(sched).next()) && final(sched).next() == old(sched).next()
                + 1,
            old(self).handle() is None && !old(self).wired_spec() ==> final(self).handle() is None
                && *final(sched) == *old(sched),
    {
        let new_state = self.button.click();
        if self.raf_handle.is_none() {
            if self.wired {
                let t = sched.request();
                self.raf_handle = Some(t);
                proof {
                    assert(sched.outstanding() =~= seq![t]);
                }
            }
        }
        self.paused = match new_state {
            State::Pause => true,
            State::Play => false,
        };
    }

    /// One fire of the scheduled callback, whose token `fired` the host has
    /// just consumed. The very next frame is requested before anything
    /// else, so an early return in consumer code cannot stall the loop;
    /// then the meters advance, and the consumer's work runs exactly when
    /// the controller is not paused.
    pub fn fire(&mut self, sched: &mut Scheduler, now_us: u64, fired: u64) -> (r: FrameOutcome)
        requires
            old(self).wf(),
            old(sched).wf(),
            old(self).handle() == Some(fired),
            old(sched).outstanding().len() == 0,
            old(sched).next() < u64::MAX,
        ensures
            final(self).wf(),
            final(sched).wf(),
            final(self).linked(*final(sched)),
            final(self).handle() == Some(old(sched).next()),
            final(sched).outstanding() == seq![old(sched).next()],
            final(sched).next() == old(sched).next() + 1,
            final(sched).cancelled() == old(sched).cancelled(),
            final(self).button() == old(self).button(),
            final(self).paused_spec() == old(self).paused_spec(),
            final(self).wired_spec() == old(self).wired_spec(),
            r !is NoFrame,
            r is Ran <==> !old(self).paused_spec(),
            r matches FrameOutcome::Ran { delta_us } ==> delta_us == (match old(self).watch().last() {
                None => None::<u64>,
                Some(t0) => Some((settle_time(now_us, t0) - t0) as u64),
            }),
            final(self).watch().last() == Some(
                match old(self).watch().last() {
                    None => clip_time(now_us),
                    Some(t0) => settle_time(now_us, t0),
                },
            ),
            final(self).fps().count() == if old(self).fps().count() < u64::MAX {
                (old(self).fps().count() + 1) as u64
            } else {
                old(self).fps().count()
            },
            old(self).fps().last() is None ==> {
                &&& final(self).fps().last() == Some(clip_time(now_us))
                &&& final(self).fps().window() == old(self).fps().window()
                &&& final(self).fps().sum() == old(self).fps().sum()
                &&& final(self).fps().display() == old(self).fps().display()
            },
            old(self).fps().last() matches Some(t0) ==> {
                &&& final(self).fps().window() == old(self).fps().window().update(
                    (old(self).fps().count() % (WINDOW_LEN as u64)) as int,
                    (settle_time(now_us, t0) - t0) as u64,
                )
                &&& final(self).fps().sum() == sum_of(final(self).fps().window())
                &&& final(self).fps().display() == if old(self).fps().refreshes(now_us, t0) {
                    Some((6_000_000_000u64 / final(self).fps().sum()) as u64)
                } else {
                    old(self).fps().display()
                }
            },
    {
        if self.wired {
            let t = sched.request();
            self.raf_handle = Some(t);
            proof {
                assert(sched.outstanding() =~= seq![t]);
            }
            self.fps.tick(now_us);
            let delta = self.watch.delta_us(now_us);
            if !self.paused {
                FrameOutcome::Ran { delta_us: delta }
            } else {
                FrameOutcome::Gated
            }
        } else {
            FrameOutcome::Gated
        }
    }

    /// Teardown: cancels the outstanding scheduling request, if any, with
    /// the host scheduler. This is the only path that removes the
    /// controller from the host's schedule — a merely paused controller
    /// stays scheduled until torn down.
    pub fn teardown(&mut self, sched: &mut Scheduler)
        requires
            old(self).wf(),
            old(sched).wf(),
            old(self).linked(*old(sched)),
        ensures
            final(self).wf(),
            final(sched).wf(),
            final(self).handle() is None,
            final(sched).outstanding().len() == 0,
            final(sched).next() == old(sched).next(),
            old(self).handle() matches Some(t) ==> final(sched).cancelled() == old(sched).cancelled().push(t),
            old(self).handle() is None ==> *final(sched) == *old(sched),
    {
        match self.raf_handle {
            Some(id) => {
                sched.cancel(id);
                proof {
                    if sched.outstanding().len() > 0 {
                        let u = sched.outstanding()[0];
                        assert(sched.outstanding().contains(u));
                        assert(old(sched).outstanding().contains(u) && u != id);
                        assert(old(sched).outstanding() == seq![id]);
                        let k = choose|k: int|
                            0 <= k < old(sched).outstanding().len() && old(sched).outstanding()[k]
                                == u;
                        assert(old(sched).outstanding()[k] == id);
                    }
                }
            },
            None => {},
        }
        self.raf_handle = None;
    }
}

/// One render loop as the host sees it: the scheduler, and the shared loop
/// record, reachable from the owner's handle while that handle lives. The
/// scheduled callback holds only a weak, existence-checked reference to the
/// record, so the slot being `None` — the owner dropped — makes a late
/// callback a guaranteed no-op rather than a crash.
pub struct Session {
    sched: Scheduler,
    slot: Option<Controller>,
}

impl Session {
    /// The scheduler's view of this loop.
    pub closed spec fn sched_spec(self) -> Scheduler {
        self.sched
    }

    /// The shared record, while the owning handle is alive.
    pub closed spec fn slot(self) -> Option<Controller> {
        self.slot
    }

    /// Whether the owning handle is still alive.
    pub open spec fn live(self) -> bool {
        self.slot() is Some
    }

    /// The controller behind the handle.
    pub open spec fn ctrl(self) -> Controller
        recommends
            self.live(),
    {
        self.slot().unwrap()
    }

    /// The tokens outstanding with the host scheduler.
    pub open spec fn outstanding(self) -> Seq<u64> {
        self.sched_spec().outstanding()
    }

    /// The host scheduler's cancellation log.
    pub open spec fn cancelled(self) -> Seq<u64> {
        self.sched_spec().cancelled()
    }

    /// A live session's controller is well-formed and is the scheduler's
    /// only client; once the handle is dropped, nothing remains scheduled.
    pub open spec fn wf(self) -> bool {
        &&& self.sched_spec().wf()
        &&& (self.slot() matches Some(c) ==> c.wf() && c.wired_spec() && c.linked(
            self.sched_spec(),
        ))
        &&& (self.slot() is None ==> self.outstanding().len() == 0)
    }

    /// Builds the shared record — paused, nothing scheduled — and wires the
    /// self-referential callback into it before anything can be scheduled.
    pub fn construct() -> (s: Session)
        ensures
            s.wf(),
            s.live(),
            s.ctrl().paused_spec(),
            s.ctrl().wired_spec(),
            s.ctrl().fps().count() == 0,
            s.ctrl().fps().last() is None,
            s.ctrl().fps().display() is None,
            s.ctrl().watch().last() is None,
            s.outstanding().len() == 0,
            s.cancelled().len() == 0,
            s.sched_spec().next() == 0,
    {
        let mut c = Controller::new();
        c.wire();
        Session { sched: Scheduler::new(), slot: Some(c) }
    }

    /// Builds a session and immediately begins playing its animation: the
    /// same as constructing and clicking play once.
    pub fn start() -> (s: Session)
        ensures
            s.wf(),
            s.live(),
            !s.ctrl().paused_spec(),
            s.ctrl().fps().count() == 0,
            s.ctrl().fps().last() is None,
            s.ctrl().fps().display() is None,
            s.ctrl().watch().last() is None,
            s.outstanding().len() == 1,
            s.cancelled().len() == 0,
            s.sched_spec().next() == 1,
    {
        let mut s = Session::construct();
        s.click();
        s
    }

    /// Clicks the play/pause toggle (the owner's play control is the same
    /// toggle the button uses).
    pub fn click(&mut self)
        requires
            old(self).wf(),
            old(self).live(),
            old(self).sched_spec().next() < u64::MAX,
        ensures
            final(self).wf(),
            final(self).live(),
            final(self).ctrl().button().state() == old(self).ctrl().button().state().flip(),
            final(self).ctrl().paused_spec() == !old(self).ctrl().paused_spec(),
            final(self).cancelled() == old(self).cancelled(),
            final(self).sched_spec().next() <= old(self).sched_spec().next() + 1,
            old(self).ctrl().handle() is Some ==> final(self).ctrl().handle() == old(self).ctrl().handle() && final(self).outstanding() == old(self).outstanding(),
            old(self).ctrl().handle() is None ==> final(self).ctrl().handle() is Some && final(self).outstanding().len() == 1 && final(self).sched_spec().next() == old(self).sched_spec().next() + 1,
            final(self).ctrl().fps() == old(self).ctrl().fps(),
            final(self).ctrl().watch() == old(self).ctrl().watch(),
    {
        match &mut self.slot {
            Some(c) => {
                c.toggle(&mut self.sched);
            },
            None => {},
        }
    }

    /// Whether the loop is paused.
    pub fn is_paused(&self) -> (r: bool)
        requires
            self.wf(),
            self.live(),
        ensures
            r == self.ctrl().paused_spec(),
    {
        match &self.slot {
            Some(c) => c.is_paused(),
            None => true,
        }
    }

    /// The host invokes the callback of the oldest outstanding request, at
    /// clock reading `now_us`. With nothing outstanding, nothing runs; a
    /// fire on a live loop re-arms scheduling and is gated exactly by the
    /// pause state at fire time — toggling changes future fires only.
    pub fn fire(&mut self, now_us: u64) -> (r: FrameOutcome)
        requires
            old(self).wf(),
            old(self).sched_spec().next() < u64::MAX,
        ensures
            final(self).wf(),
            final(self).live() == old(self).live(),
            final(self).cancelled() == old(self).cancelled(),
            final(self).sched_spec().next() <= old(self).sched_spec().next() + 1,
            old(self).outstanding().len() == 0 ==> {
                &&& r is NoFrame
                &&& final(self).slot() == old(self).slot()
                &&& final(self).outstanding() == old(self).outstanding()
                &&& final(self).cancelled() == old(self).cancelled()
                &&& final(self).sched_spec().next() == old(self).sched_spec().next()
            },
            old(self).outstanding().len() > 0 ==> {
                &&& r !is NoFrame
                &&& (r is Ran <==> !old(self).ctrl().paused_spec())
                &&& final(self).ctrl().paused_spec() == old(self).ctrl().paused_spec()
                &&& final(self).ctrl().button() == old(self).ctrl().button()
                &&& final(self).outstanding().len() == 1
                &&& (r matches FrameOutcome::Ran { delta_us } ==> delta_us == (match old(self).ctrl().watch().last() {
                    None => None::<u64>,
                    Some(t0) => Some((settle_time(now_us, t0) - t0) as u64),
                }))
                &&& final(self).ctrl().fps().count() == if old(self).ctrl().fps().count()
                    < u64::MAX {
                    (old(self).ctrl().fps().count() + 1) as u64
                } else {
                    old(self).ctrl().fps().count()
                }
                &&& final(self).ctrl().watch().last() == Some(
                    match old(self).ctrl().watch().last() {
                        None => clip_time(now_us),
                        Some(t0) => settle_time(now_us, t0),
                    },
                )
                &&& (old(self).ctrl().fps().last() is None ==> {
                    &&& final(self).ctrl().fps().last() == Some(clip_time(now_us))
                    &&& final(self).ctrl().fps().window() == old(self).ctrl().fps().window()
                    &&& final(self).ctrl().fps().display() == old(self).ctrl().fps().display()
                })
                &&& (old(self).ctrl().fps().last() matches Some(t0) ==> {
                    &&& final(self).ctrl().fps().window() == old(self).ctrl().fps().window().update(
                        (old(self).ctrl().fps().count() % (WINDOW_LEN as u64)) as int,
                        (settle_time(now_us, t0) - t0) as u64,
                    )
                    &&& final(self).ctrl().fps().display() == if old(self).ctrl().fps().refreshes(
                        now_us,
                        t0,
                    ) {
                        Some((6_000_000_000int / sum_of(final(self).ctrl().fps().window())) as u64)
                    } else {
                        old(self).ctrl().fps().display()
                    }
                })
            },
    {
        let fired = match self.sched.take_next() {
            None => {
                return FrameOutcome::NoFrame;
            },
            Some(t) => t,
        };
        match &mut self.slot {
            Some(c) => c.fire(&mut self.sched, now_us, fired),
            None => FrameOutcome::NoFrame,
        }
    }

    /// Releases the owning handle: any outstanding request is cancelled
    /// with the host scheduler before the record goes away, so no stray
    /// frame fires into freed state.
    pub fn drop_handle(&mut self)
        requires
            old(self).wf(),
        ensures
            final(self).wf(),
            !final(self).live(),
            final(self).outstanding().len() == 0,
            final(self).sched_spec().next() == old(self).sched_spec().next(),
            old(self).live() && old(self).ctrl().handle() is Some ==> final(self).cancelled()
                == old(self).cancelled().push(old(self).ctrl().handle().unwrap()),
            old(self).live() && old(self).ctrl().handle() is None ==> final(self).cancelled()
                == old(self).cancelled(),
            !old(self).live() ==> *final(self) == *old(self),
    {
        match &mut self.slot {
            Some(c) => {
                c.teardown(&mut self.sched);
            },
            None => {},
        }
        self.slot = None;
    }

    /// The previously registered callback, invoked directly after the
    /// owner is gone: its weak reference fails to resolve, and it returns
    /// immediately — no state changes, no panic, by design.
    pub fn invoke_stale(&mut self, now_us: u64) -> (r: FrameOutcome)
        requires
            old(self).wf(),
            !old(self).live(),
        ensures
            *final(self) == *old(self),
            r is NoFrame,
    {
        let _ = now_us;
        match &self.slot {
            Some(_) => FrameOutcome::NoFrame,
            None => FrameOutcome::NoFrame,
        }
    }

    /// How many scheduling requests are outstanding with the host.
    pub fn outstanding_len(&self) -> (r: usize)
        ensures
            r == self.outstanding().len(),
    {
        self.sched.outstanding_len()
    }

    /// How many cancellations the host has received.
    pub fn cancelled_len(&self) -> (r: usize)
        ensures
            r == self.cancelled().len(),
    {
        self.sched.cancelled_len()
    }

    /// The most recently cancelled token, if any.
    pub fn last_cancelled(&self) -> (r: Option<u64>)
        ensures
            self.cancelled().len() == 0 ==> r is None,
            self.cancelled().len() > 0 ==> r == Some(self.cancelled().last()),
    {
        self.sched.last_cancelled()
    }

    /// Whether the owning handle is still alive.
    pub fn is_live(&self) -> (r: bool)
        ensures
            r == self.live(),
    {
        match &self.slot {
            Some(_) => true,
            None => false,
        }
    }

    /// The meter's current display reading, for the shell to render.
    pub fn reading_centi_fps(&self) -> (r: Option<u64>)
        requires
            self.live(),
        ensures
            r == self.ctrl().fps().display(),
    {
        match &self.slot {
            Some(c) => c.fps_reading(),
            None => None,
        }
    }
}

impl Controller {
    /// The meter's current display reading.
    pub fn fps_reading(&self) -> (r: Option<u64>)
        ensures
            r == self.fps().display(),
    {
        self.fps.reading_centi_fps()
    }
}

/// A controller never has more than one outstanding scheduling token:
/// constructing, playing, pausing, and un-pausing never accumulate
/// requests.
pub proof fn lemma_at_most_one_token(s: Session)
    requires
        s.wf(),
    ensures
        s.outstanding().len() <= 1,
{
}

/// Once the owning handle is dropped, nothing remains scheduled, so no
/// further fire can reach the record.
pub proof fn lemma_teardown_quiesces(s: Session)
    requires
        s.wf(),
        !s.live(),
    ensures
        s.outstanding().len() == 0,
{
}

} // verus!
