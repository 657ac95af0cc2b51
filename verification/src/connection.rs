//! The state that the event loop owns: the timers, the table of windows and
//! the termination flag; the bridge through which work reaches a window; and
//! the decisions of the loop itself.
//!
//! The loop is driven from outside. Whoever owns the display calls
//! [`WaylandConnection::step`] with what has just happened and carries out
//! the [`LoopAction`] it answers with.

use vstd::prelude::*;
use std::collections::HashMap;
use crate::timerlist::{inserted, is_min_remaining, remaining, TimerEntry, TimerList};
use crate::window::{
    cursor_name, MouseCursor, Point, WaylandWindow, WaylandWindowInner, WindowAction, WindowError,
};
use crate::pending::{PendingEvent, WindowEvent};
use crate::promise::Promise;

verus! {

broadcast use vstd::std_specs::hash::group_hash_axioms;

/// How long the loop waits for events when no timer is pending, in
/// nanoseconds.
pub const FALLBACK_WAIT: u64 = 2_500_000_000;

/// How an operation on the display's connection ended.
#[derive(Clone, Copy, Debug, PartialEq, Eq)]
pub enum IoOutcome {
    /// It did what it was asked to.
    Done,
    /// It could not proceed without blocking.
    WouldBlock,
    /// It was interrupted by a signal.
    Interrupted,
    /// It failed for any other reason.
    Failed,
}

/// Why the loop gave up.
#[derive(Clone, Copy, Debug, PartialEq, Eq)]
pub enum LoopError {
    /// Pending requests could not be sent to the display.
    Flush,
    /// The task queue's wake-up source could not be registered.
    RegisterSource,
    /// Reading or dispatching the display's events failed.
    Dispatch,
}

/// What the loop is waiting to hear.
#[derive(Clone, Copy, Debug, PartialEq, Eq)]
pub enum LoopPhase {
    /// The loop is not running.
    Idle,
    /// The flush that precedes the first iteration is under way.
    Starting,
    /// The task queue's wake-up source is being registered.
    Registering,
    /// The timers that are due are being fired.
    Timers,
    /// The task queue is being drained.
    Tasks,
    /// Pending requests are being flushed; the flag says whether the drain
    /// before it ran any task.
    Flushing(bool),
    /// The loop is blocked on the display and the task queue's signal.
    Dispatching,
}

/// What has just happened.
#[derive(Clone, Copy, Debug, PartialEq, Eq)]
pub enum LoopEvent {
    /// The loop was asked to run.
    Start,
    /// A flush ended.
    Flushed(IoOutcome),
    /// The registration of the wake-up source ended, well or not.
    SourceRegistered(bool),
    /// The callbacks of the timers that were due have run.
    TimersFired,
    /// The task queue was drained; the flag says whether any task ran.
    TasksRun(bool),
    /// The wait for events ended.
    Dispatched(IoOutcome),
}

/// What the caller has to do next.
#[derive(Clone, Copy, Debug, PartialEq, Eq)]
pub enum LoopAction {
    /// Send pending requests to the display without blocking, and report
    /// with [`LoopEvent::Flushed`].
    Flush,
    /// Register the task queue's wake-up source, and report with
    /// [`LoopEvent::SourceRegistered`].
    RegisterSpawnSource,
    /// Fire the timers that are due, and report with
    /// [`LoopEvent::TimersFired`].
    FireTimers,
    /// Drain the task queue, and report with [`LoopEvent::TasksRun`].
    RunTasks,
    /// Wait for events for at most this many nanoseconds, dispatch what
    /// arrives, and report with [`LoopEvent::Dispatched`].
    Dispatch(u64),
    /// The loop has ended in good order; every window has been destroyed.
    Finished,
    /// The loop has ended with an error.
    Failed(LoopError),
    /// The event is not one the loop was waiting for; nothing has changed.
    Ignored,
}

/// The state of the event loop.
pub struct WaylandConnection {
    pub should_terminate: bool,
    pub timers: TimerList,
    pub next_window_id: usize,
    pub windows: HashMap<usize, WaylandWindowInner>,
    pub phase: LoopPhase,
}

/// A flush has failed unless it went through, would merely have blocked or
/// was interrupted: what is transient is no failure.
pub open spec fn flush_failed(outcome: IoOutcome) -> bool {
    outcome == IoOutcome::Failed
}

/// How long the loop may wait: not at all after it ran a task, since more
/// may have arrived; else until the next timer is due; and for the fallback
/// time if there is no timer.
pub open spec fn wait_period_of(timers: Seq<TimerEntry>, ran_tasks: bool, now: u64) -> u64 {
    if ran_tasks {
        0
    } else if timers.len() == 0 {
        FALLBACK_WAIT
    } else {
        remaining(timers[0].due, now) as u64
    }
}

impl WaylandConnection {
    /// The timers are in order, and every window in the table exists, is
    /// filed under its own id, and has an id that has been handed out.
    pub open spec fn wf(self) -> bool {
        &&& self.timers.wf()
        &&& 1 <= self.next_window_id
        &&& forall|id: usize| #[trigger]
            self.windows@.contains_key(id) ==> {
                &&& id < self.next_window_id
                &&& self.windows@[id].window_id == id
                &&& self.windows@[id].window_present
                &&& self.windows@[id].wf()
            }
    }

    /// The state of a connection on which nothing has happened yet.
    pub fn create_new() -> (conn: WaylandConnection)
        ensures
            !conn.should_terminate,
            conn.timers.timers@ == Seq::<TimerEntry>::empty(),
            conn.next_window_id == 1,
            conn.windows@ == Map::<usize, WaylandWindowInner>::empty(),
            conn.phase == LoopPhase::Idle,
            conn.wf(),
    {
        WaylandConnection {
            should_terminate: false,
            timers: TimerList::new(),
            next_window_id: 1,
            windows: HashMap::new(),
            phase: LoopPhase::Idle,
        }
    }

    /// Hands out an id that no window had before.
    pub fn next_window_id(&mut self) -> (id: usize)
        requires
            old(self).next_window_id < usize::MAX,
        ensures
            id == old(self).next_window_id,
            final(self).next_window_id == id + 1,
            final(self).should_terminate == old(self).should_terminate,
            final(self).timers == old(self).timers,
            final(self).windows == old(self).windows,
            final(self).phase == old(self).phase,
            old(self).wf() ==> final(self).wf(),
    {
        let id = self.next_window_id;
        self.next_window_id = id + 1;
        id
    }

    /// Whether a flush that ended with `outcome` lets the loop go on.
    pub fn flush(outcome: IoOutcome) -> (result: Result<(), LoopError>)
        ensures
            result == if flush_failed(outcome) {
                Err::<(), LoopError>(LoopError::Flush)
            } else {
                Ok::<(), LoopError>(())
            },
    {
        match outcome {
            IoOutcome::Failed => Err(LoopError::Flush),
            _ => Ok(()),
        }
    }

    /// The state of the window with this id, if there is one.
    pub fn window_by_id(&self, window_id: usize) -> (window: Option<&WaylandWindowInner>)
        ensures
            window.is_some() == self.windows@.contains_key(window_id),
            window.is_some() ==> *window.unwrap() == self.windows@[window_id],
    {
        self.windows.get(&window_id)
    }

    /// Asks the loop to end before its next iteration.
    pub fn terminate_message_loop(&mut self)
        ensures
            final(self).should_terminate,
            final(self).timers == old(self).timers,
            final(self).next_window_id == old(self).next_window_id,
            final(self).windows == old(self).windows,
            final(self).phase == old(self).phase,
            old(self).wf() ==> final(self).wf(),
    {
        self.should_terminate = true;
    }

    /// Schedules `callback` to run every `interval` nanoseconds: it is due
    /// at once, and armed again whenever it has fired.
    pub fn schedule_timer(&mut self, interval: u64, callback: usize, now: u64)
        requires
            old(self).wf(),
        ensures
            final(self).timers.timers@ == inserted(
                old(self).timers.timers@,
                TimerEntry { callback, due: now, interval },
            ),
            final(self).should_terminate == old(self).should_terminate,
            final(self).next_window_id == old(self).next_window_id,
            final(self).windows == old(self).windows,
            final(self).phase == old(self).phase,
            final(self).wf(),
    {
        self.timers.insert(TimerEntry { callback, due: now, interval });
    }

    /// How long the loop may wait for events at `now`.
    pub fn wait_period(&self, ran_tasks: bool, now: u64) -> (period: u64)
        requires
            self.wf(),
        ensures
            period == wait_period_of(self.timers.timers@, ran_tasks, now),
            (!ran_tasks && self.timers.timers@.len() > 0) ==> is_min_remaining(
                self.timers.timers@,
                now,
                period as int,
            ),
    {
        if ran_tasks {
            0
        } else {
            match self.timers.time_until_due(now) {
                Some(delay) => delay,
                None => FALLBACK_WAIT,
            }
        }
    }
}

impl WaylandConnection {
    /// Where an iteration begins: the loop ends if it was asked to, and
    /// fires the timers if not.
    pub open spec fn iteration_start(self) -> (LoopPhase, LoopAction) {
        if self.should_terminate {
            (LoopPhase::Idle, LoopAction::Finished)
        } else {
            (LoopPhase::Timers, LoopAction::FireTimers)
        }
    }

    /// The phase the loop enters on `event`, and what it asks for.
    pub open spec fn step_result(self, event: LoopEvent, now: u64) -> (LoopPhase, LoopAction) {
        match (self.phase, event) {
            (LoopPhase::Idle, LoopEvent::Start) => (LoopPhase::Starting, LoopAction::Flush),
            (LoopPhase::Starting, LoopEvent::Flushed(outcome)) => if flush_failed(outcome) {
                (LoopPhase::Idle, LoopAction::Failed(LoopError::Flush))
            } else {
                (LoopPhase::Registering, LoopAction::RegisterSpawnSource)
            },
            (LoopPhase::Registering, LoopEvent::SourceRegistered(registered)) => if registered {
                self.iteration_start()
            } else {
                (LoopPhase::Idle, LoopAction::Failed(LoopError::RegisterSource))
            },
            (LoopPhase::Timers, LoopEvent::TimersFired) => (LoopPhase::Tasks, LoopAction::RunTasks),
            (LoopPhase::Tasks, LoopEvent::TasksRun(ran)) => (
                LoopPhase::Flushing(ran),
                LoopAction::Flush,
            ),
            (LoopPhase::Flushing(ran), LoopEvent::Flushed(outcome)) => if flush_failed(outcome) {
                (LoopPhase::Idle, LoopAction::Failed(LoopError::Flush))
            } else {
                (
                    LoopPhase::Dispatching,
                    LoopAction::Dispatch(wait_period_of(self.timers.timers@, ran, now)),
                )
            },
            (LoopPhase::Dispatching, LoopEvent::Dispatched(outcome)) => if outcome
                == IoOutcome::Failed {
                (LoopPhase::Idle, LoopAction::Failed(LoopError::Dispatch))
            } else {
                self.iteration_start()
            },
            _ => (self.phase, LoopAction::Ignored),
        }
    }

    /// Takes in what has just happened and says what to do next.
    ///
    /// An iteration fires the timers, then drains the task queue, then
    /// flushes, then works out how long it may wait at `now` and waits for
    /// events, always in this order. The request to
    /// terminate is looked at where an iteration begins; the loop then
    /// destroys every window and ends. A flush or a wait that would block or
    /// was interrupted is no error; any other failure ends the loop and
    /// leaves the windows as they are.
    pub fn step(&mut self, event: LoopEvent, now: u64) -> (action: LoopAction)
        requires
            old(self).wf(),
        ensures
            (final(self).phase, action) == old(self).step_result(event, now),
            final(self).windows@ == if action == LoopAction::Finished {
                Map::<usize, WaylandWindowInner>::empty()
            } else {
                old(self).windows@
            },
            final(self).should_terminate == old(self).should_terminate,
            final(self).timers == old(self).timers,
            final(self).next_window_id == old(self).next_window_id,
            final(self).wf(),
    {
        let (phase, action) = match (self.phase, event) {
            (LoopPhase::Idle, LoopEvent::Start) => (LoopPhase::Starting, LoopAction::Flush),
            (LoopPhase::Starting, LoopEvent::Flushed(outcome)) => match Self::flush(outcome) {
                Ok(_) => (LoopPhase::Registering, LoopAction::RegisterSpawnSource),
                Err(error) => (LoopPhase::Idle, LoopAction::Failed(error)),
            },
            (LoopPhase::Registering, LoopEvent::SourceRegistered(registered)) => {
                if registered {
                    self.begin_iteration()
                } else {
                    (LoopPhase::Idle, LoopAction::Failed(LoopError::RegisterSource))
                }
            },
            (LoopPhase::Timers, LoopEvent::TimersFired) => (LoopPhase::Tasks, LoopAction::RunTasks),
            (LoopPhase::Tasks, LoopEvent::TasksRun(ran)) => (
                LoopPhase::Flushing(ran),
                LoopAction::Flush,
            ),
            (LoopPhase::Flushing(ran), LoopEvent::Flushed(outcome)) => match Self::flush(outcome) {
                Ok(_) => (
                    LoopPhase::Dispatching,
                    LoopAction::Dispatch(self.wait_period(ran, now)),
                ),
                Err(error) => (LoopPhase::Idle, LoopAction::Failed(error)),
            },
            (LoopPhase::Dispatching, LoopEvent::Dispatched(outcome)) => match outcome {
                IoOutcome::Failed => (LoopPhase::Idle, LoopAction::Failed(LoopError::Dispatch)),
                _ => self.begin_iteration(),
            },
            _ => (self.phase, LoopAction::Ignored),
        };
        self.phase = phase;
        match action {
            LoopAction::Finished => {
                self.windows.clear();
            },
            _ => {},
        }
        action
    }

    fn begin_iteration(&self) -> (next: (LoopPhase, LoopAction))
        ensures
            next == self.iteration_start(),
    {
        if self.should_terminate {
            (LoopPhase::Idle, LoopAction::Finished)
        } else {
            (LoopPhase::Timers, LoopAction::FireTimers)
        }
    }

    /// Fires the timers that are due at `now`, as [`TimerList::run_ready`]
    /// does: this is what [`LoopAction::FireTimers`] asks for.
    pub fn run_ready(&mut self, now: u64) -> (fired: Vec<TimerEntry>)
        requires
            old(self).wf(),
            old(self).timers.rearm_fits(now),
        ensures
            fired@ == old(self).timers.timers@.subrange(
                0,
                crate::timerlist::ready_prefix(old(self).timers.timers@, now) as int,
            ),
            final(self).timers.timers@ == crate::timerlist::rearmed(
                old(self).timers.timers@.subrange(
                    crate::timerlist::ready_prefix(old(self).timers.timers@, now) as int,
                    old(self).timers.timers@.len() as int,
                ),
                fired@,
                now,
            ),
            final(self).should_terminate == old(self).should_terminate,
            final(self).next_window_id == old(self).next_window_id,
            final(self).windows == old(self).windows,
            final(self).phase == old(self).phase,
            final(self).wf(),
    {
        self.timers.run_ready(now)
    }

    /// The table of windows after the window `id` has become `after`: a
    /// window that has been destroyed leaves the table.
    pub open spec fn windows_with(self, id: usize, after: WaylandWindowInner) -> Map<
        usize,
        WaylandWindowInner,
    > {
        if after.window_present {
            self.windows@.insert(id, after)
        } else {
            self.windows@.remove(id)
        }
    }

    /// Runs `f` on the state of the window `window`, on the loop thread, and
    /// resolves `promise` with what `f` returns.
    ///
    /// If there is no such window `f` is dropped without being called, and
    /// the promise stays pending. If there is, `f` gets the state, the state
    /// it gives back replaces it, and the promise is resolved with the result
    /// of `f`, be it a value or a failure. A window that `f` destroyed is
    /// taken out of the table.
    pub fn with_window_inner<R, E, F: FnOnce(WaylandWindowInner) -> (WaylandWindowInner, Result<R, E>)>(
        &mut self,
        window: usize,
        f: F,
        promise: &mut Promise<R, E>,
    )
        requires
            old(self).wf(),
            old(promise).is_pending(),
            old(self).windows@.contains_key(window) ==> call_requires(
                f,
                (old(self).windows@[window],),
            ),
            forall|after: WaylandWindowInner, result: Result<R, E>|
                old(self).windows@.contains_key(window) && #[trigger] call_ensures(
                    f,
                    (old(self).windows@[window],),
                    (after, result),
                ) ==> after.wf() && after.window_id == window,
        ensures
            !old(self).windows@.contains_key(window) ==> final(self).windows@ == old(self).windows@ && final(promise).is_pending(),
            old(self).windows@.contains_key(window) ==> final(promise).slot.is_some()
                && exists|after: WaylandWindowInner|
                #![trigger old(self).windows_with(window, after)]
                {
                    &&& call_ensures(
                        f,
                        (old(self).windows@[window],),
                        (after, final(promise).slot.unwrap()),
                    )
                    &&& final(self).windows@ == old(self).windows_with(window, after)
                },
            final(self).should_terminate == old(self).should_terminate,
            final(self).timers == old(self).timers,
            final(self).next_window_id == old(self).next_window_id,
            final(self).phase == old(self).phase,
            final(self).wf(),
    {
        match self.windows.remove(&window) {
            None => {},
            Some(inner) => {
                let (after, result) = f(inner);
                let present = after.window_present;
                if present {
                    self.windows.insert(window, after);
                }
                promise.result(result);
                assert(self.windows@ =~= old(self).windows_with(window, after));
                assert(call_ensures(
                    f,
                    (old(self).windows@[window],),
                    (after, promise.slot.unwrap()),
                ));
            },
        }
    }
}

/// The smallest content size, in surface units, that a window may be given.
pub const MIN_WINDOW_SIZE: u32 = 32;

/// What an operation on a window hands back through its promise: the
/// effects to carry out.
pub type WindowPromise = Promise<Vec<WindowAction>, WindowError>;

impl WaylandWindow {
    /// Registers a new window of the given pixel size with the connection
    /// and hands out its handle. The window gets an id that no window had
    /// before.
    pub fn new_window(conn: &mut WaylandConnection, width: usize, height: usize) -> (handle:
        WaylandWindow)
        requires
            old(conn).wf(),
            old(conn).next_window_id < usize::MAX,
            width <= i32::MAX,
            height <= i32::MAX,
        ensures
            handle.0 == old(conn).next_window_id,
            !old(conn).windows@.contains_key(handle.0),
            final(conn).next_window_id == handle.0 + 1,
            final(conn).windows@ == old(conn).windows@.insert(
                handle.0,
                WaylandWindowInner::initial(handle.0, width, height),
            ),
            final(conn).should_terminate == old(conn).should_terminate,
            final(conn).timers == old(conn).timers,
            final(conn).phase == old(conn).phase,
            final(conn).wf(),
    {
        let window_id = conn.next_window_id();
        let inner = WaylandWindowInner::new(window_id, width, height);
        conn.windows.insert(window_id, inner);
        WaylandWindow(window_id)
    }

    /// Whether the window still exists.
    pub fn is_live(&self, conn: &WaylandConnection) -> (live: bool)
        ensures
            live == conn.windows@.contains_key(self.0),
    {
        conn.windows.contains_key(&self.0)
    }

    /// Closes the window without asking, as [`WaylandWindowInner::close`]
    /// does; the window leaves the table.
    pub fn close(&self, conn: &mut WaylandConnection) -> (promise: WindowPromise)
        requires
            old(conn).wf(),
        ensures
            resolved_with(
                *old(conn),
                *final(conn),
                self.0,
                promise,
                old(conn).windows@[self.0].closed_outcome().state,
                old(conn).windows@[self.0].closed_outcome().actions,
            ),
            final(conn).wf(),
    {
        let mut promise: WindowPromise = Promise::new();
        let id = self.0;
        let op = |inner: WaylandWindowInner| -> (out: (
            WaylandWindowInner,
            Result<Vec<WindowAction>, WindowError>,
        ))
            requires
                inner.wf(),
                inner.window_id == id,
            ensures
                out.0 == inner.closed_outcome().state,
                out.1.is_ok(),
                out.1.unwrap()@ == inner.closed_outcome().actions,
            {
                let mut inner = inner;
                let actions = inner.close();
                (inner, Ok(actions))
            };
        conn.with_window_inner(id, op, &mut promise);
        promise
    }

    /// Minimises the window, as [`WaylandWindowInner::minimize`] does.
    pub fn minimize(&self, conn: &mut WaylandConnection) -> (promise: WindowPromise)
        requires
            old(conn).wf(),
        ensures
            resolved_with(
                *old(conn),
                *final(conn),
                self.0,
                promise,
                old(conn).windows@[self.0],
                seq![WindowAction::SetMinimized],
            ),
            final(conn).wf(),
    {
        let mut promise: WindowPromise = Promise::new();
        let id = self.0;
        let op = |inner: WaylandWindowInner| -> (out: (
            WaylandWindowInner,
            Result<Vec<WindowAction>, WindowError>,
        ))
            requires
                inner.wf(),
                inner.window_id == id,
                inner.window_present,
            ensures
                out.0 == inner,
                out.1.is_ok(),
                out.1.unwrap()@ == seq![WindowAction::SetMinimized],
            {
                let mut inner = inner;
                let actions = inner.minimize();
                (inner, Ok(actions))
            };
        conn.with_window_inner(id, op, &mut promise);
        proof {
            if old(conn).windows@.contains_key(id) {
                lemma_same_window(*old(conn), id);
            }
        }
        promise
    }

    /// Asks for full screen to be entered or left, as
    /// [`WaylandWindowInner::toggle_fullscreen`] does.
    pub fn toggle_fullscreen(&self, conn: &mut WaylandConnection) -> (promise: WindowPromise)
        requires
            old(conn).wf(),
        ensures
            resolved_with(
                *old(conn),
                *final(conn),
                self.0,
                promise,
                old(conn).windows@[self.0],
                if old(conn).windows@[self.0].full_screen {
                    seq![WindowAction::UnsetFullscreen]
                } else {
                    seq![WindowAction::SetFullscreen]
                },
            ),
            final(conn).wf(),
    {
        let mut promise: WindowPromise = Promise::new();
        let id = self.0;
        let op = |inner: WaylandWindowInner| -> (out: (
            WaylandWindowInner,
            Result<Vec<WindowAction>, WindowError>,
        ))
            requires
                inner.wf(),
                inner.window_id == id,
                inner.window_present,
            ensures
                out.0 == inner,
                out.1.is_ok(),
                out.1.unwrap()@ == if inner.full_screen {
                    seq![WindowAction::UnsetFullscreen]
                } else {
                    seq![WindowAction::SetFullscreen]
                },
            {
                let mut inner = inner;
                let actions = inner.toggle_fullscreen();
                (inner, Ok(actions))
            };
        conn.with_window_inner(id, op, &mut promise);
        proof {
            if old(conn).windows@.contains_key(id) {
                lemma_same_window(*old(conn), id);
            }
        }
        promise
    }

    /// Shows the window, as [`WaylandWindowInner::show`] does.
    pub fn show(&self, conn: &mut WaylandConnection, needs_configure: bool) -> (promise:
        WindowPromise)
        requires
            old(conn).wf(),
        ensures
            resolved_with(
                *old(conn),
                *final(conn),
                self.0,
                promise,
                if needs_configure {
                    old(conn).windows@[self.0]
                } else {
                    old(conn).windows@[self.0].painted()
                },
                if needs_configure {
                    seq![]
                } else {
                    old(conn).windows@[self.0].paint_actions()
                },
            ),
            final(conn).wf(),
    {
        let mut promise: WindowPromise = Promise::new();
        let id = self.0;
        let op = |inner: WaylandWindowInner| -> (out: (
            WaylandWindowInner,
            Result<Vec<WindowAction>, WindowError>,
        ))
            requires
                inner.wf(),
                inner.window_id == id,
                inner.window_present,
            ensures
                out.0 == if needs_configure {
                    inner
                } else {
                    inner.painted()
                },
                out.1.is_ok(),
                out.1.unwrap()@ == if needs_configure {
                    seq![]
                } else {
                    inner.paint_actions()
                },
            {
                let mut inner = inner;
                let actions = inner.show(needs_configure);
                (inner, Ok(actions))
            };
        conn.with_window_inner(id, op, &mut promise);
        promise
    }

    /// Marks the window's content as stale and paints it, as
    /// [`WaylandWindowInner::invalidate`] does.
    pub fn invalidate(&self, conn: &mut WaylandConnection) -> (promise: WindowPromise)
        requires
            old(conn).wf(),
        ensures
            resolved_with(
                *old(conn),
                *final(conn),
                self.0,
                promise,
                old(conn).windows@[self.0].invalidated(),
                old(conn).windows@[self.0].invalidated().paint_actions(),
            ),
            final(conn).wf(),
    {
        let mut promise: WindowPromise = Promise::new();
        let id = self.0;
        let op = |inner: WaylandWindowInner| -> (out: (
            WaylandWindowInner,
            Result<Vec<WindowAction>, WindowError>,
        ))
            requires
                inner.wf(),
                inner.window_id == id,
            ensures
                out.0 == inner.invalidated(),
                out.1.is_ok(),
                out.1.unwrap()@ == inner.invalidated().paint_actions(),
            {
                let mut inner = inner;
                let actions = inner.invalidate();
                (inner, Ok(actions))
            };
        conn.with_window_inner(id, op, &mut promise);
        promise
    }

    /// Changes the title, as [`WaylandWindowInner::set_title`] does.
    pub fn set_title(&self, conn: &mut WaylandConnection) -> (promise: WindowPromise)
        requires
            old(conn).wf(),
        ensures
            resolved_with(
                *old(conn),
                *final(conn),
                self.0,
                promise,
                old(conn).windows@[self.0],
                seq![WindowAction::SetTitle, WindowAction::RefreshFrame],
            ),
            final(conn).wf(),
    {
        let mut promise: WindowPromise = Promise::new();
        let id = self.0;
        let op = |inner: WaylandWindowInner| -> (out: (
            WaylandWindowInner,
            Result<Vec<WindowAction>, WindowError>,
        ))
            requires
                inner.wf(),
                inner.window_id == id,
                inner.window_present,
            ensures
                out.0 == inner,
                out.1.is_ok(),
                out.1.unwrap()@ == seq![WindowAction::SetTitle, WindowAction::RefreshFrame],
            {
                let mut inner = inner;
                let actions = inner.set_title();
                (inner, Ok(actions))
            };
        conn.with_window_inner(id, op, &mut promise);
        proof {
            if old(conn).windows@.contains_key(id) {
                lemma_same_window(*old(conn), id);
            }
        }
        promise
    }

    /// A Wayland client cannot place its windows: the promise of a window
    /// that exists is resolved with nothing to do.
    pub fn set_window_position(&self, conn: &mut WaylandConnection, coords: Point) -> (promise:
        WindowPromise)
        requires
            old(conn).wf(),
        ensures
            resolved_with(
                *old(conn),
                *final(conn),
                self.0,
                promise,
                old(conn).windows@[self.0],
                seq![],
            ),
            final(conn).wf(),
    {
        let mut promise: WindowPromise = Promise::new();
        let id = self.0;
        let op = |inner: WaylandWindowInner| -> (out: (
            WaylandWindowInner,
            Result<Vec<WindowAction>, WindowError>,
        ))
            requires
                inner.wf(),
                inner.window_id == id,
            ensures
                out.0 == inner,
                out.1.is_ok(),
                out.1.unwrap()@ == Seq::<WindowAction>::empty(),
            {
                let actions = inner.set_window_position(coords);
                (inner, Ok(actions))
            };
        conn.with_window_inner(id, op, &mut promise);
        proof {
            if old(conn).windows@.contains_key(id) {
                lemma_same_window(*old(conn), id);
            }
        }
        promise
    }

    /// Looks up the cursor's name, as [`WaylandWindowInner::set_cursor`]
    /// does, for the pointer to take that shape. The promise stays pending
    /// if the window is gone.
    pub fn set_cursor(&self, conn: &WaylandConnection, cursor: Option<MouseCursor>) -> (promise:
        Promise<Option<&'static str>, WindowError>)
        ensures
            !conn.windows@.contains_key(self.0) ==> promise.is_pending(),
            conn.windows@.contains_key(self.0) ==> {
                &&& promise.slot.is_some()
                &&& promise.slot.unwrap().is_ok()
                &&& promise.slot.unwrap().unwrap().is_none() == cursor.is_none()
                &&& cursor.is_some() ==> promise.slot.unwrap().unwrap().unwrap()@ == cursor_name(
                    cursor.unwrap(),
                )
            },
    {
        let mut promise: Promise<Option<&'static str>, WindowError> = Promise::new();
        match conn.windows.get(&self.0) {
            Some(inner) => {
                promise.ok(inner.set_cursor(cursor));
            },
            None => {},
        }
        promise
    }

    /// Gives the window's content a new size, as
    /// [`WaylandWindowInner::set_inner_size`] does.
    pub fn set_inner_size(
        &self,
        conn: &mut WaylandConnection,
        width: usize,
        height: usize,
        can_close: bool,
        scale_factor: i32,
    ) -> (promise: WindowPromise)
        requires
            old(conn).wf(),
            width <= i32::MAX,
            height <= i32::MAX,
            old(conn).windows@.contains_key(self.0) ==> old(conn).windows@[self.0].with_inner_size(
                width,
                height,
            ).dispatch_fits(can_close, scale_factor),
        ensures
            ({
                let inner = old(conn).windows@[self.0];
                let drained = inner.with_inner_size(width, height).dispatch_outcome(
                    can_close,
                    scale_factor,
                );
                let size = inner.surface_size_of(width, height);
                resolved_with(
                    *old(conn),
                    *final(conn),
                    self.0,
                    promise,
                    drained.state,
                    drained.actions + if drained.state.window_present {
                        seq![WindowAction::ResizeFrame(size.0, size.1), WindowAction::RefreshFrame]
                    } else {
                        seq![]
                    },
                )
            }),
            final(conn).wf(),
    {
        let mut promise: WindowPromise = Promise::new();
        let id = self.0;
        let op = |inner: WaylandWindowInner| -> (out: (
            WaylandWindowInner,
            Result<Vec<WindowAction>, WindowError>,
        ))
            requires
                inner.wf(),
                inner.window_id == id,
                width <= i32::MAX,
                height <= i32::MAX,
                inner.with_inner_size(width, height).dispatch_fits(can_close, scale_factor),
            ensures
                out.0 == inner.with_inner_size(width, height).dispatch_outcome(
                    can_close,
                    scale_factor,
                ).state,
                out.0.wf(),
                out.1.is_ok(),
                out.1.unwrap()@ == inner.with_inner_size(width, height).dispatch_outcome(
                    can_close,
                    scale_factor,
                ).actions + if out.0.window_present {
                    seq![
                        WindowAction::ResizeFrame(
                            inner.surface_size_of(width, height).0,
                            inner.surface_size_of(width, height).1,
                        ),
                        WindowAction::RefreshFrame,
                    ]
                } else {
                    seq![]
                },
            {
                let mut inner = inner;
                let actions = inner.set_inner_size(width, height, can_close, scale_factor);
                (inner, Ok(actions))
            };
        proof {
            lemma_dispatch_keeps_id(
                old(conn).windows@[id].with_inner_size(width, height),
                can_close,
                scale_factor,
            );
        }
        conn.with_window_inner(id, op, &mut promise);
        promise
    }

    /// Whether a close request is buffered for the window, so that the
    /// application has to be asked before the next drain.
    pub fn close_pending(&self, conn: &WaylandConnection) -> (pending: bool)
        ensures
            pending == (conn.windows@.contains_key(self.0)
                && conn.windows@[self.0].pending_event.close),
    {
        match conn.windows.get(&self.0) {
            Some(inner) => inner.close_pending(),
            None => false,
        }
    }

    /// Whether [`Self::dispatch_pending_event`] can be called with these
    /// answers: it can for a window that is gone.
    pub fn can_dispatch(&self, conn: &WaylandConnection, can_close: bool, scale_factor: i32) -> (fits:
        bool)
        requires
            conn.wf(),
        ensures
            fits == (conn.windows@.contains_key(self.0) ==> conn.windows@[self.0].dispatch_fits(
                can_close,
                scale_factor,
            )),
    {
        match conn.windows.get(&self.0) {
            Some(inner) => inner.can_dispatch(can_close, scale_factor),
            None => true,
        }
    }

    /// Buffers a notification for the window. The result asks for a drain
    /// to be scheduled; it is `false` for a window that is gone.
    pub fn queue_event(&self, conn: &mut WaylandConnection, evt: WindowEvent) -> (changed: bool)
        requires
            old(conn).wf(),
        ensures
            old(conn).windows@.contains_key(self.0) ==> {
                &&& changed == old(conn).windows@[self.0].pending_event.changed_by(evt)
                &&& final(conn).windows@ == old(conn).windows@.insert(
                    self.0,
                    WaylandWindowInner {
                        pending_event: old(conn).windows@[self.0].pending_event.queued(evt),
                        ..old(conn).windows@[self.0]
                    },
                )
            },
            !old(conn).windows@.contains_key(self.0) ==> !changed && final(conn).windows@ == old(conn).windows@,
            final(conn).should_terminate == old(conn).should_terminate,
            final(conn).timers == old(conn).timers,
            final(conn).next_window_id == old(conn).next_window_id,
            final(conn).phase == old(conn).phase,
            final(conn).wf(),
    {
        match conn.windows.remove(&self.0) {
            Some(inner) => {
                let mut inner = inner;
                let changed = inner.queue_event(evt);
                conn.windows.insert(self.0, inner);
                assert(conn.windows@ =~= old(conn).windows@.insert(self.0, inner));
                changed
            },
            None => false,
        }
    }

    /// Buffers a change of the surface's scale factor for the window; a
    /// drain is always to be scheduled after it.
    pub fn queue_scale(&self, conn: &mut WaylandConnection, dpi: i32)
        requires
            old(conn).wf(),
        ensures
            old(conn).windows@.contains_key(self.0) ==> final(conn).windows@ == old(conn).windows@.insert(
                self.0,
                WaylandWindowInner {
                    pending_event: PendingEvent {
                        dpi: Some(dpi),
                        ..old(conn).windows@[self.0].pending_event
                    },
                    ..old(conn).windows@[self.0]
                },
            ),
            !old(conn).windows@.contains_key(self.0) ==> final(conn).windows@ == old(conn).windows@,
            final(conn).should_terminate == old(conn).should_terminate,
            final(conn).timers == old(conn).timers,
            final(conn).next_window_id == old(conn).next_window_id,
            final(conn).phase == old(conn).phase,
            final(conn).wf(),
    {
        match conn.windows.remove(&self.0) {
            Some(inner) => {
                let mut inner = inner;
                inner.queue_scale(dpi);
                conn.windows.insert(self.0, inner);
                assert(conn.windows@ =~= old(conn).windows@.insert(self.0, inner));
            },
            None => {},
        }
    }

    /// Drains the window's aggregator, as
    /// [`WaylandWindowInner::dispatch_pending_event`] does. A window that
    /// the drain closes leaves the table.
    pub fn dispatch_pending_event(
        &self,
        conn: &mut WaylandConnection,
        can_close: bool,
        scale_factor: i32,
    ) -> (promise: WindowPromise)
        requires
            old(conn).wf(),
            old(conn).windows@.contains_key(self.0) ==> old(conn).windows@[self.0].dispatch_fits(
                can_close,
                scale_factor,
            ),
        ensures
            resolved_with(
                *old(conn),
                *final(conn),
                self.0,
                promise,
                old(conn).windows@[self.0].dispatch_outcome(can_close, scale_factor).state,
                old(conn).windows@[self.0].dispatch_outcome(can_close, scale_factor).actions,
            ),
            final(conn).wf(),
    {
        let mut promise: WindowPromise = Promise::new();
        let id = self.0;
        let op = |inner: WaylandWindowInner| -> (out: (
            WaylandWindowInner,
            Result<Vec<WindowAction>, WindowError>,
        ))
            requires
                inner.wf(),
                inner.window_id == id,
                inner.dispatch_fits(can_close, scale_factor),
            ensures
                out.0 == inner.dispatch_outcome(can_close, scale_factor).state,
                out.0.wf(),
                out.1.is_ok(),
                out.1.unwrap()@ == inner.dispatch_outcome(can_close, scale_factor).actions,
            {
                let mut inner = inner;
                let actions = inner.dispatch_pending_event(can_close, scale_factor);
                (inner, Ok(actions))
            };
        proof {
            lemma_dispatch_keeps_id(old(conn).windows@[id], can_close, scale_factor);
        }
        conn.with_window_inner(id, op, &mut promise);
        promise
    }

    /// Runs `func` for the window, on the loop thread, and resolves the
    /// promise with its result. For a window that is gone `func` is dropped
    /// and the promise stays pending.
    pub fn apply<R, E, F: FnOnce(WaylandWindow) -> Result<R, E>>(
        &self,
        conn: &WaylandConnection,
        func: F,
    ) -> (promise: Promise<R, E>)
        requires
            conn.windows@.contains_key(self.0) ==> call_requires(func, (*self,)),
        ensures
            !conn.windows@.contains_key(self.0) ==> promise.is_pending(),
            conn.windows@.contains_key(self.0) ==> promise.slot.is_some() && call_ensures(
                func,
                (*self,),
                promise.slot.unwrap(),
            ),
    {
        let mut promise: Promise<R, E> = Promise::new();
        if conn.windows.contains_key(&self.0) {
            let result = func(*self);
            promise.result(result);
        }
        promise
    }
}

/// What the promise of an operation on the window `id` holds, and what the
/// table of windows has become, if the operation turns a window that exists
/// into `state` and asks for `actions`: the promise is resolved with the
/// actions and the window replaced, or removed if it was destroyed. For a
/// window that is gone the promise stays pending and nothing changes.
pub open spec fn resolved_with(
    before: WaylandConnection,
    after: WaylandConnection,
    id: usize,
    promise: WindowPromise,
    state: WaylandWindowInner,
    actions: Seq<WindowAction>,
) -> bool {
    &&& after.should_terminate == before.should_terminate
    &&& after.timers == before.timers
    &&& after.next_window_id == before.next_window_id
    &&& after.phase == before.phase
    &&& if before.windows@.contains_key(id) {
        &&& promise.slot.is_some()
        &&& promise.slot.unwrap().is_ok()
        &&& promise.slot.unwrap().unwrap()@ == actions
        &&& after.windows@ == before.windows_with(id, state)
    } else {
        &&& promise.is_pending()
        &&& after.windows@ == before.windows@
    }
}

/// Putting a live window back unchanged leaves the table as it was.
pub proof fn lemma_same_window(conn: WaylandConnection, id: usize)
    requires
        conn.wf(),
        conn.windows@.contains_key(id),
    ensures
        conn.windows_with(id, conn.windows@[id]) == conn.windows@,
{
    assert(conn.windows@.insert(id, conn.windows@[id]) =~= conn.windows@);
}

/// A drain leaves a window its id.
pub proof fn lemma_dispatch_keeps_id(inner: WaylandWindowInner, can_close: bool, scale_factor: i32)
    ensures
        inner.dispatch_outcome(can_close, scale_factor).state.window_id == inner.window_id,
{
    reveal(WaylandWindowInner::apply_outcome);
}

/// What a seat offers, as the compositor describes it.
#[derive(Clone, Copy, Debug, PartialEq, Eq)]
pub struct SeatData {
    pub has_keyboard: bool,
    pub has_pointer: bool,
    /// The seat has been removed.
    pub defunct: bool,
}

/// What to do about a seat's keyboard.
#[derive(Clone, Copy, Debug, PartialEq, Eq)]
pub enum KeyboardAction {
    /// Listen to the seat's keyboard.
    Register,
    /// Stop listening to it.
    Deregister,
    /// The seat has no keyboard.
    Nothing,
}

impl SeatData {
    /// Whether the seat's keyboard is to be listened to when the connection
    /// is set up: a seat that has been removed offers nothing.
    pub fn keyboard_usable(&self) -> (usable: bool)
        ensures
            usable == (self.has_keyboard && !self.defunct),
    {
        self.has_keyboard && !self.defunct
    }

    /// Whether the seat's pointer is to be listened to when the connection
    /// is set up.
    pub fn pointer_usable(&self) -> (usable: bool)
        ensures
            usable == (self.has_pointer && !self.defunct),
    {
        self.has_pointer && !self.defunct
    }

    /// What to do when a seat has changed: the keyboard of a seat that was
    /// removed is let go, the keyboard of any other is listened to.
    pub fn keyboard_action(&self) -> (action: KeyboardAction)
        ensures
            action == if !self.has_keyboard {
                KeyboardAction::Nothing
            } else if self.defunct {
                KeyboardAction::Deregister
            } else {
                KeyboardAction::Register
            },
    {
        if !self.has_keyboard {
            KeyboardAction::Nothing
        } else if self.defunct {
            KeyboardAction::Deregister
        } else {
            KeyboardAction::Register
        }
    }
}

/// One turn of the loop, from the firing of the timers to the next one: the
/// phases follow each other in a fixed order, and the wait is cut to nothing
/// after a task ran.
pub proof fn lemma_iteration_order(
    conn: WaylandConnection,
    ran: bool,
    flushed: IoOutcome,
    dispatched: IoOutcome,
    now: u64,
)
    requires
        conn.phase == LoopPhase::Timers,
        !flush_failed(flushed),
        dispatched != IoOutcome::Failed,
    ensures
        ({
            let fired = conn.step_result(LoopEvent::TimersFired, now);
            let after_timers = WaylandConnection { phase: fired.0, ..conn };
            let drained = after_timers.step_result(LoopEvent::TasksRun(ran), now);
            let after_tasks = WaylandConnection { phase: drained.0, ..conn };
            let sent = after_tasks.step_result(LoopEvent::Flushed(flushed), now);
            let after_flush = WaylandConnection { phase: sent.0, ..conn };
            let waited = after_flush.step_result(LoopEvent::Dispatched(dispatched), now);
            &&& fired.1 == LoopAction::RunTasks
            &&& drained.1 == LoopAction::Flush
            &&& sent.1 == LoopAction::Dispatch(wait_period_of(conn.timers.timers@, ran, now))
            &&& ran ==> sent.1 == LoopAction::Dispatch(0)
            &&& waited == conn.iteration_start()
            &&& conn.should_terminate ==> waited.1 == LoopAction::Finished
            &&& !conn.should_terminate ==> waited.1 == LoopAction::FireTimers
        }),
{
}

/// An event that the loop is not waiting for is ignored, whatever the
/// phase: the loop never skips a phase.
pub proof fn lemma_out_of_turn_is_ignored(conn: WaylandConnection, event: LoopEvent, now: u64)
    ensures
        conn.step_result(event, now).1 == LoopAction::Ignored ==> conn.step_result(event, now).0
            == conn.phase,
        conn.step_result(event, now).1 is Dispatch ==> conn.phase is Flushing,
        conn.step_result(event, now).1 == LoopAction::RunTasks ==> conn.phase == LoopPhase::Timers,
        conn.step_result(event, now).1 == LoopAction::FireTimers ==> (conn.phase
            == LoopPhase::Registering || conn.phase == LoopPhase::Dispatching),
{
}

/// The id that the next window gets belongs to no window, and is above the
/// id of every window there is: ids grow and are never given out again.
pub proof fn lemma_next_id_is_fresh(conn: WaylandConnection)
    requires
        conn.wf(),
    ensures
        !conn.windows@.contains_key(conn.next_window_id),
        forall|id: usize| #[trigger] conn.windows@.contains_key(id) ==> id < conn.next_window_id,
{
}

} // verus!
