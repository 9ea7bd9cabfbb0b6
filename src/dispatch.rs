//! The cross-thread dispatch protocol: the decisions that route work between
//! the scripting thread and the native loop thread. The two threads share one
//! `Dispatcher` under a short lock; they run the tasks and callbacks it hands
//! out, and report what their result channels show.

use std::collections::VecDeque;
use vstd::prelude::*;

verus! {

broadcast use vstd::std_specs::vecdeque::group_vec_dequeue_axioms;

/// What became of a task scheduled onto the loop thread.
#[derive(Debug, Clone, Copy, PartialEq, Eq, Structural)]
pub enum Scheduled {
    /// The protocol is stopped: the task was discarded.
    Dropped,
    /// The task was queued; a wake-up of the native loop is already pending.
    Queued,
    /// The task was queued, and the caller must request one wake-up of the
    /// native loop, which then drains the queue.
    QueuedWakeLoop,
}

/// How a callback bound for the scripting thread reaches it.
#[derive(Debug, Clone, Copy, PartialEq, Eq, Structural)]
pub enum Route {
    /// The scripting thread is blocked in a wait loop that drains the queue:
    /// no wake-up is needed.
    Sync,
    /// The scripting thread is idle: the caller also sends a wake-up through
    /// the host runtime's asynchronous channel.
    Async,
}

/// What a waiting side's result channel shows when it is polled.
#[derive(Debug, Clone, Copy, PartialEq, Eq, Structural)]
pub enum Poll {
    Ready,
    Empty,
    Disconnected,
}

/// What the waiting side does after one turn of its wait loop.
#[derive(Debug, Clone, Copy, PartialEq, Eq, Structural)]
pub enum WaitStep {
    /// Take the result and leave the wait loop.
    Done,
    /// Yield, then turn again.
    Continue,
    /// The other side is gone: leave the wait loop with an error.
    Disconnected,
}

/// The dispatch state shared by the two threads.
pub struct Dispatcher<Task, Pending> {
    tasks: VecDeque<Task>,
    pending: VecDeque<Pending>,
    dispatch_scheduled: bool,
    stopped: bool,
    js_wait_depth: usize,
    in_signal_handler: bool,
}

impl<Task, Pending> Dispatcher<Task, Pending> {
    /// Loop-thread-bound tasks, oldest first.
    pub closed spec fn task_queue(&self) -> Seq<Task> {
        self.tasks@
    }

    /// Scripting-thread-bound callbacks, oldest first.
    pub closed spec fn pending_queue(&self) -> Seq<Pending> {
        self.pending@
    }

    /// Whether a wake-up of the native loop is pending.
    pub closed spec fn wake_pending(&self) -> bool {
        self.dispatch_scheduled
    }

    pub closed spec fn is_stopped(&self) -> bool {
        self.stopped
    }

    /// How many wait loops the scripting thread is nested in.
    pub closed spec fn depth(&self) -> nat {
        self.js_wait_depth as nat
    }

    pub closed spec fn signal_handler_flag(&self) -> bool {
        self.in_signal_handler
    }

    /// `new` is `old` with the scripting-thread queue and the depth as given,
    /// and everything else unchanged.
    pub open spec fn same_loop_side(old: Self, new: Self) -> bool {
        &&& new.task_queue() == old.task_queue()
        &&& new.wake_pending() == old.wake_pending()
        &&& new.is_stopped() == old.is_stopped()
        &&& new.signal_handler_flag() == old.signal_handler_flag()
    }

    pub open spec fn same_script_side(old: Self, new: Self) -> bool {
        &&& new.pending_queue() == old.pending_queue()
        &&& new.depth() == old.depth()
        &&& new.signal_handler_flag() == old.signal_handler_flag()
    }

    /// A fresh protocol: nothing queued, not stopped, nobody waiting.
    pub fn new() -> (r: Self)
        ensures
            r.task_queue() == Seq::<Task>::empty(),
            r.pending_queue() == Seq::<Pending>::empty(),
            !r.wake_pending(),
            !r.is_stopped(),
            r.depth() == 0,
            !r.signal_handler_flag(),
    {
        Dispatcher {
            tasks: VecDeque::new(),
            pending: VecDeque::new(),
            dispatch_scheduled: false,
            stopped: false,
            js_wait_depth: 0,
            in_signal_handler: false,
        }
    }

    /// Whether the scripting thread is blocked waiting for the loop thread.
    pub fn is_js_waiting(&self) -> (r: bool)
        ensures
            r == (self.depth() > 0),
    {
        self.js_wait_depth > 0
    }

    /// Whether one more nested wait loop can be entered.
    pub fn can_enter_js_wait(&self) -> (r: bool)
        ensures
            r == (self.depth() < usize::MAX),
    {
        self.js_wait_depth < usize::MAX
    }

    /// Enters one (possibly nested) wait loop on the scripting thread.
    pub fn enter_js_wait(&mut self)
        requires
            old(self).depth() < usize::MAX,
        ensures
            final(self).depth() == old(self).depth() + 1,
            final(self).pending_queue() == old(self).pending_queue(),
            Self::same_loop_side(*old(self), *final(self)),
    {
        self.js_wait_depth = self.js_wait_depth + 1;
    }

    /// Leaves one wait loop; the depth never goes below zero.
    pub fn exit_js_wait(&mut self)
        ensures
            final(self).depth() == (if old(self).depth() > 0 {
                old(self).depth() - 1
            } else {
                0
            }),
            final(self).pending_queue() == old(self).pending_queue(),
            Self::same_loop_side(*old(self), *final(self)),
    {
        if self.js_wait_depth > 0 {
            self.js_wait_depth = self.js_wait_depth - 1;
        }
    }

    /// Whether a native signal handler is waiting for a scripting result.
    pub fn in_signal_handler(&self) -> (r: bool)
        ensures
            r == self.signal_handler_flag(),
    {
        self.in_signal_handler
    }

    pub fn set_in_signal_handler(&mut self, value: bool)
        ensures
            final(self).signal_handler_flag() == value,
            final(self).task_queue() == old(self).task_queue(),
            final(self).wake_pending() == old(self).wake_pending(),
            final(self).is_stopped() == old(self).is_stopped(),
            final(self).pending_queue() == old(self).pending_queue(),
            final(self).depth() == old(self).depth(),
    {
        self.in_signal_handler = value;
    }

    /// Stops the protocol: tasks scheduled from now on are discarded.
    pub fn mark_stopped(&mut self)
        ensures
            final(self).is_stopped(),
            final(self).task_queue() == old(self).task_queue(),
            final(self).wake_pending() == old(self).wake_pending(),
            Self::same_script_side(*old(self), *final(self)),
    {
        self.stopped = true;
    }

    /// What `schedule` does with `task`.
    pub open spec fn scheduled(old: Self, new: Self, task: Task, r: Scheduled) -> bool {
        &&& Self::same_script_side(old, new)
        &&& new.is_stopped() == old.is_stopped()
        &&& if old.is_stopped() {
            &&& r == Scheduled::Dropped
            &&& new.task_queue() == old.task_queue()
            &&& new.wake_pending() == old.wake_pending()
        } else {
            &&& new.task_queue() == old.task_queue().push(task)
            &&& new.wake_pending()
            &&& r == if old.wake_pending() {
                Scheduled::Queued
            } else {
                Scheduled::QueuedWakeLoop
            }
        }
    }

    /// Schedules a task onto the loop thread. At most one wake-up of the
    /// native loop is pending at a time, however many tasks are queued.
    pub fn schedule(&mut self, task: Task) -> (r: Scheduled)
        ensures
            Self::scheduled(*old(self), *final(self), task, r),
    {
        if self.stopped {
            return Scheduled::Dropped;
        }
        self.tasks.push_back(task);
        if self.dispatch_scheduled {
            Scheduled::Queued
        } else {
            self.dispatch_scheduled = true;
            Scheduled::QueuedWakeLoop
        }
    }

    /// Takes every queued task, oldest first.
    fn take_tasks(&mut self) -> (r: Vec<Task>)
        ensures
            r@ == old(self).task_queue(),
            final(self).task_queue() == Seq::<Task>::empty(),
            final(self).wake_pending() == old(self).wake_pending(),
            final(self).is_stopped() == old(self).is_stopped(),
            Self::same_script_side(*old(self), *final(self)),
    {
        let mut out: Vec<Task> = Vec::new();
        loop
            invariant
                out@ + self.tasks@ == old(self).tasks@,
                self.pending@ == old(self).pending@,
                self.dispatch_scheduled == old(self).dispatch_scheduled,
                self.stopped == old(self).stopped,
                self.js_wait_depth == old(self).js_wait_depth,
                self.in_signal_handler == old(self).in_signal_handler,
            ensures
                out@ + self.tasks@ == old(self).tasks@,
                self.tasks@.len() == 0,
                self.pending@ == old(self).pending@,
                self.dispatch_scheduled == old(self).dispatch_scheduled,
                self.stopped == old(self).stopped,
                self.js_wait_depth == old(self).js_wait_depth,
                self.in_signal_handler == old(self).in_signal_handler,
            decreases self.tasks@.len(),
        {
            match self.tasks.pop_front() {
                Some(t) => {
                    out.push(t);
                    proof {
                        assert(out@ + self.tasks@ =~= old(self).tasks@);
                    }
                },
                None => {
                    break;
                },
            }
        }
        proof {
            assert(self.tasks@ =~= Seq::<Task>::empty());
            assert(out@ =~= old(self).tasks@);
        }
        out
    }

    /// Starts a batch run on the loop thread's wake-up: the pending wake-up is
    /// consumed and every queued task is handed out, oldest first.
    pub fn dispatch_batch(&mut self) -> (r: Vec<Task>)
        ensures
            r@ == old(self).task_queue(),
            final(self).task_queue() == Seq::<Task>::empty(),
            !final(self).wake_pending(),
            final(self).is_stopped() == old(self).is_stopped(),
            Self::same_script_side(*old(self), *final(self)),
    {
        self.dispatch_scheduled = false;
        self.take_tasks()
    }

    /// Hands out every queued task, oldest first, outside the loop's normal
    /// wake-up (the loop thread is blocked waiting for a scripting result).
    /// When any task is handed out, the pending wake-up is consumed.
    pub fn dispatch_pending(&mut self) -> (r: Vec<Task>)
        ensures
            r@ == old(self).task_queue(),
            final(self).task_queue() == Seq::<Task>::empty(),
            final(self).wake_pending() == (old(self).wake_pending() && r@.len() == 0),
            final(self).is_stopped() == old(self).is_stopped(),
            Self::same_script_side(*old(self), *final(self)),
    {
        let r = self.take_tasks();
        if r.len() > 0 {
            self.dispatch_scheduled = false;
        }
        r
    }

    /// After a batch has run: whether tasks queued meanwhile need one more
    /// wake-up of the native loop, which is then marked pending.
    pub fn rearm(&mut self) -> (r: bool)
        ensures
            r == (old(self).task_queue().len() > 0 && !old(self).wake_pending()),
            final(self).wake_pending() == (old(self).wake_pending() || r),
            final(self).task_queue() == old(self).task_queue(),
            final(self).is_stopped() == old(self).is_stopped(),
            Self::same_script_side(*old(self), *final(self)),
    {
        if self.tasks.len() > 0 && !self.dispatch_scheduled {
            self.dispatch_scheduled = true;
            true
        } else {
            false
        }
    }

    /// What `queue_callback` does with `callback`.
    pub open spec fn callback_queued(old: Self, new: Self, callback: Pending, r: Route) -> bool {
        &&& new.pending_queue() == old.pending_queue().push(callback)
        &&& new.depth() == old.depth()
        &&& Self::same_loop_side(old, new)
        &&& r == if old.depth() > 0 {
            Route::Sync
        } else {
            Route::Async
        }
    }

    /// Queues a callback for the scripting thread, and says how it gets there.
    pub fn queue_callback(&mut self, callback: Pending) -> (r: Route)
        ensures
            Self::callback_queued(*old(self), *final(self), callback, r),
    {
        self.pending.push_back(callback);
        if self.js_wait_depth > 0 {
            Route::Sync
        } else {
            Route::Async
        }
    }

    /// Takes every queued scripting-thread callback, oldest first.
    pub fn process_pending(&mut self) -> (r: Vec<Pending>)
        ensures
            r@ == old(self).pending_queue(),
            final(self).pending_queue() == Seq::<Pending>::empty(),
            final(self).depth() == old(self).depth(),
            Self::same_loop_side(*old(self), *final(self)),
    {
        let mut out: Vec<Pending> = Vec::new();
        loop
            invariant
                out@ + self.pending@ == old(self).pending@,
                self.tasks@ == old(self).tasks@,
                self.dispatch_scheduled == old(self).dispatch_scheduled,
                self.stopped == old(self).stopped,
                self.js_wait_depth == old(self).js_wait_depth,
                self.in_signal_handler == old(self).in_signal_handler,
            ensures
                out@ + self.pending@ == old(self).pending@,
                self.pending@.len() == 0,
                self.tasks@ == old(self).tasks@,
                self.dispatch_scheduled == old(self).dispatch_scheduled,
                self.stopped == old(self).stopped,
                self.js_wait_depth == old(self).js_wait_depth,
                self.in_signal_handler == old(self).in_signal_handler,
            decreases self.pending@.len(),
        {
            match self.pending.pop_front() {
                Some(p) => {
                    out.push(p);
                    proof {
                        assert(out@ + self.pending@ =~= old(self).pending@);
                    }
                },
                None => {
                    break;
                },
            }
        }
        proof {
            assert(self.pending@ =~= Seq::<Pending>::empty());
            assert(out@ =~= old(self).pending@);
        }
        out
    }

    /// What one turn of the scripting thread's wait loop does.
    pub open spec fn wait_turned(
        old: Self,
        new: Self,
        poll: Poll,
        drained: Seq<Pending>,
        step: WaitStep,
    ) -> bool {
        &&& drained == old.pending_queue()
        &&& new.pending_queue() == Seq::<Pending>::empty()
        &&& Self::same_loop_side(old, new)
        &&& match poll {
            Poll::Ready => step == WaitStep::Done,
            Poll::Empty => step == WaitStep::Continue,
            Poll::Disconnected => step == WaitStep::Disconnected,
        }
        &&& new.depth() == if step == WaitStep::Continue {
            old.depth()
        } else if old.depth() > 0 {
            (old.depth() - 1) as nat
        } else {
            0
        }
    }

    /// One turn of the scripting thread's wait loop: first every queued
    /// callback is handed out, to run before the result is looked at; then the
    /// result channel, as `poll` found it, decides. Leaving the loop, on a
    /// result or on a disconnect, leaves one level of waiting.
    pub fn js_wait_turn(&mut self, poll: Poll) -> (r: (Vec<Pending>, WaitStep))
        ensures
            Self::wait_turned(*old(self), *final(self), poll, r.0@, r.1),
    {
        let drained = self.process_pending();
        let step = match poll {
            Poll::Ready => WaitStep::Done,
            Poll::Empty => WaitStep::Continue,
            Poll::Disconnected => WaitStep::Disconnected,
        };
        if step != WaitStep::Continue {
            self.exit_js_wait();
        }
        (drained, step)
    }
    /// One turn of the loop thread's wait for a scripting result (inside a
    /// trampoline): every task the scripting side queued meanwhile is handed
    /// out to run first, so that nested calls make progress; then the result
    /// channel, as `poll` found it, decides.
    pub fn loop_wait_turn(&mut self, poll: Poll) -> (r: (Vec<Task>, WaitStep))
        ensures
            r.0@ == old(self).task_queue(),
            final(self).task_queue() == Seq::<Task>::empty(),
            final(self).wake_pending() == (old(self).wake_pending() && r.0@.len() == 0),
            final(self).is_stopped() == old(self).is_stopped(),
            Self::same_script_side(*old(self), *final(self)),
            r.1 == match poll {
                Poll::Ready => WaitStep::Done,
                Poll::Empty => WaitStep::Continue,
                Poll::Disconnected => WaitStep::Disconnected,
            },
    {
        let tasks = self.dispatch_pending();
        let step = match poll {
            Poll::Ready => WaitStep::Done,
            Poll::Empty => WaitStep::Continue,
            Poll::Disconnected => WaitStep::Disconnected,
        };
        (tasks, step)
    }
}

/// However many tasks are scheduled, at most one wake-up of the native loop
/// is requested until the loop consumes it.
pub proof fn law_single_wake_up<Task, Pending>(
    d0: Dispatcher<Task, Pending>,
    d1: Dispatcher<Task, Pending>,
    d2: Dispatcher<Task, Pending>,
    t1: Task,
    t2: Task,
    r1: Scheduled,
    r2: Scheduled,
)
    requires
        Dispatcher::scheduled(d0, d1, t1, r1),
        Dispatcher::scheduled(d1, d2, t2, r2),
    ensures
        !(r1 == Scheduled::QueuedWakeLoop && r2 == Scheduled::QueuedWakeLoop),
        !d0.is_stopped() ==> d2.task_queue() == d0.task_queue().push(t1).push(t2),
        d0.is_stopped() ==> d2.task_queue() == d0.task_queue(),
{
}

/// A wait that ends on a disconnect reports it as such and leaves the depth
/// as it was before the wait was entered.
pub proof fn law_disconnect_restores_depth<Task, Pending>(
    d0: Dispatcher<Task, Pending>,
    d1: Dispatcher<Task, Pending>,
    d2: Dispatcher<Task, Pending>,
    drained: Seq<Pending>,
    step: WaitStep,
)
    requires
        d1.depth() == d0.depth() + 1,
        Dispatcher::wait_turned(d1, d2, Poll::Disconnected, drained, step),
    ensures
        step == WaitStep::Disconnected,
        d2.depth() == d0.depth(),
{
}

/// A callback queued while the scripting thread waits takes the synchronous
/// path, and the next turn of that wait loop hands it out (after the
/// callbacks queued before it) before the loop looks at its own result. One
/// queued while nobody waits takes the asynchronous path; queueing it leaves
/// the depth as it was, and leaving a wait loop never takes it below zero.
pub proof fn law_callback_routing<Task, Pending>(
    d0: Dispatcher<Task, Pending>,
    d1: Dispatcher<Task, Pending>,
    d2: Dispatcher<Task, Pending>,
    callback: Pending,
    route: Route,
    poll: Poll,
    drained: Seq<Pending>,
    step: WaitStep,
)
    requires
        Dispatcher::callback_queued(d0, d1, callback, route),
        Dispatcher::wait_turned(d1, d2, poll, drained, step),
    ensures
        d0.depth() > 0 ==> route == Route::Sync,
        d0.depth() == 0 ==> route == Route::Async && d1.depth() == 0,
        drained.len() == d0.pending_queue().len() + 1,
        drained.last() == callback,
        drained.drop_last() == d0.pending_queue(),
        d2.depth() + 1 >= d1.depth(),
{
    assert(drained.drop_last() =~= d0.pending_queue());
}

} // verus!
