//! The one suspension point of the cooperative scheduler: a sleep that a
//! timer of the host's event loop ends.
//!
//! The scheduler and the timer belong to the host's side. This module holds
//! what they are told: what a poll of a sleep answers, what has to be done
//! for a pending one, and what the timer's callback does when it fires.

use vstd::prelude::*;

verus! {

/// A sleep of `duration` milliseconds. It has two states: not yet slept, and slept.
pub struct SleepFuture {
    duration: u32,
    slept: bool,
}

/// What a sleep is, seen from outside.
pub ghost struct SleepView {
    pub duration: u32,
    pub slept: bool,
}

/// The answer of one poll of a sleep.
#[derive(Clone, Copy, Debug, PartialEq, Eq, Structural)]
pub enum SleepPoll {
    /// The task is suspended: a one-shot timer of `timer` milliseconds has to
    /// be registered with the event loop, holding the task's waker.
    Pending { timer: u32 },
    /// The sleep is over.
    Ready,
}

/// What the callback of a sleep's timer does when the event loop calls it.
#[derive(Clone, Copy, Debug, PartialEq, Eq, Structural)]
pub struct TimerVerdict {
    /// Wake the task that sleeps.
    pub wake: bool,
    /// Run the scheduler until no task can go on.
    pub drain: bool,
    /// What the callback returns to the event loop: whether to fire again.
    pub repeat: bool,
}

/// The state of a sleep after one poll.
pub open spec fn after_poll(s: SleepView) -> SleepView {
    SleepView { duration: s.duration, slept: true }
}

/// The answer of a poll of a sleep in state `s`.
pub open spec fn poll_answer(s: SleepView) -> SleepPoll {
    if s.slept {
        SleepPoll::Ready
    } else {
        SleepPoll::Pending { timer: s.duration }
    }
}

impl View for SleepFuture {
    type V = SleepView;

    closed spec fn view(&self) -> SleepView {
        SleepView { duration: self.duration, slept: self.slept }
    }
}

impl SleepFuture {
    /// A sleep of `duration` milliseconds that has not been polled yet.
    pub fn new(duration: u32) -> (r: Self)
        ensures
            r@ == (SleepView { duration, slept: false }),
    {
        Self { duration, slept: false }
    }

    /// The length of the sleep, in milliseconds.
    pub fn duration(&self) -> (r: u32)
        ensures
            r == self@.duration,
    {
        self.duration
    }

    /// Whether the sleep has been polled before.
    pub fn slept(&self) -> (r: bool)
        ensures
            r == self@.slept,
    {
        self.slept
    }

    /// One poll. The first answers `Pending` with the timer to register, and
    /// marks the sleep as slept; every later one answers `Ready`, however much
    /// time has passed.
    pub fn poll(&mut self) -> (r: SleepPoll)
        ensures
            r == poll_answer(old(self)@),
            final(self)@ == after_poll(old(self)@),
    {
        if self.slept {
            SleepPoll::Ready
        } else {
            self.slept = true;
            SleepPoll::Pending { timer: self.duration }
        }
    }

    /// What the timer's callback does when it fires: it wakes the task, runs
    /// the scheduler, and tells the event loop not to fire again.
    pub fn timer_fired() -> (r: TimerVerdict)
        ensures
            r == (TimerVerdict { wake: true, drain: true, repeat: false }),
    {
        TimerVerdict { wake: true, drain: true, repeat: false }
    }
}

/// A sleep of `duration` milliseconds, to be awaited by a task.
pub fn sleep(duration: u32) -> (r: SleepFuture)
    ensures
        r@ == (SleepView { duration, slept: false }),
{
    SleepFuture::new(duration)
}

/// A new sleep is pending at its first poll, and asks for a timer of its own length.
pub proof fn lemma_first_poll_pending(duration: u32)
    ensures
        poll_answer(SleepView { duration, slept: false }) == (SleepPoll::Pending {
            timer: duration,
        }),
{
}

/// Once a sleep has been polled, every further poll answers `Ready`, whatever
/// its length, a length of zero included, and leaves it as it is.
pub proof fn lemma_second_poll_ready(s: SleepView)
    ensures
        poll_answer(after_poll(s)) == SleepPoll::Ready,
        after_poll(after_poll(s)) == after_poll(s),
{
}

} // verus!
