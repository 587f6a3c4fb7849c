//! Periodic and one-shot timers.
//!
//! A timer carries its period, whether it fires once, and the callback (of type `C`) that
//! the async host invokes; `Timer::step` is the decision the host's loop takes.

use vstd::prelude::*;

use crate::node::Node;

verus! {

/// Periodic or one-shot timer.
pub struct Timer<C> {
    period: std::time::Duration,
    one_shot: bool,
    callback: C,
}

/// What a timer's loop does next, given how often the timer has fired.
#[derive(Debug, Clone, Copy, PartialEq, Eq)]
pub enum TimerStep {
    /// Sleep for the period, then fire.
    SleepThenFire(std::time::Duration),
    /// Wait for the next tick of the periodic interval (the first tick is immediate), then fire.
    TickThenFire,
    /// The timer is done.
    Stop,
}

/// The step a timer with these settings takes after firing `fired` times.
pub open spec fn scheduled_step(period: std::time::Duration, one_shot: bool, fired: nat) -> TimerStep {
    if one_shot {
        if fired == 0 {
            TimerStep::SleepThenFire(period)
        } else {
            TimerStep::Stop
        }
    } else {
        TimerStep::TickThenFire
    }
}

impl<C> Timer<C> {
    /// The time between ticks (for a one-shot timer, before its single tick).
    pub closed spec fn period_value(&self) -> std::time::Duration {
        self.period
    }

    /// Whether the timer fires once and stops.
    pub closed spec fn fires_once(&self) -> bool {
        self.one_shot
    }

    /// The callback invoked on each tick.
    pub closed spec fn callback_value(&self) -> C {
        self.callback
    }

    /// A timer that fires every `period`.
    pub fn periodic(period: std::time::Duration, callback: C) -> (r: Self)
        ensures
            r.period_value() == period,
            !r.fires_once(),
            r.callback_value() == callback,
    {
        Self::new(period, false, callback)
    }

    /// A timer that fires once, after `period`.
    pub fn one_shot(period: std::time::Duration, callback: C) -> (r: Self)
        ensures
            r.period_value() == period,
            r.fires_once(),
            r.callback_value() == callback,
    {
        Self::new(period, true, callback)
    }

    fn new(period: std::time::Duration, one_shot: bool, callback: C) -> (r: Self)
        ensures
            r.period_value() == period,
            r.fires_once() == one_shot,
            r.callback_value() == callback,
    {
        Timer { period, one_shot, callback }
    }

    pub fn period(&self) -> (r: std::time::Duration)
        ensures
            r == self.period_value(),
    {
        self.period
    }

    pub fn is_one_shot(&self) -> (r: bool)
        ensures
            r == self.fires_once(),
    {
        self.one_shot
    }

    /// The callback the host invokes on each tick.
    pub fn callback(&self) -> (r: &C)
        ensures
            *r == self.callback_value(),
    {
        &self.callback
    }

    /// What the timer does after having fired `fired` times.
    pub fn step(&self, fired: u64) -> (r: TimerStep)
        ensures
            r == scheduled_step(self.period_value(), self.fires_once(), fired as nat),
    {
        if self.one_shot {
            if fired == 0 {
                TimerStep::SleepThenFire(self.period)
            } else {
                TimerStep::Stop
            }
        } else {
            TimerStep::TickThenFire
        }
    }
}

/// A one-shot timer fires exactly once; a periodic timer never stops.
pub proof fn law_timer_firing(period: std::time::Duration, one_shot: bool, fired: nat)
    ensures
        one_shot ==> (scheduled_step(period, one_shot, fired) is Stop <==> fired > 0),
        !one_shot ==> scheduled_step(period, one_shot, fired) == TimerStep::TickThenFire,
        scheduled_step(period, one_shot, fired) matches TimerStep::SleepThenFire(d) ==> d == period,
{
}

/// Builder for a `Timer` created from a node.
pub struct TimerBuilder<'a, R> {
    /// The node the timer is registered on.
    pub node: &'a mut Node<R>,
    /// Time between ticks.
    pub period: std::time::Duration,
    /// Whether the timer fires once and stops.
    pub one_shot: bool,
}

impl<'a, R> TimerBuilder<'a, R> {
    pub(crate) fn new(node: &'a mut Node<R>, period: std::time::Duration) -> (r: Self)
        ensures
            *r.node == *old(node),
            *final(r.node) == *final(node),
            r.period == period,
            !r.one_shot,
    {
        TimerBuilder { node, period, one_shot: false }
    }

    /// Fire once after the period, then stop.
    pub fn one_shot(self) -> (r: Self)
        ensures
            *r.node == *old(self.node),
            *final(r.node) == *final(self.node),
            r.period == self.period,
            r.one_shot,
    {
        TimerBuilder { node: self.node, period: self.period, one_shot: true }
    }

    /// Build a timer without registering it on the node.
    pub fn callback<C>(self, callback: C) -> (r: Timer<C>)
        ensures
            r.period_value() == self.period,
            r.fires_once() == self.one_shot,
            r.callback_value() == callback,
            *final(self.node) == *old(self.node),
    {
        if self.one_shot {
            Timer::one_shot(self.period, callback)
        } else {
            Timer::periodic(self.period, callback)
        }
    }

    /// Build a timer, turn it into a runnable with `wrap`, and append it to the node.
    pub fn register<C, F: FnOnce(Timer<C>) -> R>(self, callback: C, wrap: F)
        requires
            forall|t: Timer<C>| #[trigger] wrap.requires((t,)),
        ensures
            final(self.node).runnables@.drop_last() == old(self.node).runnables@,
            final(self.node).runnables@.len() == old(self.node).runnables@.len() + 1,
            final(self.node).name == old(self.node).name,
            final(self.node).namespace == old(self.node).namespace,
            exists|t: Timer<C>|
                t.period_value() == self.period && t.fires_once() == self.one_shot
                    && t.callback_value() == callback && #[trigger] wrap.ensures(
                    (t,),
                    final(self.node).runnables@.last(),
                ),
    {
        let timer = if self.one_shot {
            Timer::one_shot(self.period, callback)
        } else {
            Timer::periodic(self.period, callback)
        };
        let ghost t = timer;
        let runnable = wrap(timer);
        self.node.add_runnable(runnable);
        assert(wrap.ensures((t,), self.node.runnables@.last()));
    }
}

} // verus!
