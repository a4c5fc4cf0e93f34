//! Keeping track of the progress of jobs: a loop that ticks once a second
//! until it is told to end, and the sums over the files of a job.
//!
//! The poller decides; its host waits. [`ProgressPoller::start`] answers
//! with the first thing to do and [`ProgressPoller::resume`] takes what
//! came of it and answers with the next.

pub mod aggregator;

use vstd::prelude::*;

verus! {

/// Seconds between two ticks of the poller.
pub const POLL_INTERVAL_SECS: u64 = 1;

/// Where the polling loop stands.
#[derive(Debug, Clone, Copy, PartialEq, Eq)]
pub enum PollerPhase {
    /// The loop has not been started.
    Created,
    /// The loop waits for the next tick or for the shutdown signal.
    AwaitingTick,
    /// The loop has ended.
    Stopped,
}

/// What the poller asks its host to do.
#[derive(Debug, Clone, Copy, PartialEq, Eq)]
pub enum PollerEffect {
    /// Wait for the next tick or the shutdown signal, whichever comes
    /// first.
    AwaitTick,
    /// Leave the loop.
    Exit,
}

/// What the host reports to the poller.
#[derive(Debug, Clone, Copy, PartialEq, Eq)]
pub enum PollerEvent {
    /// The interval has passed.
    Tick,
    /// The shutdown signal has arrived.
    ShutdownSignal,
}

/// The state of a progress poller.
pub struct ProgressPollerView {
    /// Where the loop stands.
    pub phase: PollerPhase,
    /// Whether shutdown has been asked for.
    pub shutdown_requested: bool,
}

impl ProgressPollerView {
    /// The loop goes on unless shutdown has been asked for.
    pub open spec fn idles(self) -> (Self, PollerEffect) {
        if self.shutdown_requested {
            (ProgressPollerView { phase: PollerPhase::Stopped, ..self }, PollerEffect::Exit)
        } else {
            (
                ProgressPollerView { phase: PollerPhase::AwaitingTick, ..self },
                PollerEffect::AwaitTick,
            )
        }
    }

    /// The loop begins, once.
    pub open spec fn begins(self) -> (Self, PollerEffect) {
        if self.phase == PollerPhase::Created {
            self.idles()
        } else {
            (self, PollerEffect::Exit)
        }
    }

    /// A tick leads to the next wait; the shutdown signal, or a shutdown
    /// asked for meanwhile, ends the loop; a loop that is not waiting ends.
    pub open spec fn applies(self, event: PollerEvent) -> (Self, PollerEffect) {
        if self.phase == PollerPhase::AwaitingTick && event == PollerEvent::Tick {
            self.idles()
        } else {
            (ProgressPollerView { phase: PollerPhase::Stopped, ..self }, PollerEffect::Exit)
        }
    }

    /// The poller once shutdown has been asked for.
    pub open spec fn shutting_down(self) -> Self {
        ProgressPollerView { shutdown_requested: true, ..self }
    }
}

/// The polling loop.
#[derive(Debug, PartialEq, Eq)]
pub struct ProgressPoller {
    phase: PollerPhase,
    shutdown_requested: bool,
}

impl View for ProgressPoller {
    type V = ProgressPollerView;

    closed spec fn view(&self) -> ProgressPollerView {
        ProgressPollerView { phase: self.phase, shutdown_requested: self.shutdown_requested }
    }
}

impl ProgressPoller {
    /// A poller whose loop has not been started.
    pub fn new() -> (poller: Self)
        ensures
            poller@ == (ProgressPollerView {
                phase: PollerPhase::Created,
                shutdown_requested: false,
            }),
    {
        ProgressPoller { phase: PollerPhase::Created, shutdown_requested: false }
    }

    fn idle(&mut self) -> (effect: PollerEffect)
        ensures
            (final(self)@, effect) == old(self)@.idles(),
    {
        if self.shutdown_requested {
            self.phase = PollerPhase::Stopped;
            PollerEffect::Exit
        } else {
            self.phase = PollerPhase::AwaitingTick;
            PollerEffect::AwaitTick
        }
    }

    /// Begins the loop and says what the host does first.
    pub fn start(&mut self) -> (effect: PollerEffect)
        ensures
            (final(self)@, effect) == old(self)@.begins(),
    {
        match self.phase {
            PollerPhase::Created => self.idle(),
            _ => PollerEffect::Exit,
        }
    }

    /// Takes what the host reports and says what it does next.
    pub fn resume(&mut self, event: PollerEvent) -> (effect: PollerEffect)
        ensures
            (final(self)@, effect) == old(self)@.applies(event),
    {
        match (self.phase, event) {
            (PollerPhase::AwaitingTick, PollerEvent::Tick) => self.idle(),
            _ => {
                self.phase = PollerPhase::Stopped;
                PollerEffect::Exit
            },
        }
    }

    /// Asks the loop to end. Asking again changes nothing.
    pub fn shutdown(&mut self)
        ensures
            final(self)@ == old(self)@.shutting_down(),
    {
        self.shutdown_requested = true;
    }
}

} // verus!
