//! The health monitor: one supervision loop per process handle, which looks
//! at the worker on every tick, restarts it after a crash with a bounded,
//! doubling pause, and gives up for good when the ceiling of restarts in a
//! row is passed.
//!
//! The monitor decides; its host waits, probes and restarts.
//! [`HealthMonitor::start`] answers with the first thing to do and
//! [`HealthMonitor::resume`] takes what came of it and answers with the next,
//! until the answer is [`MonitorEffect::Exit`].

use crate::daemon::process::{liveness_observed, ExitProbe, ProcessHandle, ProcessHandleView};
use crate::error::Aria2Error;
use vstd::arithmetic::power2::{lemma2_to64, lemma_pow2_strictly_increases, pow2};
use vstd::bits::lemma_u64_shl_is_mul;
use vstd::prelude::*;

verus! {

/// Longest pause, in seconds, between a crash and the restart.
pub const MAX_BACKOFF_SECS: u64 = 60;

/// Seconds to pause before restart attempt `attempt` (counted from 1): the
/// pause doubles with every attempt, starting at one second, and never
/// exceeds [`MAX_BACKOFF_SECS`].
pub open spec fn backoff_delay(attempt: nat) -> nat {
    let doubled = pow2((attempt - 1) as nat);
    if doubled < MAX_BACKOFF_SECS as nat {
        doubled
    } else {
        MAX_BACKOFF_SECS as nat
    }
}

/// Computes the pause before restart attempt `attempt`.
pub fn backoff_secs(attempt: u32) -> (secs: u64)
    requires
        attempt >= 1,
    ensures
        secs == backoff_delay(attempt as nat),
{
    let exponent: u32 = attempt - 1;
    proof {
        lemma2_to64();
    }
    if exponent >= 6 {
        proof {
            if exponent > 6 {
                lemma_pow2_strictly_increases(6, exponent as nat);
            }
        }
        MAX_BACKOFF_SECS
    } else {
        let shift: u64 = exponent as u64;
        proof {
            lemma_u64_shl_is_mul(1u64, shift);
        }
        let doubled: u64 = 1u64 << shift;
        if doubled < MAX_BACKOFF_SECS {
            doubled
        } else {
            MAX_BACKOFF_SECS
        }
    }
}

/// Where the supervision loop stands.
#[derive(Debug, Clone, Copy, PartialEq, Eq)]
pub enum MonitorPhase {
    /// The loop has not been started.
    Created,
    /// The loop waits for the next tick or for the shutdown signal.
    AwaitingTick,
    /// The host looks whether the worker process runs.
    CheckingLiveness,
    /// The host probes the control endpoint.
    ProbingHealth,
    /// The host pauses before a restart.
    BackingOff,
    /// The host starts the worker again.
    Restarting,
    /// The loop has ended and will not run again.
    Stopped,
}

/// What the monitor asks its host to do.
#[derive(Debug, Clone, Copy, PartialEq, Eq)]
pub enum MonitorEffect {
    /// Wait for the next tick or the shutdown signal, whichever comes first;
    /// report with [`MonitorEvent::Tick`] or [`MonitorEvent::ShutdownSignal`].
    AwaitTick,
    /// Look at the owned process without blocking; report with
    /// [`MonitorEvent::Liveness`].
    CheckLiveness,
    /// Probe the control endpoint once; report with [`MonitorEvent::Health`].
    ProbeHealth,
    /// Pause for so many seconds; report with [`MonitorEvent::Slept`].
    Sleep(u64),
    /// Start the worker through the process handle; report with
    /// [`MonitorEvent::Restarted`].
    Restart,
    /// Leave the loop.
    Exit,
}

/// What the host reports to the monitor.
#[derive(Debug, Clone, Copy, PartialEq, Eq)]
pub enum MonitorEvent {
    /// The check interval has passed.
    Tick,
    /// The shutdown signal has arrived.
    ShutdownSignal,
    /// What the look at the owned process showed. Where the handle owns
    /// none, the value does not matter.
    Liveness(ExitProbe),
    /// Whether the control endpoint answered the probe.
    Health(bool),
    /// The pause is over.
    Slept,
    /// Whether the worker could be started again.
    Restarted(bool),
}

/// The state of a health monitor.
pub struct HealthMonitorView {
    /// Where the loop stands.
    pub phase: MonitorPhase,
    /// Whether shutdown has been asked for.
    pub shutdown_requested: bool,
    /// Seconds between two ticks.
    pub check_interval_secs: u64,
}

impl HealthMonitorView {
    /// The monitor once shutdown has been asked for.
    pub open spec fn shutting_down(self) -> Self {
        HealthMonitorView { shutdown_requested: true, ..self }
    }

    /// The monitor in another phase.
    pub open spec fn in_phase(self, phase: MonitorPhase) -> Self {
        HealthMonitorView { phase, ..self }
    }

    /// The work of a tick is done: the loop ends if shutdown has been asked
    /// for, and waits for the next tick otherwise.
    pub open spec fn idles(self) -> (Self, MonitorEffect) {
        if self.shutdown_requested {
            (self.in_phase(MonitorPhase::Stopped), MonitorEffect::Exit)
        } else {
            (self.in_phase(MonitorPhase::AwaitingTick), MonitorEffect::AwaitTick)
        }
    }
}

/// The verdict on a crash.
#[derive(Debug, Clone, Copy, PartialEq, Eq)]
pub enum CrashVerdict {
    /// The worker is started again after so many seconds.
    RestartAfter(u64),
    /// The ceiling is passed: no restart follows.
    GiveUp,
}

/// A crash is counted and judged: attempt number `restart_count + 1` is made
/// after its backoff pause unless it exceeds the ceiling. The count is kept
/// as far as it can be represented.
pub open spec fn crash_judged<P>(process: ProcessHandleView<P>) -> (
    ProcessHandleView<P>,
    CrashVerdict,
) {
    let attempt = process.restart_count + 1;
    let counted = if attempt <= u32::MAX {
        process.with_restart_count(attempt as u32)
    } else {
        process
    };
    if attempt > process.config.max_restart_attempts {
        (counted, CrashVerdict::GiveUp)
    } else {
        (counted, CrashVerdict::RestartAfter(backoff_delay(attempt as nat) as u64))
    }
}

/// The loop begins, once: a monitor that was started before, or has ended,
/// starts no second loop.
pub open spec fn monitoring_begins(pre: HealthMonitorView) -> (HealthMonitorView, MonitorEffect) {
    if pre.phase == MonitorPhase::Created {
        pre.idles()
    } else {
        (pre, MonitorEffect::Exit)
    }
}

/// What follows when the host reports `event`.
///
/// On a tick the owned process is looked at, and one that has ended is
/// forgotten. A worker that does not run has crashed: the crash is counted, and either the ceiling is passed and the
/// loop ends for good, or the worker is started again after the backoff
/// pause, whatever comes of that start. A worker that runs is probed: an
/// answer clears the count of restarts, silence changes nothing. The
/// shutdown signal ends the loop where it waits for a tick, and a shutdown
/// asked for meanwhile ends it as soon as the work of the tick is done. An
/// event that answers nothing the loop waits for ends it too. A loop that
/// has ended stays so.
pub open spec fn event_applies<P>(
    pre: HealthMonitorView,
    process: ProcessHandleView<P>,
    event: MonitorEvent,
) -> (HealthMonitorView, ProcessHandleView<P>, MonitorEffect) {
    match (pre.phase, event) {
        (MonitorPhase::AwaitingTick, MonitorEvent::Tick) => if pre.shutdown_requested {
            (pre.in_phase(MonitorPhase::Stopped), process, MonitorEffect::Exit)
        } else {
            (pre.in_phase(MonitorPhase::CheckingLiveness), process, MonitorEffect::CheckLiveness)
        },
        (MonitorPhase::CheckingLiveness, MonitorEvent::Liveness(probe)) => {
            let (observed, running) = liveness_observed(process, probe);
            if running {
                (pre.in_phase(MonitorPhase::ProbingHealth), observed, MonitorEffect::ProbeHealth)
            } else {
                match crash_judged(observed) {
                    (counted, CrashVerdict::RestartAfter(secs)) => (
                        pre.in_phase(MonitorPhase::BackingOff),
                        counted,
                        MonitorEffect::Sleep(secs),
                    ),
                    (counted, CrashVerdict::GiveUp) => (
                        pre.in_phase(MonitorPhase::Stopped),
                        counted,
                        MonitorEffect::Exit,
                    ),
                }
            }
        },
        (MonitorPhase::ProbingHealth, MonitorEvent::Health(true)) => (
            pre.idles().0,
            process.with_restart_count(0),
            pre.idles().1,
        ),
        (MonitorPhase::ProbingHealth, MonitorEvent::Health(false)) => (
            pre.idles().0,
            process,
            pre.idles().1,
        ),
        (MonitorPhase::BackingOff, MonitorEvent::Slept) => (
            pre.in_phase(MonitorPhase::Restarting),
            process,
            MonitorEffect::Restart,
        ),
        (MonitorPhase::Restarting, MonitorEvent::Restarted(_)) => (
            pre.idles().0,
            process,
            pre.idles().1,
        ),
        _ => (pre.in_phase(MonitorPhase::Stopped), process, MonitorEffect::Exit),
    }
}

/// What the monitor asks for, one effect for each of `events` in turn,
/// beginning in state `pre` with the process handle in state `process`.
pub open spec fn effects_of<P>(
    pre: HealthMonitorView,
    process: ProcessHandleView<P>,
    events: Seq<MonitorEvent>,
) -> Seq<MonitorEffect>
    decreases events.len(),
{
    if events.len() == 0 {
        Seq::empty()
    } else {
        let step = event_applies(pre, process, events.first());
        seq![step.2] + effects_of(step.0, step.1, events.drop_first())
    }
}

/// How many pauses before a restart are among `effects`.
pub open spec fn pauses_in(effects: Seq<MonitorEffect>) -> nat
    decreases effects.len(),
{
    if effects.len() == 0 {
        0
    } else if effects.first() is Sleep {
        pauses_in(effects.drop_first()) + 1
    } else {
        pauses_in(effects.drop_first())
    }
}

/// The pause before a restart is one second for the first attempt and
/// doubles up to the sixth; from the seventh attempt on it is a minute.
pub proof fn lemma_backoff_delays(attempt: nat)
    requires
        attempt >= 1,
    ensures
        backoff_delay(1) == 1,
        backoff_delay(2) == 2,
        backoff_delay(3) == 4,
        backoff_delay(4) == 8,
        backoff_delay(5) == 16,
        backoff_delay(6) == 32,
        attempt >= 7 ==> backoff_delay(attempt) == MAX_BACKOFF_SECS,
        1 <= backoff_delay(attempt) <= MAX_BACKOFF_SECS,
        backoff_delay(attempt) <= backoff_delay(attempt + 1),
{
    lemma2_to64();
    if attempt > 7 {
        lemma_pow2_strictly_increases(6, (attempt - 1) as nat);
    }
    lemma_pow2_strictly_increases((attempt - 1) as nat, attempt);
    vstd::arithmetic::power2::lemma_pow2_pos((attempt - 1) as nat);
}

/// A crash that takes the count of restarts past the ceiling ends the
/// loop: the monitor asks for no pause and no restart, and is stopped.
pub proof fn lemma_passed_ceiling_ends_loop<P>(
    pre: HealthMonitorView,
    process: ProcessHandleView<P>,
    probe: ExitProbe,
)
    requires
        pre.phase == MonitorPhase::CheckingLiveness,
        !liveness_observed(process, probe).1,
        process.restart_count + 1 > process.config.max_restart_attempts,
    ensures
        event_applies(pre, process, MonitorEvent::Liveness(probe)).0.phase == MonitorPhase::Stopped,
        event_applies(pre, process, MonitorEvent::Liveness(probe)).2 == MonitorEffect::Exit,
{
}

/// A crash within the ceiling is counted once and answered with the pause
/// that belongs to its number; nothing else makes the monitor ask for a
/// pause, and it asks for a restart only when such a pause is over.
pub proof fn lemma_restart_is_counted_and_paced<P>(
    pre: HealthMonitorView,
    process: ProcessHandleView<P>,
    event: MonitorEvent,
)
    ensures
        event_applies(pre, process, event).2 matches MonitorEffect::Sleep(secs) ==> {
            &&& pre.phase == MonitorPhase::CheckingLiveness
            &&& event_applies(pre, process, event).1.restart_count == process.restart_count + 1
            &&& process.restart_count + 1 <= process.config.max_restart_attempts
            &&& secs == backoff_delay((process.restart_count + 1) as nat)
        },
        event_applies(pre, process, event).2 == MonitorEffect::Restart ==> pre.phase
            == MonitorPhase::BackingOff && event == MonitorEvent::Slept,
{
    if pre.phase == MonitorPhase::CheckingLiveness {
        lemma_backoff_delays((process.restart_count + 1) as nat);
    }
}

/// A loop that has ended stays ended: it cannot be begun again, it leaves
/// the process handle alone, and whatever is reported to it, it asks for
/// nothing but to be left. In particular it never asks for a restart.
pub proof fn lemma_ended_loop_stays_ended<P>(
    pre: HealthMonitorView,
    process: ProcessHandleView<P>,
    events: Seq<MonitorEvent>,
)
    requires
        pre.phase == MonitorPhase::Stopped,
    ensures
        monitoring_begins(pre) == (pre, MonitorEffect::Exit),
        forall|event: MonitorEvent| #[trigger]
            event_applies(pre, process, event) == (pre, process, MonitorEffect::Exit),
        effects_of(pre, process, events).len() == events.len(),
        forall|i: int|
            0 <= i < events.len() ==> #[trigger] effects_of(pre, process, events)[i]
                == MonitorEffect::Exit,
    decreases events.len(),
{
    if events.len() > 0 {
        lemma_ended_loop_stays_ended(pre, process, events.drop_first());
    }
}

/// Restarts in a row are bounded: whatever the host reports, as long as no
/// health probe is answered, the monitor asks for no more pauses, and so
/// for no more restarts, than the ceiling leaves room for above the count
/// so far.
pub proof fn lemma_restarts_are_bounded<P>(
    pre: HealthMonitorView,
    process: ProcessHandleView<P>,
    events: Seq<MonitorEvent>,
)
    requires
        forall|i: int| 0 <= i < events.len() ==> events[i] != MonitorEvent::Health(true),
    ensures
        process.restart_count <= process.config.max_restart_attempts ==> pauses_in(
            effects_of(pre, process, events),
        ) <= process.config.max_restart_attempts - process.restart_count,
        process.restart_count > process.config.max_restart_attempts ==> pauses_in(
            effects_of(pre, process, events),
        ) == 0,
    decreases events.len(),
{
    if events.len() > 0 {
        let step = event_applies(pre, process, events.first());
        let rest = events.drop_first();
        assert forall|i: int| 0 <= i < rest.len() implies rest[i] != MonitorEvent::Health(
            true,
        ) by {
            assert(rest[i] == events[i + 1]);
        }
        lemma_restarts_are_bounded(step.0, step.1, rest);
        lemma_restart_is_counted_and_paced(pre, process, events.first());
        let effects = effects_of(pre, process, events);
        assert(effects.first() == step.2);
        assert(effects.drop_first() =~= effects_of(step.0, step.1, rest));
        assert(step.1.config == process.config);
        assert(step.1.restart_count >= process.restart_count);
    }
}

/// A health probe that is answered clears the count of restarts, so that
/// the next crash is attempt number one and is paced from one second
/// again; a probe without an answer leaves the count alone.
pub proof fn lemma_answer_clears_count<P>(
    pre: HealthMonitorView,
    process: ProcessHandleView<P>,
    probe: ExitProbe,
)
    requires
        pre.phase == MonitorPhase::ProbingHealth,
    ensures
        event_applies(pre, process, MonitorEvent::Health(true)).1.restart_count == 0,
        event_applies(pre, process, MonitorEvent::Health(false)).1 == process,
        process.config.max_restart_attempts >= 1 ==> crash_judged(
            event_applies(pre, process, MonitorEvent::Health(true)).1,
        ).1 == CrashVerdict::RestartAfter(1),
{
    lemma_backoff_delays(1);
}

/// Asking for shutdown twice is the same as asking once. Once it has been
/// asked for, the loop ends at the next tick or signal it waits for, and
/// never asks to wait for another tick.
pub proof fn lemma_shutdown_is_final<P>(
    pre: HealthMonitorView,
    process: ProcessHandleView<P>,
    event: MonitorEvent,
)
    ensures
        pre.shutting_down().shutting_down() == pre.shutting_down(),
        pre.shutdown_requested ==> event_applies(pre, process, event).0.shutdown_requested,
        pre.shutdown_requested ==> event_applies(pre, process, event).2
            != MonitorEffect::AwaitTick,
        pre.shutdown_requested && pre.phase == MonitorPhase::AwaitingTick ==> event_applies(
            pre,
            process,
            event,
        ).2 == MonitorEffect::Exit,
        pre.phase == MonitorPhase::AwaitingTick ==> event_applies(
            pre,
            process,
            MonitorEvent::ShutdownSignal,
        ).2 == MonitorEffect::Exit,
{
}

/// The supervision loop of one process handle. It owns neither the process
/// nor the control endpoint: it asks its host to act on them.
#[derive(Debug, PartialEq, Eq)]
pub struct HealthMonitor {
    phase: MonitorPhase,
    shutdown_requested: bool,
    check_interval_secs: u64,
}

impl View for HealthMonitor {
    type V = HealthMonitorView;

    closed spec fn view(&self) -> HealthMonitorView {
        HealthMonitorView {
            phase: self.phase,
            shutdown_requested: self.shutdown_requested,
            check_interval_secs: self.check_interval_secs,
        }
    }
}

impl HealthMonitor {
    /// A monitor that ticks every `check_interval_secs` seconds once it is
    /// started.
    pub fn new(check_interval_secs: u64) -> (monitor: Self)
        ensures
            monitor@ == (HealthMonitorView {
                phase: MonitorPhase::Created,
                shutdown_requested: false,
                check_interval_secs,
            }),
    {
        HealthMonitor { phase: MonitorPhase::Created, shutdown_requested: false, check_interval_secs }
    }

    /// Seconds between two ticks.
    pub fn check_interval_secs(&self) -> (secs: u64)
        ensures
            secs == self@.check_interval_secs,
    {
        self.check_interval_secs
    }

    /// Whether the loop has ended.
    pub fn is_stopped(&self) -> (stopped: bool)
        ensures
            stopped == (self@.phase == MonitorPhase::Stopped),
    {
        match self.phase {
            MonitorPhase::Stopped => true,
            _ => false,
        }
    }

    fn idle(&mut self) -> (effect: MonitorEffect)
        ensures
            (final(self)@, effect) == old(self)@.idles(),
    {
        if self.shutdown_requested {
            self.phase = MonitorPhase::Stopped;
            MonitorEffect::Exit
        } else {
            self.phase = MonitorPhase::AwaitingTick;
            MonitorEffect::AwaitTick
        }
    }

    /// Begins the supervision loop and says what the host does first.
    pub fn start(&mut self) -> (effect: MonitorEffect)
        ensures
            (final(self)@, effect) == monitoring_begins(old(self)@),
    {
        match self.phase {
            MonitorPhase::Created => self.idle(),
            _ => MonitorEffect::Exit,
        }
    }

    /// Counts a crash of the worker and says after how many seconds it is
    /// started again, or that the ceiling of restarts in a row is passed.
    pub fn handle_crash<P>(process: &mut ProcessHandle<P>) -> (verdict: Result<u64, Aria2Error>)
        ensures
            final(process)@ == crash_judged(old(process)@).0,
            match crash_judged(old(process)@).1 {
                CrashVerdict::RestartAfter(secs) => verdict == Ok::<u64, Aria2Error>(secs),
                CrashVerdict::GiveUp => verdict == Err::<u64, Aria2Error>(
                    Aria2Error::RestartLimitExceeded,
                ),
            },
    {
        if process.restart_count() == u32::MAX {
            return Err(Aria2Error::RestartLimitExceeded);
        }
        let attempt = process.increment_restart_count();
        if attempt > process.max_restart_attempts() {
            Err(Aria2Error::RestartLimitExceeded)
        } else {
            Ok(backoff_secs(attempt))
        }
    }

    /// Takes what the host reports and says what it does next.
    pub fn resume<P>(&mut self, process: &mut ProcessHandle<P>, event: MonitorEvent) -> (effect:
        MonitorEffect)
        ensures
            (final(self)@, final(process)@, effect) == event_applies(
                old(self)@,
                old(process)@,
                event,
            ),
    {
        match (self.phase, event) {
            (MonitorPhase::AwaitingTick, MonitorEvent::Tick) => {
                if self.shutdown_requested {
                    self.phase = MonitorPhase::Stopped;
                    MonitorEffect::Exit
                } else {
                    self.phase = MonitorPhase::CheckingLiveness;
                    MonitorEffect::CheckLiveness
                }
            },
            (MonitorPhase::CheckingLiveness, MonitorEvent::Liveness(probe)) => {
                if process.is_running(probe) {
                    self.phase = MonitorPhase::ProbingHealth;
                    MonitorEffect::ProbeHealth
                } else {
                    match Self::handle_crash(process) {
                        Ok(secs) => {
                            self.phase = MonitorPhase::BackingOff;
                            MonitorEffect::Sleep(secs)
                        },
                        Err(_) => {
                            self.phase = MonitorPhase::Stopped;
                            MonitorEffect::Exit
                        },
                    }
                }
            },
            (MonitorPhase::ProbingHealth, MonitorEvent::Health(healthy)) => {
                if healthy {
                    process.reset_restart_count();
                }
                self.idle()
            },
            (MonitorPhase::BackingOff, MonitorEvent::Slept) => {
                self.phase = MonitorPhase::Restarting;
                MonitorEffect::Restart
            },
            (MonitorPhase::Restarting, MonitorEvent::Restarted(_)) => self.idle(),
            _ => {
                self.phase = MonitorPhase::Stopped;
                MonitorEffect::Exit
            },
        }
    }

    /// Asks the loop to end. The loop ends where it next waits for a tick; a
    /// pause or a restart under way is not cut short. Asking again changes
    /// nothing.
    pub fn shutdown(&mut self)
        ensures
            final(self)@ == old(self)@.shutting_down(),
    {
        self.shutdown_requested = true;
    }
}

} // verus!
