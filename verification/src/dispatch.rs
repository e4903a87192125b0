//! The interrupt-bound dispatch task.
//!
//! One invocation runs per USB controller interrupt, to completion and
//! strictly serialized. It enters a priority-ceiling critical section,
//! polls the USB transport with the shared serial class and the active
//! debug-link class, and leaves the section with the transport's answer.
//! Only when the transport reported class-buffer work does the task command
//! exactly one `process` call on the active debug-link engine; the outcome
//! of that call, success or failure, is deliberately swallowed.
//!
//! The transport poll and the engine's `process` are hardware effects; a
//! runtime performs them and reports back through [`DispatchTask::submit_poll`]
//! and [`DispatchTask::submit_outcome`]. The task itself never blocks: each
//! step is a plain state transition of [`step`].

use vstd::prelude::*;
use crate::selector::ProbeVariant;

verus! {

/// Outcome of the debug-link engine's `process` call, as reported back to
/// the task. Link-layer failures are expected, self-correcting noise and
/// carry no detail at this layer.
#[derive(Clone, Copy, Debug, PartialEq, Eq, Structural)]
pub enum ProcessOutcome {
    /// The engine drained its buffered commands.
    Done,
    /// The engine reported a transient link error.
    LinkError,
}

/// Where the dispatch task stands within one interrupt invocation.
#[derive(Clone, Copy, Debug, PartialEq, Eq, Structural)]
pub enum Phase {
    /// Between invocations; the serial lock is free.
    Idle,
    /// Inside the priority-ceiling critical section around the transport poll.
    Critical,
    /// The poll reported work; exactly one `process` call is owed.
    AwaitProcess,
}

/// The serial (CDC-ACM) class shared between the dispatch task and any
/// future consumer of the byte stream. The core tracks only how often
/// exclusive access to it has been granted; the byte buffers themselves
/// live with the USB stack.
#[derive(Clone, Copy, Debug, PartialEq, Eq, Structural)]
pub struct SharedSerial {
    /// How many exclusive accesses have been granted so far.
    pub grants: u64,
}

/// The dispatch task's state: the boot-time variant choice, the phase of
/// the current invocation, the guarded serial class, and an audit of what
/// the task has commanded so far.
#[derive(Clone, Copy, Debug, PartialEq, Eq, Structural)]
pub struct DispatchTask {
    /// The pin mapping chosen at boot; immutable afterwards.
    pub variant: ProbeVariant,
    /// Where the task stands within the current invocation.
    pub phase: Phase,
    /// The shared serial class guarded by the priority-ceiling lock.
    pub serial: SharedSerial,
    /// How many interrupt invocations have begun.
    pub interrupts: u64,
    /// How many `process` calls the task has commanded.
    pub processes: u64,
    /// Whether the alternate-variant indicator pin is driven high.
    pub indicator_on: bool,
}

/// One observable step of the dispatch task.
#[derive(Clone, Copy, Debug, PartialEq, Eq, Structural)]
pub enum Event {
    /// An interrupt fired; the task enters the critical section.
    Enter,
    /// The transport is granted exclusive access to the shared serial class.
    SerialAccess,
    /// The transport poll returned, saying whether any class has work.
    Poll(bool),
    /// The engine's `process` call returned with this outcome.
    Outcome(ProcessOutcome),
}

/// Whether `e` may happen in state `s`: the protocol order of one
/// to-completion invocation, and the machine limits of the audit counters.
pub open spec fn enabled(s: DispatchTask, e: Event) -> bool {
    match e {
        Event::Enter => s.phase is Idle && s.interrupts < u64::MAX,
        Event::SerialAccess => s.phase is Critical && s.serial.grants < u64::MAX,
        Event::Poll(_) => s.phase is Critical && s.processes < u64::MAX,
        Event::Outcome(_) => s.phase is AwaitProcess,
    }
}

/// The state after `e` happens in state `s`.
pub open spec fn step(s: DispatchTask, e: Event) -> DispatchTask {
    match e {
        Event::Enter => DispatchTask {
            phase: Phase::Critical,
            interrupts: (s.interrupts + 1) as u64,
            ..s
        },
        Event::SerialAccess => DispatchTask {
            serial: SharedSerial { grants: (s.serial.grants + 1) as u64 },
            ..s
        },
        Event::Poll(found_work) => DispatchTask {
            phase: if found_work {
                Phase::AwaitProcess
            } else {
                Phase::Idle
            },
            processes: if found_work {
                (s.processes + 1) as u64
            } else {
                s.processes
            },
            indicator_on: s.indicator_on || s.variant is Alternate,
            ..s
        },
        Event::Outcome(_) => DispatchTask { phase: Phase::Idle, ..s },
    }
}

impl DispatchTask {
    /// The priority-ceiling lock on the shared serial class is held exactly
    /// while the task is inside the critical section.
    pub open spec fn lock_held(self) -> bool {
        self.phase is Critical
    }

    /// The task as built at boot, once the probe selector has chosen the
    /// variant: no invocation under way, nothing commanded yet, the
    /// alternate indicator off.
    pub fn new(variant: ProbeVariant) -> (t: Self)
        ensures
            t.variant == variant,
            t.phase is Idle,
            t.serial.grants == 0,
            t.interrupts == 0,
            t.processes == 0,
            !t.indicator_on,
    {
        DispatchTask {
            variant,
            phase: Phase::Idle,
            serial: SharedSerial { grants: 0 },
            interrupts: 0,
            processes: 0,
            indicator_on: false,
        }
    }

    /// An interrupt fired: begin the invocation and raise the priority
    /// ceiling, entering the critical section around the shared serial.
    pub fn enter_critical(&mut self)
        requires
            enabled(*old(self), Event::Enter),
        ensures
            *final(self) == step(*old(self), Event::Enter),
            final(self).lock_held(),
    {
        self.phase = Phase::Critical;
        self.interrupts = self.interrupts + 1;
    }

    /// Grant the transport exclusive access to the shared serial class for
    /// the poll. Only callable with the lock held: this is the single point
    /// at which the serial is ever handed out.
    pub fn access_serial(&mut self)
        requires
            enabled(*old(self), Event::SerialAccess),
        ensures
            *final(self) == step(*old(self), Event::SerialAccess),
    {
        self.serial.grants = self.serial.grants + 1;
    }

    /// The transport poll returned: leave the critical section — on every
    /// path, including the early return when no work was found — and say
    /// whether the engine's `process` must now be invoked.
    ///
    /// `process` is commanded exactly once when the poll found work and
    /// never otherwise. When the alternate variant is live, the invocation
    /// also re-asserts the alternate indicator.
    pub fn submit_poll(&mut self, found_work: bool) -> (invoke: bool)
        requires
            enabled(*old(self), Event::Poll(found_work)),
        ensures
            *final(self) == step(*old(self), Event::Poll(found_work)),
            invoke == found_work,
            !final(self).lock_held(),
            final(self).processes == old(self).processes + (if found_work {
                1int
            } else {
                0int
            }),
            final(self).indicator_on == (old(self).indicator_on || old(
                self,
            ).variant is Alternate),
    {
        self.indicator_on = self.indicator_on || matches!(self.variant, ProbeVariant::Alternate);
        if found_work {
            self.phase = Phase::AwaitProcess;
            self.processes = self.processes + 1;
        } else {
            self.phase = Phase::Idle;
        }
        found_work
    }

    /// The engine's `process` call returned. Success or failure, the task
    /// swallows the outcome and ends the invocation: nothing but the phase
    /// changes, so a failure never alters indicator state or the control
    /// flow of later invocations.
    pub fn submit_outcome(&mut self, outcome: ProcessOutcome)
        requires
            enabled(*old(self), Event::Outcome(outcome)),
        ensures
            *final(self) == step(*old(self), Event::Outcome(outcome)),
            final(self).phase is Idle,
            final(self).variant == old(self).variant,
            final(self).serial == old(self).serial,
            final(self).interrupts == old(self).interrupts,
            final(self).processes == old(self).processes,
            final(self).indicator_on == old(self).indicator_on,
    {
        let _ = outcome;
        self.phase = Phase::Idle;
    }
}

/// One invocation commands the engine's `process` exactly once when the
/// transport reported work, and never when it did not.
pub proof fn lemma_process_iff_work(s: DispatchTask, found_work: bool)
    requires
        enabled(s, Event::Poll(found_work)),
    ensures
        step(s, Event::Poll(found_work)).processes == s.processes + (if found_work {
            1int
        } else {
            0int
        }),
{
}

/// The shared serial class is touched only inside the critical section: any
/// enabled step that changes it runs with the priority-ceiling lock held.
pub proof fn lemma_serial_only_under_lock(s: DispatchTask, e: Event)
    requires
        enabled(s, e),
        step(s, e).serial != s.serial,
    ensures
        s.lock_held(),
{
}

/// Recovery by ignoring: the state after an invocation does not depend on
/// the outcome the engine reported, so a failure can never leak into later
/// invocations.
pub proof fn lemma_outcome_ignored(s: DispatchTask, a: ProcessOutcome, b: ProcessOutcome)
    ensures
        step(s, Event::Outcome(a)) == step(s, Event::Outcome(b)),
{
}

} // verus!
