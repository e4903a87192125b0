//! End-to-end boot-and-dispatch scenarios.

use probe_core::boot::{plan_boot, SWCLK_ALTERNATE, SWCLK_DEFAULT, SWDIO_ALTERNATE, SWDIO_DEFAULT};
use probe_core::dispatch::{DispatchTask, ProcessOutcome};
use probe_core::identity::device_identity;
use probe_core::idle_task::{idle, IdleTask};
use probe_core::selector::ProbeVariant;

#[test]
fn alternate_boot_asserts_indicator_on_first_poll() {
    // Samples low, high, low, low, high: 3 lows select the alternate
    // mapping; the alternate pin pair is bound and the alternate indicator
    // is asserted on the first successful poll.
    let samples = vec![true, false, true, true, false];
    let plan = plan_boot(&samples);
    assert_eq!(plan.variant, ProbeVariant::Alternate);
    assert_eq!(plan.pins.swclk, SWCLK_ALTERNATE);
    assert_eq!(plan.pins.swdio, SWDIO_ALTERNATE);
    assert!(plan.pins.fast_slew);

    let mut task = DispatchTask::new(plan.variant);
    assert!(!task.indicator_on);
    task.enter_critical();
    task.access_serial();
    assert!(task.submit_poll(true));
    assert!(task.indicator_on);
    task.submit_outcome(ProcessOutcome::Done);
    assert!(task.indicator_on);
}

#[test]
fn default_boot_never_asserts_indicator() {
    // Samples high, high, high, high, low: 1 low keeps the default mapping;
    // the default pin pair is bound and the indicator is never asserted.
    let samples = vec![false, false, false, false, true];
    let plan = plan_boot(&samples);
    assert_eq!(plan.variant, ProbeVariant::Default);
    assert_eq!(plan.pins.swclk, SWCLK_DEFAULT);
    assert_eq!(plan.pins.swdio, SWDIO_DEFAULT);
    assert!(plan.pins.fast_slew);

    let mut task = DispatchTask::new(plan.variant);
    for found_work in [true, false, true, true, false] {
        task.enter_critical();
        task.access_serial();
        let invoke = task.submit_poll(found_work);
        if invoke {
            task.submit_outcome(ProcessOutcome::Done);
        }
        assert!(!task.indicator_on);
    }
}

#[test]
fn idle_poll_leaves_process_count_at_zero() {
    // The transport reports no work: the process call count for that
    // interrupt stays zero.
    let mut task = DispatchTask::new(ProbeVariant::Default);
    task.enter_critical();
    task.access_serial();
    let invoke = task.submit_poll(false);
    assert!(!invoke);
    assert_eq!(task.processes, 0);
    assert_eq!(task.interrupts, 1);
}

#[test]
fn device_stays_responsive_after_link_error() {
    // The poll finds work but the engine fails: the task returns normally
    // and the next interrupt is served as usual.
    let mut task = DispatchTask::new(ProbeVariant::Default);
    task.enter_critical();
    task.access_serial();
    assert!(task.submit_poll(true));
    task.submit_outcome(ProcessOutcome::LinkError);

    task.enter_critical();
    task.access_serial();
    assert!(task.submit_poll(true));
    task.submit_outcome(ProcessOutcome::Done);
    assert_eq!(task.interrupts, 2);
    assert_eq!(task.processes, 2);
}

#[test]
fn boot_plan_fixes_the_identity() {
    let samples = vec![false, false, false, false, false];
    let plan = plan_boot(&samples);
    assert_eq!(plan.identity, device_identity());
}

#[test]
fn idle_task_raises_power_indicator_once() {
    let mut task = IdleTask::new();
    assert!(!task.power_on);
    idle(&mut task);
    assert!(task.power_on);
    idle(&mut task);
    assert!(task.power_on);
}
