//! Core logic of the entry-point firmware for a USB-attached debug probe.
//!
//! The probe boots, samples a digital input to choose one of two physical
//! pin mappings for the debug link, brings up a composite USB device with a
//! serial interface and a debug-probe interface, and then dispatches USB
//! interrupt events for the lifetime of the device.
//!
//! This crate holds the decision logic of that firmware: the boot-time probe
//! selector, the interrupt dispatch protocol with its priority-ceiling
//! critical section, the idle task, and the wire-visible device identity.
//! The hardware itself (GPIO, clocks, the USB controller, the debug-link
//! engine) lives outside: a runtime performs those effects and feeds the
//! results back into the state machines defined here.

pub mod boot;
pub mod dispatch;
pub mod identity;
pub mod idle_task;
pub mod selector;
