//! The boot decision: from the five input samples to a complete plan.
//!
//! Boot runs exactly once, before the dispatch task can fire. Its decision
//! content is gathered here: choose the probe variant from the boot samples,
//! bind the debug-link clock and data pins that this variant uses — the
//! unchosen pair is never configured for debug-link use in this boot — and
//! fix the USB identity the composite device enumerates under. The runtime
//! then performs the actual pin-mode, clock and USB-stack configuration
//! from this plan.

use vstd::prelude::*;
use crate::identity::{UsbIdentity, spec_identity, device_identity};
use crate::selector::{ProbeVariant, selected_variant, select_variant, BOOT_SAMPLES};

verus! {

/// Debug-link clock pin of the default mapping.
pub const SWCLK_DEFAULT: u8 = 12;

/// Debug-link data pin of the default mapping.
pub const SWDIO_DEFAULT: u8 = 14;

/// Debug-link clock pin of the alternate mapping.
pub const SWCLK_ALTERNATE: u8 = 11;

/// Debug-link data pin of the alternate mapping.
pub const SWDIO_ALTERNATE: u8 = 10;

/// The alternate-variant indicator pin.
pub const INDICATOR_PIN: u8 = 0;

/// The power indicator pin the idle task drives.
pub const POWER_PIN: u8 = 2;

/// The pulled-high selection input sampled at boot.
pub const SELECT_PIN: u8 = 18;

/// The pin pair bound to the debug link for this boot, and its pad
/// configuration. Both pins get the high-speed slew rate to meet the
/// signal-integrity needs of the debug-link electrical protocol.
#[derive(Clone, Copy, Debug, PartialEq, Eq, Structural)]
pub struct PinAssignment {
    /// GPIO number of the clock line.
    pub swclk: u8,
    /// GPIO number of the data line.
    pub swdio: u8,
    /// Whether the pads are set to the high-speed slew rate.
    pub fast_slew: bool,
}

/// The pin pair each variant binds.
pub open spec fn assignment_of(v: ProbeVariant) -> PinAssignment {
    match v {
        ProbeVariant::Default => PinAssignment {
            swclk: SWCLK_DEFAULT,
            swdio: SWDIO_DEFAULT,
            fast_slew: true,
        },
        ProbeVariant::Alternate => PinAssignment {
            swclk: SWCLK_ALTERNATE,
            swdio: SWDIO_ALTERNATE,
            fast_slew: true,
        },
    }
}

/// Bind the debug-link pins of the chosen variant.
pub fn pin_assignment(v: ProbeVariant) -> (p: PinAssignment)
    ensures
        p == assignment_of(v),
{
    match v {
        ProbeVariant::Default => PinAssignment {
            swclk: SWCLK_DEFAULT,
            swdio: SWDIO_DEFAULT,
            fast_slew: true,
        },
        ProbeVariant::Alternate => PinAssignment {
            swclk: SWCLK_ALTERNATE,
            swdio: SWDIO_ALTERNATE,
            fast_slew: true,
        },
    }
}

/// Everything boot decides: the live variant, the pins it binds, and the
/// identity the composite device enumerates under.
#[derive(Clone, Copy, Debug, PartialEq, Eq, Structural)]
pub struct BootPlan {
    /// The pin mapping live for this boot.
    pub variant: ProbeVariant,
    /// The debug-link pin pair the variant binds.
    pub pins: PinAssignment,
    /// The USB identity of the composite device.
    pub identity: UsbIdentity,
}

/// Make every boot decision from the five selection-input samples, low
/// reads as `true`.
pub fn plan_boot(samples: &[bool]) -> (plan: BootPlan)
    requires
        samples@.len() == BOOT_SAMPLES,
    ensures
        plan.variant == selected_variant(samples@),
        plan.pins == assignment_of(plan.variant),
        plan.identity == spec_identity(),
{
    let variant = select_variant(samples);
    BootPlan { variant, pins: pin_assignment(variant), identity: device_identity() }
}

} // verus!
