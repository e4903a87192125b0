//! Boot-time probe-variant selection.
//!
//! Before the composite USB device is built, the firmware samples a
//! pulled-high digital input five times in immediate succession and counts
//! how often it read logic low. A majority of low reads (at least three of
//! the five) selects the alternate pin mapping; otherwise the default
//! mapping is kept. The chosen mapping binds the clock and data pins of the
//! debug link for the rest of this boot.

use vstd::prelude::*;

verus! {

/// Which of the two physical pin mappings is live for this boot.
///
/// Exactly one variant is chosen, once, at boot; it is immutable afterwards.
#[derive(Clone, Copy, Debug, PartialEq, Eq, Structural)]
pub enum ProbeVariant {
    /// Default mapping, chosen when fewer than three boot samples read low.
    Default,
    /// Alternate mapping, chosen on a majority of low boot samples.
    Alternate,
}

/// How many times the selection input is sampled at boot.
pub const BOOT_SAMPLES: usize = 5;

/// How many low samples select the alternate mapping.
pub const LOW_MAJORITY: usize = 3;

/// How many of the samples read logic low. A sample is `true` when the pin
/// read low (the input is pulled high, so low means asserted).
pub open spec fn count_lows(samples: Seq<bool>) -> int
    decreases samples.len(),
{
    if samples.len() == 0 {
        0
    } else {
        count_lows(samples.drop_last()) + if samples.last() {
            1int
        } else {
            0int
        }
    }
}

/// The variant the selector chooses for a full round of boot samples.
pub open spec fn selected_variant(samples: Seq<bool>) -> ProbeVariant {
    if count_lows(samples) >= LOW_MAJORITY {
        ProbeVariant::Alternate
    } else {
        ProbeVariant::Default
    }
}

pub proof fn lemma_count_lows_bounds(samples: Seq<bool>)
    ensures
        0 <= count_lows(samples) <= samples.len(),
    decreases samples.len(),
{
    if samples.len() > 0 {
        lemma_count_lows_bounds(samples.drop_last());
    }
}

/// Transient boot-time accumulator over the digital-input samples; it is
/// discarded once the selection decision is made.
pub struct SampleCounter {
    lows: u8,
    taken: u8,
    samples: Ghost<Seq<bool>>,
}

impl SampleCounter {
    /// The samples recorded so far, low reads as `true`.
    pub closed spec fn samples(self) -> Seq<bool> {
        self.samples@
    }

    pub closed spec fn wf(self) -> bool {
        &&& self.taken == self.samples@.len()
        &&& self.lows == count_lows(self.samples@)
        &&& self.samples@.len() <= BOOT_SAMPLES
    }

    pub fn new() -> (c: Self)
        ensures
            c.wf(),
            c.samples() == Seq::<bool>::empty(),
    {
        SampleCounter { lows: 0, taken: 0, samples: Ghost(Seq::empty()) }
    }

    /// Record one instantaneous read of the selection input.
    pub fn record(&mut self, is_low: bool)
        requires
            old(self).wf(),
            old(self).samples().len() < BOOT_SAMPLES,
        ensures
            final(self).wf(),
            final(self).samples() == old(self).samples().push(is_low),
    {
        proof {
            lemma_count_lows_bounds(self.samples@);
            assert(self.samples@.push(is_low).drop_last() =~= self.samples@);
        }
        if is_low {
            self.lows = self.lows + 1;
        }
        self.taken = self.taken + 1;
        self.samples = Ghost(self.samples@.push(is_low));
    }

    /// Whether the full round of boot samples has been taken.
    pub fn complete(&self) -> (b: bool)
        requires
            self.wf(),
        ensures
            b == (self.samples().len() == BOOT_SAMPLES),
    {
        self.taken as usize == BOOT_SAMPLES
    }

    /// The selection decision: a majority of low reads picks the alternate
    /// mapping, anything less keeps the default.
    pub fn decide(&self) -> (v: ProbeVariant)
        requires
            self.wf(),
            self.samples().len() == BOOT_SAMPLES,
        ensures
            v == selected_variant(self.samples()),
    {
        if self.lows as usize >= LOW_MAJORITY {
            ProbeVariant::Alternate
        } else {
            ProbeVariant::Default
        }
    }
}

/// Run the whole selection round over five already-taken samples.
pub fn select_variant(samples: &[bool]) -> (v: ProbeVariant)
    requires
        samples@.len() == BOOT_SAMPLES,
    ensures
        v == selected_variant(samples@),
{
    let mut counter = SampleCounter::new();
    let mut i: usize = 0;
    while i < BOOT_SAMPLES
        invariant
            i <= BOOT_SAMPLES,
            samples@.len() == BOOT_SAMPLES,
            counter.wf(),
            counter.samples() == samples@.subrange(0, i as int),
        decreases BOOT_SAMPLES - i,
    {
        counter.record(samples[i]);
        proof {
            assert(samples@.subrange(0, i as int).push(samples@[i as int]) =~= samples@.subrange(
                0,
                i + 1,
            ));
        }
        i = i + 1;
    }
    proof {
        assert(samples@.subrange(0, BOOT_SAMPLES as int) =~= samples@);
    }
    counter.decide()
}

/// The selector picks the alternate mapping exactly when at least three of
/// the five boot samples read low. (Boundary: exactly three lows selects the
/// alternate mapping; exactly two keeps the default.)
pub proof fn lemma_majority_selects_alternate(samples: Seq<bool>)
    requires
        samples.len() == BOOT_SAMPLES,
    ensures
        selected_variant(samples) is Alternate <==> count_lows(samples) >= 3,
        selected_variant(samples) is Default <==> count_lows(samples) <= 2,
{
}

} // verus!
