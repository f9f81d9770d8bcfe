//! The platform probe: whether the time-stamp counter of this machine can
//! be trusted as a clock.
//!
//! The counter is taken when the processor can run the reader (AVX and FMA)
//! and either the processor says that its counter runs at a constant rate,
//! or the kernel has chosen the counter as its own clock source.

use vstd::prelude::*;
use vstd::string::StrSliceExecFns;

verus! {

/// The extended CPUID leaf that reports on power management; its EDX holds
/// the invariant-counter bit.
pub const POWER_MANAGEMENT_LEAF: u32 = 0x8000_0007;

/// What was found out about the machine.
pub struct Probe {
    /// EAX of CPUID leaf 0: the largest basic leaf.
    pub max_basic_leaf: u32,
    /// EAX of CPUID leaf 0x8000_0000: the largest extended leaf.
    pub max_extended_leaf: u32,
    /// EDX of CPUID leaf 0x8000_0007.
    pub power_management_edx: u32,
    /// The content of the kernel's file that names the current clock
    /// source; empty where there is no such file or it cannot be read.
    pub clocksource: String,
    /// The processor has AVX.
    pub avx: bool,
    /// The processor has FMA.
    pub fma: bool,
}

/// Bit 8 of `edx` is set.
pub open spec fn invariant_bit(edx: u32) -> bool {
    (edx / 256) % 2 == 1
}

/// The processor reports a counter that runs at a constant rate: it has
/// basic leaf 1, it has the power management leaf, and bit 8 of that leaf's
/// EDX is set.
pub open spec fn invariant_tsc(max_basic_leaf: u32, max_extended_leaf: u32, edx: u32) -> bool {
    max_basic_leaf >= 1 && max_extended_leaf >= POWER_MANAGEMENT_LEAF && invariant_bit(edx)
}

/// The text that the kernel's file holds when the counter is the clock
/// source: the name and a line feed.
pub open spec fn tsc_line() -> Seq<char> {
    seq!['t', 's', 'c', '\n']
}

impl Probe {
    /// The machine has what the reader needs.
    pub open spec fn has_simd(&self) -> bool {
        self.avx && self.fma
    }

    /// The counter can be trusted as a clock.
    pub open spec fn tsc_usable(&self) -> bool {
        self.has_simd() && (invariant_tsc(
            self.max_basic_leaf,
            self.max_extended_leaf,
            self.power_management_edx,
        ) || self.clocksource@ == tsc_line())
    }
}

/// Whether the three CPUID answers report a counter that runs at a constant
/// rate.
pub fn has_invariant_tsc(max_basic_leaf: u32, max_extended_leaf: u32, edx: u32) -> (stable: bool)
    ensures
        stable == invariant_tsc(max_basic_leaf, max_extended_leaf, edx),
{
    if max_basic_leaf < 1 {
        return false;
    }
    if max_extended_leaf < POWER_MANAGEMENT_LEAF {
        return false;
    }
    assert((edx & (1u32 << 8) != 0) == ((edx / 256) % 2 == 1)) by (bit_vector);
    edx & (1u32 << 8) != 0
}

/// Whether the content of the kernel's clock source file names the
/// counter: it does when it is exactly the name followed by a line feed.
pub fn is_system_clock_source_tsc(text: &str) -> (tsc: bool)
    ensures
        tsc == (text@ == tsc_line()),
{
    if text.unicode_len() != 4 {
        return false;
    }
    let tsc = text.get_char(0) == 't' && text.get_char(1) == 's' && text.get_char(2) == 'c'
        && text.get_char(3) == '\n';
    assert(tsc == (text@ =~= tsc_line()));
    tsc
}

/// Whether the counter is taken as the clock of this machine.
pub fn enable_tsc(probe: &Probe) -> (usable: bool)
    ensures
        usable == probe.tsc_usable(),
{
    if !has_invariant_tsc(
        probe.max_basic_leaf,
        probe.max_extended_leaf,
        probe.power_management_edx,
    ) && !is_system_clock_source_tsc(probe.clocksource.as_str()) {
        false
    } else {
        probe.avx && probe.fma
    }
}

/// Without AVX or without FMA the counter is not usable, whatever else
/// holds.
pub proof fn lemma_usable_needs_simd(probe: Probe)
    requires
        !probe.avx || !probe.fma,
    ensures
        !probe.tsc_usable(),
{
}

/// Without the invariant-counter bit and with another clock source the
/// counter is not usable.
pub proof fn lemma_usable_needs_stable_counter(probe: Probe)
    requires
        !invariant_bit(probe.power_management_edx),
        probe.clocksource@ != tsc_line(),
    ensures
        !probe.tsc_usable(),
{
}

} // verus!
