//! The dispatch state: which clock `unix_nano` reads, and how that is
//! settled once, at initialisation.
//!
//! A process starts on the operating system's clock. `init` looks at the
//! probe; where the counter can be trusted it starts a calibration run, and only
//! when that run is complete does `finish_init` install the counter's
//! reader. Nothing ever moves the state back.

use crate::calibration::{Calibration, SAMPLES};
use crate::probe::{enable_tsc, invariant_tsc, tsc_line, Probe};
use crate::wall::unix_nano_std;
use vstd::prelude::*;

verus! {

/// The clock that `unix_nano` reads.
#[derive(Clone, Copy, Debug, PartialEq, Eq, Structural)]
pub enum NowImpl {
    /// The operating system's wall clock.
    Os,
    /// The reader of the time-stamp counter.
    Tsc,
}

/// How far initialisation has come.
#[derive(Clone, Copy, Debug, PartialEq, Eq, Structural)]
pub enum Phase {
    /// The counter is not in use.
    Disabled,
    /// The counter was found usable and the first calibration runs.
    Calibrating,
    /// The counter is in use.
    Enabled,
}

/// The phase after `init`, given whether the counter was found usable.
pub open spec fn after_init(phase: Phase, usable: bool) -> Phase {
    if phase == Phase::Enabled {
        Phase::Enabled
    } else if usable {
        Phase::Calibrating
    } else {
        Phase::Disabled
    }
}

/// The phase after `finish_init`, given whether the run it was handed is
/// complete.
pub open spec fn after_finish_init(phase: Phase, complete: bool) -> Phase {
    if phase == Phase::Calibrating && complete {
        Phase::Enabled
    } else {
        phase
    }
}

/// The clock that is read in a phase.
pub open spec fn clock_in(phase: Phase) -> NowImpl {
    if phase == Phase::Enabled {
        NowImpl::Tsc
    } else {
        NowImpl::Os
    }
}

/// The dispatch state of a process.
pub struct Dispatch {
    phase: Phase,
}

impl View for Dispatch {
    type V = Phase;

    closed spec fn view(&self) -> Phase {
        self.phase
    }
}

impl Dispatch {
    /// The state of a process that has not been initialised.
    pub fn new() -> (state: Dispatch)
        ensures
            state@ == Phase::Disabled,
    {
        Dispatch { phase: Phase::Disabled }
    }

    /// The clock that `unix_nano` reads in this state.
    pub fn now_impl(&self) -> (clock: NowImpl)
        ensures
            clock == clock_in(self@),
    {
        match self.phase {
            Phase::Enabled => NowImpl::Tsc,
            _ => NowImpl::Os,
        }
    }
}

/// Whether the counter is in use.
pub fn is_enabled(state: &Dispatch) -> (enabled: bool)
    ensures
        enabled == (state@ == Phase::Enabled),
{
    match state.phase {
        Phase::Enabled => true,
        _ => false,
    }
}

/// Initialises the process. Where the counter is in use already, nothing
/// happens. Else the probe decides: where it finds the counter usable, the
/// calibration run that is to be made before `finish_init` is handed out;
/// where it does not, the process stays on the operating system's clock.
pub fn init(state: &mut Dispatch, probe: &Probe) -> (run: Option<Calibration>)
    ensures
        final(state)@ == after_init(old(state)@, probe.tsc_usable()),
        run is Some <==> old(state)@ != Phase::Enabled && probe.tsc_usable(),
        run matches Some(r) ==> r.wf() && r@ == Seq::<(i64, i64)>::empty(),
{
    if is_enabled(state) {
        return None;
    }
    if enable_tsc(probe) {
        state.phase = Phase::Calibrating;
        Some(Calibration::new())
    } else {
        state.phase = Phase::Disabled;
        None
    }
}

/// Ends initialisation: installs the counter's reader, where `init` has
/// found the counter usable and the calibration run is complete. Says
/// whether it did.
pub fn finish_init(state: &mut Dispatch, run: &Calibration) -> (installed: bool)
    requires
        run.wf(),
    ensures
        final(state)@ == after_finish_init(old(state)@, run@.len() == 2 * SAMPLES),
        installed == (old(state)@ == Phase::Calibrating && run@.len() == 2 * SAMPLES),
{
    match state.phase {
        Phase::Calibrating => {
            if run.is_complete() {
                state.phase = Phase::Enabled;
                true
            } else {
                false
            }
        },
        _ => false,
    }
}

/// Starts a calibration run, where the counter is in use; else there is
/// nothing to calibrate.
pub fn calibrate(state: &Dispatch) -> (run: Option<Calibration>)
    ensures
        run is Some <==> state@ == Phase::Enabled,
        run matches Some(r) ==> r.wf() && r@ == Seq::<(i64, i64)>::empty(),
{
    if is_enabled(state) {
        Some(Calibration::new())
    } else {
        None
    }
}

/// Nanoseconds since the Unix epoch, from the clock that the state has
/// settled on: from `tsc_reader` where the counter is in use, else from the
/// operating system.
pub fn unix_nano<F: Fn() -> i64>(state: &Dispatch, tsc_reader: F) -> (ns: i64)
    requires
        state@ == Phase::Enabled ==> tsc_reader.requires(()),
    ensures
        state@ == Phase::Enabled ==> tsc_reader.ensures((), ns),
{
    match state.now_impl() {
        NowImpl::Tsc => tsc_reader(),
        NowImpl::Os => unix_nano_std(),
    }
}

/// Where the processor lacks AVX or FMA, or neither it nor the kernel
/// vouches for the counter, `init` leaves a process that was not on the
/// counter off it: the counter is not in use and the operating system's
/// clock is read.
pub proof fn lemma_init_degrades(phase: Phase, probe: Probe)
    requires
        phase != Phase::Enabled,
        !probe.avx || !probe.fma || (!invariant_tsc(
            probe.max_basic_leaf,
            probe.max_extended_leaf,
            probe.power_management_edx,
        ) && probe.clocksource@ != tsc_line()),
    ensures
        after_init(phase, probe.tsc_usable()) == Phase::Disabled,
        clock_in(after_init(phase, probe.tsc_usable())) == NowImpl::Os,
{
}

/// `init` alone never puts the counter in use, and once it is in use
/// neither `init` nor `finish_init` takes it away.
pub proof fn lemma_enabled_is_kept(phase: Phase, usable: bool, complete: bool)
    ensures
        after_init(phase, usable) == Phase::Enabled <==> phase == Phase::Enabled,
        phase == Phase::Enabled ==> after_finish_init(phase, complete) == Phase::Enabled,
{
}

/// The counter comes into use only through a probe that finds it usable
/// and a calibration run that is complete.
pub proof fn lemma_enabled_needs_probe_and_run(usable: bool, complete: bool)
    ensures
        after_finish_init(after_init(Phase::Disabled, usable), complete) == Phase::Enabled <==> usable
            && complete,
{
}

} // verus!
