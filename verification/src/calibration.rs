//! One calibration run: the samples it gathers and the order in which it
//! gathers them.
//!
//! A run is made of `SAMPLES` epochs. In each epoch a sample is taken, the
//! run sleeps for `SAMPLE_DURATION_MILLIS`, and a second sample is taken.
//! When all epochs are done, a line is fitted through the samples and its
//! coefficients are stored in the coefficient cell. The run itself neither
//! samples nor sleeps: it says what is to be done next, and is told each
//! sample that was taken.

use vstd::prelude::*;

verus! {

/// Epochs in one calibration run.
pub const SAMPLES: usize = 128;

/// The time between the two samples of an epoch, in milliseconds.
pub const SAMPLE_DURATION_MILLIS: u64 = 16;

/// A good time between two calibration runs, in seconds.
pub const DEFAULT_CALIBRATE_INTERVAL_SECS: u64 = 300;

/// What a calibration run is to do next.
#[derive(Clone, Copy, Debug, PartialEq, Eq, Structural)]
pub enum CalibrationStep {
    /// Take the first sample of an epoch.
    Sample,
    /// Sleep for `SAMPLE_DURATION_MILLIS`, then take the second sample of
    /// the epoch.
    SleepThenSample,
    /// All samples are there: fit the line and store its coefficients.
    Regress,
}

/// The step that follows when `recorded` samples have been taken.
pub open spec fn step_after(recorded: nat) -> CalibrationStep {
    if recorded >= 2 * SAMPLES {
        CalibrationStep::Regress
    } else if recorded % 2 == 0 {
        CalibrationStep::Sample
    } else {
        CalibrationStep::SleepThenSample
    }
}

/// A calibration run: two buffers of equal length, one with the counter
/// value and one with the wall-clock reading of each sample taken so far.
pub struct Calibration {
    tscs: Vec<i64>,
    syss: Vec<i64>,
}

impl View for Calibration {
    type V = Seq<(i64, i64)>;

    /// The samples taken so far, in the order in which they were taken.
    closed spec fn view(&self) -> Seq<(i64, i64)> {
        Seq::new(self.tscs@.len(), |k: int| (self.tscs@[k], self.syss@[k]))
    }
}

impl Calibration {
    /// The two buffers are equally long and hold no more than the samples
    /// of one run. Every run that this module hands out is well formed.
    pub closed spec fn wf(&self) -> bool {
        self.tscs@.len() == self.syss@.len() && self.tscs@.len() <= 2 * SAMPLES
    }

    /// A run that has taken no sample yet.
    pub fn new() -> (run: Calibration)
        ensures
            run.wf(),
            run@ == Seq::<(i64, i64)>::empty(),
    {
        Calibration { tscs: Vec::with_capacity(2 * SAMPLES), syss: Vec::with_capacity(2 * SAMPLES) }
    }

    /// The number of samples taken so far; never more than `2 * SAMPLES`.
    pub fn len(&self) -> (len: usize)
        requires
            self.wf(),
        ensures
            len == self@.len(),
            len <= 2 * SAMPLES,
    {
        self.tscs.len()
    }

    /// Whether all samples of the run have been taken.
    pub fn is_complete(&self) -> (complete: bool)
        requires
            self.wf(),
        ensures
            complete == (self@.len() == 2 * SAMPLES),
            complete == (step_after(self@.len()) == CalibrationStep::Regress),
    {
        self.len() == 2 * SAMPLES
    }

    /// What the run is to do next.
    pub fn next_step(&self) -> (step: CalibrationStep)
        requires
            self.wf(),
        ensures
            step == step_after(self@.len()),
    {
        let recorded = self.len();
        if recorded >= 2 * SAMPLES {
            CalibrationStep::Regress
        } else if recorded % 2 == 0 {
            CalibrationStep::Sample
        } else {
            CalibrationStep::SleepThenSample
        }
    }

    /// Takes in a sample. A run that is complete takes none and stays as it
    /// is.
    pub fn record(&mut self, tsc: i64, sys: i64) -> (taken: bool)
        requires
            old(self).wf(),
        ensures
            final(self).wf(),
            taken == (old(self)@.len() < 2 * SAMPLES),
            taken ==> final(self)@ == old(self)@.push((tsc, sys)),
            !taken ==> final(self)@ == old(self)@,
    {
        if self.tscs.len() >= 2 * SAMPLES {
            return false;
        }
        self.tscs.push(tsc);
        self.syss.push(sys);
        assert(self@ =~= old(self)@.push((tsc, sys)));
        true
    }

    /// The counter values of the samples taken so far.
    pub fn tscs(&self) -> (tscs: &Vec<i64>)
        requires
            self.wf(),
        ensures
            tscs@.len() == self@.len(),
            forall|k: int| 0 <= k < self@.len() ==> tscs@[k] == (#[trigger] self@[k]).0,
    {
        &self.tscs
    }

    /// The wall-clock readings of the samples taken so far.
    pub fn syss(&self) -> (syss: &Vec<i64>)
        requires
            self.wf(),
        ensures
            syss@.len() == self@.len(),
            forall|k: int| 0 <= k < self@.len() ==> syss@[k] == (#[trigger] self@[k]).1,
    {
        &self.syss
    }
}

} // verus!
