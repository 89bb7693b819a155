//! Process timestamps: 64-bit counts of 100-nanosecond ticks that arrive split
//! into two 32-bit words.

use crate::handle::Handle;
use vstd::prelude::*;

verus! {

/// A tick count as the system hands it over: the low and the high 32 bits.
#[derive(Clone, Copy, Debug, PartialEq, Eq, Structural)]
pub struct FileTime {
    pub low: u32,
    pub high: u32,
}

impl FileTime {
    /// The tick count that the two words stand for.
    pub open spec fn spec_ticks(self) -> nat {
        (self.low as nat) + (self.high as nat) * 0x1_0000_0000
    }

    /// Puts the two words together: `low | (high << 32)`.
    pub fn ticks(&self) -> (t: u64)
        ensures
            t == self.spec_ticks(),
    {
        let low: u64 = self.low as u64;
        let high: u64 = self.high as u64;
        assert(low | (high << 32) == low + high * 0x1_0000_0000) by (bit_vector)
            requires
                low < 0x1_0000_0000,
                high < 0x1_0000_0000,
        ;
        low | (high << 32)
    }
}

/// The four timestamps that the system keeps for a process.
#[derive(Clone, Copy, Debug, PartialEq, Eq, Structural)]
pub struct ProcessTimes {
    /// When the process was created.
    pub created: FileTime,
    /// When the process ended. It means nothing while the process still runs.
    pub exited: FileTime,
    /// The time the process has spent in kernel mode, a duration.
    pub kernel: FileTime,
    /// The time the process has spent in user mode, a duration.
    pub user: FileTime,
}

/// The timing of one process, in ticks of 100 nanoseconds.
#[derive(Clone, Copy, Debug, PartialEq, Eq, Structural)]
pub struct TimingReport {
    /// The instant the process was created.
    pub created: u64,
    /// The instant the process ended.
    pub terminated: u64,
    /// The time spent in application code.
    pub user: u64,
    /// The time spent in the kernel on behalf of the process.
    pub sys: u64,
}

impl TimingReport {
    /// The wall-clock span from creation to termination.
    pub open spec fn spec_real_ticks(self) -> int {
        self.terminated - self.created
    }

    /// The wall-clock span from creation to termination. It is negative only
    /// where the system reports an end that lies before the creation.
    pub fn real_ticks(&self) -> (d: i128)
        ensures
            d == self.spec_real_ticks(),
    {
        self.terminated as i128 - self.created as i128
    }
}

/// The report that `raw` gives for the process behind `queried`, where
/// `current` is the handle of the process that asks.
///
/// A process that measures itself has not ended, so its end is taken to be its
/// creation.
pub open spec fn measured(raw: ProcessTimes, queried: Handle, current: Handle) -> TimingReport {
    TimingReport {
        created: raw.created.spec_ticks() as u64,
        terminated: if queried == current {
            raw.created.spec_ticks() as u64
        } else {
            raw.exited.spec_ticks() as u64
        },
        user: raw.user.spec_ticks() as u64,
        sys: raw.kernel.spec_ticks() as u64,
    }
}

/// Turns the raw timestamps of the process behind `queried` into a report.
pub fn measure(raw: &ProcessTimes, queried: Handle, current: Handle) -> (report: TimingReport)
    ensures
        report == measured(*raw, queried, current),
        report.created == raw.created.spec_ticks(),
        report.user == raw.user.spec_ticks(),
        report.sys == raw.kernel.spec_ticks(),
        queried == current ==> report.spec_real_ticks() == 0,
        queried != current ==> report.spec_real_ticks() == raw.exited.spec_ticks()
            - raw.created.spec_ticks(),
{
    let created: u64 = raw.created.ticks();
    let terminated: u64 = if queried == current {
        created
    } else {
        raw.exited.ticks()
    };
    TimingReport { created, terminated, user: raw.user.ticks(), sys: raw.kernel.ticks() }
}

/// No duration of a report is negative where the process ended no earlier
/// than it was created.
pub proof fn lemma_durations_not_negative(raw: ProcessTimes, queried: Handle, current: Handle)
    requires
        raw.created.spec_ticks() <= raw.exited.spec_ticks(),
    ensures
        measured(raw, queried, current).spec_real_ticks() >= 0,
        measured(raw, queried, current).user >= 0,
        measured(raw, queried, current).sys >= 0,
{
}

} // verus!
