use vstd::prelude::*;
use crate::module::RuntimeError;

verus! {

/// How the shutdown of one module went.
#[derive(Debug, Clone, Copy, PartialEq, Eq, Structural)]
pub enum Termination {
    /// No context was live: there was nothing to wait for.
    Idle,
    /// The context ended within the grace period.
    Ended,
    /// The context was still live when the grace period was over.
    TimedOut,
}

/// A failure that the context of the module in slot `module` ran into.
#[derive(Debug, Clone, Copy, PartialEq, Eq)]
pub struct ModuleFailure {
    pub module: usize,
    pub error: RuntimeError,
}

/// How the shutdown of each module went, by slot, and the failures that the
/// modules' contexts ran into while the pipeline ran, in the order in which
/// they were reported.
#[derive(Debug, PartialEq, Eq)]
pub struct DrainReport {
    pub statuses: Vec<Termination>,
    pub failures: Vec<ModuleFailure>,
}

/// The status of a module whose context `cancelled` was to be cancelled and
/// of which the driver saw, or did not see, the end in time.
pub open spec fn status_of(cancelled: Option<u64>, ended: bool) -> Termination {
    if cancelled is None {
        Termination::Idle
    } else if ended {
        Termination::Ended
    } else {
        Termination::TimedOut
    }
}

impl DrainReport {
    /// The report of a shutdown in which the contexts `cancelled` were to be
    /// cancelled, one entry per module, and `ended` says for each module
    /// whether the driver saw its context end within the grace period. A
    /// module without an entry in `ended` was not seen to end. `failures` are
    /// the failures that the contexts reported; the report holds them as they
    /// are.
    pub fn collect(
        cancelled: &Vec<Option<u64>>,
        ended: &Vec<bool>,
        failures: Vec<ModuleFailure>,
    ) -> (r: DrainReport)
        ensures
            r.failures@ == failures@,
            r.statuses@.len() == cancelled@.len(),
            forall|i: int|
                0 <= i < cancelled@.len() ==> #[trigger] r.statuses@[i] == status_of(
                    cancelled@[i],
                    i < ended@.len() && ended@[i],
                ),
    {
        let mut statuses: Vec<Termination> = Vec::new();
        let mut i: usize = 0;
        while i < cancelled.len()
            invariant
                0 <= i <= cancelled@.len(),
                statuses@.len() == i,
                forall|x: int|
                    0 <= x < i ==> #[trigger] statuses@[x] == status_of(
                        cancelled@[x],
                        x < ended@.len() && ended@[x],
                    ),
            decreases cancelled@.len() - i,
        {
            let status = match cancelled[i] {
                None => Termination::Idle,
                Some(_) => if i < ended.len() && ended[i] {
                    Termination::Ended
                } else {
                    Termination::TimedOut
                },
            };
            statuses.push(status);
            i += 1;
        }
        DrainReport { statuses, failures }
    }

    /// Whether every context ended in time and none reported a failure.
    pub fn is_clean(&self) -> (b: bool)
        ensures
            b == (self.failures@.len() == 0 && forall|i: int|
                0 <= i < self.statuses@.len() ==> #[trigger] self.statuses@[i]
                    != Termination::TimedOut),
    {
        if self.failures.len() > 0 {
            return false;
        }
        let mut i: usize = 0;
        while i < self.statuses.len()
            invariant
                0 <= i <= self.statuses@.len(),
                forall|x: int| 0 <= x < i ==> #[trigger] self.statuses@[x] != Termination::TimedOut,
            decreases self.statuses@.len() - i,
        {
            match self.statuses[i] {
                Termination::TimedOut => {
                    return false;
                },
                _ => {},
            }
            i += 1;
        }
        true
    }
}

} // verus!
