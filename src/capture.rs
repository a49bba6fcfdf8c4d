use crate::error::Error;
use crate::feed::RootCard;
use vstd::prelude::*;

verus! {

/// Seconds to let a page render before its screenshot is taken.
pub const SETTLE_SECS: u64 = 3;

/// One screenshot to take: the page to open and the file to write.
#[derive(Debug, Clone)]
pub struct CaptureJob {
    pub url: String,
    pub file_name: String,
}

/// The step of a job that the run waits on.
#[derive(Debug, Clone, Copy, PartialEq, Eq)]
pub enum CaptureStage {
    Navigate,
    Settle,
    Screenshot,
    Persist,
}

/// Where a capture run stands.
#[derive(Debug, Clone)]
pub enum CaptureStatus {
    /// Job `index` waits on `stage`; the jobs before it are written.
    Running { index: usize, stage: CaptureStage },
    /// Every job is written.
    Finished,
    /// A step failed; `persisted` jobs were written before it.
    Aborted { persisted: usize, error: Error },
}

/// What the caller reports after performing the current step.
#[derive(Debug, Clone)]
pub enum CaptureEvent {
    Succeeded,
    Failed(String),
}

/// What the caller does next.
#[derive(Debug, Clone)]
pub enum CaptureAction {
    /// Open this page in the browser tab.
    Navigate(String),
    /// Block for this many seconds.
    Wait(u64),
    /// Take a full-page screenshot.
    Screenshot,
    /// Write the screenshot under this file name.
    Persist(String),
    /// Nothing is left to do; the run's result is final.
    Stop,
}

/// The error that a failure at `stage` becomes.
pub open spec fn stage_error(stage: CaptureStage, message: String) -> Error {
    match stage {
        CaptureStage::Navigate => Error::Navigation(message),
        CaptureStage::Settle => Error::Capture(message),
        CaptureStage::Screenshot => Error::Capture(message),
        CaptureStage::Persist => Error::Persist(message),
    }
}

/// The status after `event` is reported in `status`, for a run of `n` jobs:
/// each step leads to the next, a written job to the next job, and any
/// failure ends the run at once.
pub open spec fn next_status(status: CaptureStatus, event: CaptureEvent, n: nat) -> CaptureStatus {
    match status {
        CaptureStatus::Running { index, stage } => match event {
            CaptureEvent::Failed(message) => CaptureStatus::Aborted {
                persisted: index,
                error: stage_error(stage, message),
            },
            CaptureEvent::Succeeded => match stage {
                CaptureStage::Navigate => CaptureStatus::Running { index, stage: CaptureStage::Settle },
                CaptureStage::Settle => CaptureStatus::Running { index, stage: CaptureStage::Screenshot },
                CaptureStage::Screenshot => CaptureStatus::Running { index, stage: CaptureStage::Persist },
                CaptureStage::Persist => if index + 1 < n {
                    CaptureStatus::Running { index: (index + 1) as usize, stage: CaptureStage::Navigate }
                } else {
                    CaptureStatus::Finished
                },
            },
        },
        _ => status,
    }
}

/// How many jobs have been written in `status`, for a run of `n` jobs.
pub open spec fn persisted_in(status: CaptureStatus, n: nat) -> nat {
    match status {
        CaptureStatus::Running { index, .. } => index as nat,
        CaptureStatus::Finished => n,
        CaptureStatus::Aborted { persisted, .. } => persisted as nat,
    }
}

/// A sequential capture of one screenshot per card, failing at the first error.
pub struct CaptureRun {
    jobs: Vec<CaptureJob>,
    status: CaptureStatus,
}

impl CaptureRun {
    pub closed spec fn spec_jobs(&self) -> Seq<CaptureJob> {
        self.jobs@
    }

    pub closed spec fn spec_status(&self) -> CaptureStatus {
        self.status
    }

    /// A running job is one of the jobs.
    pub open spec fn wf(&self) -> bool {
        &&& self.spec_status() matches CaptureStatus::Running { index, .. } ==> index < self.spec_jobs().len()
        &&& self.spec_status() matches CaptureStatus::Aborted { persisted, .. } ==> persisted < self.spec_jobs().len()
    }

    /// A run over the cards in order, the `i`-th written under `names[i]`.
    pub fn new(cards: &Vec<RootCard>, names: &Vec<String>) -> (r: CaptureRun)
        requires
            cards@.len() == names@.len(),
        ensures
            r.wf(),
            r.spec_jobs().len() == cards@.len(),
            forall|i: int| 0 <= i < cards@.len() ==> {
                &&& (#[trigger] r.spec_jobs()[i]).url@ == cards@[i].scheme@
                &&& r.spec_jobs()[i].file_name@ == names@[i]@
            },
            r.spec_status() == (if cards@.len() == 0 {
                CaptureStatus::Finished
            } else {
                CaptureStatus::Running { index: 0, stage: CaptureStage::Navigate }
            }),
    {
        let mut jobs: Vec<CaptureJob> = Vec::new();
        let mut i: usize = 0;
        while i < cards.len()
            invariant
                0 <= i <= cards@.len(),
                cards@.len() == names@.len(),
                jobs@.len() == i,
                forall|j: int| 0 <= j < i ==> {
                    &&& (#[trigger] jobs@[j]).url@ == cards@[j].scheme@
                    &&& jobs@[j].file_name@ == names@[j]@
                },
            decreases cards@.len() - i,
        {
            let url = cards[i].scheme.clone();
            let file_name = names[i].clone();
            jobs.push(CaptureJob { url, file_name });
            i = i + 1;
        }
        let status = if cards.len() == 0 {
            CaptureStatus::Finished
        } else {
            CaptureStatus::Running { index: 0, stage: CaptureStage::Navigate }
        };
        CaptureRun { jobs, status }
    }

    /// The step to perform now.
    pub fn action(&self) -> (r: CaptureAction)
        requires
            self.wf(),
        ensures
            match self.spec_status() {
                CaptureStatus::Running { index, stage } => match stage {
                    CaptureStage::Navigate => r matches CaptureAction::Navigate(u) && u@ == self.spec_jobs()[index as int].url@,
                    CaptureStage::Settle => r matches CaptureAction::Wait(s) && s == SETTLE_SECS,
                    CaptureStage::Screenshot => r matches CaptureAction::Screenshot,
                    CaptureStage::Persist => r matches CaptureAction::Persist(f) && f@ == self.spec_jobs()[index as int].file_name@,
                },
                _ => r matches CaptureAction::Stop,
            },
    {
        match &self.status {
            CaptureStatus::Running { index, stage } => match stage {
                CaptureStage::Navigate => CaptureAction::Navigate(self.jobs[*index].url.clone()),
                CaptureStage::Settle => CaptureAction::Wait(SETTLE_SECS),
                CaptureStage::Screenshot => CaptureAction::Screenshot,
                CaptureStage::Persist => CaptureAction::Persist(self.jobs[*index].file_name.clone()),
            },
            _ => CaptureAction::Stop,
        }
    }

    /// Records the outcome of the step just performed.
    pub fn report(&mut self, event: CaptureEvent)
        requires
            old(self).wf(),
        ensures
            final(self).wf(),
            final(self).spec_jobs() == old(self).spec_jobs(),
            final(self).spec_status() == next_status(old(self).spec_status(), event, old(self).spec_jobs().len()),
    {
        let n = self.jobs.len();
        let next = match &self.status {
            CaptureStatus::Running { index, stage } => match event {
                CaptureEvent::Failed(message) => {
                    let error = match stage {
                        CaptureStage::Navigate => Error::Navigation(message),
                        CaptureStage::Settle => Error::Capture(message),
                        CaptureStage::Screenshot => Error::Capture(message),
                        CaptureStage::Persist => Error::Persist(message),
                    };
                    CaptureStatus::Aborted { persisted: *index, error }
                },
                CaptureEvent::Succeeded => match stage {
                    CaptureStage::Navigate => CaptureStatus::Running { index: *index, stage: CaptureStage::Settle },
                    CaptureStage::Settle => CaptureStatus::Running { index: *index, stage: CaptureStage::Screenshot },
                    CaptureStage::Screenshot => CaptureStatus::Running { index: *index, stage: CaptureStage::Persist },
                    CaptureStage::Persist => if *index + 1 < n {
                        CaptureStatus::Running { index: *index + 1, stage: CaptureStage::Navigate }
                    } else {
                        CaptureStatus::Finished
                    },
                },
            },
            CaptureStatus::Finished => CaptureStatus::Finished,
            CaptureStatus::Aborted { .. } => {
                return;
            },
        };
        self.status = next;
    }

    /// Where the run stands.
    pub fn status(&self) -> (r: &CaptureStatus)
        ensures
            *r == self.spec_status(),
    {
        &self.status
    }

    /// Whether the run has nothing left to do.
    pub fn is_over(&self) -> (r: bool)
        ensures
            r == !(self.spec_status() is Running),
    {
        !matches!(self.status, CaptureStatus::Running { .. })
    }

    /// How many screenshots have been written.
    pub fn persisted(&self) -> (r: usize)
        requires
            self.wf(),
        ensures
            r == persisted_in(self.spec_status(), self.spec_jobs().len()),
    {
        match &self.status {
            CaptureStatus::Running { index, .. } => *index,
            CaptureStatus::Finished => self.jobs.len(),
            CaptureStatus::Aborted { persisted, .. } => *persisted,
        }
    }

    /// The outcome of a run that is over: the error that ended it, if any.
    pub fn into_result(self) -> (r: Result<(), Error>)
        requires
            !(self.spec_status() is Running),
        ensures
            match self.spec_status() {
                CaptureStatus::Aborted { error, .. } => r == Err::<(), Error>(error),
                _ => r is Ok,
            },
    {
        match self.status {
            CaptureStatus::Aborted { error, .. } => Err(error),
            _ => Ok(()),
        }
    }
}

/// A run that fails while a job is still open has written exactly the jobs
/// before it, and ends with the error of the step that failed.
pub proof fn lemma_failure_aborts(status: CaptureStatus, message: String, n: nat)
    requires
        status is Running,
    ensures
        next_status(status, CaptureEvent::Failed(message), n) matches CaptureStatus::Aborted { persisted, error }
            && persisted == persisted_in(status, n)
            && error == stage_error(status->stage, message),
{
}

} // verus!
