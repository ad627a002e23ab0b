//! Print jobs as the caller sees them, whatever the platform.
use vstd::prelude::*;

verus! {

/// The selector of the CUPS job query: which jobs of a queue to list.
#[derive(Debug, Clone, Copy, PartialEq, Eq, Structural)]
pub enum CupStates {
    CupsWhichjobsAll,
    CupsWhichjobsActive,
    CupsWhichjobsCompleted,
}

impl CupStates {
    /// The number that CUPS gives to the selector.
    pub open spec fn code_value(self) -> int {
        match self {
            CupStates::CupsWhichjobsAll => -1,
            CupStates::CupsWhichjobsActive => 0,
            CupStates::CupsWhichjobsCompleted => 1,
        }
    }

    /// The number that CUPS gives to the selector, as the job query takes it.
    pub fn code(&self) -> (code: i32)
        ensures
            code == self.code_value(),
    {
        match self {
            CupStates::CupsWhichjobsAll => -1,
            CupStates::CupsWhichjobsActive => 0,
            CupStates::CupsWhichjobsCompleted => 1,
        }
    }
}

/// The state of a print job.
#[derive(Debug, Clone, Copy, PartialEq, Eq, Structural)]
pub enum JobState {
    /// The job is waiting to be printed.
    PENDING,
    /// The job is held for printing.
    HELD,
    /// The job is currently printing.
    PROCESSING,
    /// The job has been stopped.
    STOPPED,
    /// The job has been canceled.
    CANCELED,
    /// The job has aborted due to an error.
    ABORTED,
    /// The job has completed successfully.
    COMPLETED,
    /// Any other state: an error, a lack of resources, a manual intervention.
    UNKNOWN,
}

/// A print job of a queue. Its numbers and times are carried as text, because
/// the platforms disagree on their units and epochs.
#[derive(Debug)]
pub struct PrintJob {
    pub id: String,
    pub dest: String,
    pub title: String,
    pub user: String,
    pub format: String,
    pub state: JobState,
    pub size: String,
    pub priority: String,
    pub completed_time: String,
    pub creation_time: String,
    pub processing_time: String,
}

/// What a [`PrintJob`] holds, field by field.
pub struct PrintJobView {
    pub id: Seq<char>,
    pub dest: Seq<char>,
    pub title: Seq<char>,
    pub user: Seq<char>,
    pub format: Seq<char>,
    pub state: JobState,
    pub size: Seq<char>,
    pub priority: Seq<char>,
    pub completed_time: Seq<char>,
    pub creation_time: Seq<char>,
    pub processing_time: Seq<char>,
}

impl View for PrintJob {
    type V = PrintJobView;

    open spec fn view(&self) -> PrintJobView {
        PrintJobView {
            id: self.id@,
            dest: self.dest@,
            title: self.title@,
            user: self.user@,
            format: self.format@,
            state: self.state,
            size: self.size@,
            priority: self.priority@,
            completed_time: self.completed_time@,
            creation_time: self.creation_time@,
            processing_time: self.processing_time@,
        }
    }
}

/// What the jobs of a sequence hold, job by job.
pub open spec fn job_views(jobs: Seq<PrintJob>) -> Seq<PrintJobView> {
    jobs.map_values(|job: PrintJob| job@)
}

impl Clone for PrintJob {
    fn clone(&self) -> (job: PrintJob)
        ensures
            job == *self,
    {
        PrintJob {
            id: self.id.clone(),
            dest: self.dest.clone(),
            title: self.title.clone(),
            user: self.user.clone(),
            format: self.format.clone(),
            state: self.state,
            size: self.size.clone(),
            priority: self.priority.clone(),
            completed_time: self.completed_time.clone(),
            creation_time: self.creation_time.clone(),
            processing_time: self.processing_time.clone(),
        }
    }
}

} // verus!
