//! A single model of printers and print jobs over two native printing
//! subsystems: CUPS on POSIX systems and the print spooler on Windows.
//!
//! This crate is the pure core of the binding. It holds the plain-data models
//! of the native records, the normalisation tables for their state codes, the
//! projection into [`printer::Printer`] and [`printer_job::PrintJob`], and the
//! protocols by which the variable-length native calls are driven. The native
//! calls themselves are made by the program around it, which hands their
//! answers in as plain values.
//!
//! The functions of this module take the answer of either platform and say
//! what it means. A [`printer::Printer`] says, for each operation, what is to
//! be asked of the platform.
use crate::printer::{printer_views, Printer, PrinterView};
use crate::printer_job::{job_views, PrintJob, PrintJobView};
use crate::shared::narrow::{narrow_text, same_text};
use crate::unix::cups::{listed_dests, queued_jobs, CupsDestT, CupsJobS};
use crate::unix::{job_of_cups_job, printer_of_dest};
use crate::windows::winspool::{Enumeration, PrinterInfo2w};
use crate::windows::{jobs_of_helper, printers_of_enumeration, HelperOutput};
use vstd::prelude::*;

pub mod printer;
pub mod printer_job;
pub mod shared;
pub mod state;
pub mod unix;
pub mod windows;

verus! {

/// What the platform answered when it was asked for its printers.
#[derive(Debug)]
pub enum PrintersReply {
    /// The destinations that CUPS enumerated.
    Cups(Vec<CupsDestT>),
    /// How the enumeration of the spooler ended.
    Winspool(Enumeration<PrinterInfo2w>),
}

/// What the platform answered when it was handed a file to print.
#[derive(Debug)]
pub enum PrintFileReply {
    /// The job ID that the print call of CUPS returned.
    Cups { job_id: i32 },
    /// Whether the helper program that prints on Windows could be started.
    Helper { spawned: bool },
}

/// What the platform answered when it was asked for the jobs of a queue.
#[derive(Debug)]
pub enum PrintQueueReply {
    /// The count that the job query of CUPS returned, and the records read
    /// from its array.
    Cups { number_of_jobs: i32, jobs: Vec<CupsJobS> },
    /// What became of the helper process that reports jobs on Windows.
    Helper(HelperOutput),
}

/// What the platform answered when it was asked to cancel a job.
#[derive(Debug)]
pub enum CancelJobReply {
    /// What the cancel call of CUPS returned.
    Cups { native_result: i32 },
    /// Nothing: on Windows no job is canceled.
    Winspool,
}

/// What the platform answered when it was asked for its last error.
#[derive(Debug)]
pub enum LastErrorReply {
    /// The message that CUPS gave, `None` for a null pointer.
    Cups(Option<Vec<u8>>),
    /// Nothing: on Windows no message is kept.
    Winspool,
}

/// The printers that an answer describes.
pub open spec fn printers_of(reply: PrintersReply) -> Seq<PrinterView> {
    match reply {
        PrintersReply::Cups(dests) => listed_dests(dests@).map_values(
            |dest: CupsDestT| printer_of_dest(dest),
        ),
        PrintersReply::Winspool(found) => printers_of_enumeration(found),
    }
}

/// The jobs that an answer describes.
pub open spec fn jobs_of(reply: PrintQueueReply) -> Seq<PrintJobView> {
    match reply {
        PrintQueueReply::Cups { number_of_jobs, jobs } => queued_jobs(
            number_of_jobs as int,
            jobs@,
        ).map_values(|job: CupsJobS| job_of_cups_job(job)),
        PrintQueueReply::Helper(output) => jobs_of_helper(output),
    }
}

/// Whether a printer goes by `name`: it is its label or its system name.
pub open spec fn goes_by(printer: PrinterView, name: Seq<char>) -> bool {
    printer.name == name || printer.system_name == name
}

/// Whether the platform took the file.
pub open spec fn file_was_sent(reply: PrintFileReply) -> bool {
    match reply {
        PrintFileReply::Cups { job_id } => job_id != 0,
        PrintFileReply::Helper { spawned } => spawned,
    }
}

/// The text of the error that `print_file` returns where the platform did not
/// take the file.
pub open spec fn send_failure_text(reply: PrintFileReply) -> Seq<char> {
    match reply {
        PrintFileReply::Cups { .. } => "failure on send document to printer"@,
        PrintFileReply::Helper { .. } => "failure to send document to printer"@,
    }
}

/// The outcome of printing a file on a printer, from what the platform
/// answered: `Ok(true)` where it took the file, else the error text of the
/// platform's binding.
pub fn print_file(reply: &PrintFileReply) -> (outcome: Result<bool, String>)
    ensures
        file_was_sent(*reply) ==> outcome == Ok::<bool, String>(true),
        !file_was_sent(*reply) ==> outcome is Err && outcome->Err_0@ == send_failure_text(*reply),
{
    match reply {
        PrintFileReply::Cups { job_id } => unix::print(*job_id),
        PrintFileReply::Helper { spawned } => windows::print(*spawned),
    }
}

/// All the printers of the system, from what the platform answered.
pub fn get_printers(reply: PrintersReply) -> (printers: Vec<Printer>)
    ensures
        printer_views(printers@) == printers_of(reply),
{
    match reply {
        PrintersReply::Cups(dests) => unix::get_printers(dests),
        PrintersReply::Winspool(found) => windows::get_printers(&found),
    }
}

/// The first printer of the system that goes by `name`, be it by its label or
/// by its system name; `None` where no printer does.
pub fn get_printer_by_name(reply: PrintersReply, name: &str) -> (found: Option<Printer>)
    ensures
        found is Some <==> exists|i: int|
            0 <= i < printers_of(reply).len() && goes_by(#[trigger] printers_of(reply)[i], name@),
        found is Some ==> exists|i: int|
            0 <= i < printers_of(reply).len() && found->0@ == #[trigger] printers_of(reply)[i]
                && goes_by(printers_of(reply)[i], name@) && forall|j: int|
                0 <= j < i ==> !goes_by(#[trigger] printers_of(reply)[j], name@),
{
    let printers = get_printers(reply);
    let ghost views = printers_of(reply);
    let mut i: usize = 0;
    while i < printers.len()
        invariant
            i <= printers@.len(),
            views == printers_of(reply),
            printer_views(printers@) == views,
            forall|j: int| 0 <= j < i ==> !goes_by(#[trigger] views[j], name@),
        decreases printers@.len() - i,
    {
        let printer = &printers[i];
        assert(views[i as int] == printer@);
        if same_text(printer.name.as_str(), name) || same_text(printer.system_name.as_str(), name) {
            return Some(printer.clone());
        }
        i = i + 1;
    }
    None
}

/// The jobs of the queue of a printer, from what the platform answered.
pub fn print_queue(reply: PrintQueueReply) -> (queue: Vec<PrintJob>)
    ensures
        job_views(queue@) == jobs_of(reply),
{
    match reply {
        PrintQueueReply::Cups { number_of_jobs, jobs } => unix::print_queue(number_of_jobs, jobs),
        PrintQueueReply::Helper(output) => windows::print_queue(&output),
    }
}

/// Whether a job was canceled, from what the platform answered: on CUPS
/// whether the cancel call returned something other than zero, on Windows
/// never.
pub fn cancel_job(reply: &CancelJobReply) -> (canceled: bool)
    ensures
        canceled == match *reply {
            CancelJobReply::Cups { native_result } => native_result != 0,
            CancelJobReply::Winspool => false,
        },
{
    match reply {
        CancelJobReply::Cups { native_result } => unix::cancel_job(*native_result),
        CancelJobReply::Winspool => false,
    }
}

/// The text of the platform's last error: the message of CUPS, and the empty
/// text on Windows.
pub fn get_last_error(reply: &LastErrorReply) -> (text: String)
    ensures
        text@ == match *reply {
            LastErrorReply::Cups(message) => narrow_text(message),
            LastErrorReply::Winspool => Seq::<char>::empty(),
        },
{
    match reply {
        LastErrorReply::Cups(message) => unix::get_last_error(message),
        LastErrorReply::Winspool => String::new(),
    }
}

} // verus!
