//! Printers as the caller sees them, whatever the platform.
use crate::printer_job::{JobState, PrintJob, PrintJobView};
use crate::shared::interface::{JobGetters, PlatformPrinterGetters};
use vstd::prelude::*;

verus! {

/// The state of a printer.
#[derive(Debug, Clone, Copy, PartialEq, Eq, Structural)]
pub enum PrinterState {
    /// The printer is able to receive jobs; it may be idle.
    READY,
    /// The printer is not accepting jobs; it may be stopped.
    PAUSED,
    /// The printer is printing a document.
    PRINTING,
    /// Any other state: an error, a lack of resources, a manual intervention.
    UNKNOWN,
}

/// A printer of the system. `system_name` identifies it: every operation on
/// the printer is addressed to that name.
#[derive(Debug)]
pub struct Printer {
    /// The label under which the printer is shown.
    pub name: String,
    /// The name of the printer exactly as the system has it.
    pub system_name: String,
    /// The name of the printer's driver.
    pub driver_name: String,
    /// The URI of the printer, empty where the platform has none.
    pub uri: String,
    /// Where the printer stands, empty where the platform does not say.
    pub location: String,
    /// Whether the printer is the system's default.
    pub is_default: bool,
    /// Whether the printer is shared.
    pub is_shared: bool,
    /// The state of the printer.
    pub state: PrinterState,
}

/// What a [`Printer`] holds, field by field.
pub struct PrinterView {
    pub name: Seq<char>,
    pub system_name: Seq<char>,
    pub driver_name: Seq<char>,
    pub uri: Seq<char>,
    pub location: Seq<char>,
    pub is_default: bool,
    pub is_shared: bool,
    pub state: PrinterState,
}

impl View for Printer {
    type V = PrinterView;

    open spec fn view(&self) -> PrinterView {
        PrinterView {
            name: self.name@,
            system_name: self.system_name@,
            driver_name: self.driver_name@,
            uri: self.uri@,
            location: self.location@,
            is_default: self.is_default,
            is_shared: self.is_shared,
            state: self.state,
        }
    }
}

impl Clone for Printer {
    fn clone(&self) -> (printer: Printer)
        ensures
            printer == *self,
    {
        Printer {
            name: self.name.clone(),
            system_name: self.system_name.clone(),
            driver_name: self.driver_name.clone(),
            uri: self.uri.clone(),
            location: self.location.clone(),
            is_default: self.is_default,
            is_shared: self.is_shared,
            state: self.state,
        }
    }
}

/// What a printer asks of the platform. The program that makes the native
/// calls carries the request out and hands the platform's answer to the
/// function of the crate root that is named like the operation.
#[derive(Debug)]
pub enum Request {
    /// Print these bytes under this job name.
    Print { printer_name: String, buffer: Vec<u8>, job_name: Option<String> },
    /// Print the file at this path under this job name.
    PrintFile { printer_name: String, file_path: String, job_name: Option<String> },
    /// List the jobs of the queue that these two selectors of CUPS pick.
    PrintQueue { printer_name: String, myjobs: i32, whichjobs: i32 },
    /// Cancel the job with this ID.
    CancelJob { printer_name: String, job_id: i32 },
}

/// What a [`Request`] holds, field by field.
pub enum RequestView {
    Print { printer_name: Seq<char>, buffer: Seq<u8>, job_name: Option<Seq<char>> },
    PrintFile { printer_name: Seq<char>, file_path: Seq<char>, job_name: Option<Seq<char>> },
    PrintQueue { printer_name: Seq<char>, myjobs: i32, whichjobs: i32 },
    CancelJob { printer_name: Seq<char>, job_id: i32 },
}

/// The text of a job name that may be missing.
pub open spec fn job_name_view(job_name: Option<&str>) -> Option<Seq<char>> {
    match job_name {
        Some(name) => Some(name@),
        None => None,
    }
}

impl View for Request {
    type V = RequestView;

    open spec fn view(&self) -> RequestView {
        match *self {
            Request::Print { printer_name, buffer, job_name } => RequestView::Print {
                printer_name: printer_name@,
                buffer: buffer@,
                job_name: match job_name {
                    Some(name) => Some(name@),
                    None => None,
                },
            },
            Request::PrintFile { printer_name, file_path, job_name } => RequestView::PrintFile {
                printer_name: printer_name@,
                file_path: file_path@,
                job_name: match job_name {
                    Some(name) => Some(name@),
                    None => None,
                },
            },
            Request::PrintQueue { printer_name, myjobs, whichjobs } => RequestView::PrintQueue {
                printer_name: printer_name@,
                myjobs,
                whichjobs,
            },
            Request::CancelJob { printer_name, job_id } => RequestView::CancelJob {
                printer_name: printer_name@,
                job_id,
            },
        }
    }
}

fn owned_job_name(job_name: Option<&str>) -> (owned: Option<String>)
    ensures
        owned is Some <==> job_name is Some,
        owned is Some ==> owned->0@ == job_name->0@,
{
    match job_name {
        Some(name) => Some(name.to_owned()),
        None => None,
    }
}

/// What the printers of a sequence hold, printer by printer.
pub open spec fn printer_views(printers: Seq<Printer>) -> Seq<PrinterView> {
    printers.map_values(|printer: Printer| printer@)
}

/// The printer that the native record `platform_printer` describes, in the
/// state `state`.
pub open spec fn projected_printer<T: PlatformPrinterGetters + ?Sized>(
    platform_printer: &T,
    state: PrinterState,
) -> PrinterView {
    PrinterView {
        name: platform_printer.name_text(),
        system_name: platform_printer.system_name_text(),
        driver_name: platform_printer.marker_and_model_text(),
        uri: platform_printer.uri_text(),
        location: platform_printer.location_text(),
        is_default: platform_printer.is_default_value(),
        is_shared: platform_printer.is_shared_value(),
        state,
    }
}

/// The job that the native record `select_job` describes, in the state
/// `state`.
pub open spec fn projected_job<T: JobGetters + ?Sized>(
    select_job: &T,
    state: JobState,
) -> PrintJobView {
    PrintJobView {
        id: select_job.id_text(),
        dest: select_job.dest_text(),
        title: select_job.title_text(),
        user: select_job.user_text(),
        format: select_job.format_text(),
        state,
        size: select_job.size_text(),
        priority: select_job.priority_text(),
        completed_time: select_job.completed_time_text(),
        creation_time: select_job.creation_time_text(),
        processing_time: select_job.processing_time_text(),
    }
}

impl Printer {
    /// Projects a native printer record into the domain model. Every field of
    /// the result is what the record's accessor of that field gives; the state
    /// is the one handed in.
    pub fn from_platform_printer_getters(
        platform_printer: &dyn PlatformPrinterGetters,
        state: PrinterState,
    ) -> (printer: Printer)
        ensures
            printer@ == projected_printer(platform_printer, state),
    {
        Printer {
            name: platform_printer.get_name(),
            system_name: platform_printer.get_system_name(),
            driver_name: platform_printer.get_marker_and_model(),
            location: platform_printer.get_location(),
            state,
            uri: platform_printer.get_uri(),
            is_default: platform_printer.get_is_default(),
            is_shared: platform_printer.get_is_shared(),
        }
    }

    /// Projects a native job record into the domain model. Every field of the
    /// result is what the record's accessor of that field gives; the state is
    /// the one handed in.
    pub fn from_job_getters(select_job: &dyn JobGetters, state: JobState) -> (job: PrintJob)
        ensures
            job@ == projected_job(select_job, state),
    {
        PrintJob {
            id: select_job.get_id(),
            dest: select_job.get_dest(),
            title: select_job.get_title(),
            user: select_job.get_user(),
            format: select_job.get_format(),
            state,
            size: select_job.get_size(),
            priority: select_job.get_priority(),
            creation_time: select_job.get_creation_time(),
            completed_time: select_job.get_completed_time(),
            processing_time: select_job.get_processing_time(),
        }
    }

    /// The request to print the bytes of `buffer` on this printer. It is
    /// addressed to the printer's system name.
    pub fn print(&self, buffer: &[u8], job_name: Option<&str>) -> (request: Request)
        ensures
            request@ == (RequestView::Print {
                printer_name: self.system_name@,
                buffer: buffer@,
                job_name: job_name_view(job_name),
            }),
    {
        Request::Print {
            printer_name: self.system_name.clone(),
            buffer: vstd::slice::slice_to_vec(buffer),
            job_name: owned_job_name(job_name),
        }
    }

    /// The request to print the file at `file_path` on this printer. It is
    /// addressed to the printer's system name.
    pub fn print_file(&self, file_path: &str, job_name: Option<&str>) -> (request: Request)
        ensures
            request@ == (RequestView::PrintFile {
                printer_name: self.system_name@,
                file_path: file_path@,
                job_name: job_name_view(job_name),
            }),
    {
        Request::PrintFile {
            printer_name: self.system_name.clone(),
            file_path: file_path.to_owned(),
            job_name: owned_job_name(job_name),
        }
    }

    /// The request to list the jobs of this printer's queue. It is addressed
    /// to the printer's system name.
    pub fn print_queue(&self, myjobs: i32, whichjobs: i32) -> (request: Request)
        ensures
            request@ == (RequestView::PrintQueue {
                printer_name: self.system_name@,
                myjobs,
                whichjobs,
            }),
    {
        Request::PrintQueue { printer_name: self.system_name.clone(), myjobs, whichjobs }
    }

    /// The request to cancel a job of this printer's queue. It is addressed
    /// to the printer's system name.
    pub fn cancel_job(&self, job_id: i32) -> (request: Request)
        ensures
            request@ == (RequestView::CancelJob { printer_name: self.system_name@, job_id }),
    {
        Request::CancelJob { printer_name: self.system_name.clone(), job_id }
    }

    /// The text of the platform's last error, from what the platform
    /// answered.
    pub fn get_last_error(reply: &crate::LastErrorReply) -> (text: String)
        ensures
            text@ == match *reply {
                crate::LastErrorReply::Cups(message) => crate::shared::narrow::narrow_text(message),
                crate::LastErrorReply::Winspool => Seq::<char>::empty(),
            },
    {
        crate::get_last_error(reply)
    }
}

} // verus!
