//! The binding to the Windows print spooler, and to the helper processes that
//! stand in where the spooler's own calls fall short: one that prints a
//! document, and one that reports the jobs of a queue.
use crate::printer::{printer_views, projected_printer, Printer, PrinterView};
use crate::printer_job::{job_views, PrintJob, PrintJobView};
use crate::shared::interface::PlatformPrinterGetters;
use crate::shared::narrow::{text_of_bytes, utf8_or_empty};
use crate::state::{winspool_printer_state_from, winspool_printer_state_of_text};
use crate::windows::json::json_document;
use crate::windows::powershell::jobs_of_document;
use crate::printer::projected_job;
use crate::printer_job::JobState;
use crate::shared::wide::{lemma_wide_round_trip, no_nul, wide_form, wide_text};
use crate::windows::util::jobinfo::JobInfo2w;
use crate::windows::winspool::{
    is_named_printer, named_printers, Enumeration, PrinterInfo2w,
};
use vstd::prelude::*;
use vstd::string::StringExecFns;

pub mod json;
pub mod powershell;
pub mod util;
pub mod winspool;

verus! {

/// The printer that a spooler record describes. Its state follows from the
/// record's status code.
pub open spec fn printer_of_info(info: PrinterInfo2w) -> PrinterView {
    projected_printer(&info, winspool_printer_state_of_text(info.state_text()))
}

/// The printers that an enumeration of the spooler found: one for each of its
/// records, in their order, and none where the enumeration is incomplete.
pub open spec fn printers_of_enumeration(found: Enumeration<PrinterInfo2w>) -> Seq<PrinterView> {
    match found {
        Enumeration::Complete(records) => records@.map_values(
            |info: PrinterInfo2w| printer_of_info(info),
        ),
        Enumeration::Incomplete => Seq::<PrinterView>::empty(),
    }
}

/// The printers of the system, from what the enumeration of the spooler
/// found.
pub fn get_printers(found: &Enumeration<PrinterInfo2w>) -> (printers: Vec<Printer>)
    ensures
        printer_views(printers@) == printers_of_enumeration(*found),
{
    let mut printers: Vec<Printer> = Vec::new();
    match found {
        Enumeration::Complete(available_printers) => {
            let mut i: usize = 0;
            while i < available_printers.len()
                invariant
                    i <= available_printers@.len(),
                    printers@.len() == i,
                    forall|j: int|
                        0 <= j < i ==> (#[trigger] printers@[j])@ == printer_of_info(
                            available_printers@[j],
                        ),
                decreases available_printers@.len() - i,
            {
                let printer = &available_printers[i];
                let winspool_state = printer.get_state();
                let state = winspool_printer_state_from(winspool_state.as_str());
                printers.push(Printer::from_platform_printer_getters(printer, state));
                i = i + 1;
            }
            assert(printer_views(printers@) =~= available_printers@.map_values(
                |info: PrinterInfo2w| printer_of_info(info),
            ));
        },
        Enumeration::Incomplete => {
        },
    }
    printers
}

/// The path of the helper program that prints a document: it is looked for
/// in the directory for temporary files, whose path `temp_dir` ends with a
/// separator.
pub fn print_helper_path(temp_dir: &str) -> (path: String)
    ensures
        path@ == temp_dir@ + "SumatraPDF.exe"@,
{
    let mut path = temp_dir.to_owned();
    path.append("SumatraPDF.exe");
    path
}

/// The arguments with which the helper program prints a file on a printer
/// without showing itself.
pub fn print_helper_arguments(printer_system_name: &str, file_path: &str) -> (arguments: Vec<
    String,
>)
    ensures
        arguments@.len() == 4,
        arguments@[0]@ == "-silent"@,
        arguments@[1]@ == "-print-to"@,
        arguments@[2]@ == printer_system_name@,
        arguments@[3]@ == file_path@,
{
    let mut arguments: Vec<String> = Vec::new();
    arguments.push("-silent".to_owned());
    arguments.push("-print-to".to_owned());
    arguments.push(printer_system_name.to_owned());
    arguments.push(file_path.to_owned());
    arguments
}

/// The outcome of handing a file to the helper program that prints it:
/// success when the helper could be started, else an error text.
pub fn print(spawned: bool) -> (outcome: Result<bool, String>)
    ensures
        spawned ==> outcome == Ok::<bool, String>(true),
        !spawned ==> outcome is Err && outcome->Err_0@ == "failure to send document to printer"@,
{
    if spawned {
        Ok(true)
    } else {
        Err("failure to send document to printer".to_owned())
    }
}

/// What became of the helper process that reports the jobs of a queue.
#[derive(Debug)]
pub struct HelperOutput {
    /// Whether the process could be started.
    pub launched: bool,
    /// Whether the process ended with success.
    pub succeeded: bool,
    /// What the process wrote to its standard output.
    pub stdout: Vec<u8>,
}

/// The jobs that the helper process reported: those of the document that it
/// wrote, and none where it could not be started, failed, or wrote what is no
/// document of jobs.
pub open spec fn jobs_of_helper(output: HelperOutput) -> Seq<PrintJobView> {
    if output.launched && output.succeeded {
        jobs_of_document(json_document(utf8_or_empty(output.stdout@)))
    } else {
        Seq::<PrintJobView>::empty()
    }
}

/// The jobs of a queue, from what became of the helper process that was
/// asked for them.
pub fn print_queue(output: &HelperOutput) -> (queue: Vec<PrintJob>)
    ensures
        job_views(queue@) == jobs_of_helper(*output),
{
    if output.launched && output.succeeded {
        let stdout = text_of_bytes(output.stdout.as_slice());
        powershell::get_jobs(stdout.as_str())
    } else {
        let queue: Vec<PrintJob> = Vec::new();
        queue
    }
}

/// Whether the job was canceled. The Windows binding cancels no job: the
/// answer is `false` whatever the printer and the job.
pub fn cancel_job(_printer_system_name: &str, _job_id: i32) -> (canceled: bool)
    ensures
        !canceled,
{
    false
}

/// Whether the wide field holds the text `text`: its buffer begins with the
/// wide form of the text, terminator included.
pub open spec fn holds_wide(field: Option<Vec<u16>>, text: Seq<char>) -> bool {
    field is Some && no_nul(text) && wide_form(text).len() <= field->0@.len() && field->0@.take(
        wide_form(text).len() as int,
    ) == wide_form(text)
}

/// A text that a wide field holds is what the field reads as, character for
/// character.
pub proof fn lemma_held_wide_is_read(field: Option<Vec<u16>>, text: Seq<char>)
    requires
        holds_wide(field, text),
    ensures
        wide_text(field) == text,
{
    let buffer = field->0;
    let n = wide_form(text).len() as int;
    let behind = buffer@.subrange(n, buffer@.len() as int);
    assert(buffer@ =~= wide_form(text) + behind);
    lemma_wide_round_trip(text, buffer, behind);
}

/// A printer record with every text field filled is projected without loss:
/// the printer holds the texts that the record holds, each unchanged.
pub proof fn lemma_info_projection_keeps_texts(
    info: PrinterInfo2w,
    name: Seq<char>,
    driver_name: Seq<char>,
    location: Seq<char>,
)
    requires
        holds_wide(info.p_printer_name, name),
        holds_wide(info.p_driver_name, driver_name),
        holds_wide(info.p_location, location),
    ensures
        printer_of_info(info).name == name,
        printer_of_info(info).system_name == name,
        printer_of_info(info).driver_name == driver_name,
        printer_of_info(info).location == location,
        printer_of_info(info).uri == Seq::<char>::empty(),
{
    lemma_held_wide_is_read(info.p_printer_name, name);
    lemma_held_wide_is_read(info.p_driver_name, driver_name);
    lemma_held_wide_is_read(info.p_location, location);
}

/// A job record of the spooler with every text field filled is projected
/// without loss: the job holds the texts that the record holds, each
/// unchanged.
pub proof fn lemma_job_info_projection_keeps_texts(
    info: JobInfo2w,
    state: JobState,
    dest: Seq<char>,
    title: Seq<char>,
    user: Seq<char>,
    format: Seq<char>,
)
    requires
        holds_wide(info.p_printer_name, dest),
        holds_wide(info.p_document, title),
        holds_wide(info.p_user_name, user),
        holds_wide(info.p_datatype, format),
    ensures
        projected_job(&info, state).dest == dest,
        projected_job(&info, state).title == title,
        projected_job(&info, state).user == user,
        projected_job(&info, state).format == format,
{
    lemma_held_wide_is_read(info.p_printer_name, dest);
    lemma_held_wide_is_read(info.p_document, title);
    lemma_held_wide_is_read(info.p_user_name, user);
    lemma_held_wide_is_read(info.p_datatype, format);
}

/// Whether every record with a name has one that reads as a text of at least
/// one character.
pub open spec fn names_are_readable(records: Seq<PrinterInfo2w>) -> bool {
    forall|j: int|
        0 <= j < records.len() && (#[trigger] records[j]).p_printer_name is Some ==> wide_text(
            records[j].p_printer_name,
        ).len() > 0
}

/// Every printer that the enumeration of the spooler lists stems from a
/// record whose name is there, and its system name is what that name reads
/// as. So no listed printer has an empty system name, unless a record has a
/// name that begins with its terminator.
pub proof fn lemma_enumerated_printers_are_named(records: Seq<PrinterInfo2w>, i: int)
    requires
        0 <= i < named_printers(records).len(),
    ensures
        named_printers(records)[i].p_printer_name is Some,
        printer_of_info(named_printers(records)[i]).system_name == wide_text(
            named_printers(records)[i].p_printer_name,
        ),
        names_are_readable(records) ==> printer_of_info(
            named_printers(records)[i],
        ).system_name.len() > 0,
{
    let named = named_printers(records);
    let keep = |record: PrinterInfo2w| is_named_printer(record);
    records.lemma_filter_pred(keep, i);
    records.lemma_filter_contains_rev(keep, named[i]);
}

} // verus!
