//! The binding to CUPS: what its answers mean in the domain model.
use crate::printer::{printer_views, projected_job, projected_printer, Printer, PrinterView};
use crate::printer_job::{job_views, PrintJob, PrintJobView};
use crate::shared::interface::{JobGetters, PlatformPrinterGetters};
use crate::shared::narrow::narrow_text;
use crate::state::{
    cups_printer_state_from, cups_printer_state_of_text, job_state_from, job_state_of_text,
};
use crate::shared::decimal::decimal;
use crate::shared::narrow::lemma_utf8_round_trip;
use crate::unix::cups::{
    is_listed, lemma_present_option, listed_dests, option_value, queued_jobs, CupsDestT, CupsJobS,
};
use vstd::utf8::encode_utf8;
use vstd::prelude::*;

pub mod cups;

verus! {

/// The printer that a CUPS destination describes. Its state follows from the
/// destination's `printer-state` attribute.
pub open spec fn printer_of_dest(dest: CupsDestT) -> PrinterView {
    projected_printer(&dest, cups_printer_state_of_text(dest.state_text()))
}

/// The job that a CUPS job record describes. Its state follows from the
/// record's state code.
pub open spec fn job_of_cups_job(job: CupsJobS) -> PrintJobView {
    projected_job(&job, job_state_of_text(job.state_text()))
}

/// The printers of the system, from the destinations that CUPS enumerated:
/// one printer for each destination that the binding lists, in their order.
pub fn get_printers(dests: Vec<CupsDestT>) -> (printers: Vec<Printer>)
    ensures
        printer_views(printers@) == listed_dests(dests@).map_values(
            |dest: CupsDestT| printer_of_dest(dest),
        ),
{
    let cups_dests = cups::get_dests(dests);
    let mut printers: Vec<Printer> = Vec::new();
    let mut i: usize = 0;
    while i < cups_dests.len()
        invariant
            i <= cups_dests@.len(),
            printers@.len() == i,
            forall|j: int|
                0 <= j < i ==> (#[trigger] printers@[j])@ == printer_of_dest(cups_dests@[j]),
        decreases cups_dests@.len() - i,
    {
        let dest = &cups_dests[i];
        let cups_state = dest.get_state();
        let state = cups_printer_state_from(cups_state.as_str());
        printers.push(Printer::from_platform_printer_getters(dest, state));
        i = i + 1;
    }
    assert(printer_views(printers@) =~= cups_dests@.map_values(
        |dest: CupsDestT| printer_of_dest(dest),
    ));
    printers
}

/// The outcome of sending a file to a CUPS printer, from the job ID that the
/// native print call returned: success when the ID is not zero, else an error
/// text.
pub fn print(job_id: i32) -> (outcome: Result<bool, String>)
    ensures
        job_id != 0 ==> outcome == Ok::<bool, String>(true),
        job_id == 0 ==> outcome is Err && outcome->Err_0@
            == "failure on send document to printer"@,
{
    if cups::print_file(job_id) {
        Ok(true)
    } else {
        Err("failure on send document to printer".to_owned())
    }
}

/// The jobs of a queue, from what the CUPS job query returned: one job for
/// each record it returned, in their order.
pub fn print_queue(number_of_jobs: i32, jobs: Vec<CupsJobS>) -> (queue: Vec<PrintJob>)
    ensures
        job_views(queue@) == queued_jobs(number_of_jobs as int, jobs@).map_values(
            |job: CupsJobS| job_of_cups_job(job),
        ),
{
    let cups_jobs = cups::get_print_queue(number_of_jobs, jobs);
    let mut queue: Vec<PrintJob> = Vec::new();
    let mut i: usize = 0;
    while i < cups_jobs.len()
        invariant
            i <= cups_jobs@.len(),
            queue@.len() == i,
            forall|j: int| 0 <= j < i ==> (#[trigger] queue@[j])@ == job_of_cups_job(cups_jobs@[j]),
        decreases cups_jobs@.len() - i,
    {
        let job = &cups_jobs[i];
        let cups_state = job.get_state();
        let state = job_state_from(cups_state.as_str());
        queue.push(Printer::from_job_getters(job, state));
        i = i + 1;
    }
    queue
}

/// Whether CUPS canceled the job, from what the native cancel call returned.
pub fn cancel_job(native_result: i32) -> (canceled: bool)
    ensures
        canceled == (native_result != 0),
{
    cups::cancel_job(native_result)
}

/// The text of the last error that CUPS reported.
pub fn get_last_error(message: &Option<Vec<u8>>) -> (text: String)
    ensures
        text@ == narrow_text(*message),
{
    cups::get_last_error(message)
}

/// Whether the destination keeps, under the name `key`, the text `text`: the
/// first of its attributes of that name has the UTF-8 bytes of the text as
/// its value.
pub open spec fn keeps_option(dest: CupsDestT, key: Seq<char>, text: Seq<char>) -> bool {
    exists|at: int|
        0 <= at < dest.options@.len() && (#[trigger] dest.options@[at]).name@ == encode_utf8(key)
            && dest.options@[at].value@ == encode_utf8(text) && forall|i: int|
            0 <= i < at ==> (#[trigger] dest.options@[i]).name@ != encode_utf8(key)
}

/// A text that a destination keeps as an attribute is what the lookup of the
/// attribute gives, character for character.
pub proof fn lemma_kept_option_is_read(dest: CupsDestT, key: Seq<char>, text: Seq<char>)
    requires
        keeps_option(dest, key, text),
    ensures
        option_value(dest.options@, key) == text,
{
    let at = choose|at: int|
        0 <= at < dest.options@.len() && (#[trigger] dest.options@[at]).name@ == encode_utf8(key)
            && dest.options@[at].value@ == encode_utf8(text) && forall|i: int|
            0 <= i < at ==> (#[trigger] dest.options@[i]).name@ != encode_utf8(key);
    lemma_present_option(dest.options@, key, at);
    lemma_utf8_round_trip(text);
}

/// A destination with every text field filled is projected without loss: the
/// printer holds the texts that the destination holds, each unchanged.
pub proof fn lemma_dest_projection_keeps_texts(
    dest: CupsDestT,
    system_name: Seq<char>,
    name: Seq<char>,
    driver_name: Seq<char>,
    uri: Seq<char>,
    location: Seq<char>,
)
    requires
        dest.name is Some,
        dest.name->0@ == encode_utf8(system_name),
        keeps_option(dest, "printer-info"@, name),
        keeps_option(dest, "printer-make-and-model"@, driver_name),
        keeps_option(dest, "device-uri"@, uri),
        keeps_option(dest, "printer-location"@, location),
    ensures
        printer_of_dest(dest).system_name == system_name,
        printer_of_dest(dest).name == name,
        printer_of_dest(dest).driver_name == driver_name,
        printer_of_dest(dest).uri == uri,
        printer_of_dest(dest).location == location,
        printer_of_dest(dest).is_default == (dest.is_default == 1),
{
    lemma_utf8_round_trip(system_name);
    lemma_kept_option_is_read(dest, "printer-info"@, name);
    lemma_kept_option_is_read(dest, "printer-make-and-model"@, driver_name);
    lemma_kept_option_is_read(dest, "device-uri"@, uri);
    lemma_kept_option_is_read(dest, "printer-location"@, location);
}

/// A job record with every text field filled is projected without loss: the
/// job holds the texts that the record holds, each unchanged, and each number
/// of the record as its decimal text.
pub proof fn lemma_job_projection_keeps_texts(
    job: CupsJobS,
    dest: Seq<char>,
    title: Seq<char>,
    user: Seq<char>,
    format: Seq<char>,
)
    requires
        job.dest is Some && job.dest->0@ == encode_utf8(dest),
        job.title is Some && job.title->0@ == encode_utf8(title),
        job.user is Some && job.user->0@ == encode_utf8(user),
        job.format is Some && job.format->0@ == encode_utf8(format),
    ensures
        job_of_cups_job(job).dest == dest,
        job_of_cups_job(job).title == title,
        job_of_cups_job(job).user == user,
        job_of_cups_job(job).format == format,
        job_of_cups_job(job).id == decimal(job.id as int),
        job_of_cups_job(job).size == decimal(job.size as int),
        job_of_cups_job(job).priority == decimal(job.priority as int),
        job_of_cups_job(job).creation_time == decimal(job.creation_time as int),
        job_of_cups_job(job).completed_time == decimal(job.completed_time as int),
        job_of_cups_job(job).processing_time == decimal(job.processing_time as int),
{
    lemma_utf8_round_trip(dest);
    lemma_utf8_round_trip(title);
    lemma_utf8_round_trip(user);
    lemma_utf8_round_trip(format);
}

/// Whether every destination with a name has one that reads as a text of at
/// least one character.
pub open spec fn names_are_readable(dests: Seq<CupsDestT>) -> bool {
    forall|j: int|
        0 <= j < dests.len() && (#[trigger] dests[j]).name is Some ==> narrow_text(
            dests[j].name,
        ).len() > 0
}

/// Every listed printer stems from a destination whose name is there, and
/// its system name is what that name reads as. So no listed printer has an
/// empty system name, unless a destination has a name that is empty or is no
/// text.
pub proof fn lemma_listed_printers_are_named(dests: Seq<CupsDestT>, i: int)
    requires
        0 <= i < listed_dests(dests).len(),
    ensures
        listed_dests(dests)[i].name is Some,
        printer_of_dest(listed_dests(dests)[i]).system_name == narrow_text(
            listed_dests(dests)[i].name,
        ),
        names_are_readable(dests) ==> printer_of_dest(listed_dests(dests)[i]).system_name.len()
            > 0,
{
    let listed = listed_dests(dests);
    let keep = |dest: CupsDestT| is_listed(dest);
    dests.lemma_filter_pred(keep, i);
    dests.lemma_filter_contains_rev(keep, listed[i]);
}

/// A destination that lacks an attribute does not stand in the way of those
/// that follow it: what is listed of a sequence of destinations is what is
/// listed of its beginning, followed by what is listed of its rest.
pub proof fn lemma_listing_goes_on(before: Seq<CupsDestT>, after: Seq<CupsDestT>)
    ensures
        listed_dests(before + after) == listed_dests(before) + listed_dests(after),
{
    Seq::filter_distributes_over_add(before, after, |dest: CupsDestT| is_listed(dest));
}

} // verus!
