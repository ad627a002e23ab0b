//! The job query of the Windows binding. The spooler's own job enumeration is
//! brittle, so the jobs of a queue are asked of a helper process, which
//! answers in JSON: a sequence of job records, or a single record where the
//! queue holds one job.
use crate::printer_job::{job_views, PrintJob, PrintJobView};
use crate::shared::decimal::{
    decimal, i64_text, lemma_decimal_digits_shape, lemma_parse_of_decimal, parse_i64, parsed_i64,
    u32_text, u64_text,
};
use crate::shared::trim::{chars_of, strip_leading, strip_trailing, stripped_bounds};
use crate::state::{helper_job_state, helper_job_state_from};
use crate::windows::json::{
    get_number_text, get_optional_text, get_text, get_u32, get_u64, json_document,
    number_text_member, optional_text_member, parse_json, text_member, u32_member, u64_member,
    Json,
};
use vstd::prelude::*;
use vstd::string::StringExecFns;

verus! {

/// A job as the helper process reports it.
#[derive(Debug)]
pub struct PowerShellPrintJob {
    pub document_name: String,
    pub id: u32,
    pub size: u64,
    /// The time of submission as a date token, where the helper gave one.
    pub submitted_time: Option<String>,
    pub user_name: String,
    /// The job time as the helper wrote it, where it wrote a number.
    pub job_time: Option<String>,
    pub datatype: String,
    pub printer_name: String,
    pub priority: u32,
    pub job_status: u32,
}

/// What a [`PowerShellPrintJob`] holds, field by field.
pub struct PowerShellPrintJobView {
    pub document_name: Seq<char>,
    pub id: u32,
    pub size: u64,
    pub submitted_time: Option<Seq<char>>,
    pub user_name: Seq<char>,
    pub job_time: Option<Seq<char>>,
    pub datatype: Seq<char>,
    pub printer_name: Seq<char>,
    pub priority: u32,
    pub job_status: u32,
}

/// The view of a text that may be missing.
pub open spec fn optional_view(text: Option<String>) -> Option<Seq<char>> {
    match text {
        Some(text) => Some(text@),
        None => None,
    }
}

impl View for PowerShellPrintJob {
    type V = PowerShellPrintJobView;

    open spec fn view(&self) -> PowerShellPrintJobView {
        PowerShellPrintJobView {
            document_name: self.document_name@,
            id: self.id,
            size: self.size,
            submitted_time: optional_view(self.submitted_time),
            user_name: self.user_name@,
            job_time: optional_view(self.job_time),
            datatype: self.datatype@,
            printer_name: self.printer_name@,
            priority: self.priority,
            job_status: self.job_status,
        }
    }
}

/// What a date token begins with.
pub open spec fn date_prefix() -> Seq<char> {
    seq!['/', 'D', 'a', 't', 'e', '(']
}

/// What a date token ends with.
pub open spec fn date_suffix() -> Seq<char> {
    seq![')', '/']
}

/// What a date token wraps: the token without the prefixes it begins with
/// and, after that, without the suffixes it ends with.
pub open spec fn date_payload(token: Seq<char>) -> Seq<char> {
    strip_trailing(strip_leading(token, date_prefix()), date_suffix())
}

/// The creation time of a job by its time of submission: the number of
/// milliseconds that the date token wraps, in decimal; empty where there is no
/// time of submission, or where the token wraps no integer of 64 bits.
pub open spec fn creation_time_of(submitted_time: Option<Seq<char>>) -> Seq<char> {
    match submitted_time {
        None => Seq::<char>::empty(),
        Some(token) => match parsed_i64(date_payload(token)) {
            Some(milliseconds) => decimal(milliseconds as int),
            None => Seq::<char>::empty(),
        },
    }
}

/// The job that a helper record describes.
pub open spec fn job_of_record(record: PowerShellPrintJobView) -> PrintJobView {
    PrintJobView {
        id: decimal(record.id as int),
        dest: record.printer_name,
        title: record.document_name,
        user: record.user_name,
        format: record.datatype,
        state: helper_job_state(record.job_status as int),
        size: decimal(record.size as int),
        priority: decimal(record.priority as int),
        completed_time: Seq::<char>::empty(),
        creation_time: creation_time_of(record.submitted_time),
        processing_time: match record.job_time {
            Some(text) => text,
            None => Seq::<char>::empty(),
        },
    }
}

/// A date token that wraps a number of milliseconds is unwrapped to the
/// decimal text of that number: the creation time of a job submitted at
/// `/Date(<ms>)/` is `<ms>`.
pub proof fn lemma_date_token_unwraps(milliseconds: i64)
    ensures
        creation_time_of(
            Some(date_prefix() + decimal(milliseconds as int) + date_suffix()),
        ) == decimal(milliseconds as int),
{
    let number = decimal(milliseconds as int);
    let token = date_prefix() + number + date_suffix();
    let magnitude = if milliseconds < 0 {
        (-(milliseconds as int)) as nat
    } else {
        milliseconds as nat
    };
    lemma_decimal_digits_shape(magnitude);
    let inner = number + date_suffix();
    assert(token.subrange(0, 6) =~= date_prefix());
    assert(token.subrange(6, token.len() as int) =~= inner);
    assert(strip_leading(inner, date_prefix()) == inner);
    assert(inner.subrange(inner.len() - 2, inner.len() as int) =~= date_suffix());
    assert(inner.subrange(0, inner.len() - 2) =~= number);
    assert(strip_trailing(number, date_suffix()) == number);
    lemma_parse_of_decimal(milliseconds);
}

/// The number that a date token wraps, as decimal text; empty where it wraps
/// none.
pub fn date_token_payload(token: &str) -> (text: String)
    ensures
        text@ == creation_time_of(Some(token@)),
{
    let chars = chars_of(token);
    let prefix: Vec<char> = vec!['/', 'D', 'a', 't', 'e', '('];
    let suffix: Vec<char> = vec![')', '/'];
    let (start, end) = stripped_bounds(&chars, &prefix, &suffix);
    match parse_i64(&chars, start, end) {
        Some(milliseconds) => i64_text(milliseconds),
        None => String::new(),
    }
}

/// The process creation flag under which the helper process shows no window.
pub const CREATE_NO_WINDOW: u32 = 0x08000000;

/// What the conversion below gives is stated over views, by the `ensures` of
/// `from`: a job is told from another by what it holds.
impl vstd::std_specs::convert::FromSpecImpl<PowerShellPrintJob> for PrintJob {
    open spec fn obeys_from_spec() -> bool {
        false
    }

    open spec fn from_spec(ps_job: PowerShellPrintJob) -> PrintJob {
        choose|job: PrintJob| job@ == job_of_record(ps_job@)
    }
}

impl From<PowerShellPrintJob> for PrintJob {
    /// The job that a helper record describes: its status is normalised, the
    /// time of its submission is unwrapped from the date token, and the time
    /// of its completion, which the helper does not report, is left empty.
    fn from(ps_job: PowerShellPrintJob) -> (job: PrintJob)
        ensures
            job@ == job_of_record(ps_job@),
    {
        let state = helper_job_state_from(ps_job.job_status);
        let creation_time = match &ps_job.submitted_time {
            Some(submitted_time) => date_token_payload(submitted_time.as_str()),
            None => String::new(),
        };
        let processing_time = match ps_job.job_time {
            Some(time) => time,
            None => String::new(),
        };
        PrintJob {
            id: u32_text(ps_job.id),
            dest: ps_job.printer_name,
            title: ps_job.document_name,
            user: ps_job.user_name,
            format: ps_job.datatype,
            state,
            size: u64_text(ps_job.size),
            priority: u32_text(ps_job.priority),
            completed_time: String::new(),
            creation_time,
            processing_time,
        }
    }
}

/// The record that the members of a JSON object write. Every field but the
/// time of submission must be there, a text as a string and a number as a
/// non-negative integer that fits its field; the job time may be any value.
/// Members of other names are passed over.
pub open spec fn record_of_members(members: Seq<(String, Json)>) -> Option<PowerShellPrintJobView> {
    if text_member(members, "DocumentName"@) is Some && u32_member(members, "Id"@) is Some
        && u64_member(members, "Size"@) is Some && optional_text_member(
        members,
        "SubmittedTime"@,
    ) is Some && text_member(members, "UserName"@) is Some && number_text_member(
        members,
        "JobTime"@,
    ) is Some && text_member(members, "Datatype"@) is Some && text_member(
        members,
        "PrinterName"@,
    ) is Some && u32_member(members, "Priority"@) is Some && u32_member(members, "JobStatus"@)
        is Some {
        Some(
            PowerShellPrintJobView {
                document_name: text_member(members, "DocumentName"@)->0,
                id: u32_member(members, "Id"@)->0,
                size: u64_member(members, "Size"@)->0,
                submitted_time: optional_text_member(members, "SubmittedTime"@)->0,
                user_name: text_member(members, "UserName"@)->0,
                job_time: number_text_member(members, "JobTime"@)->0,
                datatype: text_member(members, "Datatype"@)->0,
                printer_name: text_member(members, "PrinterName"@)->0,
                priority: u32_member(members, "Priority"@)->0,
                job_status: u32_member(members, "JobStatus"@)->0,
            },
        )
    } else {
        None
    }
}

/// The record that a JSON value writes: that of its members where it is an
/// object, none where it is anything else.
pub open spec fn record_of(value: Json) -> Option<PowerShellPrintJobView> {
    match value {
        Json::Object(members) => record_of_members(members@),
        _ => None,
    }
}

/// The record that a JSON value writes, where it writes one.
pub fn record_from_json(value: &Json) -> (record: Option<PowerShellPrintJob>)
    ensures
        record is Some <==> record_of(*value) is Some,
        record is Some ==> record->0@ == record_of(*value)->0,
{
    let members = match value {
        Json::Object(members) => members,
        _ => {
            return None;
        },
    };
    let document_name = match get_text(members, "DocumentName") {
        Some(text) => text,
        None => {
            return None;
        },
    };
    let id = match get_u32(members, "Id") {
        Some(value) => value,
        None => {
            return None;
        },
    };
    let size = match get_u64(members, "Size") {
        Some(value) => value,
        None => {
            return None;
        },
    };
    let submitted_time = match get_optional_text(members, "SubmittedTime") {
        Some(text) => text,
        None => {
            return None;
        },
    };
    let user_name = match get_text(members, "UserName") {
        Some(text) => text,
        None => {
            return None;
        },
    };
    let job_time = match get_number_text(members, "JobTime") {
        Some(text) => text,
        None => {
            return None;
        },
    };
    let datatype = match get_text(members, "Datatype") {
        Some(text) => text,
        None => {
            return None;
        },
    };
    let printer_name = match get_text(members, "PrinterName") {
        Some(text) => text,
        None => {
            return None;
        },
    };
    let priority = match get_u32(members, "Priority") {
        Some(value) => value,
        None => {
            return None;
        },
    };
    let job_status = match get_u32(members, "JobStatus") {
        Some(value) => value,
        None => {
            return None;
        },
    };
    Some(
        PowerShellPrintJob {
            document_name,
            id,
            size,
            submitted_time,
            user_name,
            job_time,
            datatype,
            printer_name,
            priority,
            job_status,
        },
    )
}

/// Whether every value of `items` writes a record.
pub open spec fn all_records(items: Seq<Json>) -> bool {
    forall|i: int| 0 <= i < items.len() ==> record_of(#[trigger] items[i]) is Some
}

/// The jobs that a document of the helper reports. A sequence of records
/// gives one job for each record, in their order; a single record gives one
/// job. Any other document, and a sequence of which one value is no record,
/// gives no job, as does the lack of a document.
pub open spec fn jobs_of_document(document: Option<Json>) -> Seq<PrintJobView> {
    match document {
        Some(Json::Array(items)) => if all_records(items@) {
            items@.map_values(|item: Json| job_of_record(record_of(item)->0))
        } else {
            Seq::<PrintJobView>::empty()
        },
        Some(Json::Object(members)) => match record_of_members(members@) {
            Some(record) => seq![job_of_record(record)],
            None => Seq::<PrintJobView>::empty(),
        },
        _ => Seq::<PrintJobView>::empty(),
    }
}

/// The jobs that a parsed document of the helper reports.
pub fn jobs_from_document(document: &Option<Json>) -> (jobs: Vec<PrintJob>)
    ensures
        job_views(jobs@) == jobs_of_document(*document),
{
    let mut jobs: Vec<PrintJob> = Vec::new();
    match document {
        Some(Json::Array(items)) => {
            let mut i: usize = 0;
            while i < items.len()
                invariant
                    *document == Some(Json::Array(*items)),
                    i <= items@.len(),
                    jobs@.len() == i,
                    forall|j: int| 0 <= j < i ==> record_of(#[trigger] items@[j]) is Some,
                    forall|j: int|
                        0 <= j < i ==> (#[trigger] jobs@[j])@ == job_of_record(
                            record_of(items@[j])->0,
                        ),
                decreases items@.len() - i,
            {
                match record_from_json(&items[i]) {
                    Some(record) => {
                        jobs.push(PrintJob::from(record));
                    },
                    None => {
                        let none: Vec<PrintJob> = Vec::new();
                        return none;
                    },
                }
                i = i + 1;
            }
            assert(job_views(jobs@) =~= items@.map_values(
                |item: Json| job_of_record(record_of(item)->0),
            ));
        },
        Some(single) => {
            match record_from_json(single) {
                Some(record) => {
                    jobs.push(PrintJob::from(record));
                },
                None => {
                },
            }
        },
        None => {
        },
    }
    jobs
}

/// The jobs that the helper reports in the text `stdout`: those of the
/// document that the text writes, and none where it writes no document.
pub fn get_jobs(stdout: &str) -> (jobs: Vec<PrintJob>)
    ensures
        job_views(jobs@) == jobs_of_document(json_document(stdout@)),
{
    let document = parse_json(stdout);
    jobs_from_document(&document)
}

/// The command by which the helper process is asked for the jobs of the
/// queue of `printername`: the fields of each job, serialised as JSON.
pub fn get_jobs_command(printername: &str) -> (command: String)
    ensures
        command@ == "Get-PrintJob -PrinterName \""@ + printername@
            + "\"  | Select-Object DocumentName,Id,TotalPages,Position,Size,SubmmitedTime,UserName,PagesPrinted,JobTime,ComputerName,Datatype,PrinterName,Priority,SubmittedTime,JobStatus | ConvertTo-Json"@,
{
    let mut command = "Get-PrintJob -PrinterName \"".to_owned();
    command.append(printername);
    command.append(
        "\"  | Select-Object DocumentName,Id,TotalPages,Position,Size,SubmmitedTime,UserName,PagesPrinted,JobTime,ComputerName,Datatype,PrinterName,Priority,SubmittedTime,JobStatus | ConvertTo-Json",
    );
    command
}

/// The arguments with which the helper process is started so that it stays
/// hidden and runs the command for the queue of `printername`.
pub fn get_jobs_arguments(printername: &str) -> (arguments: Vec<String>)
    ensures
        arguments@.len() == 5,
        arguments@[0]@ == "-NoProfile"@,
        arguments@[1]@ == "-WindowStyle"@,
        arguments@[2]@ == "Hidden"@,
        arguments@[3]@ == "-Command"@,
        arguments@[4]@ == "Get-PrintJob -PrinterName \""@ + printername@
            + "\"  | Select-Object DocumentName,Id,TotalPages,Position,Size,SubmmitedTime,UserName,PagesPrinted,JobTime,ComputerName,Datatype,PrinterName,Priority,SubmittedTime,JobStatus | ConvertTo-Json"@,
{
    let mut arguments: Vec<String> = Vec::new();
    arguments.push("-NoProfile".to_owned());
    arguments.push("-WindowStyle".to_owned());
    arguments.push("Hidden".to_owned());
    arguments.push("-Command".to_owned());
    arguments.push(get_jobs_command(printername));
    arguments
}

} // verus!
