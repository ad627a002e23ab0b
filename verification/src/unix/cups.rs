//! The CUPS destination and job records as plain data, and what the binding
//! reads from them.
//!
//! The records mirror `cups_dest_s`, `cups_option_s` and `cups_job_s` of the
//! CUPS API. A text field holds the bytes of the C string it points to, and is
//! `None` where the pointer is null. The native calls are made outside this
//! crate; their answers arrive here as these records.
use crate::shared::decimal::{decimal, i32_text, i64_text};
use crate::shared::interface::{JobGetters, PlatformPrinterGetters};
use crate::shared::narrow::{
    bytes_spell, c_string, narrow_text, text_of_bytes, text_of_field, to_narrow, utf8_or_empty,
};
use vstd::prelude::*;
use vstd::utf8::encode_utf8;

verus! {

/// A job of a CUPS queue (`cups_job_s`).
#[derive(Debug)]
pub struct CupsJobS {
    /// The job ID.
    pub id: i32,
    /// The printer or class name.
    pub dest: Option<Vec<u8>>,
    /// The title or job name.
    pub title: Option<Vec<u8>>,
    /// The user that submitted the job.
    pub user: Option<Vec<u8>>,
    /// The document format.
    pub format: Option<Vec<u8>>,
    /// The job state.
    pub state: i32,
    /// The size in kilobytes.
    pub size: i32,
    /// The priority, from 1 to 100.
    pub priority: i32,
    /// The time the job was completed.
    pub completed_time: i64,
    /// The time the job was created.
    pub creation_time: i64,
    /// The time the job was processed.
    pub processing_time: i64,
}

impl JobGetters for CupsJobS {
    open spec fn id_text(&self) -> Seq<char> {
        decimal(self.id as int)
    }

    open spec fn dest_text(&self) -> Seq<char> {
        narrow_text(self.dest)
    }

    open spec fn title_text(&self) -> Seq<char> {
        narrow_text(self.title)
    }

    open spec fn user_text(&self) -> Seq<char> {
        narrow_text(self.user)
    }

    open spec fn format_text(&self) -> Seq<char> {
        narrow_text(self.format)
    }

    open spec fn state_text(&self) -> Seq<char> {
        decimal(self.state as int)
    }

    open spec fn size_text(&self) -> Seq<char> {
        decimal(self.size as int)
    }

    open spec fn priority_text(&self) -> Seq<char> {
        decimal(self.priority as int)
    }

    open spec fn creation_time_text(&self) -> Seq<char> {
        decimal(self.creation_time as int)
    }

    open spec fn completed_time_text(&self) -> Seq<char> {
        decimal(self.completed_time as int)
    }

    open spec fn processing_time_text(&self) -> Seq<char> {
        decimal(self.processing_time as int)
    }

    fn get_id(&self) -> (id: String) {
        i32_text(self.id)
    }

    fn get_dest(&self) -> (dest: String) {
        text_of_field(&self.dest)
    }

    fn get_title(&self) -> (title: String) {
        text_of_field(&self.title)
    }

    fn get_user(&self) -> (user: String) {
        text_of_field(&self.user)
    }

    fn get_format(&self) -> (format: String) {
        text_of_field(&self.format)
    }

    fn get_state(&self) -> (state: String) {
        i32_text(self.state)
    }

    fn get_size(&self) -> (size: String) {
        i32_text(self.size)
    }

    fn get_priority(&self) -> (priority: String) {
        i32_text(self.priority)
    }

    fn get_creation_time(&self) -> (creation_time: String) {
        i64_text(self.creation_time)
    }

    fn get_completed_time(&self) -> (completed_time: String) {
        i64_text(self.completed_time)
    }

    fn get_processing_time(&self) -> (processing_time: String) {
        i64_text(self.processing_time)
    }
}

/// One attribute of a destination (`cups_option_s`): a name and its value.
#[derive(Debug)]
pub struct CupsOptionT {
    pub name: Vec<u8>,
    pub value: Vec<u8>,
}

/// A destination (`cups_dest_s`): a printer or a class of printers.
#[derive(Debug)]
pub struct CupsDestT {
    /// The printer or class name.
    pub name: Option<Vec<u8>>,
    /// The local instance name.
    pub instance: Option<Vec<u8>>,
    /// Whether this is the default destination: 1 if it is.
    pub is_default: i32,
    /// The attributes of the destination, in the order CUPS lists them.
    pub options: Vec<CupsOptionT>,
}

/// The value of the first of `options` that is named `key`, and the empty
/// text when none is.
pub open spec fn option_value(options: Seq<CupsOptionT>, key: Seq<char>) -> Seq<char>
    decreases options.len(),
{
    if options.len() == 0 {
        Seq::<char>::empty()
    } else if options[0].name@ == encode_utf8(key) {
        utf8_or_empty(options[0].value@)
    } else {
        option_value(options.subrange(1, options.len() as int), key)
    }
}

/// Whether one of `options` is named `key`.
pub open spec fn has_option(options: Seq<CupsOptionT>, key: Seq<char>) -> bool {
    exists|i: int| 0 <= i < options.len() && (#[trigger] options[i]).name@ == encode_utf8(key)
}

/// Looking up a key that no attribute is named by gives the empty text.
pub proof fn lemma_absent_option_is_empty(options: Seq<CupsOptionT>, key: Seq<char>)
    requires
        !has_option(options, key),
    ensures
        option_value(options, key) == Seq::<char>::empty(),
    decreases options.len(),
{
    if options.len() > 0 {
        let rest = options.subrange(1, options.len() as int);
        assert forall|i: int| 0 <= i < rest.len() implies (#[trigger] rest[i]).name@
            != encode_utf8(key) by {
        }
        lemma_absent_option_is_empty(rest, key);
    }
}

/// Looking up a key gives the value of the first attribute named by it.
pub proof fn lemma_present_option(options: Seq<CupsOptionT>, key: Seq<char>, at: int)
    requires
        0 <= at < options.len(),
        options[at].name@ == encode_utf8(key),
        forall|i: int| 0 <= i < at ==> (#[trigger] options[i]).name@ != encode_utf8(key),
    ensures
        option_value(options, key) == utf8_or_empty(options[at].value@),
    decreases options.len(),
{
    if at > 0 {
        let rest = options.subrange(1, options.len() as int);
        assert forall|i: int| 0 <= i < at - 1 implies (#[trigger] rest[i]).name@ != encode_utf8(
            key,
        ) by {
        }
        lemma_present_option(rest, key, at - 1);
    }
}

impl CupsDestT {
    /// The value of the attribute `key` of the destination, and the empty
    /// string when the destination has no such attribute.
    pub fn get_option_by_key(&self, key: &str) -> (value: String)
        ensures
            value@ == option_value(self.options@, key@),
    {
        let ghost all = self.options@;
        let mut i: usize = 0;
        assert(all.subrange(0, all.len() as int) =~= all);
        while i < self.options.len()
            invariant
                i <= all.len(),
                all == self.options@,
                option_value(all, key@) == option_value(
                    all.subrange(i as int, all.len() as int),
                    key@,
                ),
            decreases all.len() - i,
        {
            let ghost rest = all.subrange(i as int, all.len() as int);
            let option = &self.options[i];
            if bytes_spell(option.name.as_slice(), key) {
                return text_of_bytes(option.value.as_slice());
            }
            i = i + 1;
            assert(rest.subrange(1, rest.len() as int) =~= all.subrange(
                i as int,
                all.len() as int,
            ));
        }
        String::new()
    }
}

impl PlatformPrinterGetters for CupsDestT {
    open spec fn name_text(&self) -> Seq<char> {
        option_value(self.options@, "printer-info"@)
    }

    open spec fn is_default_value(&self) -> bool {
        self.is_default == 1
    }

    open spec fn system_name_text(&self) -> Seq<char> {
        narrow_text(self.name)
    }

    open spec fn marker_and_model_text(&self) -> Seq<char> {
        option_value(self.options@, "printer-make-and-model"@)
    }

    open spec fn is_shared_value(&self) -> bool {
        option_value(self.options@, "printer-is-shared"@) == "true"@
    }

    open spec fn uri_text(&self) -> Seq<char> {
        option_value(self.options@, "device-uri"@)
    }

    open spec fn location_text(&self) -> Seq<char> {
        option_value(self.options@, "printer-location"@)
    }

    open spec fn state_text(&self) -> Seq<char> {
        option_value(self.options@, "printer-state"@)
    }

    /// The readable name of the destination: its `printer-info` attribute.
    fn get_name(&self) -> (name: String) {
        self.get_option_by_key("printer-info")
    }

    /// Whether this is the default destination.
    fn get_is_default(&self) -> (is_default: bool) {
        self.is_default == 1
    }

    /// The name of the destination.
    fn get_system_name(&self) -> (system_name: String) {
        text_of_field(&self.name)
    }

    /// The driver of the destination: its `printer-make-and-model` attribute.
    fn get_marker_and_model(&self) -> (marker_and_model: String) {
        self.get_option_by_key("printer-make-and-model")
    }

    /// Whether the destination is shared with other computers.
    fn get_is_shared(&self) -> (is_shared: bool) {
        let shared = self.get_option_by_key("printer-is-shared");
        crate::shared::narrow::same_text(shared.as_str(), "true")
    }

    /// The `device-uri` attribute of the destination.
    fn get_uri(&self) -> (uri: String) {
        self.get_option_by_key("device-uri")
    }

    /// The `printer-location` attribute of the destination.
    fn get_location(&self) -> (location: String) {
        self.get_option_by_key("printer-location")
    }

    /// The `printer-state` attribute of the destination.
    fn get_state(&self) -> (state: String) {
        self.get_option_by_key("printer-state")
    }
}

/// Whether the binding lists the destination: its name is not null and its
/// `printer-is-shared` attribute has a value. A destination without that
/// attribute is taken to be unavailable or a duplicate.
pub open spec fn is_listed(dest: CupsDestT) -> bool {
    dest.name is Some && option_value(dest.options@, "printer-is-shared"@).len() > 0
}

/// The destinations among `dests` that the binding lists, in their order.
pub open spec fn listed_dests(dests: Seq<CupsDestT>) -> Seq<CupsDestT> {
    dests.filter(|dest: CupsDestT| is_listed(dest))
}

/// The destinations that the binding lists, out of those that the native
/// enumeration returned: those with a name and a `printer-is-shared` value,
/// in the order in which they came.
pub fn get_dests(dests: Vec<CupsDestT>) -> (listed: Vec<CupsDestT>)
    ensures
        listed@ == listed_dests(dests@),
{
    let ghost all = dests@;
    let mut listed: Vec<CupsDestT> = Vec::new();
    proof {
        reveal(Seq::filter);
    }
    for dest in it: dests
        invariant
            it.seq() == all,
            listed@ == listed_dests(all.take(it.index())),
    {
        proof {
            all.take(it.index()).lemma_filter_push(dest, |dest: CupsDestT| is_listed(dest));
            assert(all.take(it.index() + 1) =~= all.take(it.index()).push(dest));
        }
        let shared = dest.get_option_by_key("printer-is-shared");
        if dest.name.is_some() && !shared.as_str().is_empty() {
            listed.push(dest);
        }
    }
    proof {
        assert(all.take(all.len() as int) =~= all);
    }
    listed
}

/// What the native print call is handed: three C strings. No options are
/// passed with them.
#[derive(Debug)]
pub struct PrintFileArguments {
    /// The name of the destination.
    pub printer_name: Vec<u8>,
    /// The path of the file to print.
    pub filename: Vec<u8>,
    /// The title of the job.
    pub title: Vec<u8>,
}

/// The title under which a file is printed: the job name, and the path of the
/// file where no job name is given.
pub open spec fn job_title(file_path: Seq<char>, job_name: Option<&str>) -> Seq<char> {
    match job_name {
        Some(name) => name@,
        None => file_path,
    }
}

/// The arguments of the native print call for a file: the printer name, the
/// path and the title, each as a C string. There are none when one of the
/// three holds a zero byte, which no C string can carry.
pub fn print_file_arguments(printer_name: &str, file_path: &str, job_name: Option<&str>) -> (call:
    Option<PrintFileArguments>)
    ensures
        call is Some <==> c_string(printer_name@) is Some && c_string(file_path@) is Some
            && c_string(job_title(file_path@, job_name)) is Some,
        call is Some ==> {
            &&& call->0.printer_name@ == c_string(printer_name@)->0
            &&& call->0.filename@ == c_string(file_path@)->0
            &&& call->0.title@ == c_string(job_title(file_path@, job_name))->0
        },
{
    let title_text = match job_name {
        Some(name) => name,
        None => file_path,
    };
    match to_narrow(printer_name) {
        None => None,
        Some(printer_name) => match to_narrow(file_path) {
            None => None,
            Some(filename) => match to_narrow(title_text) {
                None => None,
                Some(title) => Some(PrintFileArguments { printer_name, filename, title }),
            },
        },
    }
}

/// Whether the native print call accepted the file: it did exactly when it
/// returned a job ID other than zero.
pub fn print_file(job_id: i32) -> (sent: bool)
    ensures
        sent == (job_id != 0),
{
    job_id != 0
}

/// The jobs that the native job query returned: the first `number_of_jobs` of
/// the records read from its array, and none when the count is not positive.
pub open spec fn queued_jobs(number_of_jobs: int, jobs: Seq<CupsJobS>) -> Seq<CupsJobS> {
    if number_of_jobs <= 0 {
        Seq::<CupsJobS>::empty()
    } else if number_of_jobs < jobs.len() {
        jobs.take(number_of_jobs)
    } else {
        jobs
    }
}

/// The jobs of a queue as the native job query returned them, or an empty
/// sequence if it returned none.
pub fn get_print_queue(number_of_jobs: i32, jobs: Vec<CupsJobS>) -> (queue: Vec<CupsJobS>)
    ensures
        queue@ == queued_jobs(number_of_jobs as int, jobs@),
{
    let mut queue = jobs;
    if number_of_jobs <= 0 {
        queue.truncate(0);
    } else if (number_of_jobs as usize) < queue.len() {
        queue.truncate(number_of_jobs as usize);
    }
    queue
}

/// Whether the native cancel call succeeded: it did exactly when it returned
/// something other than zero.
pub fn cancel_job(native_result: i32) -> (canceled: bool)
    ensures
        canceled == (native_result != 0),
{
    native_result != 0
}

/// The text of the last error that CUPS reported, empty when it reported
/// none or reported bytes that are no text.
pub fn get_last_error(message: &Option<Vec<u8>>) -> (text: String)
    ensures
        text@ == narrow_text(*message),
{
    text_of_field(message)
}

} // verus!
