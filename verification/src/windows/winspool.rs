//! The spooler's printer record as plain data, and the protocols by which the
//! spooler's calls are driven: the probe of a buffer size that precedes every
//! enumeration, and the steps of a raw print job.
//!
//! The calls themselves are made outside this crate. Each protocol is a step
//! function: it is told how the last call ended, and says which call comes
//! next or how the whole exchange ended.
use crate::shared::decimal::{decimal, u32_text};
use crate::shared::interface::PlatformPrinterGetters;
use crate::shared::wide::{
    terminated_len, text_of_wide, to_wide, until_nul, wide_form, wide_len, wide_text,
};
use crate::windows::util::jobinfo::JobInfo2w;
use vstd::prelude::*;

verus! {

/// A printer of the spooler (`PRINTER_INFO_2W`), with the fields that the
/// binding reads. A text field holds the UTF-16 buffer it points to, and is
/// `None` where the pointer is null.
#[derive(Debug)]
pub struct PrinterInfo2w {
    pub p_printer_name: Option<Vec<u16>>,
    pub p_driver_name: Option<Vec<u16>>,
    pub p_location: Option<Vec<u16>>,
    pub attributes: u32,
    pub status: u32,
    /// The name of the system's default printer, as the spooler gave it when
    /// the record was read; `None` where it gave none.
    pub default_printer: Option<Vec<u16>>,
}

/// The attribute bit of a printer that is shared.
pub const PRINTER_ATTRIBUTE_SHARED: u32 = 0x00000008;

/// The flag of the printer enumeration that asks for the local printers.
pub const PRINTER_ENUM_LOCAL: u32 = 0x00000002;

/// The flag of the printer enumeration that asks for the printers that the
/// user is connected to.
pub const PRINTER_ENUM_CONNECTIONS: u32 = 0x00000004;

/// The level of the records that the enumerations ask for: `PRINTER_INFO_2W`
/// and `JOB_INFO_2W`.
pub const RECORD_LEVEL: u32 = 2;

/// The name by which the print entry point of the driver is looked up.
pub const DRIVER_ENTRY_POINT: &'static str = "DrvDocumentEvent";

/// The event with which the entry point of the driver is handed the bytes to
/// print.
pub const DRIVER_PRINT_EVENT: u32 = 0x1004;

/// Whether two wide strings spell the same name: both are there, and their
/// units before the terminator are the same.
pub open spec fn same_wide_name(a: Option<Vec<u16>>, b: Option<Vec<u16>>) -> bool {
    a is Some && b is Some && until_nul(a->0@) == until_nul(b->0@)
}

/// Whether two wide buffers hold the same units before their terminators.
fn same_terminated(a: &[u16], b: &[u16]) -> (same: bool)
    ensures
        same == (until_nul(a@) == until_nul(b@)),
{
    let n = wide_len(a);
    let m = wide_len(b);
    if n != m {
        return false;
    }
    let mut i: usize = 0;
    while i < n
        invariant
            i <= n,
            n == terminated_len(a@),
            n == terminated_len(b@),
            n <= a@.len(),
            n <= b@.len(),
            until_nul(a@).take(i as int) == until_nul(b@).take(i as int),
        decreases n - i,
    {
        if a[i] != b[i] {
            assert(until_nul(b@)[i as int] == b@[i as int]);
            return false;
        }
        i = i + 1;
    }
    proof {
        let (x, y) = (until_nul(a@), until_nul(b@));
        assert(x.take(n as int) =~= x);
        assert(y.take(n as int) =~= y);
    }
    true
}

/// Whether two wide strings spell the same name.
pub fn is_same_wide_name(a: &Option<Vec<u16>>, b: &Option<Vec<u16>>) -> (same: bool)
    ensures
        same == same_wide_name(*a, *b),
{
    match (a, b) {
        (Some(first), Some(second)) => same_terminated(first.as_slice(), second.as_slice()),
        _ => false,
    }
}

impl PrinterInfo2w {
    /// The text of a wide string of the record: empty for a null pointer,
    /// else what the units before the terminator spell.
    pub fn get_wchar_t_value(&self, s: &Option<Vec<u16>>) -> (value: String)
        ensures
            value@ == wide_text(*s),
    {
        text_of_wide(s)
    }
}

impl PlatformPrinterGetters for PrinterInfo2w {
    open spec fn name_text(&self) -> Seq<char> {
        wide_text(self.p_printer_name)
    }

    open spec fn is_default_value(&self) -> bool {
        same_wide_name(self.p_printer_name, self.default_printer)
    }

    open spec fn system_name_text(&self) -> Seq<char> {
        wide_text(self.p_printer_name)
    }

    open spec fn marker_and_model_text(&self) -> Seq<char> {
        wide_text(self.p_driver_name)
    }

    open spec fn is_shared_value(&self) -> bool {
        self.attributes & PRINTER_ATTRIBUTE_SHARED == PRINTER_ATTRIBUTE_SHARED
    }

    open spec fn uri_text(&self) -> Seq<char> {
        Seq::<char>::empty()
    }

    open spec fn location_text(&self) -> Seq<char> {
        wide_text(self.p_location)
    }

    open spec fn state_text(&self) -> Seq<char> {
        decimal(self.status as int)
    }

    /// The readable name of the printer.
    fn get_name(&self) -> (name: String) {
        self.get_wchar_t_value(&self.p_printer_name)
    }

    /// Whether the printer is the system's default: its name is the default
    /// printer's name.
    fn get_is_default(&self) -> (is_default: bool) {
        is_same_wide_name(&self.p_printer_name, &self.default_printer)
    }

    /// The name of the printer on the system, which is its readable name.
    fn get_system_name(&self) -> (system_name: String) {
        self.get_wchar_t_value(&self.p_printer_name)
    }

    /// The name of the printer's driver.
    fn get_marker_and_model(&self) -> (marker_and_model: String) {
        self.get_wchar_t_value(&self.p_driver_name)
    }

    /// Whether the printer is shared with other computers.
    fn get_is_shared(&self) -> (is_shared: bool) {
        self.attributes & PRINTER_ATTRIBUTE_SHARED == PRINTER_ATTRIBUTE_SHARED
    }

    /// The URI of the printer: the spooler has none.
    fn get_uri(&self) -> (uri: String) {
        String::new()
    }

    /// The location of the printer.
    fn get_location(&self) -> (location: String) {
        self.get_wchar_t_value(&self.p_location)
    }

    /// The status code of the printer.
    fn get_state(&self) -> (state: String) {
        u32_text(self.status)
    }
}

/// The description of a document handed to the spooler when a print job
/// starts (`DOC_INFO_1W`). Each text is a NUL-terminated wide string.
#[derive(Debug)]
pub struct DocInfo1w {
    /// The name of the document.
    pub p_doc_name: Vec<u16>,
    /// The file to print to; `None` to print to the printer.
    pub p_output_file: Option<Vec<u16>>,
    /// The type of the data that follows.
    pub p_datatype: Vec<u16>,
}

impl DocInfo1w {
    /// The description of a raw document: named `doc_name`, or by the empty
    /// name where there is none, sent to the printer itself, of the datatype
    /// "RAW".
    pub fn raw(doc_name: Option<&str>) -> (info: DocInfo1w)
        ensures
            info.p_doc_name@ == wide_form(
                match doc_name {
                    Some(name) => name@,
                    None => Seq::<char>::empty(),
                },
            ),
            info.p_output_file is None,
            info.p_datatype@ == wide_form("RAW"@),
    {
        let p_doc_name = match doc_name {
            Some(name) => to_wide(name),
            None => {
                proof {
                    reveal_strlit("");
                }
                to_wide("")
            },
        };
        DocInfo1w { p_doc_name, p_output_file: None, p_datatype: to_wide("RAW") }
    }
}

/// How an enumeration of the spooler ended.
#[derive(Debug)]
pub enum Enumeration<T> {
    /// The spooler filled the buffer: these are the records it returned, less
    /// those that the binding does not list.
    Complete(Vec<T>),
    /// The enumeration did not come to an end: the printer could not be
    /// opened, or the buffer was still too small at the last try. Nothing is
    /// known of the records.
    Incomplete,
}

/// What happened outside since the last step of an enumeration.
#[derive(Debug)]
pub enum EnumEvent<T> {
    /// Nothing yet: the enumeration begins.
    Start,
    /// The printer was asked to be opened, and was or was not.
    Opened { ok: bool },
    /// The enumeration call failed, and reported the buffer size it needs.
    TooSmall { bytes_needed: u32 },
    /// The enumeration call succeeded with these records.
    Filled(Vec<T>),
    /// The printer was closed.
    Closed,
}

/// What is to be done next in an enumeration.
#[derive(Debug)]
pub enum EnumAction<T> {
    /// Open the printer whose jobs are asked for.
    OpenPrinter,
    /// Make the enumeration call with a buffer of `cb_buf` bytes.
    Call { cb_buf: u32 },
    /// Close the printer.
    ClosePrinter,
    /// Nothing: the enumeration has ended, in this way.
    Finish(Enumeration<T>),
}

/// Where an enumeration stands.
#[derive(Debug)]
pub enum EnumPhase<T> {
    /// Not begun.
    Idle,
    /// The printer is being opened.
    Opening,
    /// An enumeration call is being made.
    Probing,
    /// The printer is being closed; the enumeration will end in this way.
    Closing(Enumeration<T>),
    /// Ended.
    Finished,
}

/// The state of an enumeration between two steps.
#[derive(Debug)]
pub struct EnumState<T> {
    pub phase: EnumPhase<T>,
    /// The number of enumeration calls made so far.
    pub tries: u32,
    /// The buffer size that the spooler last asked for; zero at first.
    pub bytes_needed: u32,
}

/// The number of enumeration calls that one enumeration may make.
pub const MAX_TRIES: u32 = 3;

/// The end of an enumeration with the outcome `found`. Where a printer was
/// opened for the enumeration it is closed first.
pub open spec fn conclude<T>(
    tries: u32,
    bytes_needed: u32,
    found: Enumeration<T>,
    scoped: bool,
) -> (EnumState<T>, EnumAction<T>) {
    if scoped {
        (
            EnumState { phase: EnumPhase::Closing(found), tries, bytes_needed },
            EnumAction::ClosePrinter,
        )
    } else {
        (EnumState { phase: EnumPhase::Finished, tries, bytes_needed }, EnumAction::Finish(found))
    }
}

/// The next try of an enumeration: a call with a buffer of the size last
/// asked for, unless all tries are spent, which ends the enumeration as
/// incomplete.
pub open spec fn probe_or_stop<T>(tries: u32, bytes_needed: u32, scoped: bool) -> (
    EnumState<T>,
    EnumAction<T>,
) {
    if tries >= MAX_TRIES {
        conclude(tries, bytes_needed, Enumeration::Incomplete, scoped)
    } else {
        (
            EnumState { phase: EnumPhase::Probing, tries: (tries + 1) as u32, bytes_needed },
            EnumAction::Call { cb_buf: bytes_needed },
        )
    }
}

/// The end of an enumeration that holds no printer, as incomplete.
pub open spec fn abandon<T>(tries: u32, bytes_needed: u32) -> (EnumState<T>, EnumAction<T>) {
    (
        EnumState { phase: EnumPhase::Finished, tries, bytes_needed },
        EnumAction::Finish(Enumeration::Incomplete),
    )
}

/// One step of an enumeration: the state after `event`, and what is to be
/// done next. `scoped` says whether the enumeration is one of a printer's
/// jobs, for which the printer is opened first and closed at the end.
///
/// The enumeration begins with a call on an empty buffer, which tells the
/// size needed. Each failed call is followed by one with a buffer of the size
/// it asked for, up to `MAX_TRIES` calls in all. An event that does not answer
/// the last action ends the enumeration as incomplete.
pub open spec fn enum_next<T>(state: EnumState<T>, event: EnumEvent<T>, scoped: bool) -> (
    EnumState<T>,
    EnumAction<T>,
) {
    match state.phase {
        EnumPhase::Idle => match event {
            EnumEvent::Start => if scoped {
                (
                    EnumState {
                        phase: EnumPhase::Opening,
                        tries: state.tries,
                        bytes_needed: state.bytes_needed,
                    },
                    EnumAction::OpenPrinter,
                )
            } else {
                probe_or_stop(state.tries, state.bytes_needed, scoped)
            },
            _ => abandon(state.tries, state.bytes_needed),
        },
        EnumPhase::Opening => match event {
            EnumEvent::Opened { ok: true } => probe_or_stop(
                state.tries,
                state.bytes_needed,
                scoped,
            ),
            _ => abandon(state.tries, state.bytes_needed),
        },
        EnumPhase::Probing => match event {
            EnumEvent::Filled(records) => conclude(
                state.tries,
                state.bytes_needed,
                Enumeration::Complete(records),
                scoped,
            ),
            EnumEvent::TooSmall { bytes_needed } => probe_or_stop(
                state.tries,
                bytes_needed,
                scoped,
            ),
            _ => conclude(state.tries, state.bytes_needed, Enumeration::Incomplete, scoped),
        },
        EnumPhase::Closing(found) => match event {
            EnumEvent::Closed => (
                EnumState {
                    phase: EnumPhase::Finished,
                    tries: state.tries,
                    bytes_needed: state.bytes_needed,
                },
                EnumAction::Finish(found),
            ),
            _ => abandon(state.tries, state.bytes_needed),
        },
        EnumPhase::Finished => abandon(state.tries, state.bytes_needed),
    }
}

impl<T> EnumState<T> {
    /// The state of an enumeration that has not begun.
    pub fn new() -> (state: EnumState<T>)
        ensures
            state.phase is Idle,
            state.tries == 0,
            state.bytes_needed == 0,
    {
        EnumState { phase: EnumPhase::Idle, tries: 0, bytes_needed: 0 }
    }

    /// Whether a printer is open for the enumeration and its closing has not
    /// been asked for yet.
    pub open spec fn owes_close(self, scoped: bool) -> bool {
        scoped && self.phase is Probing
    }
}

fn conclude_step<T>(tries: u32, bytes_needed: u32, found: Enumeration<T>, scoped: bool) -> (next: (
    EnumState<T>,
    EnumAction<T>,
))
    ensures
        next == conclude(tries, bytes_needed, found, scoped),
{
    if scoped {
        (
            EnumState { phase: EnumPhase::Closing(found), tries, bytes_needed },
            EnumAction::ClosePrinter,
        )
    } else {
        (EnumState { phase: EnumPhase::Finished, tries, bytes_needed }, EnumAction::Finish(found))
    }
}

fn probe_or_stop_step<T>(tries: u32, bytes_needed: u32, scoped: bool) -> (next: (
    EnumState<T>,
    EnumAction<T>,
))
    ensures
        next == probe_or_stop::<T>(tries, bytes_needed, scoped),
{
    if tries >= MAX_TRIES {
        conclude_step(tries, bytes_needed, Enumeration::Incomplete, scoped)
    } else {
        (
            EnumState { phase: EnumPhase::Probing, tries: tries + 1, bytes_needed },
            EnumAction::Call { cb_buf: bytes_needed },
        )
    }
}

fn abandon_step<T>(tries: u32, bytes_needed: u32) -> (next: (EnumState<T>, EnumAction<T>))
    ensures
        next == abandon::<T>(tries, bytes_needed),
{
    (
        EnumState { phase: EnumPhase::Finished, tries, bytes_needed },
        EnumAction::Finish(Enumeration::Incomplete),
    )
}

fn enum_step<T>(state: EnumState<T>, event: EnumEvent<T>, scoped: bool) -> (next: (
    EnumState<T>,
    EnumAction<T>,
))
    ensures
        next == enum_next(state, event, scoped),
{
    let EnumState { phase, tries, bytes_needed } = state;
    match phase {
        EnumPhase::Idle => match event {
            EnumEvent::Start => if scoped {
                (
                    EnumState { phase: EnumPhase::Opening, tries, bytes_needed },
                    EnumAction::OpenPrinter,
                )
            } else {
                probe_or_stop_step(tries, bytes_needed, scoped)
            },
            _ => abandon_step(tries, bytes_needed),
        },
        EnumPhase::Opening => match event {
            EnumEvent::Opened { ok: true } => probe_or_stop_step(tries, bytes_needed, scoped),
            _ => abandon_step(tries, bytes_needed),
        },
        EnumPhase::Probing => match event {
            EnumEvent::Filled(records) => conclude_step(
                tries,
                bytes_needed,
                Enumeration::Complete(records),
                scoped,
            ),
            EnumEvent::TooSmall { bytes_needed: asked } => probe_or_stop_step(tries, asked, scoped),
            _ => conclude_step(tries, bytes_needed, Enumeration::Incomplete, scoped),
        },
        EnumPhase::Closing(found) => match event {
            EnumEvent::Closed => (
                EnumState { phase: EnumPhase::Finished, tries, bytes_needed },
                EnumAction::Finish(found),
            ),
            _ => abandon_step(tries, bytes_needed),
        },
        EnumPhase::Finished => abandon_step(tries, bytes_needed),
    }
}

/// Whether the binding lists the printer record: its name is not null.
pub open spec fn is_named_printer(record: PrinterInfo2w) -> bool {
    record.p_printer_name is Some
}

/// Whether the binding lists the job record: the name of its printer is not
/// null.
pub open spec fn is_named_job(record: JobInfo2w) -> bool {
    record.p_printer_name is Some
}

/// The printer records that the binding lists, in their order.
pub open spec fn named_printers(records: Seq<PrinterInfo2w>) -> Seq<PrinterInfo2w> {
    records.filter(|record: PrinterInfo2w| is_named_printer(record))
}

/// The job records that the binding lists, in their order.
pub open spec fn named_jobs(records: Seq<JobInfo2w>) -> Seq<JobInfo2w> {
    records.filter(|record: JobInfo2w| is_named_job(record))
}

fn keep_named_printers(records: Vec<PrinterInfo2w>) -> (kept: Vec<PrinterInfo2w>)
    ensures
        kept@ == named_printers(records@),
{
    let ghost all = records@;
    let mut kept: Vec<PrinterInfo2w> = Vec::new();
    proof {
        reveal(Seq::filter);
    }
    for record in it: records
        invariant
            it.seq() == all,
            kept@ == named_printers(all.take(it.index())),
    {
        proof {
            all.take(it.index()).lemma_filter_push(
                record,
                |record: PrinterInfo2w| is_named_printer(record),
            );
            assert(all.take(it.index() + 1) =~= all.take(it.index()).push(record));
        }
        if record.p_printer_name.is_some() {
            kept.push(record);
        }
    }
    proof {
        assert(all.take(all.len() as int) =~= all);
    }
    kept
}

fn keep_named_jobs(records: Vec<JobInfo2w>) -> (kept: Vec<JobInfo2w>)
    ensures
        kept@ == named_jobs(records@),
{
    let ghost all = records@;
    let mut kept: Vec<JobInfo2w> = Vec::new();
    proof {
        reveal(Seq::filter);
    }
    for record in it: records
        invariant
            it.seq() == all,
            kept@ == named_jobs(all.take(it.index())),
    {
        proof {
            all.take(it.index()).lemma_filter_push(
                record,
                |record: JobInfo2w| is_named_job(record),
            );
            assert(all.take(it.index() + 1) =~= all.take(it.index()).push(record));
        }
        if record.p_printer_name.is_some() {
            kept.push(record);
        }
    }
    proof {
        assert(all.take(all.len() as int) =~= all);
    }
    kept
}

/// One step of the enumeration of the system's printers. It follows
/// `enum_next` without a printer to open, on the event as it came, except that
/// of the records of a successful call only those with a name are kept, in
/// their order.
pub fn enum_printers(state: EnumState<PrinterInfo2w>, event: EnumEvent<PrinterInfo2w>) -> (next: (
    EnumState<PrinterInfo2w>,
    EnumAction<PrinterInfo2w>,
))
    ensures
        match event {
            EnumEvent::Filled(records) => exists|kept: Vec<PrinterInfo2w>|
                #[trigger] kept@ == named_printers(records@) && next == enum_next(
                    state,
                    EnumEvent::Filled(kept),
                    false,
                ),
            _ => next == enum_next(state, event, false),
        },
{
    match event {
        EnumEvent::Filled(records) => {
            let kept = keep_named_printers(records);
            enum_step(state, EnumEvent::Filled(kept), false)
        },
        other => enum_step(state, other, false),
    }
}

/// One step of the enumeration of a printer's jobs. It follows `enum_next`
/// with the printer opened first and closed at the end, on the event as it
/// came, except that of the records of a successful call only those with a
/// printer name are kept, in their order.
pub fn enum_jobs(state: EnumState<JobInfo2w>, event: EnumEvent<JobInfo2w>) -> (next: (
    EnumState<JobInfo2w>,
    EnumAction<JobInfo2w>,
))
    ensures
        match event {
            EnumEvent::Filled(records) => exists|kept: Vec<JobInfo2w>|
                #[trigger] kept@ == named_jobs(records@) && next == enum_next(
                    state,
                    EnumEvent::Filled(kept),
                    true,
                ),
            _ => next == enum_next(state, event, true),
        },
{
    match event {
        EnumEvent::Filled(records) => {
            let kept = keep_named_jobs(records);
            enum_step(state, EnumEvent::Filled(kept), true)
        },
        other => enum_step(state, other, true),
    }
}

/// One step of the retrieval of a single job of a printer. It follows
/// `enum_next` with the printer opened first and closed at the end; the
/// record of a successful call is passed on as it came.
pub fn get_job(state: EnumState<JobInfo2w>, event: EnumEvent<JobInfo2w>) -> (next: (
    EnumState<JobInfo2w>,
    EnumAction<JobInfo2w>,
))
    ensures
        next == enum_next(state, event, true),
{
    enum_step(state, event, true)
}

/// The number of enumeration calls that are asked for while the events
/// `events` come in, one after the other, from the state `state` on.
pub open spec fn calls_made<T>(state: EnumState<T>, events: Seq<EnumEvent<T>>, scoped: bool) -> nat
    decreases events.len(),
{
    if events.len() == 0 {
        0
    } else {
        let next = enum_next(state, events[0], scoped);
        let rest = calls_made(next.0, events.subrange(1, events.len() as int), scoped);
        if next.1 is Call {
            1 + rest
        } else {
            rest
        }
    }
}

/// The number of times the closing of the printer is asked for while the
/// events `events` come in from the state `state` on.
pub open spec fn closes_made<T>(state: EnumState<T>, events: Seq<EnumEvent<T>>, scoped: bool) -> nat
    decreases events.len(),
{
    if events.len() == 0 {
        0
    } else {
        let next = enum_next(state, events[0], scoped);
        let rest = closes_made(next.0, events.subrange(1, events.len() as int), scoped);
        if next.1 is ClosePrinter {
            1 + rest
        } else {
            rest
        }
    }
}

/// The state that the events `events` lead to from the state `state`.
pub open spec fn state_after<T>(state: EnumState<T>, events: Seq<EnumEvent<T>>, scoped: bool)
    -> EnumState<T>
    decreases events.len(),
{
    if events.len() == 0 {
        state
    } else {
        state_after(
            enum_next(state, events[0], scoped).0,
            events.subrange(1, events.len() as int),
            scoped,
        )
    }
}

/// Whatever the spooler answers, an enumeration makes no more calls than
/// `MAX_TRIES` less those it has made already.
pub proof fn lemma_calls_bounded<T>(state: EnumState<T>, events: Seq<EnumEvent<T>>, scoped: bool)
    requires
        state.tries <= MAX_TRIES,
    ensures
        calls_made(state, events, scoped) + state.tries <= MAX_TRIES,
    decreases events.len(),
{
    if events.len() > 0 {
        let next = enum_next(state, events[0], scoped);
        lemma_calls_bounded(next.0, events.subrange(1, events.len() as int), scoped);
    }
}

/// Whatever the spooler answers, an enumeration that begins makes at most
/// three calls.
pub proof fn lemma_at_most_three_calls<T>(
    state: EnumState<T>,
    events: Seq<EnumEvent<T>>,
    scoped: bool,
)
    requires
        state.phase is Idle,
        state.tries == 0,
    ensures
        calls_made(state, events, scoped) <= 3,
{
    lemma_calls_bounded(state, events, scoped);
}

/// A printer that was opened for an enumeration is closed exactly once, and
/// before the enumeration ends: from a state that owes the closing of the
/// printer, the events that lead to the end ask for it once; from one that
/// owes none and is past the opening, none is asked for.
pub proof fn lemma_closed_exactly_once<T>(
    state: EnumState<T>,
    events: Seq<EnumEvent<T>>,
    scoped: bool,
)
    requires
        !(state.phase is Idle),
        !(state.phase is Opening),
        state_after(state, events, scoped).phase is Finished,
        state.tries <= MAX_TRIES,
    ensures
        closes_made(state, events, scoped) == (if state.owes_close(scoped) { 1nat } else { 0nat }),
    decreases events.len(),
{
    if events.len() > 0 {
        let next = enum_next(state, events[0], scoped);
        let rest = events.subrange(1, events.len() as int);
        if next.0.phase is Probing || next.0.phase is Closing || next.0.phase is Finished {
            lemma_closed_exactly_once(next.0, rest, scoped);
        }
    }
}

/// Whether the events of an enumeration begin with the successful opening of
/// the printer.
pub open spec fn opens_printer<T>(events: Seq<EnumEvent<T>>, scoped: bool) -> bool {
    scoped && events.len() >= 2 && events[0] is Start && events[1] == (EnumEvent::<T>::Opened {
        ok: true,
    })
}

/// Over a whole enumeration, from its beginning to its end, the closing of
/// the printer is asked for once if the printer was opened, and never if it
/// was not.
pub proof fn lemma_opened_printer_is_closed<T>(
    state: EnumState<T>,
    events: Seq<EnumEvent<T>>,
    scoped: bool,
)
    requires
        state.phase is Idle,
        state.tries <= MAX_TRIES,
        state_after(state, events, scoped).phase is Finished,
    ensures
        closes_made(state, events, scoped) == (if opens_printer(events, scoped) {
            1nat
        } else {
            0nat
        }),
{
    let first = enum_next(state, events[0], scoped);
    let rest = events.subrange(1, events.len() as int);
    if first.0.phase is Opening {
        let second = enum_next(first.0, rest[0], scoped);
        let tail = rest.subrange(1, rest.len() as int);
        assert(closes_made(first.0, rest, scoped) == closes_made(second.0, tail, scoped) + (
        if second.1 is ClosePrinter {
            1nat
        } else {
            0nat
        }));
        lemma_closed_exactly_once(second.0, tail, scoped);
    } else {
        lemma_closed_exactly_once(first.0, rest, scoped);
    }
}

/// An enumeration never ends while the printer is open, and asks for the
/// closing of the printer only when it is open: a step that ends the
/// enumeration starts from a state that owes no closing, and a step that asks
/// for the closing starts from a state that owes it or answers the opening.
pub proof fn lemma_never_ends_open<T>(state: EnumState<T>, event: EnumEvent<T>, scoped: bool)
    ensures
        enum_next(state, event, scoped).1 is Finish ==> !state.owes_close(scoped),
        enum_next(state, event, scoped).1 is Finish ==> enum_next(
            state,
            event,
            scoped,
        ).0.phase is Finished,
        enum_next(state, event, scoped).1 is ClosePrinter ==> state.owes_close(scoped) || (
        scoped && state.phase is Opening && event == EnumEvent::<T>::Opened { ok: true }),
        enum_next(state, event, scoped).0.owes_close(scoped) && !state.owes_close(scoped) ==> (
        state.phase is Opening && event == EnumEvent::<T>::Opened { ok: true }),
{
}

/// A call of the raw print path, in the order in which a job that meets no
/// failure makes them.
#[derive(Debug, Clone, Copy, PartialEq, Eq, Structural)]
pub enum SpoolCall {
    /// Open a handle to the printer.
    OpenPrinter,
    /// Start a document of the datatype "RAW".
    StartDocPrinter,
    /// Start a page.
    StartPagePrinter,
    /// Look up the driver's print entry point by its name.
    FindDriverEntry,
    /// Read the bytes of the file to print.
    ReadFile,
    /// Hand the bytes to the driver's entry point.
    CallDriverEntry,
    /// End the page.
    EndPagePrinter,
    /// End the document.
    EndDocPrinter,
    /// Close the handle.
    ClosePrinter,
}

/// What is to be done next in a raw print job.
#[derive(Debug, Clone, Copy, PartialEq, Eq, Structural)]
pub enum SpoolAction {
    /// Make this call and report whether it succeeded.
    Call(SpoolCall),
    /// Nothing: the job has ended, and this is whether the file was printed.
    Finish(bool),
}

/// The state of a raw print job between two steps.
#[derive(Debug, Clone, Copy, PartialEq, Eq, Structural)]
pub struct SpoolJob {
    /// The call that was asked for last, `None` before the first.
    pub in_flight: Option<SpoolCall>,
    /// Whether the job has ended.
    pub finished: bool,
    /// Whether every call so far succeeded.
    pub ok: bool,
    /// Whether a handle is open and its closing has not been asked for.
    pub handle_open: bool,
    /// Whether a document is started and its end has not been asked for.
    pub doc_open: bool,
    /// Whether a page is started and its end has not been asked for.
    pub page_open: bool,
}

/// The place of a call in the order of the calls.
pub open spec fn call_position(call: SpoolCall) -> int {
    match call {
        SpoolCall::OpenPrinter => 0,
        SpoolCall::StartDocPrinter => 1,
        SpoolCall::StartPagePrinter => 2,
        SpoolCall::FindDriverEntry => 3,
        SpoolCall::ReadFile => 4,
        SpoolCall::CallDriverEntry => 5,
        SpoolCall::EndPagePrinter => 6,
        SpoolCall::EndDocPrinter => 7,
        SpoolCall::ClosePrinter => 8,
    }
}

/// The state of a job once the result of the call in flight is known: a
/// failure is remembered, and what a successful call has opened is marked as
/// open.
pub open spec fn absorbed(job: SpoolJob, succeeded: bool) -> SpoolJob {
    match job.in_flight {
        None => job,
        Some(call) => SpoolJob {
            in_flight: job.in_flight,
            finished: job.finished,
            ok: job.ok && succeeded,
            handle_open: job.handle_open || (call == SpoolCall::OpenPrinter && succeeded),
            doc_open: job.doc_open || (call == SpoolCall::StartDocPrinter && succeeded),
            page_open: job.page_open || (call == SpoolCall::StartPagePrinter && succeeded),
        },
    }
}

/// The call that follows `call` in a job that has met no failure; `None`
/// after the last.
pub open spec fn call_after(call: Option<SpoolCall>) -> Option<SpoolCall> {
    match call {
        None => Some(SpoolCall::OpenPrinter),
        Some(SpoolCall::OpenPrinter) => Some(SpoolCall::StartDocPrinter),
        Some(SpoolCall::StartDocPrinter) => Some(SpoolCall::StartPagePrinter),
        Some(SpoolCall::StartPagePrinter) => Some(SpoolCall::FindDriverEntry),
        Some(SpoolCall::FindDriverEntry) => Some(SpoolCall::ReadFile),
        Some(SpoolCall::ReadFile) => Some(SpoolCall::CallDriverEntry),
        Some(SpoolCall::CallDriverEntry) => Some(SpoolCall::EndPagePrinter),
        Some(SpoolCall::EndPagePrinter) => Some(SpoolCall::EndDocPrinter),
        Some(SpoolCall::EndDocPrinter) => Some(SpoolCall::ClosePrinter),
        Some(SpoolCall::ClosePrinter) => None,
    }
}

/// The call that releases what was opened last and is still open; `None`
/// when nothing is open.
pub open spec fn release_of(job: SpoolJob) -> Option<SpoolCall> {
    if job.page_open {
        Some(SpoolCall::EndPagePrinter)
    } else if job.doc_open {
        Some(SpoolCall::EndDocPrinter)
    } else if job.handle_open {
        Some(SpoolCall::ClosePrinter)
    } else {
        None
    }
}

/// The state of a job when `call` is asked for: the call is in flight, and
/// what it releases no longer counts as open.
pub open spec fn issued(job: SpoolJob, call: SpoolCall) -> SpoolJob {
    SpoolJob {
        in_flight: Some(call),
        finished: job.finished,
        ok: job.ok,
        handle_open: job.handle_open && call != SpoolCall::ClosePrinter,
        doc_open: job.doc_open && call != SpoolCall::EndDocPrinter,
        page_open: job.page_open && call != SpoolCall::EndPagePrinter,
    }
}

/// The state of a job that has ended.
pub open spec fn ended(job: SpoolJob) -> SpoolJob {
    SpoolJob {
        in_flight: job.in_flight,
        finished: true,
        ok: job.ok,
        handle_open: job.handle_open,
        doc_open: job.doc_open,
        page_open: job.page_open,
    }
}

/// One step of a raw print job: the state after the call in flight returned
/// `succeeded`, and what is to be done next.
///
/// While every call succeeds, the calls follow one another in their order, and
/// after the last the job ends with `true`. After the first failure no
/// further work is asked for: whatever is open is released, the page before
/// the document and the document before the handle, and the job ends with
/// `false`.
pub open spec fn spool_next(job: SpoolJob, succeeded: bool) -> (SpoolJob, SpoolAction) {
    if job.finished {
        (job, SpoolAction::Finish(false))
    } else {
        let now = absorbed(job, succeeded);
        let next = if now.ok {
            call_after(now.in_flight)
        } else {
            release_of(now)
        };
        match next {
            Some(call) => (issued(now, call), SpoolAction::Call(call)),
            None => (ended(now), SpoolAction::Finish(now.ok)),
        }
    }
}

/// What is open while `call` is in flight in a job in good order: the handle,
/// the document and the page.
pub open spec fn open_during(call: Option<SpoolCall>) -> (bool, bool, bool) {
    match call {
        None => (false, false, false),
        Some(SpoolCall::OpenPrinter) => (false, false, false),
        Some(SpoolCall::StartDocPrinter) => (true, false, false),
        Some(SpoolCall::StartPagePrinter) => (true, true, false),
        Some(SpoolCall::FindDriverEntry) => (true, true, true),
        Some(SpoolCall::ReadFile) => (true, true, true),
        Some(SpoolCall::CallDriverEntry) => (true, true, true),
        Some(SpoolCall::EndPagePrinter) => (true, true, false),
        Some(SpoolCall::EndDocPrinter) => (true, false, false),
        Some(SpoolCall::ClosePrinter) => (false, false, false),
    }
}

impl SpoolJob {
    /// The state of a job that has not begun.
    pub fn new() -> (job: SpoolJob)
        ensures
            job == (SpoolJob {
                in_flight: None,
                finished: false,
                ok: true,
                handle_open: false,
                doc_open: false,
                page_open: false,
            }),
            job.in_order(),
    {
        SpoolJob {
            in_flight: None,
            finished: false,
            ok: true,
            handle_open: false,
            doc_open: false,
            page_open: false,
        }
    }

    /// Whether the state is one that a job can be in: what is open is what
    /// the calls so far have opened and not released, a job that has met a
    /// failure is releasing or has ended, and a job that has ended holds
    /// nothing open.
    pub open spec fn in_order(self) -> bool {
        if self.finished {
            !self.handle_open && !self.doc_open && !self.page_open && self.in_flight is Some
        } else if self.ok {
            (self.handle_open, self.doc_open, self.page_open) == open_during(self.in_flight)
        } else {
            &&& self.in_flight is Some
            &&& call_position(self.in_flight->0) >= 6
            &&& !self.page_open
            &&& self.doc_open ==> self.handle_open
            &&& self.in_flight->0 != SpoolCall::EndPagePrinter ==> !self.doc_open
            &&& self.in_flight->0 == SpoolCall::ClosePrinter ==> !self.handle_open
        }
    }
}

fn next_call(call: Option<SpoolCall>) -> (next: Option<SpoolCall>)
    ensures
        next == call_after(call),
{
    match call {
        None => Some(SpoolCall::OpenPrinter),
        Some(SpoolCall::OpenPrinter) => Some(SpoolCall::StartDocPrinter),
        Some(SpoolCall::StartDocPrinter) => Some(SpoolCall::StartPagePrinter),
        Some(SpoolCall::StartPagePrinter) => Some(SpoolCall::FindDriverEntry),
        Some(SpoolCall::FindDriverEntry) => Some(SpoolCall::ReadFile),
        Some(SpoolCall::ReadFile) => Some(SpoolCall::CallDriverEntry),
        Some(SpoolCall::CallDriverEntry) => Some(SpoolCall::EndPagePrinter),
        Some(SpoolCall::EndPagePrinter) => Some(SpoolCall::EndDocPrinter),
        Some(SpoolCall::EndDocPrinter) => Some(SpoolCall::ClosePrinter),
        Some(SpoolCall::ClosePrinter) => None,
    }
}

/// One step of a raw print job on the spooler: told whether the call in
/// flight succeeded, it gives the state after it and says what comes next, as
/// `spool_next` has it. The first step of a job takes the state of
/// `SpoolJob::new`, and ignores `succeeded`.
pub fn print_file(job: SpoolJob, succeeded: bool) -> (next: (SpoolJob, SpoolAction))
    ensures
        next == spool_next(job, succeeded),
{
    if job.finished {
        return (job, SpoolAction::Finish(false));
    }
    let mut now = job;
    match job.in_flight {
        None => {},
        Some(call) => {
            now.ok = job.ok && succeeded;
            now.handle_open = job.handle_open || (call == SpoolCall::OpenPrinter && succeeded);
            now.doc_open = job.doc_open || (call == SpoolCall::StartDocPrinter && succeeded);
            now.page_open = job.page_open || (call == SpoolCall::StartPagePrinter && succeeded);
        },
    }
    let next = if now.ok {
        next_call(now.in_flight)
    } else if now.page_open {
        Some(SpoolCall::EndPagePrinter)
    } else if now.doc_open {
        Some(SpoolCall::EndDocPrinter)
    } else if now.handle_open {
        Some(SpoolCall::ClosePrinter)
    } else {
        None
    };
    match next {
        Some(call) => {
            let mut after = now;
            after.in_flight = Some(call);
            after.handle_open = now.handle_open && call != SpoolCall::ClosePrinter;
            after.doc_open = now.doc_open && call != SpoolCall::EndDocPrinter;
            after.page_open = now.page_open && call != SpoolCall::EndPagePrinter;
            (after, SpoolAction::Call(call))
        },
        None => {
            let mut after = now;
            after.finished = true;
            (after, SpoolAction::Finish(now.ok))
        },
    }
}

/// A job stays in good order from step to step.
pub proof fn lemma_spool_stays_in_order(job: SpoolJob, succeeded: bool)
    requires
        job.in_order(),
    ensures
        spool_next(job, succeeded).0.in_order(),
{
}

/// Every way in which a job ends, it ends with nothing open: when a step
/// says that the job has ended, no handle, document or page is left open.
/// It ends with `true` only after the last call succeeded with all the calls
/// before it.
pub proof fn lemma_spool_ends_released(job: SpoolJob, succeeded: bool)
    requires
        job.in_order(),
    ensures
        spool_next(job, succeeded).1 is Finish ==> {
            let after = spool_next(job, succeeded).0;
            after.finished && !after.handle_open && !after.doc_open && !after.page_open
        },
        spool_next(job, succeeded).1 == SpoolAction::Finish(true) ==> job.ok && succeeded
            && job.in_flight == Some(SpoolCall::ClosePrinter),
{
}

/// Each call is asked for at most once and in the order of the calls: the
/// call that a step asks for comes later in that order than the call that was
/// in flight.
pub proof fn lemma_spool_moves_forward(job: SpoolJob, succeeded: bool)
    requires
        job.in_order(),
        job.in_flight is Some,
    ensures
        spool_next(job, succeeded).1 matches SpoolAction::Call(call) ==> call_position(call)
            > call_position(job.in_flight->0),
{
}

/// What is opened is released exactly once. A release is asked for only of
/// what is open, and what it releases no longer counts as open; and nothing
/// counts as open but by the success of the call that opens it.
pub proof fn lemma_spool_release_discipline(job: SpoolJob, succeeded: bool)
    requires
        job.in_order(),
        !job.finished,
    ensures
        ({
            let now = absorbed(job, succeeded);
            let after = spool_next(job, succeeded).0;
            let action = spool_next(job, succeeded).1;
            &&& action == SpoolAction::Call(SpoolCall::EndPagePrinter) ==> now.page_open
                && !after.page_open
            &&& action == SpoolAction::Call(SpoolCall::EndDocPrinter) ==> now.doc_open
                && !after.doc_open
            &&& action == SpoolAction::Call(SpoolCall::ClosePrinter) ==> now.handle_open
                && !after.handle_open
            &&& now.page_open && !job.page_open ==> job.in_flight == Some(
                SpoolCall::StartPagePrinter,
            ) && succeeded
            &&& now.doc_open && !job.doc_open ==> job.in_flight == Some(SpoolCall::StartDocPrinter)
                && succeeded
            &&& now.handle_open && !job.handle_open ==> job.in_flight == Some(
                SpoolCall::OpenPrinter,
            ) && succeeded
        }),
{
}

} // verus!
