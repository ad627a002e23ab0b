//! The normalisation of native state codes: one explicit table per platform
//! for the state of a printer, one for the state of a job that both raw
//! enumeration paths share, and one for the job status that the helper
//! process of the Windows binding reports.
//!
//! Native records hand their state over as decimal text, so each table exists
//! over the code and over its text; the two agree on every code.
use crate::printer::PrinterState;
use crate::printer_job::JobState;
use crate::shared::decimal::{decimal, lemma_decimal_injective};
use crate::shared::narrow::same_text;
use vstd::prelude::*;

verus! {

/// The state of a CUPS printer by its `printer-state` code.
pub open spec fn cups_printer_state(code: int) -> PrinterState {
    if code == 3 {
        PrinterState::READY
    } else if code == 4 {
        PrinterState::PRINTING
    } else if code == 5 {
        PrinterState::PAUSED
    } else {
        PrinterState::UNKNOWN
    }
}

/// The state of a spooler printer by its status code.
pub open spec fn winspool_printer_state(code: int) -> PrinterState {
    if code == 0 {
        PrinterState::READY
    } else if code == 1 || code == 2 {
        PrinterState::PAUSED
    } else if code == 5 {
        PrinterState::PRINTING
    } else {
        PrinterState::UNKNOWN
    }
}

/// The state of a job by the code of the raw enumeration path.
pub open spec fn job_state(code: int) -> JobState {
    if code == 3 {
        JobState::PENDING
    } else if code == 4 {
        JobState::HELD
    } else if code == 5 {
        JobState::PROCESSING
    } else if code == 6 {
        JobState::STOPPED
    } else if code == 7 {
        JobState::CANCELED
    } else if code == 8 {
        JobState::ABORTED
    } else if code == 9 {
        JobState::COMPLETED
    } else {
        JobState::UNKNOWN
    }
}

/// The state of a job by the status that the helper process reports.
pub open spec fn helper_job_state(status: int) -> JobState {
    if status == 0 || status == 19 {
        JobState::HELD
    } else if status == 8 {
        JobState::PROCESSING
    } else if status == 6 {
        JobState::STOPPED
    } else if status == 4 || status == 256 {
        JobState::CANCELED
    } else if status == 2 || status == 18 {
        JobState::ABORTED
    } else if status == 512 || status == 4096 {
        JobState::COMPLETED
    } else {
        JobState::UNKNOWN
    }
}

/// The state of a CUPS printer by the text of its `printer-state` attribute.
pub open spec fn cups_printer_state_of_text(text: Seq<char>) -> PrinterState {
    if text == decimal(3) {
        PrinterState::READY
    } else if text == decimal(4) {
        PrinterState::PRINTING
    } else if text == decimal(5) {
        PrinterState::PAUSED
    } else {
        PrinterState::UNKNOWN
    }
}

/// The state of a spooler printer by the text of its status code.
pub open spec fn winspool_printer_state_of_text(text: Seq<char>) -> PrinterState {
    if text == decimal(0) {
        PrinterState::READY
    } else if text == decimal(1) || text == decimal(2) {
        PrinterState::PAUSED
    } else if text == decimal(5) {
        PrinterState::PRINTING
    } else {
        PrinterState::UNKNOWN
    }
}

/// The state of a job by the text of its code.
pub open spec fn job_state_of_text(text: Seq<char>) -> JobState {
    if text == decimal(3) {
        JobState::PENDING
    } else if text == decimal(4) {
        JobState::HELD
    } else if text == decimal(5) {
        JobState::PROCESSING
    } else if text == decimal(6) {
        JobState::STOPPED
    } else if text == decimal(7) {
        JobState::CANCELED
    } else if text == decimal(8) {
        JobState::ABORTED
    } else if text == decimal(9) {
        JobState::COMPLETED
    } else {
        JobState::UNKNOWN
    }
}

/// A text is the decimal text of at most one code.
proof fn lemma_code_of_text(code: int, known: int)
    ensures
        (decimal(code) == decimal(known)) == (code == known),
{
    if decimal(code) == decimal(known) {
        lemma_decimal_injective(code, known);
    }
}

/// On the text of every code, the CUPS printer table over texts gives what
/// the table over codes gives: READY, PRINTING and PAUSED for 3, 4 and 5, and
/// UNKNOWN for any other code.
pub proof fn lemma_cups_printer_state_of_code(code: int)
    ensures
        cups_printer_state_of_text(decimal(code)) == cups_printer_state(code),
{
    lemma_code_of_text(code, 3);
    lemma_code_of_text(code, 4);
    lemma_code_of_text(code, 5);
}

/// On the text of every code, the spooler printer table over texts gives what
/// the table over codes gives: READY for 0, PAUSED for 1 and 2, PRINTING for
/// 5, and UNKNOWN for any other code.
pub proof fn lemma_winspool_printer_state_of_code(code: int)
    ensures
        winspool_printer_state_of_text(decimal(code)) == winspool_printer_state(code),
{
    lemma_code_of_text(code, 0);
    lemma_code_of_text(code, 1);
    lemma_code_of_text(code, 2);
    lemma_code_of_text(code, 5);
}

/// On the text of every code, the job table over texts gives what the table
/// over codes gives: the seven states for 3 to 9, and UNKNOWN for any other
/// code.
pub proof fn lemma_job_state_of_code(code: int)
    ensures
        job_state_of_text(decimal(code)) == job_state(code),
{
    lemma_code_of_text(code, 3);
    lemma_code_of_text(code, 4);
    lemma_code_of_text(code, 5);
    lemma_code_of_text(code, 6);
    lemma_code_of_text(code, 7);
    lemma_code_of_text(code, 8);
    lemma_code_of_text(code, 9);
}

/// What the one-digit literals used by the tables spell.
proof fn lemma_digit_literals()
    ensures
        "0"@ == decimal(0),
        "1"@ == decimal(1),
        "2"@ == decimal(2),
        "3"@ == decimal(3),
        "4"@ == decimal(4),
        "5"@ == decimal(5),
        "6"@ == decimal(6),
        "7"@ == decimal(7),
        "8"@ == decimal(8),
        "9"@ == decimal(9),
{
    reveal_strlit("0");
    reveal_strlit("1");
    reveal_strlit("2");
    reveal_strlit("3");
    reveal_strlit("4");
    reveal_strlit("5");
    reveal_strlit("6");
    reveal_strlit("7");
    reveal_strlit("8");
    reveal_strlit("9");
}

/// The state of a CUPS printer, from the text of its `printer-state`
/// attribute.
pub fn cups_printer_state_from(cups_state: &str) -> (state: PrinterState)
    ensures
        state == cups_printer_state_of_text(cups_state@),
{
    proof {
        lemma_digit_literals();
    }
    if same_text(cups_state, "3") {
        PrinterState::READY
    } else if same_text(cups_state, "4") {
        PrinterState::PRINTING
    } else if same_text(cups_state, "5") {
        PrinterState::PAUSED
    } else {
        PrinterState::UNKNOWN
    }
}

/// The state of a spooler printer, from the text of its status code.
pub fn winspool_printer_state_from(winspool_state: &str) -> (state: PrinterState)
    ensures
        state == winspool_printer_state_of_text(winspool_state@),
{
    proof {
        lemma_digit_literals();
    }
    if same_text(winspool_state, "0") {
        PrinterState::READY
    } else if same_text(winspool_state, "1") || same_text(winspool_state, "2") {
        PrinterState::PAUSED
    } else if same_text(winspool_state, "5") {
        PrinterState::PRINTING
    } else {
        PrinterState::UNKNOWN
    }
}

/// The state of a job, from the text of its code.
pub fn job_state_from(native_state: &str) -> (state: JobState)
    ensures
        state == job_state_of_text(native_state@),
{
    proof {
        lemma_digit_literals();
    }
    if same_text(native_state, "3") {
        JobState::PENDING
    } else if same_text(native_state, "4") {
        JobState::HELD
    } else if same_text(native_state, "5") {
        JobState::PROCESSING
    } else if same_text(native_state, "6") {
        JobState::STOPPED
    } else if same_text(native_state, "7") {
        JobState::CANCELED
    } else if same_text(native_state, "8") {
        JobState::ABORTED
    } else if same_text(native_state, "9") {
        JobState::COMPLETED
    } else {
        JobState::UNKNOWN
    }
}

/// The state of a job, from the status that the helper process reports.
pub fn helper_job_state_from(job_status: u32) -> (state: JobState)
    ensures
        state == helper_job_state(job_status as int),
{
    match job_status {
        0 => JobState::HELD,
        19 => JobState::HELD,
        8 => JobState::PROCESSING,
        6 => JobState::STOPPED,
        4 | 256 => JobState::CANCELED,
        2 | 18 => JobState::ABORTED,
        512 | 4096 => JobState::COMPLETED,
        _ => JobState::UNKNOWN,
    }
}

} // verus!
