//! The spooler's job record as plain data.
use crate::shared::decimal::{decimal, u32_text};
use crate::shared::interface::JobGetters;
use crate::shared::wide::{text_of_wide, wide_text};
use vstd::prelude::*;

verus! {

/// A job of a spooler queue (`JOB_INFO_2W`), with the fields that the binding
/// reads. A text field holds the UTF-16 buffer it points to, and is `None`
/// where the pointer is null.
#[derive(Debug)]
pub struct JobInfo2w {
    pub job_id: u32,
    pub p_printer_name: Option<Vec<u16>>,
    pub p_user_name: Option<Vec<u16>>,
    pub p_document: Option<Vec<u16>>,
    pub p_datatype: Option<Vec<u16>>,
    pub status: u32,
    pub priority: u32,
    pub start_time: u32,
    pub size: u32,
    pub submitted: u32,
    pub time: u32,
}

impl JobInfo2w {
    /// The text of a wide string of the record: empty for a null pointer,
    /// else what the units before the terminator spell.
    pub fn get_wchar_t_value(&self, s: &Option<Vec<u16>>) -> (value: String)
        ensures
            value@ == wide_text(*s),
    {
        text_of_wide(s)
    }
}

impl JobGetters for JobInfo2w {
    open spec fn id_text(&self) -> Seq<char> {
        decimal(self.job_id as int)
    }

    open spec fn dest_text(&self) -> Seq<char> {
        wide_text(self.p_printer_name)
    }

    open spec fn title_text(&self) -> Seq<char> {
        wide_text(self.p_document)
    }

    open spec fn user_text(&self) -> Seq<char> {
        wide_text(self.p_user_name)
    }

    open spec fn format_text(&self) -> Seq<char> {
        wide_text(self.p_datatype)
    }

    open spec fn state_text(&self) -> Seq<char> {
        decimal(self.status as int)
    }

    open spec fn size_text(&self) -> Seq<char> {
        decimal(self.size as int)
    }

    open spec fn priority_text(&self) -> Seq<char> {
        decimal(self.priority as int)
    }

    open spec fn creation_time_text(&self) -> Seq<char> {
        decimal(self.submitted as int)
    }

    open spec fn completed_time_text(&self) -> Seq<char> {
        decimal(self.time as int)
    }

    open spec fn processing_time_text(&self) -> Seq<char> {
        decimal(self.start_time as int)
    }

    fn get_id(&self) -> (id: String) {
        u32_text(self.job_id)
    }

    fn get_dest(&self) -> (dest: String) {
        self.get_wchar_t_value(&self.p_printer_name)
    }

    fn get_title(&self) -> (title: String) {
        self.get_wchar_t_value(&self.p_document)
    }

    fn get_user(&self) -> (user: String) {
        self.get_wchar_t_value(&self.p_user_name)
    }

    fn get_format(&self) -> (format: String) {
        self.get_wchar_t_value(&self.p_datatype)
    }

    fn get_state(&self) -> (state: String) {
        u32_text(self.status)
    }

    fn get_size(&self) -> (size: String) {
        u32_text(self.size)
    }

    fn get_priority(&self) -> (priority: String) {
        u32_text(self.priority)
    }

    fn get_creation_time(&self) -> (creation_time: String) {
        u32_text(self.submitted)
    }

    fn get_completed_time(&self) -> (completed_time: String) {
        u32_text(self.time)
    }

    fn get_processing_time(&self) -> (processing_time: String) {
        u32_text(self.start_time)
    }
}

} // verus!
