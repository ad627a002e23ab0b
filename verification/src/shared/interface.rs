//! The capability interfaces: what a native record must be able to say about
//! itself so that it can be projected into the domain model.
//!
//! Every accessor returns a value of its own, never a borrow into the native
//! record, and none of them fails: a field that the native record lacks reads
//! as the empty string or as `false`.
use vstd::prelude::*;

verus! {

/// A native record that describes a printer.
pub trait PlatformPrinterGetters {
    /// The human-readable label of the printer.
    spec fn name_text(&self) -> Seq<char>;

    /// Whether the printer is the system's default.
    spec fn is_default_value(&self) -> bool;

    /// The identifier under which the platform knows the printer.
    spec fn system_name_text(&self) -> Seq<char>;

    /// The make and model of the printer, or the name of its driver.
    spec fn marker_and_model_text(&self) -> Seq<char>;

    /// Whether the printer is shared with other machines.
    spec fn is_shared_value(&self) -> bool;

    /// The device URI of the printer.
    spec fn uri_text(&self) -> Seq<char>;

    /// Where the printer stands.
    spec fn location_text(&self) -> Seq<char>;

    /// The native state code of the printer, as text.
    spec fn state_text(&self) -> Seq<char>;

    fn get_name(&self) -> (name: String)
        ensures
            name@ == self.name_text(),
    ;

    fn get_is_default(&self) -> (is_default: bool)
        ensures
            is_default == self.is_default_value(),
    ;

    fn get_system_name(&self) -> (system_name: String)
        ensures
            system_name@ == self.system_name_text(),
    ;

    fn get_marker_and_model(&self) -> (marker_and_model: String)
        ensures
            marker_and_model@ == self.marker_and_model_text(),
    ;

    fn get_is_shared(&self) -> (is_shared: bool)
        ensures
            is_shared == self.is_shared_value(),
    ;

    fn get_uri(&self) -> (uri: String)
        ensures
            uri@ == self.uri_text(),
    ;

    fn get_location(&self) -> (location: String)
        ensures
            location@ == self.location_text(),
    ;

    fn get_state(&self) -> (state: String)
        ensures
            state@ == self.state_text(),
    ;
}

/// A native record that describes a print job.
pub trait JobGetters {
    /// The job's identifier.
    spec fn id_text(&self) -> Seq<char>;

    /// The printer or class that the job was sent to.
    spec fn dest_text(&self) -> Seq<char>;

    /// The job's title.
    spec fn title_text(&self) -> Seq<char>;

    /// The user who submitted the job.
    spec fn user_text(&self) -> Seq<char>;

    /// The document format of the job.
    spec fn format_text(&self) -> Seq<char>;

    /// The native state code of the job, as text.
    spec fn state_text(&self) -> Seq<char>;

    /// The job's size.
    spec fn size_text(&self) -> Seq<char>;

    /// The job's priority.
    spec fn priority_text(&self) -> Seq<char>;

    /// When the job was created.
    spec fn creation_time_text(&self) -> Seq<char>;

    /// When the job was completed.
    spec fn completed_time_text(&self) -> Seq<char>;

    /// When the job was processed.
    spec fn processing_time_text(&self) -> Seq<char>;

    fn get_id(&self) -> (id: String)
        ensures
            id@ == self.id_text(),
    ;

    fn get_dest(&self) -> (dest: String)
        ensures
            dest@ == self.dest_text(),
    ;

    fn get_title(&self) -> (title: String)
        ensures
            title@ == self.title_text(),
    ;

    fn get_user(&self) -> (user: String)
        ensures
            user@ == self.user_text(),
    ;

    fn get_format(&self) -> (format: String)
        ensures
            format@ == self.format_text(),
    ;

    fn get_state(&self) -> (state: String)
        ensures
            state@ == self.state_text(),
    ;

    fn get_size(&self) -> (size: String)
        ensures
            size@ == self.size_text(),
    ;

    fn get_priority(&self) -> (priority: String)
        ensures
            priority@ == self.priority_text(),
    ;

    fn get_creation_time(&self) -> (creation_time: String)
        ensures
            creation_time@ == self.creation_time_text(),
    ;

    fn get_completed_time(&self) -> (completed_time: String)
        ensures
            completed_time@ == self.completed_time_text(),
    ;

    fn get_processing_time(&self) -> (processing_time: String)
        ensures
            processing_time@ == self.processing_time_text(),
    ;
}

} // verus!
