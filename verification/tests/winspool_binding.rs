use printers::printer::PrinterState;
use printers::shared::interface::{JobGetters, PlatformPrinterGetters};
use printers::windows;
use printers::windows::util::jobinfo::JobInfo2w;
use printers::windows::winspool::{
    enum_jobs, enum_printers, get_job, is_same_wide_name, print_file, DocInfo1w, EnumAction,
    EnumEvent, EnumState, Enumeration, PrinterInfo2w, SpoolAction, SpoolCall, SpoolJob,
};

fn wide(text: &str) -> Option<Vec<u16>> {
    Some(text.encode_utf16().chain(Some(0)).collect())
}

fn info(name: Option<&str>, status: u32) -> PrinterInfo2w {
    PrinterInfo2w {
        p_printer_name: name.and_then(wide),
        p_driver_name: wide("HP Universal Printing PCL 6"),
        p_location: wide("Büro 𝄞"),
        attributes: 0x48,
        status,
        default_printer: wide("NPI858230"),
    }
}

fn job_info(printer: Option<&str>, id: u32) -> JobInfo2w {
    JobInfo2w {
        job_id: id,
        p_printer_name: printer.and_then(wide),
        p_user_name: wide("Kaos"),
        p_document: wide("ordine_42131.pdf"),
        p_datatype: wide("RAW"),
        status: 8,
        priority: 1,
        start_time: 60,
        size: 2048,
        submitted: 1700,
        time: 15,
    }
}

#[test]
fn printer_getters_read_their_fields() {
    let p = info(Some("NPI858230"), 0);
    assert_eq!(p.get_name(), "NPI858230");
    assert_eq!(p.get_system_name(), "NPI858230");
    assert_eq!(p.get_marker_and_model(), "HP Universal Printing PCL 6");
    assert_eq!(p.get_location(), "Büro 𝄞");
    assert_eq!(p.get_uri(), "");
    assert_eq!(p.get_state(), "0");
    assert!(p.get_is_shared());
    assert!(p.get_is_default());
    assert_eq!(p.get_wchar_t_value(&None), "");
    assert_eq!(p.get_wchar_t_value(&Some(vec![0x41, 0, 0x42])), "A");
}

#[test]
fn shared_is_the_shared_bit() {
    for (attributes, shared) in [
        (0u32, false),
        (8, true),
        (0x48, true),
        (0x47, false),
        (0xFFFF_FFF7, false),
        (u32::MAX, true),
    ] {
        let mut p = info(Some("p"), 0);
        p.attributes = attributes;
        assert_eq!(p.get_is_shared(), shared);
    }
}

#[test]
fn default_is_the_printer_of_the_default_name() {
    assert!(info(Some("NPI858230"), 0).get_is_default());
    assert!(!info(Some("NPI858231"), 0).get_is_default());
    assert!(!info(Some("N"), 0).get_is_default());
    assert!(!info(None, 0).get_is_default());
    let mut p = info(Some("NPI858230"), 0);
    p.default_printer = None;
    assert!(!p.get_is_default());
}

#[test]
fn wide_names_compare_up_to_their_terminators() {
    assert!(is_same_wide_name(&Some(vec![0x41, 0, 0x42]), &Some(vec![0x41, 0, 0x43, 0x44])));
    assert!(is_same_wide_name(&Some(vec![0x41]), &Some(vec![0x41, 0])));
    assert!(is_same_wide_name(&Some(vec![]), &Some(vec![0])));
    assert!(!is_same_wide_name(&Some(vec![0x41, 0x42, 0]), &Some(vec![0x41, 0])));
    assert!(!is_same_wide_name(&None, &None));
    assert!(!is_same_wide_name(&Some(vec![0]), &None));
}

#[test]
fn job_getters_of_the_spooler_read_their_fields() {
    let j = job_info(Some("NPI858230"), 27);
    assert_eq!(j.get_id(), "27");
    assert_eq!(j.get_dest(), "NPI858230");
    assert_eq!(j.get_title(), "ordine_42131.pdf");
    assert_eq!(j.get_user(), "Kaos");
    assert_eq!(j.get_format(), "RAW");
    assert_eq!(j.get_state(), "8");
    assert_eq!(j.get_size(), "2048");
    assert_eq!(j.get_priority(), "1");
    assert_eq!(j.get_creation_time(), "1700");
    assert_eq!(j.get_completed_time(), "15");
    assert_eq!(j.get_processing_time(), "60");
    assert_eq!(job_info(None, 1).get_dest(), "");
    assert_eq!(j.get_wchar_t_value(&Some(vec![0xD800, 0x41, 0])), "\u{FFFD}A");
}

#[test]
fn printers_of_a_complete_enumeration() {
    let found = Enumeration::Complete(vec![
        info(Some("NPI858230"), 0),
        info(Some("PDF"), 1),
        info(Some("Fax"), 2),
        info(Some("Plotter"), 5),
        info(Some("Old"), 128),
    ]);
    let printers = windows::get_printers(&found);
    let states: Vec<PrinterState> = printers.iter().map(|p| p.state).collect();
    assert_eq!(
        states,
        vec![
            PrinterState::READY,
            PrinterState::PAUSED,
            PrinterState::PAUSED,
            PrinterState::PRINTING,
            PrinterState::UNKNOWN
        ]
    );
    assert_eq!(printers[0].name, "NPI858230");
    assert_eq!(printers[0].system_name, "NPI858230");
    assert_eq!(printers[0].driver_name, "HP Universal Printing PCL 6");
    assert_eq!(printers[0].location, "Büro 𝄞");
    assert_eq!(printers[0].uri, "");
    assert!(printers[0].is_default);
    assert!(!printers[1].is_default);
    assert!(printers[1].is_shared);
}

#[test]
fn printers_of_an_incomplete_enumeration() {
    assert!(windows::get_printers(&Enumeration::Incomplete).is_empty());
    assert!(windows::get_printers(&Enumeration::Complete(vec![])).is_empty());
}

#[test]
fn printer_enumeration_probes_then_fills() {
    let (state, action) = enum_printers(EnumState::new(), EnumEvent::Start);
    assert!(matches!(action, EnumAction::Call { cb_buf: 0 }));
    assert_eq!(state.tries, 1);
    let (state, action) = enum_printers(state, EnumEvent::TooSmall { bytes_needed: 1520 });
    assert!(matches!(action, EnumAction::Call { cb_buf: 1520 }));
    assert_eq!(state.tries, 2);
    let records = vec![info(Some("A"), 0), info(None, 0), info(Some("B"), 5)];
    let (state, action) = enum_printers(state, EnumEvent::Filled(records));
    assert_eq!(state.tries, 2);
    match action {
        EnumAction::Finish(Enumeration::Complete(kept)) => {
            let names: Vec<String> = kept.iter().map(|p| p.get_name()).collect();
            assert_eq!(names, vec!["A".to_string(), "B".to_string()]);
        }
        other => panic!("unexpected action {:?}", other),
    }
}

#[test]
fn printer_enumeration_stops_after_three_calls() {
    let mut state = EnumState::new();
    let mut event = EnumEvent::Start;
    let mut sizes = Vec::new();
    let outcome = loop {
        let (next, action) = enum_printers(state, event);
        state = next;
        match action {
            EnumAction::Call { cb_buf } => {
                sizes.push(cb_buf);
                event = EnumEvent::TooSmall { bytes_needed: cb_buf + 100 };
            }
            EnumAction::Finish(outcome) => break outcome,
            other => panic!("unexpected action {:?}", other),
        }
    };
    assert_eq!(sizes, vec![0, 100, 200]);
    assert!(matches!(outcome, Enumeration::Incomplete));
    assert_eq!(state.tries, 3);
}

#[test]
fn printer_enumeration_can_fill_at_the_third_call() {
    let (state, _) = enum_printers(EnumState::new(), EnumEvent::Start);
    let (state, _) = enum_printers(state, EnumEvent::TooSmall { bytes_needed: 10 });
    let (state, action) = enum_printers(state, EnumEvent::TooSmall { bytes_needed: 20 });
    assert!(matches!(action, EnumAction::Call { cb_buf: 20 }));
    let (_, action) = enum_printers(state, EnumEvent::Filled(vec![info(Some("A"), 0)]));
    assert!(matches!(action, EnumAction::Finish(Enumeration::Complete(kept)) if kept.len() == 1));
}

#[test]
fn printer_enumeration_never_opens_or_closes() {
    let (state, action) = enum_printers(EnumState::new(), EnumEvent::Start);
    assert!(!matches!(action, EnumAction::OpenPrinter | EnumAction::ClosePrinter));
    let (_, action) = enum_printers(state, EnumEvent::Filled(vec![]));
    assert!(matches!(action, EnumAction::Finish(Enumeration::Complete(kept)) if kept.is_empty()));
}

#[test]
fn an_event_out_of_turn_ends_the_enumeration() {
    let (_, action) = enum_printers(EnumState::new(), EnumEvent::Filled(vec![info(Some("A"), 0)]));
    assert!(matches!(action, EnumAction::Finish(Enumeration::Incomplete)));
    let (state, _) = enum_printers(EnumState::new(), EnumEvent::Start);
    let (state, action) = enum_printers(state, EnumEvent::Closed);
    assert!(matches!(action, EnumAction::Finish(Enumeration::Incomplete)));
    let (_, action) = enum_printers(state, EnumEvent::Start);
    assert!(matches!(action, EnumAction::Finish(Enumeration::Incomplete)));
}

#[test]
fn job_enumeration_opens_probes_and_closes() {
    let (state, action) = enum_jobs(EnumState::new(), EnumEvent::Start);
    assert!(matches!(action, EnumAction::OpenPrinter));
    let (state, action) = enum_jobs(state, EnumEvent::Opened { ok: true });
    assert!(matches!(action, EnumAction::Call { cb_buf: 0 }));
    let (state, action) = enum_jobs(state, EnumEvent::TooSmall { bytes_needed: 640 });
    assert!(matches!(action, EnumAction::Call { cb_buf: 640 }));
    let records = vec![job_info(None, 1), job_info(Some("P"), 2)];
    let (state, action) = enum_jobs(state, EnumEvent::Filled(records));
    assert!(matches!(action, EnumAction::ClosePrinter));
    let (_, action) = enum_jobs(state, EnumEvent::Closed);
    match action {
        EnumAction::Finish(Enumeration::Complete(kept)) => {
            assert_eq!(kept.len(), 1);
            assert_eq!(kept[0].job_id, 2);
        }
        other => panic!("unexpected action {:?}", other),
    }
}

#[test]
fn job_enumeration_without_a_printer_ends_at_once() {
    let (state, _) = enum_jobs(EnumState::new(), EnumEvent::Start);
    let (_, action) = enum_jobs(state, EnumEvent::Opened { ok: false });
    assert!(matches!(action, EnumAction::Finish(Enumeration::Incomplete)));
}

#[test]
fn job_enumeration_closes_the_printer_when_it_gives_up() {
    let (state, _) = enum_jobs(EnumState::new(), EnumEvent::Start);
    let (state, _) = enum_jobs(state, EnumEvent::Opened { ok: true });
    let (state, _) = enum_jobs(state, EnumEvent::TooSmall { bytes_needed: 1 });
    let (state, action) = enum_jobs(state, EnumEvent::TooSmall { bytes_needed: 2 });
    assert!(matches!(action, EnumAction::Call { cb_buf: 2 }));
    let (state, action) = enum_jobs(state, EnumEvent::TooSmall { bytes_needed: 3 });
    assert!(matches!(action, EnumAction::ClosePrinter));
    let (_, action) = enum_jobs(state, EnumEvent::Closed);
    assert!(matches!(action, EnumAction::Finish(Enumeration::Incomplete)));
}

#[test]
fn single_job_retrieval_passes_the_record_on() {
    let (state, action) = get_job(EnumState::new(), EnumEvent::Start);
    assert!(matches!(action, EnumAction::OpenPrinter));
    let (state, _) = get_job(state, EnumEvent::Opened { ok: true });
    let (state, _) = get_job(state, EnumEvent::TooSmall { bytes_needed: 320 });
    let (state, action) = get_job(state, EnumEvent::Filled(vec![job_info(None, 27)]));
    assert!(matches!(action, EnumAction::ClosePrinter));
    let (_, action) = get_job(state, EnumEvent::Closed);
    match action {
        EnumAction::Finish(Enumeration::Complete(kept)) => {
            assert_eq!(kept.len(), 1);
            assert_eq!(kept[0].job_id, 27);
            assert!(kept[0].p_printer_name.is_none());
        }
        other => panic!("unexpected action {:?}", other),
    }
}

fn run_spool(results: &[bool]) -> (Vec<SpoolCall>, bool) {
    let mut calls = Vec::new();
    let (mut job, mut action) = print_file(SpoolJob::new(), true);
    let mut i = 0;
    loop {
        match action {
            SpoolAction::Call(call) => {
                calls.push(call);
                let succeeded = results.get(i).copied().unwrap_or(true);
                i += 1;
                let next = print_file(job, succeeded);
                job = next.0;
                action = next.1;
            }
            SpoolAction::Finish(printed) => {
                assert!(job.finished);
                assert!(!job.handle_open && !job.doc_open && !job.page_open);
                return (calls, printed);
            }
        }
    }
}

#[test]
fn a_raw_job_without_failure_makes_every_call_in_order() {
    let (calls, printed) = run_spool(&[]);
    assert!(printed);
    assert_eq!(
        calls,
        vec![
            SpoolCall::OpenPrinter,
            SpoolCall::StartDocPrinter,
            SpoolCall::StartPagePrinter,
            SpoolCall::FindDriverEntry,
            SpoolCall::ReadFile,
            SpoolCall::CallDriverEntry,
            SpoolCall::EndPagePrinter,
            SpoolCall::EndDocPrinter,
            SpoolCall::ClosePrinter,
        ]
    );
}

#[test]
fn a_raw_job_that_cannot_open_the_printer_releases_nothing() {
    let (calls, printed) = run_spool(&[false]);
    assert!(!printed);
    assert_eq!(calls, vec![SpoolCall::OpenPrinter]);
}

#[test]
fn a_raw_job_that_cannot_start_the_document_closes_the_handle() {
    let (calls, printed) = run_spool(&[true, false]);
    assert!(!printed);
    assert_eq!(
        calls,
        vec![SpoolCall::OpenPrinter, SpoolCall::StartDocPrinter, SpoolCall::ClosePrinter]
    );
}

#[test]
fn a_raw_job_that_cannot_start_the_page_ends_the_document() {
    let (calls, printed) = run_spool(&[true, true, false]);
    assert!(!printed);
    assert_eq!(
        calls,
        vec![
            SpoolCall::OpenPrinter,
            SpoolCall::StartDocPrinter,
            SpoolCall::StartPagePrinter,
            SpoolCall::EndDocPrinter,
            SpoolCall::ClosePrinter,
        ]
    );
}

#[test]
fn a_raw_job_that_fails_inside_the_page_unwinds_everything() {
    for failing in 3..6 {
        let mut results = vec![true; 9];
        results[failing] = false;
        let (calls, printed) = run_spool(&results);
        assert!(!printed);
        assert_eq!(calls.len(), failing + 1 + 3);
        assert_eq!(
            calls[failing + 1..].to_vec(),
            vec![SpoolCall::EndPagePrinter, SpoolCall::EndDocPrinter, SpoolCall::ClosePrinter]
        );
    }
}

#[test]
fn a_raw_job_that_fails_while_releasing_goes_on_releasing() {
    let (calls, printed) = run_spool(&[true, true, true, true, true, true, false]);
    assert!(!printed);
    assert_eq!(calls.len(), 9);
    let (calls, printed) = run_spool(&[true, true, true, true, true, true, true, false]);
    assert!(!printed);
    assert_eq!(calls.len(), 9);
    let (calls, printed) = run_spool(&[true, true, true, true, true, true, true, true, false]);
    assert!(!printed);
    assert_eq!(calls.len(), 9);
    let (calls, printed) = run_spool(&[true, true, true, false, false, false, false]);
    assert!(!printed);
    assert_eq!(calls.len(), 7);
}

#[test]
fn every_raw_job_releases_once_what_it_opened() {
    for mask in 0u32..512 {
        let results: Vec<bool> = (0..9).map(|bit| mask & (1 << bit) == 0).collect();
        let (calls, printed) = run_spool(&results);
        let count = |call: SpoolCall| calls.iter().filter(|c| **c == call).count();
        let succeeded = |call: SpoolCall| {
            calls.iter().position(|c| *c == call).map(|at| results[at]).unwrap_or(false)
        };
        let released_once = |opening: SpoolCall, release: SpoolCall| {
            count(release) == succeeded(opening) as usize
        };
        assert!(released_once(SpoolCall::OpenPrinter, SpoolCall::ClosePrinter));
        assert!(released_once(SpoolCall::StartDocPrinter, SpoolCall::EndDocPrinter));
        assert!(released_once(SpoolCall::StartPagePrinter, SpoolCall::EndPagePrinter));
        assert_eq!(printed, calls.len() == 9 && results.iter().all(|r| *r));
        assert!(calls.len() <= 9);
    }
}

#[test]
fn a_finished_raw_job_stays_finished() {
    let (mut job, mut action) = print_file(SpoolJob::new(), true);
    while let SpoolAction::Call(_) = action {
        let next = print_file(job, true);
        job = next.0;
        action = next.1;
    }
    assert_eq!(action, SpoolAction::Finish(true));
    let (after, action) = print_file(job, true);
    assert_eq!(action, SpoolAction::Finish(false));
    assert_eq!(after, job);
}

#[test]
fn the_document_of_a_raw_job() {
    let doc = DocInfo1w::raw(Some("ordine_42131.pdf"));
    assert_eq!(Some(doc.p_doc_name), wide("ordine_42131.pdf"));
    assert_eq!(doc.p_output_file, None);
    assert_eq!(doc.p_datatype, vec![0x52, 0x41, 0x57, 0]);
    let unnamed = DocInfo1w::raw(None);
    assert_eq!(unnamed.p_doc_name, vec![0]);
}

#[test]
fn windows_print_reports_whether_the_helper_started() {
    assert_eq!(windows::print(true), Ok(true));
    assert_eq!(windows::print(false), Err("failure to send document to printer".to_string()));
}

#[test]
fn windows_print_helper_command_line() {
    assert_eq!(windows::print_helper_path("C:\\Temp\\"), "C:\\Temp\\SumatraPDF.exe");
    assert_eq!(
        windows::print_helper_arguments("NPI858230", "C:\\a b.pdf"),
        vec![
            "-silent".to_string(),
            "-print-to".to_string(),
            "NPI858230".to_string(),
            "C:\\a b.pdf".to_string()
        ]
    );
}

#[test]
fn windows_never_cancels_a_job() {
    assert!(!windows::cancel_job("NPI858230", 27));
    assert!(!windows::cancel_job("", 0));
    assert!(!windows::cancel_job("NPI858230", -1));
    assert!(!windows::cancel_job("any", i32::MAX));
}
