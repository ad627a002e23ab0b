use printers::printer::{Printer, PrinterState, Request};
use printers::unix::cups::{CupsDestT, CupsJobS, CupsOptionT};
use printers::windows::winspool::{Enumeration, PrinterInfo2w};
use printers::windows::HelperOutput;
use printers::{
    cancel_job, get_last_error, get_printer_by_name, get_printers, print_file, print_queue,
    CancelJobReply, LastErrorReply, PrintFileReply, PrintQueueReply, PrintersReply,
};

fn option(name: &str, value: &str) -> CupsOptionT {
    CupsOptionT { name: name.as_bytes().to_vec(), value: value.as_bytes().to_vec() }
}

fn dest(name: &str, info: &str) -> CupsDestT {
    CupsDestT {
        name: Some(name.as_bytes().to_vec()),
        instance: None,
        is_default: 0,
        options: vec![option("printer-info", info), option("printer-is-shared", "false")],
    }
}

fn wide(text: &str) -> Option<Vec<u16>> {
    Some(text.encode_utf16().chain(Some(0)).collect())
}

fn info(name: &str) -> PrinterInfo2w {
    PrinterInfo2w {
        p_printer_name: wide(name),
        p_driver_name: wide("driver"),
        p_location: None,
        attributes: 0,
        status: 5,
        default_printer: None,
    }
}

fn some_printer() -> Printer {
    get_printers(PrintersReply::Cups(vec![dest("lp0", "Front desk")])).remove(0)
}

#[test]
fn printers_of_either_platform() {
    let dests = vec![dest("lp0", "Front desk"), dest("lp1", "Back")];
    let cups = get_printers(PrintersReply::Cups(dests));
    assert_eq!(cups.len(), 2);
    assert_eq!(cups[1].name, "Back");
    let found = Enumeration::Complete(vec![info("NPI858230")]);
    let spooler = get_printers(PrintersReply::Winspool(found));
    assert_eq!(spooler.len(), 1);
    assert_eq!(spooler[0].system_name, "NPI858230");
    assert_eq!(spooler[0].state, PrinterState::PRINTING);
    assert_eq!(spooler[0].location, "");
    assert!(get_printers(PrintersReply::Winspool(Enumeration::Incomplete)).is_empty());
}

#[test]
fn printer_is_found_by_label_or_system_name() {
    let reply = || {
        PrintersReply::Cups(vec![dest("lp0", "Front desk"), dest("lp1", "lp0"), dest("lp2", "Back")])
    };
    assert_eq!(get_printer_by_name(reply(), "Back").unwrap().system_name, "lp2");
    assert_eq!(get_printer_by_name(reply(), "lp2").unwrap().name, "Back");
    assert_eq!(get_printer_by_name(reply(), "lp0").unwrap().name, "Front desk");
    assert_eq!(get_printer_by_name(reply(), "Front desk").unwrap().system_name, "lp0");
    assert!(get_printer_by_name(reply(), "front desk").is_none());
    assert!(get_printer_by_name(reply(), "").is_none());
    assert!(get_printer_by_name(PrintersReply::Cups(vec![]), "lp0").is_none());
    let spooler = PrintersReply::Winspool(Enumeration::Complete(vec![info("A"), info("B")]));
    assert_eq!(get_printer_by_name(spooler, "B").unwrap().system_name, "B");
}

#[test]
fn found_printer_is_a_copy_of_the_listed_one() {
    let reply = PrintersReply::Cups(vec![dest("lp0", "Front desk")]);
    let found = get_printer_by_name(reply, "lp0").unwrap();
    let listed = some_printer();
    assert_eq!(found.name, listed.name);
    assert_eq!(found.system_name, listed.system_name);
    assert_eq!(found.driver_name, listed.driver_name);
    assert_eq!(found.uri, listed.uri);
    assert_eq!(found.location, listed.location);
    assert_eq!(found.is_default, listed.is_default);
    assert_eq!(found.is_shared, listed.is_shared);
    assert_eq!(found.state, listed.state);
    let again = found.clone();
    assert_eq!(again.system_name, "lp0");
}

#[test]
fn test_printer_pdf() {
    let status = print_file(&PrintFileReply::Cups { job_id: 12 });
    assert_eq!(status, Ok(true));
    assert_eq!(print_file(&PrintFileReply::Helper { spawned: true }), Ok(true));
}

#[test]
fn print_file_failure_has_the_text_of_its_platform() {
    assert_eq!(
        print_file(&PrintFileReply::Cups { job_id: 0 }),
        Err("failure on send document to printer".to_string())
    );
    assert_eq!(
        print_file(&PrintFileReply::Helper { spawned: false }),
        Err("failure to send document to printer".to_string())
    );
}

#[test]
fn queue_of_either_platform() {
    let job = CupsJobS {
        id: 1,
        dest: None,
        title: None,
        user: None,
        format: None,
        state: 4,
        size: 0,
        priority: 0,
        completed_time: 0,
        creation_time: 0,
        processing_time: 0,
    };
    let cups = print_queue(PrintQueueReply::Cups { number_of_jobs: 1, jobs: vec![job] });
    assert_eq!(cups.len(), 1);
    assert_eq!(cups[0].id, "1");
    let output = HelperOutput { launched: true, succeeded: true, stdout: b"[]".to_vec() };
    assert!(print_queue(PrintQueueReply::Helper(output)).is_empty());
}

#[test]
fn cancel_of_either_platform() {
    assert!(cancel_job(&CancelJobReply::Cups { native_result: 1 }));
    assert!(!cancel_job(&CancelJobReply::Cups { native_result: 0 }));
    assert!(!cancel_job(&CancelJobReply::Winspool));
}

#[test]
fn last_error_of_either_platform() {
    let unauthorized = LastErrorReply::Cups(Some(b"Unauthorized".to_vec()));
    assert_eq!(get_last_error(&unauthorized), "Unauthorized");
    assert_eq!(get_last_error(&LastErrorReply::Cups(None)), "");
    assert_eq!(get_last_error(&LastErrorReply::Winspool), "");
    assert_eq!(Printer::get_last_error(&unauthorized), "Unauthorized");
    assert_eq!(Printer::get_last_error(&LastErrorReply::Winspool), "");
}

#[test]
fn requests_are_addressed_to_the_system_name() {
    let printer = some_printer();
    match printer.print_file("/tmp/a.pdf", Some("test.pdf")) {
        Request::PrintFile { printer_name, file_path, job_name } => {
            assert_eq!(printer_name, "lp0");
            assert_eq!(file_path, "/tmp/a.pdf");
            assert_eq!(job_name, Some("test.pdf".to_string()));
        }
        other => panic!("unexpected request {:?}", other),
    }
    match printer.print("42".as_bytes(), None) {
        Request::Print { printer_name, buffer, job_name } => {
            assert_eq!(printer_name, "lp0");
            assert_eq!(buffer, vec![b'4', b'2']);
            assert_eq!(job_name, None);
        }
        other => panic!("unexpected request {:?}", other),
    }
    match printer.print_queue(1, -1) {
        Request::PrintQueue { printer_name, myjobs, whichjobs } => {
            assert_eq!(printer_name, "lp0");
            assert_eq!((myjobs, whichjobs), (1, -1));
        }
        other => panic!("unexpected request {:?}", other),
    }
    match printer.cancel_job(27) {
        Request::CancelJob { printer_name, job_id } => {
            assert_eq!(printer_name, "lp0");
            assert_eq!(job_id, 27);
        }
        other => panic!("unexpected request {:?}", other),
    }
}
