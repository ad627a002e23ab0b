use printers::printer_job::{JobState, PrintJob};
use printers::windows;
use printers::windows::json::{find_member, get_optional_text, get_text, get_u32, get_u64, Json};
use printers::windows::powershell::{
    date_token_payload, get_jobs, get_jobs_arguments, get_jobs_command, jobs_from_document,
    record_from_json, PowerShellPrintJob,
};
use printers::windows::HelperOutput;

const ONE: &str = r#"{"DocumentName":"ordine_42131.pdf","Id":27,"TotalPages":1,"Position":1,"Size":204800,"SubmmitedTime":null,"UserName":"Kaos","PagesPrinted":0,"JobTime":15,"ComputerName":"DESK","Datatype":"RAW","PrinterName":"NPI858230","Priority":1,"SubmittedTime":"\/Date(1700000000000)\/","JobStatus":8}"#;

const TWO: &str = r#"[
  {"DocumentName":"a.pdf","Id":1,"Size":10,"UserName":"u","JobTime":0,"Datatype":"RAW","PrinterName":"P","Priority":1,"SubmittedTime":"/Date(1700000000000)/","JobStatus":512},
  {"DocumentName":"b ü.pdf","Id":2,"Size":18446744073709551615,"UserName":"v","JobTime":"n/a","Datatype":"NT EMF 1.008","PrinterName":"P","Priority":99,"SubmittedTime":null,"JobStatus":3}
]"#;

fn record(
    submitted_time: Option<&str>,
    job_time: Option<&str>,
    job_status: u32,
) -> PowerShellPrintJob {
    PowerShellPrintJob {
        document_name: "doc".to_string(),
        id: 5,
        size: 1024,
        submitted_time: submitted_time.map(str::to_string),
        user_name: "user".to_string(),
        job_time: job_time.map(str::to_string),
        datatype: "RAW".to_string(),
        printer_name: "printer".to_string(),
        priority: 3,
        job_status,
    }
}

#[test]
fn date_token_is_unwrapped() {
    assert_eq!(date_token_payload("/Date(1700000000000)/"), "1700000000000");
}

#[test]
fn date_token_variants() {
    assert_eq!(date_token_payload("1700000000000"), "1700000000000");
    assert_eq!(date_token_payload("/Date(-62135596800000)/"), "-62135596800000");
    assert_eq!(date_token_payload("/Date(+42)/"), "42");
    assert_eq!(date_token_payload("/Date(007)/"), "7");
    assert_eq!(date_token_payload("/Date(/Date(5)/)/"), "5");
}

#[test]
fn unparsable_date_token_is_empty() {
    for token in [
        "",
        "/Date()/",
        "/Date(abc)/",
        "/Date(1700000000000+0100)/",
        "yesterday",
        "/Date(99999999999999999999)/",
        "/Date( 5)/",
    ] {
        assert_eq!(date_token_payload(token), "");
    }
}

#[test]
fn absent_submission_time_is_empty() {
    let job = PrintJob::from(record(None, Some("1"), 0));
    assert_eq!(job.creation_time, "");
}

#[test]
fn record_becomes_a_job() {
    let job = PrintJob::from(record(Some("/Date(1700000000000)/"), Some("15"), 8));
    assert_eq!(job.id, "5");
    assert_eq!(job.dest, "printer");
    assert_eq!(job.title, "doc");
    assert_eq!(job.user, "user");
    assert_eq!(job.format, "RAW");
    assert_eq!(job.state, JobState::PROCESSING);
    assert_eq!(job.size, "1024");
    assert_eq!(job.priority, "3");
    assert_eq!(job.completed_time, "");
    assert_eq!(job.creation_time, "1700000000000");
    assert_eq!(job.processing_time, "15");
}

#[test]
fn record_without_job_time_number_has_no_processing_time() {
    assert_eq!(PrintJob::from(record(None, None, 0)).processing_time, "");
}

#[test]
fn record_status_table() {
    let table = [
        (0u32, JobState::HELD),
        (19, JobState::HELD),
        (8, JobState::PROCESSING),
        (6, JobState::STOPPED),
        (4, JobState::CANCELED),
        (256, JobState::CANCELED),
        (2, JobState::ABORTED),
        (18, JobState::ABORTED),
        (512, JobState::COMPLETED),
        (4096, JobState::COMPLETED),
        (1, JobState::UNKNOWN),
        (3, JobState::UNKNOWN),
        (5, JobState::UNKNOWN),
        (1024, JobState::UNKNOWN),
    ];
    for (status, state) in table {
        assert_eq!(PrintJob::from(record(None, None, status)).state, state);
    }
}

#[test]
fn single_record_is_one_job() {
    let jobs = get_jobs(ONE);
    assert_eq!(jobs.len(), 1);
    let job = &jobs[0];
    assert_eq!(job.id, "27");
    assert_eq!(job.dest, "NPI858230");
    assert_eq!(job.title, "ordine_42131.pdf");
    assert_eq!(job.user, "Kaos");
    assert_eq!(job.format, "RAW");
    assert_eq!(job.state, JobState::PROCESSING);
    assert_eq!(job.size, "204800");
    assert_eq!(job.priority, "1");
    assert_eq!(job.completed_time, "");
    assert_eq!(job.creation_time, "1700000000000");
    assert_eq!(job.processing_time, "15");
}

#[test]
fn sequence_of_records_is_one_job_each() {
    let jobs = get_jobs(TWO);
    assert_eq!(jobs.len(), 2);
    assert_eq!(jobs[0].title, "a.pdf");
    assert_eq!(jobs[0].state, JobState::COMPLETED);
    assert_eq!(jobs[0].creation_time, "1700000000000");
    assert_eq!(jobs[0].processing_time, "0");
    assert_eq!(jobs[1].title, "b ü.pdf");
    assert_eq!(jobs[1].size, "18446744073709551615");
    assert_eq!(jobs[1].format, "NT EMF 1.008");
    assert_eq!(jobs[1].state, JobState::UNKNOWN);
    assert_eq!(jobs[1].creation_time, "");
    assert_eq!(jobs[1].processing_time, "");
    assert_eq!(jobs[1].priority, "99");
}

#[test]
fn empty_sequence_is_no_job() {
    assert!(get_jobs("[]").is_empty());
    assert!(get_jobs(" [ ] \n").is_empty());
}

#[test]
fn blank_or_broken_output_is_no_job() {
    for text in [
        "",
        "   \r\n",
        "Get-PrintJob : The specified printer was not found.",
        "{",
        "[{}",
        "null",
        "27",
        "\"text\"",
        "true",
    ] {
        assert!(get_jobs(text).is_empty());
    }
}

#[test]
fn record_with_a_missing_field_is_no_job() {
    for field in [
        "DocumentName",
        "Id",
        "Size",
        "UserName",
        "JobTime",
        "Datatype",
        "PrinterName",
        "Priority",
        "JobStatus",
    ] {
        let renamed = ONE.replace(&format!("\"{}\":", field), "\"Other\":");
        assert!(get_jobs(&renamed).is_empty());
    }
}

#[test]
fn record_without_submission_time_is_a_job() {
    let renamed = ONE.replace("\"SubmittedTime\":", "\"Other\":");
    let jobs = get_jobs(&renamed);
    assert_eq!(jobs.len(), 1);
    assert_eq!(jobs[0].creation_time, "");
}

#[test]
fn record_with_a_field_of_the_wrong_kind_is_no_job() {
    for (from, to) in [
        ("\"Id\":27", "\"Id\":\"27\""),
        ("\"Id\":27", "\"Id\":-27"),
        ("\"Id\":27", "\"Id\":27.5"),
        ("\"Id\":27", "\"Id\":4294967296"),
        ("\"Id\":27", "\"Id\":null"),
        ("\"Size\":204800", "\"Size\":18446744073709551616"),
        ("\"Size\":204800", "\"Size\":-1"),
        ("\"UserName\":\"Kaos\"", "\"UserName\":null"),
        ("\"UserName\":\"Kaos\"", "\"UserName\":7"),
        ("\"Priority\":1", "\"Priority\":[1]"),
        ("\"JobStatus\":8", "\"JobStatus\":1e2"),
        ("\"SubmittedTime\":\"\\/Date(1700000000000)\\/\"", "\"SubmittedTime\":1700000000000"),
    ] {
        let changed = ONE.replace(from, to);
        assert_ne!(changed, ONE);
        assert!(get_jobs(&changed).is_empty());
    }
}

#[test]
fn largest_values_of_the_number_fields() {
    let changed = ONE.replace("\"Id\":27", "\"Id\":4294967295");
    assert_eq!(get_jobs(&changed)[0].id, "4294967295");
}

#[test]
fn job_time_may_be_any_value() {
    for (value, text) in [
        ("15", "15"),
        ("-3", "-3"),
        ("1.5", "1.5"),
        ("null", ""),
        ("\"15\"", ""),
        ("{\"Ticks\":5}", ""),
        ("[1]", ""),
    ] {
        let changed = ONE.replace("\"JobTime\":15", &format!("\"JobTime\":{}", value));
        let jobs = get_jobs(&changed);
        assert_eq!(jobs.len(), 1);
        assert_eq!(jobs[0].processing_time, text);
    }
}

#[test]
fn sequence_with_one_broken_record_is_no_job() {
    let broken = TWO.replace("\"Id\":2", "\"Id\":\"2\"");
    assert!(get_jobs(&broken).is_empty());
    assert!(get_jobs("[1]").is_empty());
    assert!(get_jobs(&format!("[{},[]]", ONE)).is_empty());
}

#[test]
fn document_that_is_given_is_read_without_parsing() {
    let members = vec![
        ("DocumentName".to_string(), Json::Text("d".to_string())),
        ("Id".to_string(), Json::Number(Some(1), "1".to_string())),
        ("Size".to_string(), Json::Number(Some(2), "2".to_string())),
        ("UserName".to_string(), Json::Text("u".to_string())),
        ("JobTime".to_string(), Json::Number(None, "-7".to_string())),
        ("Datatype".to_string(), Json::Text("RAW".to_string())),
        ("PrinterName".to_string(), Json::Text("p".to_string())),
        ("Priority".to_string(), Json::Number(Some(3), "3".to_string())),
        ("JobStatus".to_string(), Json::Number(Some(6), "6".to_string())),
    ];
    let jobs = jobs_from_document(&Some(Json::Object(members)));
    assert_eq!(jobs.len(), 1);
    assert_eq!(jobs[0].state, JobState::STOPPED);
    assert_eq!(jobs[0].processing_time, "-7");
    assert!(jobs_from_document(&None).is_empty());
    assert!(jobs_from_document(&Some(Json::Null)).is_empty());
    assert!(jobs_from_document(&Some(Json::Bool(true))).is_empty());
    assert!(jobs_from_document(&Some(Json::Array(vec![Json::Null]))).is_empty());
    assert!(jobs_from_document(&Some(Json::Array(vec![]))).is_empty());
    assert!(record_from_json(&Json::Text("x".to_string())).is_none());
}

#[test]
fn members_are_found_by_name() {
    let members = vec![
        ("a".to_string(), Json::Text("first".to_string())),
        ("b".to_string(), Json::Number(Some(7), "7".to_string())),
        ("a".to_string(), Json::Text("second".to_string())),
        ("c".to_string(), Json::Null),
        ("d".to_string(), Json::Number(Some(4294967296), "4294967296".to_string())),
    ];
    assert!(matches!(find_member(&members, "a"), Some(Json::Text(t)) if t == "first"));
    assert!(find_member(&members, "z").is_none());
    assert_eq!(get_text(&members, "a"), Some("first".to_string()));
    assert_eq!(get_text(&members, "b"), None);
    assert_eq!(get_u64(&members, "b"), Some(7));
    assert_eq!(get_u32(&members, "b"), Some(7));
    assert_eq!(get_u32(&members, "d"), None);
    assert_eq!(get_u64(&members, "d"), Some(4294967296));
    assert_eq!(get_optional_text(&members, "c"), Some(None));
    assert_eq!(get_optional_text(&members, "z"), Some(None));
    assert_eq!(get_optional_text(&members, "a"), Some(Some("first".to_string())));
    assert_eq!(get_optional_text(&members, "b"), None);
}

#[test]
fn helper_output_is_read_when_the_helper_succeeded() {
    let output = HelperOutput { launched: true, succeeded: true, stdout: ONE.as_bytes().to_vec() };
    assert_eq!(windows::print_queue(&output).len(), 1);
}

#[test]
fn helper_failures_give_no_job() {
    let output = |launched: bool, succeeded: bool, stdout: Vec<u8>| HelperOutput {
        launched,
        succeeded,
        stdout,
    };
    let stdout = ONE.as_bytes().to_vec();
    assert!(windows::print_queue(&output(false, false, vec![])).is_empty());
    assert!(windows::print_queue(&output(false, true, stdout.clone())).is_empty());
    assert!(windows::print_queue(&output(true, false, stdout.clone())).is_empty());
    assert!(windows::print_queue(&output(true, true, vec![])).is_empty());
    let mut broken = stdout;
    broken.push(0xFF);
    assert!(windows::print_queue(&output(true, true, broken)).is_empty());
}

#[test]
fn helper_command_names_the_printer() {
    let command = get_jobs_command("NPI858230");
    assert!(command
        .starts_with("Get-PrintJob -PrinterName \"NPI858230\"  | Select-Object DocumentName,Id,"));
    assert!(command.ends_with(",SubmittedTime,JobStatus | ConvertTo-Json"));
    let arguments = get_jobs_arguments("NPI858230");
    assert_eq!(arguments.len(), 5);
    assert_eq!(arguments[..4].join(" "), "-NoProfile -WindowStyle Hidden -Command");
    assert_eq!(arguments[4], command);
}
