use lvm_sys2::capture::{completion_marker, LogCapture, LogLevel, NO_OUTPUT_DOCUMENT};
use lvm_sys2::document::{decode_output, outcome_of_parse, Document};
use lvm_sys2::gateway::{compose_command, engine_outcome, find_null, next_step, Step};
use lvm_sys2::retcode::CommandRetCode;
use lvm_sys2::session::{Admission, Phase, Session};

const PRINT: i32 = 4;
const DEBUG: i32 = 7;

fn finish_command(capture: &mut LogCapture) -> String {
    assert!(capture.on_log(DEBUG, "lvmcmdline.c", "Completed: pvs --reportformat json"));
    capture.take_output().expect("a finished output")
}

#[test]
fn return_code_table() {
    assert!(matches!(CommandRetCode::from_code(1), CommandRetCode::CommandSucceeded));
    assert!(matches!(CommandRetCode::from_code(2), CommandRetCode::NoSuchCommand));
    assert!(matches!(CommandRetCode::from_code(3), CommandRetCode::InvalidParameters));
    assert!(matches!(CommandRetCode::from_code(4), CommandRetCode::InitFailed));
    assert!(matches!(CommandRetCode::from_code(5), CommandRetCode::ProcessingFailed));
    assert!(matches!(CommandRetCode::from_code(0), CommandRetCode::Unknown(0)));
    assert!(matches!(CommandRetCode::from_code(-7), CommandRetCode::Unknown(-7)));
    assert!(matches!(CommandRetCode::from(42), CommandRetCode::Unknown(42)));
    assert!(matches!(CommandRetCode::from(5), CommandRetCode::ProcessingFailed));
}

#[test]
fn log_level_table() {
    assert_eq!(LogLevel::from_code(2), LogLevel::Fatal);
    assert_eq!(LogLevel::from_code(3), LogLevel::Error);
    assert_eq!(LogLevel::from_code(4), LogLevel::Print);
    assert_eq!(LogLevel::from_code(5), LogLevel::Verbose);
    assert_eq!(LogLevel::from_code(6), LogLevel::VeryVerbose);
    assert_eq!(LogLevel::from_code(7), LogLevel::Debug);
    assert_eq!(LogLevel::from_code(1), LogLevel::Unknown);
    assert_eq!(LogLevel::from_code(8), LogLevel::Unknown);
}

#[test]
fn completion_marker_needs_level_source_and_prefix() {
    assert!(completion_marker(LogLevel::Debug, "lvmcmdline.c", "Completed: lvs"));
    assert!(completion_marker(LogLevel::Debug, "lvmcmdline.c", "Completed:"));
    assert!(!completion_marker(LogLevel::Print, "lvmcmdline.c", "Completed: lvs"));
    assert!(!completion_marker(LogLevel::Debug, "toollib.c", "Completed: lvs"));
    assert!(!completion_marker(LogLevel::Debug, "lvmcmdline.cc", "Completed: lvs"));
    assert!(!completion_marker(LogLevel::Debug, "lvmcmdline.c", "Complete"));
    assert!(!completion_marker(LogLevel::Debug, "lvmcmdline.c", " Completed: lvs"));
}

#[test]
fn no_print_lines_give_placeholder() {
    let mut capture = LogCapture::new();
    assert!(capture.take_output().is_none());
    let text = finish_command(&mut capture);
    assert_eq!(text, "{\"rust_logger\": \"no messages from command\"}");
    assert_eq!(text, NO_OUTPUT_DOCUMENT);
    let doc = decode_output(text).expect("the placeholder is a document");
    assert_eq!(doc.len(), 1);
    assert_eq!(
        doc.get("rust_logger"),
        Some(&serde_json::Value::from("no messages from command"))
    );
}

#[test]
fn split_print_lines_concatenate_exactly() {
    let mut capture = LogCapture::new();
    assert!(!capture.on_log(PRINT, "report.c", "{\"a\""));
    assert!(!capture.on_log(PRINT, "report.c", ":1}"));
    let text = finish_command(&mut capture);
    assert_eq!(text, "{\"a\":1}");
    let doc = decode_output(text).expect("a document");
    assert_eq!(doc.len(), 1);
    assert_eq!(doc.get("a"), Some(&serde_json::Value::from(1)));
}

#[test]
fn malformed_output_keeps_raw_text() {
    let mut capture = LogCapture::new();
    assert!(!capture.on_log(PRINT, "report.c", "not json"));
    let text = finish_command(&mut capture);
    match decode_output(text) {
        Err(CommandRetCode::JsonDeserializationFailed((_, raw))) => assert_eq!(raw, "not json"),
        other => panic!("unexpected outcome: {:?}", other),
    }
}

#[test]
fn other_lines_are_ignored() {
    let mut capture = LogCapture::new();
    assert!(!capture.on_log(DEBUG, "lvmcmdline.c", "Parsing: pvs"));
    assert!(!capture.on_log(3, "report.c", "an error"));
    assert!(!capture.on_log(5, "report.c", "verbose"));
    assert!(!capture.on_log(99, "report.c", "odd"));
    assert!(!capture.on_log(PRINT, "report.c", "{}"));
    assert!(capture.take_output().is_none());
    assert_eq!(finish_command(&mut capture), "{}");
}

#[test]
fn finished_outputs_leave_in_order() {
    let mut capture = LogCapture::new();
    capture.on_log(PRINT, "report.c", "first");
    capture.on_log(DEBUG, "lvmcmdline.c", "Completed: one");
    capture.on_log(PRINT, "report.c", "second");
    capture.on_log(DEBUG, "lvmcmdline.c", "Completed: two");
    capture.on_log(DEBUG, "lvmcmdline.c", "Completed: three");
    assert_eq!(capture.take_output().as_deref(), Some("first"));
    assert_eq!(capture.take_output().as_deref(), Some("second"));
    assert_eq!(capture.take_output().as_deref(), Some(NO_OUTPUT_DOCUMENT));
    assert!(capture.take_output().is_none());
}

#[test]
fn command_line_gets_flags() {
    assert_eq!(compose_command("pvs").unwrap(), "pvs --reportformat json");
    assert_eq!(compose_command("").unwrap(), " --reportformat json");
    assert_eq!(compose_command("lvs -a").unwrap(), "lvs -a --reportformat json");
}

#[test]
fn embedded_null_is_refused() {
    assert!(matches!(compose_command("pv\0s"), Err(CommandRetCode::InvalidCommandLine(2))));
    assert!(matches!(compose_command("\0"), Err(CommandRetCode::InvalidCommandLine(0))));
    assert_eq!(find_null("a\0b\0"), Some(1));
    assert_eq!(find_null("ab"), None);
    assert!(matches!(
        next_step(Phase::Ready, "pvs\0"),
        Step::Refuse(CommandRetCode::InvalidCommandLine(3))
    ));
    assert!(matches!(
        next_step(Phase::Uninitialized, "pvs\0"),
        Step::Refuse(CommandRetCode::InvalidCommandLine(3))
    ));
}

#[test]
fn engine_codes_decide_outcome() {
    assert!(engine_outcome(1).is_ok());
    assert!(matches!(engine_outcome(2), Err(CommandRetCode::NoSuchCommand)));
    assert!(matches!(engine_outcome(3), Err(CommandRetCode::InvalidParameters)));
    assert!(matches!(engine_outcome(4), Err(CommandRetCode::InitFailed)));
    assert!(matches!(engine_outcome(5), Err(CommandRetCode::ProcessingFailed)));
    assert!(matches!(engine_outcome(99), Err(CommandRetCode::Unknown(99))));
}

#[test]
fn steps_by_phase() {
    assert!(matches!(next_step(Phase::Uninitialized, "pvs"), Step::Initialize));
    assert!(matches!(next_step(Phase::InitFailed, "pvs"), Step::Refuse(CommandRetCode::InitFailed)));
    assert!(matches!(
        next_step(Phase::Poisoned, "pvs"),
        Step::Refuse(CommandRetCode::GlobalStatePoisoned)
    ));
    assert!(matches!(
        next_step(Phase::Poisoned, "pvs\0"),
        Step::Refuse(CommandRetCode::GlobalStatePoisoned)
    ));
    match next_step(Phase::Ready, "vgs") {
        Step::Invoke(line) => assert_eq!(line, "vgs --reportformat json"),
        other => panic!("unexpected step: {:?}", other),
    }
}

#[test]
fn initialization_happens_once() {
    let mut session = Session::new();
    assert_eq!(session.phase(), Phase::Uninitialized);
    assert!(matches!(session.admission(), Admission::Initialize));
    session.record_init(true);
    assert_eq!(session.phase(), Phase::Ready);
    for _ in 0..3 {
        assert!(matches!(session.admission(), Admission::Enter));
        session.record_init(false);
        assert_eq!(session.phase(), Phase::Ready);
    }
}

#[test]
fn failed_initialization_is_kept() {
    let mut session = Session::new();
    session.record_init(false);
    assert_eq!(session.phase(), Phase::InitFailed);
    session.record_init(true);
    assert_eq!(session.phase(), Phase::InitFailed);
    assert!(matches!(session.admission(), Admission::Refuse(CommandRetCode::InitFailed)));
}

#[test]
fn poisoning_is_permanent() {
    let mut session = Session::new();
    session.record_init(true);
    session.record_fault();
    for _ in 0..3 {
        assert!(matches!(
            session.admission(),
            Admission::Refuse(CommandRetCode::GlobalStatePoisoned)
        ));
        session.record_init(true);
        assert_eq!(session.phase(), Phase::Poisoned);
        assert!(matches!(
            next_step(session.phase(), "pvs"),
            Step::Refuse(CommandRetCode::GlobalStatePoisoned)
        ));
    }
}

#[test]
fn parse_outcome_keeps_document_or_text() {
    let mut doc = Document::new();
    doc.insert("report".to_string(), serde_json::Value::from(3));
    match outcome_of_parse(Ok(doc), "ignored".to_string()) {
        Ok(d) => assert_eq!(d.get("report"), Some(&serde_json::Value::from(3))),
        Err(e) => panic!("unexpected error: {:?}", e),
    }
    let err = serde_json::from_str::<serde_json::Value>("{").unwrap_err();
    match outcome_of_parse(Err(err), "{".to_string()) {
        Err(CommandRetCode::JsonDeserializationFailed((_, raw))) => assert_eq!(raw, "{"),
        other => panic!("unexpected outcome: {:?}", other),
    }
}

#[test]
fn non_object_documents_are_refused() {
    assert!(decode_output("{}".to_string()).unwrap().is_empty());
    assert!(matches!(
        decode_output("[1, 2]".to_string()),
        Err(CommandRetCode::JsonDeserializationFailed((_, raw))) if raw == "[1, 2]"
    ));
    assert!(matches!(
        decode_output(String::new()),
        Err(CommandRetCode::JsonDeserializationFailed((_, raw))) if raw.is_empty()
    ));
}
