use rtt_analyzer::drain::{classify, contains, is_benign, DrainRecord, OutputEvent};

#[test]
fn benign_banner_on_stderr_is_informational() {
    let (rec, more) = classify(OutputEvent::StderrLine(
        "INFO:     Uvicorn running on http://127.0.0.1:8000 (Press CTRL+C to quit)".to_string(),
    ));
    assert!(matches!(rec, DrainRecord::Info(ref s) if s.starts_with("INFO:     Uvicorn")));
    assert!(more);
    let (rec, _) = classify(OutputEvent::StderrLine(
        "INFO:     Application startup complete.".to_string(),
    ));
    assert!(matches!(rec, DrainRecord::Info(_)));
    let (rec, _) = classify(OutputEvent::StderrLine(
        "INFO:     Started server process [1234]".to_string(),
    ));
    assert!(matches!(rec, DrainRecord::Info(_)));
}

#[test]
fn other_stderr_lines_are_errors() {
    let (rec, more) = classify(OutputEvent::StderrLine(
        "ERROR:    [Errno 98] Address already in use".to_string(),
    ));
    assert!(matches!(rec, DrainRecord::Error(ref s) if s == "ERROR:    [Errno 98] Address already in use"));
    assert!(more);
    let (rec, _) = classify(OutputEvent::StderrLine(String::new()));
    assert!(matches!(rec, DrainRecord::Error(ref s) if s.is_empty()));
    let (rec, _) = classify(OutputEvent::StderrLine("Uvicorn running".to_string()));
    assert!(matches!(rec, DrainRecord::Error(_)));
}

#[test]
fn stdout_lines_are_informational() {
    let (rec, more) = classify(OutputEvent::StdoutLine("listening".to_string()));
    assert!(matches!(rec, DrainRecord::Info(ref s) if s == "listening"));
    assert!(more);
}

#[test]
fn termination_stops_the_drain() {
    let (rec, more) = classify(OutputEvent::Terminated(Some(3)));
    assert!(matches!(rec, DrainRecord::Exited(Some(3))));
    assert!(!more);
    let (rec, more) = classify(OutputEvent::Terminated(None));
    assert!(matches!(rec, DrainRecord::Exited(None)));
    assert!(!more);
}

#[test]
fn substring_search_edges() {
    assert!(contains("abc", ""));
    assert!(contains("", ""));
    assert!(!contains("", "a"));
    assert!(contains("abc", "abc"));
    assert!(contains("abc", "bc"));
    assert!(!contains("abc", "cb"));
    assert!(!contains("ab", "abc"));
    assert!(contains("zürich → bern", "→ b"));
    assert!(is_benign("xx Started server process yy"));
    assert!(!is_benign("started server process"));
}
