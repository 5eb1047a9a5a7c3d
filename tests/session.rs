use code_transer::codec::Encoding;
use code_transer::i18n::Language;
use code_transer::session::{file_status, CodeTranserApp, TransMode};

#[test]
fn default_session() {
    let app = CodeTranserApp::default();
    assert_eq!(app.lang, Language::Zh);
    assert_eq!(app.mode, TransMode::Text);
    assert_eq!(app.from, Encoding::Utf8);
    assert_eq!(app.to, Encoding::Gbk);
    assert_eq!(app.status, "暂无状态");
    assert!(app.input_file.is_none() && app.output_file.is_none());
    assert_eq!(app.pending, None);
}

#[test]
fn text_outcome_is_shown() {
    let mut app = CodeTranserApp::default();
    app.input_text = "abc".to_string();
    let job = app.start_text();
    assert_eq!(job.input, "abc");
    assert_eq!(job.from, Encoding::Utf8);
    assert_eq!(job.to, Encoding::Gbk);
    app.deliver(job.ticket, "converted".to_string());
    assert_eq!(app.output_text, "converted");
    assert_eq!(app.pending, None);
}

#[test]
fn only_second_outcome_is_shown() {
    let mut app = CodeTranserApp::default();
    let first = app.start_text();
    let second = app.start_text();
    assert_ne!(first.ticket, second.ticket);
    app.deliver(first.ticket, "first".to_string());
    assert_eq!(app.output_text, "");
    app.deliver(second.ticket, "second".to_string());
    assert_eq!(app.output_text, "second");
    app.deliver(first.ticket, "first".to_string());
    assert_eq!(app.output_text, "second");
}

#[test]
fn ticket_wraps_around() {
    let mut app = CodeTranserApp::default();
    app.next_ticket = u64::MAX;
    let job = app.start_text();
    assert_eq!(job.ticket, u64::MAX);
    assert_eq!(app.next_ticket, 0);
}

#[test]
fn file_start_needs_both_paths() {
    let mut app = CodeTranserApp::default();
    app.mode = TransMode::File;
    app.input_file = Some("in.txt".to_string());
    assert!(app.start_file().is_none());
    assert_eq!(app.status, "Please select input and output files");
    assert_eq!(app.pending, None);
}

#[test]
fn file_outcome_lands_in_status() {
    let mut app = CodeTranserApp::default();
    app.mode = TransMode::File;
    app.lang = Language::En;
    app.input_file = Some("in.txt".to_string());
    app.output_file = Some("out.txt".to_string());
    let job = app.start_file().unwrap();
    assert_eq!(job.input, "in.txt");
    assert_eq!(job.output, "out.txt");
    assert_eq!(app.status, "Transcoding...");
    app.deliver(job.ticket, file_status(&Ok(()), &job.output));
    assert_eq!(app.status, "Transcode finished: out.txt");
}

#[test]
fn file_status_messages() {
    assert_eq!(file_status(&Ok(()), "a/b.txt"), "Transcode finished: a/b.txt");
    assert_eq!(
        file_status(&Err("No such file or directory".to_string()), "b.txt"),
        "Error: No such file or directory"
    );
}
