use intuitive_editor::editor::TemplateApp;
use intuitive_editor::events::{Action, DialogResponse, Event, Phase, WorkflowError};
use intuitive_editor::streams::Stream;

fn finished(stdout: &[u8], stderr: &[u8], status: Option<i32>) -> Event {
    Event::CompilerFinished {
        stdout: stdout.to_vec(),
        stderr: stderr.to_vec(),
        status,
    }
}

fn chosen(dir: &str, name: &str) -> Event {
    Event::PathChosen {
        dir: Some(dir.to_string()),
        name: Some(name.to_string()),
    }
}

fn invoking(path: &str, text: &str) -> TemplateApp {
    let mut app = TemplateApp::restore(text.to_string(), Some(path.to_string()), String::new());
    app.step(Event::Compile);
    app.step(Event::SourceWritten(true));
    assert_eq!(app.phase(), &Phase::Invoking);
    app
}

#[test]
fn starts_empty() {
    let app = TemplateApp::default();
    assert_eq!(app.source_text(), "");
    assert_eq!(app.save_path(), None);
    assert_eq!(app.output(), "");
    assert_eq!(app.phase(), &Phase::Idle);
    assert_eq!(app.name(), "Intuitive GUI");
}

#[test]
fn source_text_round_trips() {
    let mut app = TemplateApp::default();
    for s in ["", "fn main() {}\n", "  tabs\tand\r\nnewlines ", "héllo ✓"] {
        app.set_source_text(s.to_string());
        assert_eq!(app.source_text(), s);
    }
    assert_eq!(app.save_path(), None);
    assert_eq!(app.output(), "");
}

#[test]
fn restore_keeps_fields() {
    let app = TemplateApp::restore("a".to_string(), Some("b".to_string()), "c".to_string());
    assert_eq!(app.source_text(), "a");
    assert_eq!(app.save_path(), Some("b"));
    assert_eq!(app.output(), "c");
    assert_eq!(app.phase(), &Phase::Idle);
}

#[test]
fn select_output_sets_path_after_entering() {
    let mut app = TemplateApp::default();
    assert_eq!(
        app.step(Event::SelectOutput),
        Action::AskPath { default_path: None }
    );
    assert_eq!(app.phase(), &Phase::Choosing);
    assert_eq!(
        app.step(chosen("/tmp/out", "foo.iv")),
        Action::EnterDirectory { dir: "/tmp/out".to_string() }
    );
    assert_eq!(app.save_path(), None);
    assert_eq!(app.step(Event::DirectoryEntered(true)), Action::Nothing);
    assert_eq!(app.save_path(), Some("foo.iv"));
    assert_eq!(app.phase(), &Phase::Idle);
}

#[test]
fn select_output_offers_current_path() {
    let mut app = TemplateApp::restore(String::new(), Some("old".to_string()), String::new());
    assert_eq!(
        app.step(Event::SelectOutput),
        Action::AskPath { default_path: Some("old".to_string()) }
    );
}

#[test]
fn cancelled_selection_keeps_path() {
    let mut app = TemplateApp::restore(String::new(), Some("old".to_string()), String::new());
    app.step(Event::SelectOutput);
    assert_eq!(
        app.step(Event::from_dialog(DialogResponse::Cancel)),
        Action::Nothing
    );
    assert_eq!(app.save_path(), Some("old"));
    assert_eq!(app.phase(), &Phase::Idle);
}

#[test]
fn several_chosen_paths_count_as_none() {
    let response = DialogResponse::OkayMultiple(vec!["a".to_string(), "b".to_string()]);
    assert_eq!(Event::from_dialog(response), Event::DialogDismissed);
    assert_eq!(Event::from_dialog(DialogResponse::Cancel), Event::DialogDismissed);
}

#[test]
fn chosen_path_is_split() {
    let event = Event::from_dialog(DialogResponse::Okay("out/foo.iv".to_string()));
    assert_eq!(event, chosen("out", "foo.iv"));
    let event = Event::from_dialog(DialogResponse::Okay(String::new()));
    assert_eq!(event, Event::PathChosen { dir: None, name: None });
    let event = Event::from_dialog(DialogResponse::Okay("out/..".to_string()));
    assert_eq!(
        event,
        Event::PathChosen { dir: Some("out".to_string()), name: None }
    );
}

#[test]
fn path_without_parts_is_reported() {
    let mut app = TemplateApp::default();
    app.step(Event::SelectOutput);
    assert_eq!(
        app.step(Event::PathChosen { dir: None, name: Some("x".to_string()) }),
        Action::Report(WorkflowError::NoParentDirectory)
    );
    assert_eq!(app.phase(), &Phase::Idle);
    app.step(Event::SelectOutput);
    assert_eq!(
        app.step(Event::PathChosen { dir: Some("d".to_string()), name: None }),
        Action::Report(WorkflowError::NoFileName)
    );
    assert_eq!(app.save_path(), None);
}

#[test]
fn directory_not_entered_is_reported() {
    let mut app = TemplateApp::default();
    app.step(Event::Compile);
    app.step(chosen("/nowhere", "foo"));
    assert_eq!(
        app.step(Event::DirectoryEntered(false)),
        Action::Report(WorkflowError::DirectoryNotEntered)
    );
    assert_eq!(app.save_path(), None);
    assert_eq!(app.phase(), &Phase::Idle);
}

#[test]
fn cancel_during_compile_asks_again() {
    let mut app = TemplateApp::default();
    app.set_source_text("src".to_string());
    assert_eq!(app.step(Event::Compile), Action::AskPath { default_path: None });
    for _ in 0..100 {
        let action = app.step(Event::from_dialog(DialogResponse::Cancel));
        assert_eq!(action, Action::AskPath { default_path: None });
        assert_eq!(app.phase(), &Phase::Resolving);
        assert_eq!(app.save_path(), None);
        assert_eq!(app.output(), "");
    }
    assert_eq!(
        app.step(chosen("/tmp", "foo")),
        Action::EnterDirectory { dir: "/tmp".to_string() }
    );
    assert_eq!(
        app.step(Event::DirectoryEntered(true)),
        Action::WriteSource { path: "foo.iv".to_string(), text: "src".to_string() }
    );
    assert_eq!(app.save_path(), Some("foo"));
}

#[test]
fn compile_with_suffixed_path() {
    let mut app =
        TemplateApp::restore("text".to_string(), Some("foo.iv".to_string()), String::new());
    assert_eq!(
        app.step(Event::Compile),
        Action::WriteSource { path: "foo.iv".to_string(), text: "text".to_string() }
    );
    assert_eq!(app.phase(), &Phase::Persisting);
    assert_eq!(
        app.step(Event::SourceWritten(true)),
        Action::Invoke { input: "foo.iv".to_string(), target: "foo".to_string() }
    );
    assert_eq!(app.phase(), &Phase::Invoking);
}

#[test]
fn compile_with_bare_path() {
    let mut app = TemplateApp::restore("text".to_string(), Some("foo".to_string()), String::new());
    assert_eq!(
        app.step(Event::Compile),
        Action::WriteSource { path: "foo.iv".to_string(), text: "text".to_string() }
    );
    assert_eq!(
        app.step(Event::SourceWritten(true)),
        Action::Invoke { input: "foo.iv".to_string(), target: "foo".to_string() }
    );
}

#[test]
fn stdout_is_shown_and_mirrored() {
    let mut app = invoking("foo", "text");
    assert_eq!(
        app.step(finished(b"OK", b"warn", Some(0))),
        Action::Mirror { stream: Stream::Stdout, text: "OK".to_string() }
    );
    assert_eq!(app.output(), "OK");
    assert_eq!(app.phase(), &Phase::Idle);
}

#[test]
fn stderr_is_shown_when_stdout_is_empty() {
    let mut app = invoking("foo", "text");
    assert_eq!(
        app.step(finished(b"", b"error: bad token", Some(1))),
        Action::Mirror { stream: Stream::Stderr, text: "error: bad token".to_string() }
    );
    assert_eq!(app.output(), "error: bad token");
}

#[test]
fn empty_streams_show_nothing_whatever_the_status() {
    for status in [Some(0), Some(1), Some(-7), None] {
        let mut app = invoking("foo", "text");
        assert_eq!(
            app.step(finished(b"", b"", status)),
            Action::Mirror { stream: Stream::Stderr, text: String::new() }
        );
        assert_eq!(app.output(), "");
    }
}

#[test]
fn output_is_replaced_not_appended() {
    let mut app = invoking("foo", "text");
    app.step(finished(b"first", b"", Some(0)));
    app.step(Event::Compile);
    app.step(Event::SourceWritten(true));
    app.step(finished(b"", b"second", Some(0)));
    assert_eq!(app.output(), "second");
}

#[test]
fn failed_write_keeps_output_and_does_not_invoke() {
    let mut app =
        TemplateApp::restore("text".to_string(), Some("foo".to_string()), "before".to_string());
    app.step(Event::Compile);
    assert_eq!(
        app.step(Event::SourceWritten(false)),
        Action::Report(WorkflowError::WriteFailed)
    );
    assert_eq!(app.output(), "before");
    assert_eq!(app.phase(), &Phase::Idle);
    assert_eq!(app.step(finished(b"OK", b"", Some(0))), Action::Nothing);
    assert_eq!(app.output(), "before");
}

#[test]
fn spawn_failure_is_reported() {
    let mut app = invoking("foo", "text");
    assert_eq!(
        app.step(Event::CompilerNotStarted),
        Action::Report(WorkflowError::SpawnFailed)
    );
    assert_eq!(app.output(), "");
    assert_eq!(app.phase(), &Phase::Idle);
}

#[test]
fn undecodable_output_is_reported() {
    let mut app = invoking("foo", "text");
    assert_eq!(
        app.step(finished(b"OK", &[0xff], Some(0))),
        Action::Report(WorkflowError::DecodeFailed)
    );
    assert_eq!(app.output(), "");
    assert_eq!(app.phase(), &Phase::Idle);
}

#[test]
fn unexpected_events_change_nothing() {
    let mut app = TemplateApp::restore("t".to_string(), Some("p".to_string()), "o".to_string());
    assert_eq!(app.step(Event::SourceWritten(true)), Action::Nothing);
    assert_eq!(app.step(Event::DialogDismissed), Action::Nothing);
    assert_eq!(app.step(Event::DirectoryEntered(true)), Action::Nothing);
    assert_eq!(app.step(chosen("d", "n")), Action::Nothing);
    assert_eq!(app.step(Event::CompilerNotStarted), Action::Nothing);
    assert_eq!(app.phase(), &Phase::Idle);
    assert_eq!(app.save_path(), Some("p"));
    app.step(Event::Compile);
    assert_eq!(app.step(Event::Compile), Action::Nothing);
    assert_eq!(app.step(Event::SelectOutput), Action::Nothing);
    assert_eq!(app.phase(), &Phase::Persisting);
}

#[test]
fn each_error_has_its_message() {
    assert_eq!(
        WorkflowError::NoParentDirectory.message(),
        "the chosen path has no parent directory"
    );
    assert_eq!(WorkflowError::NoFileName.message(), "the chosen path has no file name");
    assert_eq!(
        WorkflowError::DirectoryNotEntered.message(),
        "the chosen directory could not be entered"
    );
    assert_eq!(WorkflowError::WriteFailed.message(), "the source file could not be written");
    assert_eq!(WorkflowError::SpawnFailed.message(), "the compiler could not be started");
    assert_eq!(
        WorkflowError::DecodeFailed.message(),
        "the compiler's output is not valid UTF-8"
    );
}

#[test]
fn dialog_path_is_entered_and_its_name_kept() {
    let mut app = TemplateApp::default();
    app.step(Event::SelectOutput);
    let event = Event::from_dialog(DialogResponse::Okay("/tmp/out/foo.iv".to_string()));
    assert_eq!(
        app.step(event),
        Action::EnterDirectory { dir: "/tmp/out".to_string() }
    );
    assert_eq!(app.step(Event::DirectoryEntered(true)), Action::Nothing);
    assert_eq!(app.save_path(), Some("foo.iv"));
}

#[test]
fn dialog_path_without_name_is_reported() {
    let mut app = TemplateApp::default();
    app.step(Event::Compile);
    let event = Event::from_dialog(DialogResponse::Okay("/".to_string()));
    assert_eq!(
        app.step(event),
        Action::Report(WorkflowError::NoParentDirectory)
    );
    app.step(Event::Compile);
    let event = Event::from_dialog(DialogResponse::Okay("/tmp/..".to_string()));
    assert_eq!(app.step(event), Action::Report(WorkflowError::NoFileName));
    assert_eq!(app.save_path(), None);
}

#[test]
fn equal_paths_split_alike() {
    for p in ["a/b", "/x/y/z.iv", "plain", "", "dir/"] {
        let first = Event::from_dialog(DialogResponse::Okay(p.to_string()));
        let second = Event::from_dialog(DialogResponse::Okay(p.to_string()));
        assert_eq!(first, second);
    }
}
